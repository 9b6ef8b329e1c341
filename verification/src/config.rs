//! Resolving the upstream API key at startup.

use vstd::prelude::*;

verus! {

/// Decide the API key the process runs with. `env_value` is what the
/// environment held, if anything. When it is absent, a development build
/// falls back to a fixed placeholder; a production build gets no key — the
/// process must not start.
pub fn resolve_api_key(env_value: Option<String>, dev_build: bool) -> (r: Option<String>)
    ensures
        env_value matches Some(k) ==> r == Some(k),
        env_value is None && dev_build ==> (r matches Some(v) && v@ == "fake-api-key"@),
        env_value is None && !dev_build ==> r is None,
{
    match env_value {
        Some(k) => Some(k),
        None => {
            if dev_build {
                Some("fake-api-key".to_owned())
            } else {
                None
            }
        },
    }
}

} // verus!
