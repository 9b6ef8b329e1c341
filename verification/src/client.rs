//! The compute side of the upstream chat-completion client: the two message
//! texts sent with every request, and the reading of the free-text answer
//! out of the reply body. The HTTP call itself lives outside the library.

use vstd::prelude::*;
use vstd::string::StringExecFns;

verus! {

/// The fixed system instruction sent with every upstream request.
pub open spec fn system_prompt_text() -> Seq<char> {
    "You are a risk evaluator assistant. Extract project risks with their severity (low, medium, high) and suggested mitigation strategies in JSON format as an array of objects with fields: severity, category, mitigation."@
}

/// Build the system message content.
pub fn system_prompt() -> (r: String)
    ensures
        r@ == system_prompt_text(),
{
    "You are a risk evaluator assistant. Extract project risks with their severity (low, medium, high) and suggested mitigation strategies in JSON format as an array of objects with fields: severity, category, mitigation.".to_owned()
}

/// The instruction that precedes the caller's description in the user
/// message.
pub open spec fn user_prompt_prefix() -> Seq<char> {
    "Analyze the following project description and return risks:\n\n"@
}

/// Build the user message content: the fixed instruction followed by the
/// caller's description, verbatim — no escaping, no length cap.
pub fn user_prompt(description: &str) -> (r: String)
    ensures
        r@ == user_prompt_prefix() + description@,
{
    let mut s = "Analyze the following project description and return risks:\n\n".to_owned();
    s.append(description);
    s
}

/// The free-text answer carried by an upstream reply body: the string under
/// `choices[0].message.content` of the body decoded as JSON, or `None` when
/// the body is not JSON or no string stands at that path. A function of the
/// body bytes alone.
pub uninterp spec fn reply_content(body: Seq<u8>) -> Option<Seq<char>>;

/// Relies on serde_json::from_slice and serde_json::Value's `Index` and
/// `as_str`: decodes the reply body as JSON and picks the string under
/// `choices[0].message.content`; indexing a missing path yields `Null`, and
/// `as_str` then yields `None`. The outcome depends on the bytes alone.
#[verifier::external_body]
pub(crate) fn extract_reply_content(body: &Vec<u8>) -> (r: Option<String>)
    ensures
        (r is Some) <==> (reply_content(body@) is Some),
        r matches Some(s) ==> Some(s@) == reply_content(body@),
{
    let value: serde_json::Value = match serde_json::from_slice(body.as_slice()) {
        Ok(v) => v,
        Err(_) => return None,
    };
    value["choices"][0]["message"]["content"].as_str().map(|s| s.to_owned())
}

} // verus!
