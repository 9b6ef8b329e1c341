//! The route handler's decision logic: turn the outcome of the upstream call
//! into the response payload, serving the fixed fallback pair on any failure.

use vstd::prelude::*;

use crate::client::{extract_reply_content, reply_content};
use crate::extract::{extract_array_text, extracted, ExtractError};
use crate::model::{fallback_risks, fallback_view, RiskItemView, RiskResponse};
use crate::parse::{
    json_string_objects,
    parse_string_objects,
    risks_from_objects,
    risks_of_objects,
};

verus! {

/// The risks served for one upstream outcome: the records parsed out of the
/// reply's answer when every step succeeds; the fixed fallback pair when the
/// call itself failed (`None`), when the reply carries no answer text, and
/// when locating or parsing the array fails.
pub open spec fn response_risks(reply: Option<Seq<u8>>) -> Seq<RiskItemView> {
    match reply {
        None => fallback_view(),
        Some(body) => match reply_content(body) {
            None => fallback_view(),
            Some(content) => match extracted(content) {
                Err(_) => fallback_view(),
                Ok(text) => match json_string_objects(text) {
                    None => fallback_view(),
                    Some(objs) => match risks_of_objects(objs) {
                        None => fallback_view(),
                        Some(risks) => risks,
                    },
                },
            },
        },
    }
}

/// Decide the response for one upstream outcome. `reply` is the raw reply
/// body, or `None` when the upstream call itself failed. A response is
/// always produced: every failure past this point degrades to the fixed
/// fallback pair, indistinguishable from success to the caller.
pub fn risks_for_reply(reply: Option<Vec<u8>>) -> (r: RiskResponse)
    ensures
        r.risks.deep_view() == response_risks(reply.deep_view()),
{
    let body = match reply {
        Some(b) => b,
        None => {
            return RiskResponse { risks: fallback_risks() };
        },
    };
    proof {
        assert(body.deep_view() =~= body@);
    }
    let content = match extract_reply_content(&body) {
        Some(c) => c,
        None => {
            return RiskResponse { risks: fallback_risks() };
        },
    };
    let text = match extract_array_text(content.as_str()) {
        Ok(t) => t,
        Err(_) => {
            return RiskResponse { risks: fallback_risks() };
        },
    };
    let objs = match parse_string_objects(text.as_str()) {
        Some(o) => o,
        None => {
            return RiskResponse { risks: fallback_risks() };
        },
    };
    match risks_from_objects(&objs) {
        Some(risks) => RiskResponse { risks },
        None => RiskResponse { risks: fallback_risks() },
    }
}

/// Every failure is answered with the fixed fallback pair: a failed upstream
/// call, a reply without an answer text, an answer without an array, and an
/// array text that does not parse into records all yield the same response.
pub proof fn lemma_failure_serves_fallback(reply: Option<Seq<u8>>)
    requires
        match reply {
            None => true,
            Some(body) => match reply_content(body) {
                None => true,
                Some(content) => match extracted(content) {
                    Err(_) => true,
                    Ok(text) => match json_string_objects(text) {
                        None => true,
                        Some(objs) => risks_of_objects(objs) is None,
                    },
                },
            },
        },
    ensures
        response_risks(reply) == fallback_view(),
{
}

/// When every step succeeds, the response is exactly the parsed records, in
/// order — nothing is added, dropped or reordered.
pub proof fn lemma_success_serves_parsed_records(
    body: Seq<u8>,
    content: Seq<char>,
    text: Seq<char>,
    objs: Seq<Seq<(Seq<char>, Seq<char>)>>,
    risks: Seq<RiskItemView>,
)
    requires
        reply_content(body) == Some(content),
        extracted(content) == Ok::<Seq<char>, ExtractError>(text),
        json_string_objects(text) == Some(objs),
        risks_of_objects(objs) == Some(risks),
    ensures
        response_risks(Some(body)) == risks,
{
}

/// Identical upstream replies are answered with identical risk lists: the
/// response is a function of the reply alone, with no hidden per-call state.
pub proof fn lemma_response_deterministic(a: Option<Seq<u8>>, b: Option<Seq<u8>>)
    requires
        a == b,
    ensures
        response_risks(a) == response_risks(b),
{
}

} // verus!
