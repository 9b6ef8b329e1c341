use risk_eval::client::{system_prompt, user_prompt};
use risk_eval::config::resolve_api_key;
use risk_eval::model::{fallback_risks, RiskItem};
use risk_eval::parse::risks_from_objects;
use risk_eval::service::risks_for_reply;

fn reply_with_content(content: &str) -> Vec<u8> {
    let quoted = serde_json::to_string(content).unwrap();
    let body = format!(
        "{{\"choices\":[{{\"message\":{{\"content\":{}}}}}]}}",
        quoted
    );
    body.into_bytes()
}

fn is_fallback(risks: &[RiskItem]) -> bool {
    risks.len() == 2
        && risks[0].severity == "High"
        && risks[0].category == "Timeline"
        && risks[0].mitigation == "Add buffer time and revalidate milestones."
        && risks[1].severity == "Medium"
        && risks[1].category == "Dependencies"
        && risks[1].mitigation == "Check for alternatives and establish SLAs."
}

#[test]
fn fallback_pair_is_fixed() {
    let risks = fallback_risks();
    assert!(is_fallback(&risks));
}

#[test]
fn prose_wrapped_array_is_parsed() {
    let content = "Sure! Here are the risks: [{\"severity\":\"High\",\"category\":\"Timeline\",\"mitigation\":\"Add buffer.\"}] Hope this helps.";
    let response = risks_for_reply(Some(reply_with_content(content)));
    assert_eq!(response.risks.len(), 1);
    assert_eq!(response.risks[0].severity, "High");
    assert_eq!(response.risks[0].category, "Timeline");
    assert_eq!(response.risks[0].mitigation, "Add buffer.");
}

#[test]
fn two_records_keep_their_order() {
    let content = "[{\"severity\":\"Low\",\"category\":\"Scope\",\"mitigation\":\"Trim.\"},{\"severity\":\"High\",\"category\":\"Budget\",\"mitigation\":\"Reserve.\"}]";
    let response = risks_for_reply(Some(reply_with_content(content)));
    assert_eq!(response.risks.len(), 2);
    assert_eq!(response.risks[0].severity, "Low");
    assert_eq!(response.risks[0].category, "Scope");
    assert_eq!(response.risks[1].severity, "High");
    assert_eq!(response.risks[1].category, "Budget");
}

#[test]
fn empty_array_yields_no_risks() {
    let response = risks_for_reply(Some(reply_with_content("Here: [] nothing.")));
    assert_eq!(response.risks.len(), 0);
}

#[test]
fn extra_string_fields_are_ignored() {
    let content = "[{\"severity\":\"Low\",\"category\":\"Scope\",\"mitigation\":\"Trim.\",\"note\":\"extra\"}]";
    let response = risks_for_reply(Some(reply_with_content(content)));
    assert_eq!(response.risks.len(), 1);
    assert_eq!(response.risks[0].severity, "Low");
}

#[test]
fn no_brackets_falls_back() {
    let response = risks_for_reply(Some(reply_with_content("no array in this answer")));
    assert!(is_fallback(&response.risks));
}

#[test]
fn invalid_json_between_brackets_falls_back() {
    let content = "[{severity: High,},]";
    let response = risks_for_reply(Some(reply_with_content(content)));
    assert!(is_fallback(&response.risks));
}

#[test]
fn missing_key_falls_back() {
    let content = "[{\"severity\":\"High\",\"category\":\"Timeline\"}]";
    let response = risks_for_reply(Some(reply_with_content(content)));
    assert!(is_fallback(&response.risks));
}

#[test]
fn network_failure_falls_back() {
    let response = risks_for_reply(None);
    assert!(is_fallback(&response.risks));
}

#[test]
fn reply_that_is_not_json_falls_back() {
    let response = risks_for_reply(Some(b"not json at all".to_vec()));
    assert!(is_fallback(&response.risks));
}

#[test]
fn reply_without_content_falls_back() {
    let response = risks_for_reply(Some(b"{\"choices\":[]}".to_vec()));
    assert!(is_fallback(&response.risks));
}

#[test]
fn identical_replies_yield_identical_risks() {
    let content = "Risks: [{\"severity\":\"High\",\"category\":\"Timeline\",\"mitigation\":\"Buffer.\"}]";
    let first = risks_for_reply(Some(reply_with_content(content)));
    let second = risks_for_reply(Some(reply_with_content(content)));
    assert_eq!(first.risks.len(), second.risks.len());
    for (a, b) in first.risks.iter().zip(second.risks.iter()) {
        assert_eq!(a.severity, b.severity);
        assert_eq!(a.category, b.category);
        assert_eq!(a.mitigation, b.mitigation);
    }
}

#[test]
fn records_need_all_three_keys() {
    let objs = vec![vec![
        ("severity".to_owned(), "High".to_owned()),
        ("category".to_owned(), "Timeline".to_owned()),
    ]];
    assert!(risks_from_objects(&objs).is_none());
}

#[test]
fn records_take_first_value_per_key() {
    let objs = vec![vec![
        ("severity".to_owned(), "High".to_owned()),
        ("severity".to_owned(), "Low".to_owned()),
        ("category".to_owned(), "Timeline".to_owned()),
        ("mitigation".to_owned(), "Buffer.".to_owned()),
    ]];
    let risks = risks_from_objects(&objs).unwrap();
    assert_eq!(risks.len(), 1);
    assert_eq!(risks[0].severity, "High");
}

#[test]
fn user_prompt_embeds_description() {
    let prompt = user_prompt("Build a bridge.");
    assert_eq!(
        prompt,
        "Analyze the following project description and return risks:\n\nBuild a bridge."
    );
}

#[test]
fn system_prompt_is_fixed() {
    assert_eq!(
        system_prompt(),
        "You are a risk evaluator assistant. Extract project risks with their severity (low, medium, high) and suggested mitigation strategies in JSON format as an array of objects with fields: severity, category, mitigation."
    );
}

#[test]
fn api_key_from_environment_is_kept() {
    let key = resolve_api_key(Some("sk-test".to_owned()), false);
    assert_eq!(key.as_deref(), Some("sk-test"));
}

#[test]
fn missing_key_in_dev_gets_placeholder() {
    let key = resolve_api_key(None, true);
    assert_eq!(key.as_deref(), Some("fake-api-key"));
}

#[test]
fn missing_key_in_production_is_fatal() {
    assert!(resolve_api_key(None, false).is_none());
}
