//! Data model: the request, response and risk-record types, and the fixed
//! fallback risk list.

use vstd::prelude::*;

verus! {

/// One identified project risk, as returned to the caller. No value set is
/// enforced on `severity`: whatever string the upstream model produced is
/// carried verbatim.
pub struct RiskItem {
    pub severity: String,
    pub category: String,
    pub mitigation: String,
}

/// The mathematical value of a `RiskItem`: its three fields as character
/// sequences.
pub struct RiskItemView {
    pub severity: Seq<char>,
    pub category: Seq<char>,
    pub mitigation: Seq<char>,
}

impl View for RiskItem {
    type V = RiskItemView;

    open spec fn view(&self) -> RiskItemView {
        RiskItemView {
            severity: self.severity@,
            category: self.category@,
            mitigation: self.mitigation@,
        }
    }
}

impl DeepView for RiskItem {
    type V = RiskItemView;

    open spec fn deep_view(&self) -> RiskItemView {
        self.view()
    }
}

/// The inbound payload: a free-text project description.
pub struct RiskRequest {
    pub description: String,
}

/// The outbound payload: the identified risks, in the order the upstream
/// model emitted them, or the fixed fallback pair.
pub struct RiskResponse {
    pub risks: Vec<RiskItem>,
}

/// Read-only per-process configuration: the upstream API key.
pub struct AppState {
    pub openai_api_key: String,
}

/// The fixed pair of risks served whenever the upstream call or the
/// extraction of its answer fails.
pub open spec fn fallback_view() -> Seq<RiskItemView> {
    seq![
        (RiskItemView {
            severity: "High"@,
            category: "Timeline"@,
            mitigation: "Add buffer time and revalidate milestones."@,
        }),
        (RiskItemView {
            severity: "Medium"@,
            category: "Dependencies"@,
            mitigation: "Check for alternatives and establish SLAs."@,
        }),
    ]
}

/// Build the fixed fallback risk list.
pub fn fallback_risks() -> (r: Vec<RiskItem>)
    ensures
        r.deep_view() == fallback_view(),
{
    let mut v: Vec<RiskItem> = Vec::new();
    v.push(RiskItem {
        severity: "High".to_owned(),
        category: "Timeline".to_owned(),
        mitigation: "Add buffer time and revalidate milestones.".to_owned(),
    });
    v.push(RiskItem {
        severity: "Medium".to_owned(),
        category: "Dependencies".to_owned(),
        mitigation: "Check for alternatives and establish SLAs.".to_owned(),
    });
    proof {
        assert(v.deep_view() =~= fallback_view());
    }
    v
}

} // verus!
