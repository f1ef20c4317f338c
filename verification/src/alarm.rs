//! How the alarm service grades the risk that a casting simulation predicts.

use vstd::prelude::*;
use crate::text::str_equals;

verus! {

/// Severity of an alert, from least to most urgent.
#[derive(Debug, Clone, Copy, PartialEq, Eq, Structural)]
pub enum Severity {
    Warning,
    Danger,
    Critical,
}

impl Severity {
    /// The key under which alerts record this severity.
    pub open spec fn spec_key(self) -> Seq<char> {
        match self {
            Severity::Warning => "warning"@,
            Severity::Danger => "danger"@,
            Severity::Critical => "critical"@,
        }
    }

    /// The key under which alerts record this severity.
    pub fn key(&self) -> (key: &'static str)
        ensures
            key@ == self.spec_key(),
    {
        match self {
            Severity::Warning => "warning",
            Severity::Danger => "danger",
            Severity::Critical => "critical",
        }
    }
}

/// The severity of the defect alert raised for a predicted casting risk:
/// "critical" is critical, "high" is dangerous, "medium" a warning; any other
/// risk raises no alert.
pub open spec fn casting_risk_alert(risk: Seq<char>) -> Option<Severity> {
    if risk == "critical"@ {
        Some(Severity::Critical)
    } else if risk == "high"@ {
        Some(Severity::Danger)
    } else if risk == "medium"@ {
        Some(Severity::Warning)
    } else {
        None
    }
}

/// Different severities are recorded under different keys.
pub proof fn lemma_severity_keys_distinct(a: Severity, b: Severity)
    ensures
        a != b ==> a.spec_key() != b.spec_key(),
{
    reveal_strlit("warning");
    assert("warning"@.len() == 7);
    reveal_strlit("danger");
    assert("danger"@.len() == 6);
    reveal_strlit("critical");
    assert("critical"@.len() == 8);
    assert("danger"@ != "warning"@);
    assert("critical"@ != "warning"@);
    assert("critical"@ != "danger"@);
}

/// A critical predicted risk raises a critical alert, a high one a danger
/// alert, a medium one a warning; every other risk raises none.
pub proof fn lemma_casting_risk_grades(risk: Seq<char>)
    ensures
        casting_risk_alert("critical"@) == Some(Severity::Critical),
        casting_risk_alert("high"@) == Some(Severity::Danger),
        casting_risk_alert("medium"@) == Some(Severity::Warning),
        risk != "critical"@ && risk != "high"@ && risk != "medium"@ ==> casting_risk_alert(risk).is_none(),
{
    reveal_strlit("critical");
    assert("critical"@.len() == 8);
    reveal_strlit("high");
    assert("high"@.len() == 4);
    reveal_strlit("medium");
    assert("medium"@.len() == 6);
    assert("high"@ != "critical"@);
    assert("medium"@ != "critical"@);
    assert("medium"@ != "high"@);
}

/// The severity of the defect alert a casting simulation with the given
/// predicted risk raises, or `None` when the risk needs no alert.
pub fn casting_risk_severity(prediction_risk: &str) -> (severity: Option<Severity>)
    ensures
        severity == casting_risk_alert(prediction_risk@),
{
    if str_equals(prediction_risk, "critical") {
        Some(Severity::Critical)
    } else if str_equals(prediction_risk, "high") {
        Some(Severity::Danger)
    } else if str_equals(prediction_risk, "medium") {
        Some(Severity::Warning)
    } else {
        None
    }
}

} // verus!
