use ossify::audit::{CheckStatus, FindingSeverity};
use ossify::readme::RepoDocument;
use ossify::security::assess_security_policy;

fn policy(contents: &str) -> Option<RepoDocument> {
    Some(RepoDocument {
        path: String::from("/repo/SECURITY.md"),
        display: String::from("SECURITY.md"),
        contents: contents.to_owned(),
    })
}

#[test]
fn concise_security_policy_with_private_reporting_can_be_strong() {
    let r = assess_security_policy(&policy(
        "# Security Policy\n\nPlease do not report security issues in public issues.\n\nSend a private report with:\n\n- a description of the issue\n- reproduction steps\n- impact\n\nWe will acknowledge reports promptly and work toward a responsible disclosure.\n",
    ));
    assert_eq!(r.status, CheckStatus::Strong);
    assert!(r.findings.is_empty());
    assert_eq!(r.coverage, 100);
    assert_eq!(
        r.evidence,
        vec!["SECURITY.md", "private-reporting", "reporting-details", "reproduction", "impact", "response"]
    );
}

#[test]
fn missing_security_policy_is_an_error() {
    let r = assess_security_policy(&None);
    assert_eq!(r.coverage, 0);
    assert_eq!(r.status, CheckStatus::Missing);
    assert_eq!(r.findings.len(), 1);
    assert_eq!(r.findings[0].id, "security_policy.missing");
    assert_eq!(r.findings[0].severity, FindingSeverity::Error);
    assert_eq!(r.message, "The file is missing.");
}

#[test]
fn thin_security_policy_gets_granular_findings() {
    let r = assess_security_policy(&policy("# Security\n\nEmail us.\n"));
    let ids: Vec<&str> = r.findings.iter().map(|f| f.id.as_str()).collect();
    assert_eq!(
        ids,
        vec![
            "security_policy.private",
            "security_policy.reproduction",
            "security_policy.impact",
            "security_policy.response",
            "security_policy.depth",
        ]
    );
    // File present (15) and not starter copy (5).
    assert_eq!(r.coverage, 20);
    assert_eq!(r.status, CheckStatus::Partial);
    assert_eq!(r.findings[0].evidence, vec!["SECURITY.md"]);
}
