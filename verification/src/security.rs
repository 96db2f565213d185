//! The security policy rule of the audit: whether `SECURITY.md` tells
//! reporters where to go, what to send and what to expect.
use vstd::prelude::*;
use crate::audit::{
    contains_any, contains_any_spec, heading_line_count, looks_placeholder, markdown_heading_count,
    normalize, placeholder_phrases, status_from_coverage, weight_total, weighted_coverage,
    weighted_coverage_spec, AuditFinding, CheckStatus, FindingSeverity,
};
use crate::project::str_views;
use crate::readme::{
    afv, assessment_matches, audit_view, audit_views, opt_item, AssessmentView, AuditFindingView,
    RepoDocument, RuleAssessment,
};
use crate::text::{lines, lines_of, str_lowercase, trim, trim_seq, utf8_byte_len, utf8_bytes, views};

verus! {

broadcast use crate::audit::lemma_weighted_coverage_bounded;

pub open spec fn private_phrases() -> Seq<Seq<char>> {
    seq![
        "private report"@,
        "report privately"@,
        "do not report security issues in public"@,
        "do not report in public"@,
        "security@"@,
        "contact privately"@,
    ]
}

pub open spec fn reporting_phrases() -> Seq<Seq<char>> {
    seq!["vulnerability"@, "security issue"@, "report"@]
}

pub open spec fn reproduction_phrases() -> Seq<Seq<char>> {
    seq![
        "reproduction steps"@,
        "steps to reproduce"@,
        "reproduce"@,
        "description of the issue"@,
        "description of the problem"@,
    ]
}

pub open spec fn impact_phrases() -> Seq<Seq<char>> {
    seq!["impact"@, "severity"@, "affected version"@, "affected versions"@]
}

pub open spec fn response_phrases() -> Seq<Seq<char>> {
    seq![
        "acknowledge"@,
        "respond"@,
        "response"@,
        "responsible disclosure"@,
        "disclosure"@,
        "timeline"@,
    ]
}

/// The number of lines that are not blank.
pub open spec fn nonblank_line_count(ls: Seq<Seq<char>>) -> nat
    decreases ls.len(),
{
    if ls.len() == 0 {
        0
    } else {
        nonblank_line_count(ls.drop_last()) + if trim_seq(ls.last()).len() > 0 {
            1nat
        } else {
            0nat
        }
    }
}

/// What a security policy says.
#[derive(Debug, Clone, Copy)]
pub struct PolicySignals {
    pub private_channel: bool,
    pub reporting_terms: bool,
    pub reproduction: bool,
    pub impact: bool,
    pub response: bool,
    pub depth: bool,
    pub not_placeholder: bool,
}

pub open spec fn policy_signals_spec(contents: Seq<char>) -> PolicySignals {
    let n = str_lowercase(contents);
    let ls = lines_of(contents);
    PolicySignals {
        private_channel: contains_any_spec(n, private_phrases()),
        reporting_terms: contains_any_spec(n, reporting_phrases()),
        reproduction: contains_any_spec(n, reproduction_phrases()),
        impact: contains_any_spec(n, impact_phrases()),
        response: contains_any_spec(n, response_phrases()),
        depth: utf8_bytes(contents) >= 120 || heading_line_count(ls) >= 2 || nonblank_line_count(ls)
            >= 6,
        not_placeholder: !contains_any_spec(n, placeholder_phrases()),
    }
}

fn count_nonblank(contents: &str) -> (n: usize)
    ensures
        n == nonblank_line_count(lines_of(contents@)),
{
    let ls = lines(contents);
    let mut n: usize = 0;
    let mut i: usize = 0;
    while i < ls.len()
        invariant
            i <= ls.len(),
            views(ls@) == lines_of(contents@),
            n <= i,
            n == nonblank_line_count(views(ls@).take(i as int)),
        decreases ls.len() - i,
    {
        assert(views(ls@).take(i + 1).drop_last() =~= views(ls@).take(i as int));
        let t = trim(ls[i].as_str());
        if !t.as_str().is_empty() {
            n = n + 1;
        }
        i += 1;
    }
    assert(views(ls@).take(ls.len() as int) =~= views(ls@));
    n
}

fn strs(v: Vec<&str>) -> (r: Vec<&str>)
    ensures
        r@ == v@,
{
    v
}

/// What the security policy says.
pub fn policy_signals(contents: &str) -> (s: PolicySignals)
    ensures
        s == policy_signals_spec(contents@),
{
    let n = normalize(contents);
    let n = n.as_str();
    let private_v = strs(
        vec![
            "private report",
            "report privately",
            "do not report security issues in public",
            "do not report in public",
            "security@",
            "contact privately",
        ],
    );
    assert(str_views(private_v@) =~= private_phrases());
    let reporting_v = strs(vec!["vulnerability", "security issue", "report"]);
    assert(str_views(reporting_v@) =~= reporting_phrases());
    let reproduction_v = strs(
        vec![
            "reproduction steps",
            "steps to reproduce",
            "reproduce",
            "description of the issue",
            "description of the problem",
        ],
    );
    assert(str_views(reproduction_v@) =~= reproduction_phrases());
    let impact_v = strs(vec!["impact", "severity", "affected version", "affected versions"]);
    assert(str_views(impact_v@) =~= impact_phrases());
    let response_v = strs(
        vec![
            "acknowledge",
            "respond",
            "response",
            "responsible disclosure",
            "disclosure",
            "timeline",
        ],
    );
    assert(str_views(response_v@) =~= response_phrases());
    let depth = utf8_byte_len(contents) >= 120 || markdown_heading_count(contents) >= 2
        || count_nonblank(contents) >= 6;
    PolicySignals {
        private_channel: contains_any(n, &private_v),
        reporting_terms: contains_any(n, &reporting_v),
        reproduction: contains_any(n, &reproduction_v),
        impact: contains_any(n, &impact_v),
        response: contains_any(n, &response_v),
        depth,
        not_placeholder: !looks_placeholder(n),
    }
}

pub open spec fn policy_evidence(s: PolicySignals, display: Seq<char>) -> Seq<Seq<char>> {
    seq![display] + opt_item(s.private_channel, "private-reporting"@) + opt_item(
        s.reporting_terms,
        "reporting-details"@,
    ) + opt_item(s.reproduction, "reproduction"@) + opt_item(s.impact, "impact"@) + opt_item(
        s.response,
        "response"@,
    )
}

pub open spec fn policy_parts(s: PolicySignals) -> Seq<(u8, bool)> {
    seq![
        (15u8, true),
        (20u8, s.private_channel),
        (15u8, s.reporting_terms),
        (15u8, s.reproduction),
        (10u8, s.impact),
        (15u8, s.response),
        (5u8, s.depth),
        (5u8, s.not_placeholder),
    ]
}

pub open spec fn policy_findings_spec(s: PolicySignals, ev: Seq<Seq<char>>, path: Seq<char>) -> Seq<
    AuditFindingView,
> {
    opt_item(
        !s.private_channel,
        afv(
            "security_policy.private"@,
            FindingSeverity::Warning,
            "The security policy does not clearly direct reporters to a private channel."@,
            "Tell reporters to avoid public issues and provide a private reporting path such as email or a private contact flow."@,
            ev,
            Some(path),
        ),
    ) + opt_item(
        !s.reproduction,
        afv(
            "security_policy.reproduction"@,
            FindingSeverity::Info,
            "The security policy does not clearly ask for reproduction details."@,
            "Ask reporters for reproduction steps or a concrete issue description so triage is actionable."@,
            ev,
            Some(path),
        ),
    ) + opt_item(
        !s.impact,
        afv(
            "security_policy.impact"@,
            FindingSeverity::Info,
            "The security policy does not mention impact or affected versions."@,
            "Prompt for impact or affected versions so maintainers can prioritize the report."@,
            ev,
            Some(path),
        ),
    ) + opt_item(
        !s.response,
        afv(
            "security_policy.response"@,
            FindingSeverity::Info,
            "The security policy does not explain response expectations or disclosure posture."@,
            "Mention acknowledgement, response expectations, or responsible disclosure so reporters know what to expect."@,
            ev,
            Some(path),
        ),
    ) + opt_item(
        !s.depth,
        afv(
            "security_policy.depth"@,
            FindingSeverity::Info,
            "The security policy is concise but still thin on maintainer-specific detail."@,
            "Add a little more detail about scope, acknowledgement, or follow-up expectations if the project needs it."@,
            ev,
            Some(path),
        ),
    )
}

pub open spec fn policy_message(status: CheckStatus) -> Seq<char> {
    match status {
        CheckStatus::Strong => "Security policy explains private reporting, expected detail, and maintainer response posture."@,
        CheckStatus::Partial => "Security policy exists, but it still leaves a few reporting expectations implicit."@,
        CheckStatus::Missing => "Security policy exists, but it is too thin to guide a real vulnerability report yet."@,
    }
}

/// How the security policy rule scores `SECURITY.md`, and the error for a
/// repository without one.
pub open spec fn security_assessment_spec(policy: Option<RepoDocument>) -> AssessmentView {
    match policy {
        Some(d) => {
            let s = policy_signals_spec(d.contents@);
            let ev = policy_evidence(s, d.display@);
            let coverage = weighted_coverage_spec(policy_parts(s));
            AssessmentView {
                coverage,
                confidence: 900,
                message: policy_message(status_from_coverage(coverage)),
                evidence: ev,
                findings: policy_findings_spec(s, ev, d.path@),
                location: Some(d.path@),
            }
        },
        None => AssessmentView {
            coverage: 0,
            confidence: 990,
            message: "The file is missing."@,
            evidence: Seq::empty(),
            findings: seq![
                afv(
                    "security_policy.missing"@,
                    FindingSeverity::Error,
                    "The file is missing."@,
                    "Add SECURITY.md that explains how to report vulnerabilities privately and what response reporters can expect."@,
                    Seq::empty(),
                    None,
                ),
            ],
            location: None,
        },
    }
}

pub(crate) fn clone_strings(v: &Vec<String>) -> (r: Vec<String>)
    ensures
        views(r@) == views(v@),
{
    let mut r: Vec<String> = Vec::new();
    let mut i: usize = 0;
    while i < v.len()
        invariant
            i <= v.len(),
            views(r@) == views(v@).take(i as int),
        decreases v.len() - i,
    {
        let ghost before = views(r@);
        let c = v[i].clone();
        assert(c@ == v@[i as int]@);
        r.push(c);
        assert(views(r@) =~= before.push(v@[i as int]@));
        assert(views(v@).take(i + 1) =~= views(v@).take(i as int).push(v@[i as int]@));
        i += 1;
    }
    assert(views(v@).take(v.len() as int) =~= views(v@));
    r
}

pub(crate) fn push_finding_if(
    out: &mut Vec<AuditFinding>,
    c: bool,
    id: &str,
    severity: FindingSeverity,
    message: &str,
    help: &str,
    evidence: &Vec<String>,
    path: &str,
)
    ensures
        audit_views(final(out)@) == audit_views(old(out)@) + opt_item(
            c,
            afv(id@, severity, message@, help@, views(evidence@), Some(path@)),
        ),
{
    if c {
        let f = crate::audit::finding(
            id,
            severity,
            message,
            help,
            clone_strings(evidence),
            Some(path.to_owned()),
        );
        out.push(f);
    }
    assert(audit_views(out@) =~= audit_views(old(out)@) + opt_item(
        c,
        afv(id@, severity, message@, help@, views(evidence@), Some(path@)),
    ));
}

pub(crate) fn push_label(v: &mut Vec<String>, c: bool, x: &str)
    ensures
        views(final(v)@) == views(old(v)@) + opt_item(c, x@),
{
    if c {
        v.push(x.to_owned());
    }
    assert(views(v@) =~= views(old(v)@) + opt_item(c, x@));
}

fn present_policy(d: &RepoDocument) -> (r: RuleAssessment)
    ensures
        assessment_matches(r, security_assessment_spec(Some(*d))),
{
    let s = policy_signals(d.contents.as_str());
    let mut evidence: Vec<String> = Vec::new();
    evidence.push(d.display.clone());
    push_label(&mut evidence, s.private_channel, "private-reporting");
    push_label(&mut evidence, s.reporting_terms, "reporting-details");
    push_label(&mut evidence, s.reproduction, "reproduction");
    push_label(&mut evidence, s.impact, "impact");
    push_label(&mut evidence, s.response, "response");
    assert(views(evidence@) =~= policy_evidence(s, d.display@));
    let parts: Vec<(u8, bool)> = vec![
        (15, true),
        (20, s.private_channel),
        (15, s.reporting_terms),
        (15, s.reproduction),
        (10, s.impact),
        (15, s.response),
        (5, s.depth),
        (5, s.not_placeholder),
    ];
    assert(parts@ =~= policy_parts(s));
    proof {
        reveal_with_fuel(weight_total, 9);
    }
    let coverage = weighted_coverage(&parts);
    let status = CheckStatus::from_coverage(coverage);
    let p = d.path.as_str();
    let mut findings: Vec<AuditFinding> = Vec::new();
    push_finding_if(
        &mut findings,
        !s.private_channel,
        "security_policy.private",
        FindingSeverity::Warning,
        "The security policy does not clearly direct reporters to a private channel.",
        "Tell reporters to avoid public issues and provide a private reporting path such as email or a private contact flow.",
        &evidence,
        p,
    );
    push_finding_if(
        &mut findings,
        !s.reproduction,
        "security_policy.reproduction",
        FindingSeverity::Info,
        "The security policy does not clearly ask for reproduction details.",
        "Ask reporters for reproduction steps or a concrete issue description so triage is actionable.",
        &evidence,
        p,
    );
    push_finding_if(
        &mut findings,
        !s.impact,
        "security_policy.impact",
        FindingSeverity::Info,
        "The security policy does not mention impact or affected versions.",
        "Prompt for impact or affected versions so maintainers can prioritize the report.",
        &evidence,
        p,
    );
    push_finding_if(
        &mut findings,
        !s.response,
        "security_policy.response",
        FindingSeverity::Info,
        "The security policy does not explain response expectations or disclosure posture.",
        "Mention acknowledgement, response expectations, or responsible disclosure so reporters know what to expect.",
        &evidence,
        p,
    );
    push_finding_if(
        &mut findings,
        !s.depth,
        "security_policy.depth",
        FindingSeverity::Info,
        "The security policy is concise but still thin on maintainer-specific detail.",
        "Add a little more detail about scope, acknowledgement, or follow-up expectations if the project needs it.",
        &evidence,
        p,
    );
    assert(audit_views(findings@) =~= policy_findings_spec(s, views(evidence@), d.path@));
    let message = match status {
        CheckStatus::Strong => "Security policy explains private reporting, expected detail, and maintainer response posture.".to_owned(),
        CheckStatus::Partial => "Security policy exists, but it still leaves a few reporting expectations implicit.".to_owned(),
        CheckStatus::Missing => "Security policy exists, but it is too thin to guide a real vulnerability report yet.".to_owned(),
    };
    RuleAssessment {
        status,
        coverage,
        confidence_permille: 900,
        message,
        evidence,
        findings,
        location: Some(d.path.clone()),
    }
}

/// The security policy rule's verdict for `SECURITY.md`, if there is one.
pub fn assess_security_policy(policy: &Option<RepoDocument>) -> (r: RuleAssessment)
    ensures
        r.status == crate::audit::status_from_coverage(r.coverage),
        r.coverage <= 100,
        assessment_matches(r, security_assessment_spec(*policy)),
{
    match policy {
        Some(d) => present_policy(d),
        None => {
            let mut findings: Vec<AuditFinding> = Vec::new();
            let none: Vec<String> = Vec::new();
            assert(views(none@) =~= Seq::<Seq<char>>::empty());
            findings.push(
                crate::audit::finding(
                    "security_policy.missing",
                    FindingSeverity::Error,
                    "The file is missing.",
                    "Add SECURITY.md that explains how to report vulnerabilities privately and what response reporters can expect.",
                    none,
                    None,
                ),
            );
            assert(audit_views(findings@) =~= security_assessment_spec(None).findings);
            let evidence: Vec<String> = Vec::new();
            assert(views(evidence@) =~= Seq::<Seq<char>>::empty());
            RuleAssessment {
                status: CheckStatus::from_coverage(0),
                coverage: 0,
                confidence_permille: 990,
                message: "The file is missing.".to_owned(),
                evidence,
                findings,
                location: None,
            }
        },
    }
}

} // verus!
