//! Reading what the managed dependency engines report: cargo-deny's JSON
//! diagnostics, audit-ci's vulnerability counts and pip-audit's records,
//! turned into doctor findings.
use vstd::prelude::*;
use crate::doctor::{
    dedup_findings, dedup_findings_spec, view_of, views_of, DoctorDomain, DoctorEcosystem,
    DoctorFinding, DoctorSeverity, FindingView,
};
use crate::rust_deps::{class_code, RustAdvisoryClass};
use crate::text::{
    ascii_lowercase, concat_str, contains, decimal, decimal_string, join_seq, join_strings,
    str_contains, str_eq, to_ascii_lowercase, trim, trim_seq, views,
};

verus! {

// ---------------------------------------------------------------------------
// cargo-deny
// ---------------------------------------------------------------------------

/// Where a CVSS score falls: 9 and above critical, 7 high, 4 medium,
/// below that low.
#[derive(Debug, Clone, Copy, PartialEq, Eq, Structural)]
pub enum CvssBand {
    Critical,
    High,
    Medium,
    Low,
}

/// A CVSS score: its band and its text with one decimal.
#[derive(Debug, Clone)]
pub struct CvssScore {
    pub band: CvssBand,
    pub text: String,
}

/// The `advisory` object of a cargo-deny diagnostic.
#[derive(Debug, Clone)]
pub struct CargoDenyAdvisory {
    pub id: Option<String>,
    pub package: Option<String>,
    pub informational: Option<String>,
    pub cvss: Option<CvssScore>,
}

/// The `fields` of one cargo-deny JSON line; absent strings are empty.
#[derive(Debug, Clone)]
pub struct CargoDenyFields {
    pub level: String,
    pub severity: String,
    pub code: String,
    pub message: String,
    pub advisory: Option<CargoDenyAdvisory>,
    /// `graphs[0].Krate.version`, when present.
    pub krate_version: Option<String>,
}

pub open spec fn opt_or_empty(o: Option<String>) -> Seq<char> {
    match o {
        Some(s) => s@,
        None => Seq::empty(),
    }
}

/// The advisory class of a diagnostic, from the advisory's informational
/// kind, the diagnostic code, the CVSS score and the message's wording;
/// `None` for a diagnostic that is not about an advisory.
pub open spec fn advisory_class_spec(f: CargoDenyFields, code: Seq<char>, message: Seq<char>) -> Option<
    RustAdvisoryClass,
> {
    let info = match f.advisory {
        Some(a) => ascii_lowercase(opt_or_empty(a.informational)),
        None => Seq::empty(),
    };
    let m = ascii_lowercase(message);
    if f.advisory.is_none() && code != "unmaintained"@ && code != "yanked"@ && code != "unsound"@
        && !contains(message, "advisory"@) && !contains(message, "vulnerability"@) {
        None
    } else if info == "unmaintained"@ || code == "unmaintained"@ {
        Some(RustAdvisoryClass::Unmaintained)
    } else if info == "yanked"@ || code == "yanked"@ || contains(m, "yanked"@) {
        Some(RustAdvisoryClass::Yanked)
    } else if info == "unsound"@ || code == "unsound"@ || contains(m, "unsound"@) {
        Some(RustAdvisoryClass::Unsound)
    } else if info == "notice"@ || info == "informational"@ || code == "notice"@ || contains(
        m,
        "informational advisory"@,
    ) {
        Some(RustAdvisoryClass::Informational)
    } else if f.advisory matches Some(a) && a.cvss is Some {
        Some(
            match f.advisory->0.cvss->0.band {
                CvssBand::Critical => RustAdvisoryClass::Critical,
                CvssBand::High => RustAdvisoryClass::High,
                CvssBand::Medium => RustAdvisoryClass::Medium,
                CvssBand::Low => RustAdvisoryClass::Low,
            },
        )
    } else if contains(m, "critical"@) {
        Some(RustAdvisoryClass::Critical)
    } else if contains(m, "high severity"@) || contains(m, "high-severity"@) {
        Some(RustAdvisoryClass::High)
    } else if contains(m, "medium severity"@) || contains(m, "moderate"@) || contains(
        m,
        "medium-severity"@,
    ) {
        Some(RustAdvisoryClass::Medium)
    } else if contains(m, "low severity"@) || contains(m, "low-severity"@) {
        Some(RustAdvisoryClass::Low)
    } else {
        Some(RustAdvisoryClass::Reported)
    }
}

pub fn cargo_deny_advisory_class(fields: &CargoDenyFields, code: &str, message: &str) -> (r: Option<
    RustAdvisoryClass,
>)
    ensures
        r == advisory_class_spec(*fields, code@, message@),
{
    if fields.advisory.is_none() && !str_eq(code, "unmaintained") && !str_eq(code, "yanked")
        && !str_eq(code, "unsound") && !str_contains(message, "advisory") && !str_contains(
        message,
        "vulnerability",
    ) {
        return None;
    }
    let info = match &fields.advisory {
        Some(a) => match &a.informational {
            Some(i) => to_ascii_lowercase(i.as_str()),
            None => to_ascii_lowercase(""),
        },
        None => to_ascii_lowercase(""),
    };
    proof {
        reveal_strlit("");
        assert(ascii_lowercase(""@) =~= Seq::<char>::empty());
        assert(ascii_lowercase(Seq::<char>::empty()) =~= Seq::<char>::empty());
    }
    assert(info@ == (match fields.advisory {
        Some(a) => ascii_lowercase(opt_or_empty(a.informational)),
        None => Seq::<char>::empty(),
    }));
    let i = info.as_str();
    let lowered = to_ascii_lowercase(message);
    let m = lowered.as_str();
    if str_eq(i, "unmaintained") || str_eq(code, "unmaintained") {
        return Some(RustAdvisoryClass::Unmaintained);
    }
    if str_eq(i, "yanked") || str_eq(code, "yanked") || str_contains(m, "yanked") {
        return Some(RustAdvisoryClass::Yanked);
    }
    if str_eq(i, "unsound") || str_eq(code, "unsound") || str_contains(m, "unsound") {
        return Some(RustAdvisoryClass::Unsound);
    }
    if str_eq(i, "notice") || str_eq(i, "informational") || str_eq(code, "notice") || str_contains(
        m,
        "informational advisory",
    ) {
        return Some(RustAdvisoryClass::Informational);
    }
    match &fields.advisory {
        Some(a) => match &a.cvss {
            Some(c) => {
                return Some(
                    match c.band {
                        CvssBand::Critical => RustAdvisoryClass::Critical,
                        CvssBand::High => RustAdvisoryClass::High,
                        CvssBand::Medium => RustAdvisoryClass::Medium,
                        CvssBand::Low => RustAdvisoryClass::Low,
                    },
                );
            },
            None => {},
        },
        None => {},
    }
    if str_contains(m, "critical") {
        return Some(RustAdvisoryClass::Critical);
    }
    if str_contains(m, "high severity") || str_contains(m, "high-severity") {
        return Some(RustAdvisoryClass::High);
    }
    if str_contains(m, "medium severity") || str_contains(m, "moderate") || str_contains(
        m,
        "medium-severity",
    ) {
        return Some(RustAdvisoryClass::Medium);
    }
    if str_contains(m, "low severity") || str_contains(m, "low-severity") {
        return Some(RustAdvisoryClass::Low);
    }
    Some(RustAdvisoryClass::Reported)
}

pub open spec fn opt_item(prefix: Seq<char>, o: Option<String>) -> Seq<Seq<char>> {
    match o {
        Some(s) => seq![prefix + s@],
        None => Seq::empty(),
    }
}

/// The evidence recorded for an advisory: its class, then the advisory's
/// id, crate, informational kind and CVSS score, then the crate version.
pub open spec fn advisory_evidence_spec(f: CargoDenyFields, class: RustAdvisoryClass) -> Seq<Seq<char>> {
    seq!["advisory.class="@ + class_code(class)] + (match f.advisory {
        Some(a) => opt_item("advisory.id="@, a.id) + opt_item("crate="@, a.package) + opt_item(
            "advisory.informational="@,
            a.informational,
        ) + (match a.cvss {
            Some(c) => seq!["advisory.cvss="@ + c.text@],
            None => Seq::empty(),
        }),
        None => Seq::empty(),
    }) + opt_item("version="@, f.krate_version)
}

fn push_opt(v: &mut Vec<String>, prefix: &str, o: &Option<String>)
    ensures
        views(final(v)@) == views(old(v)@) + opt_item(prefix@, *o),
{
    match o {
        Some(s) => {
            let ghost before = views(v@);
            v.push(concat_str(prefix, s.as_str()));
            assert(views(v@) =~= before + opt_item(prefix@, *o));
        },
        None => {
            assert(views(v@) =~= views(v@) + opt_item(prefix@, *o));
        },
    }
}

pub fn cargo_deny_advisory_evidence(fields: &CargoDenyFields, class: RustAdvisoryClass) -> (r: Vec<
    String,
>)
    ensures
        views(r@) == advisory_evidence_spec(*fields, class),
{
    let mut v: Vec<String> = Vec::new();
    v.push(concat_str("advisory.class=", class.code()));
    assert(views(v@) =~= seq!["advisory.class="@ + class_code(class)]);
    let ghost first = views(v@);
    match &fields.advisory {
        Some(a) => {
            push_opt(&mut v, "advisory.id=", &a.id);
            push_opt(&mut v, "crate=", &a.package);
            push_opt(&mut v, "advisory.informational=", &a.informational);
            match &a.cvss {
                Some(c) => {
                    let ghost before = views(v@);
                    v.push(concat_str("advisory.cvss=", c.text.as_str()));
                    assert(views(v@) =~= before + seq!["advisory.cvss="@ + c.text@]);
                },
                None => {
                    assert(views(v@) =~= views(v@) + Seq::<Seq<char>>::empty());
                },
            }
        },
        None => {
            assert(views(v@) =~= first + Seq::<Seq<char>>::empty());
        },
    }
    push_opt(&mut v, "version=", &fields.krate_version);
    assert(views(v@) =~= advisory_evidence_spec(*fields, class));
    v
}

/// What one diagnostic line contributes: nothing, a finding, or a failure
/// of the whole run with its reason.
pub enum DenyLineOutcome {
    Skip,
    Emit(FindingView),
    Fail(Seq<char>),
}

pub open spec fn advisory_severity(class: RustAdvisoryClass) -> DoctorSeverity {
    match class {
        RustAdvisoryClass::Critical | RustAdvisoryClass::High | RustAdvisoryClass::Medium
        | RustAdvisoryClass::Unsound | RustAdvisoryClass::Reported => DoctorSeverity::Error,
        RustAdvisoryClass::Low | RustAdvisoryClass::Unmaintained | RustAdvisoryClass::Yanked =>
            DoctorSeverity::Warning,
        RustAdvisoryClass::Informational => DoctorSeverity::Info,
    }
}

pub open spec fn deny_view(
    severity: DoctorSeverity,
    code: Seq<char>,
    message: Seq<char>,
    manifest: Seq<char>,
    evidence: Seq<Seq<char>>,
    fix_hint: Seq<char>,
) -> FindingView {
    FindingView {
        domain: DoctorDomain::Deps,
        ecosystem: Some(DoctorEcosystem::Rust),
        severity,
        code,
        message,
        file: Some(manifest),
        help: None,
        evidence,
        fix_hint: Some(fix_hint),
        engine: Some("cargo-deny"@),
    }
}

/// How one diagnostic is read.
pub open spec fn deny_line_spec(f: CargoDenyFields, manifest: Seq<char>) -> DenyLineOutcome {
    let level = ascii_lowercase(f.level@);
    let sev = ascii_lowercase(f.severity@);
    let code = ascii_lowercase(f.code@);
    let message = trim_seq(f.message@);
    if message.len() == 0 || contains(message, "unable to find a config path"@) {
        DenyLineOutcome::Skip
    } else if contains(message, "failed to open advisory database"@) || contains(
        message,
        "does not appear to be a git repository"@,
    ) || contains(message, "failed to fetch"@) {
        DenyLineOutcome::Fail("cargo-deny could not complete its advisory checks: "@ + message)
    } else {
        match advisory_class_spec(f, code, message) {
            Some(class) => DenyLineOutcome::Emit(
                deny_view(
                    advisory_severity(class),
                    class_code(class),
                    message,
                    manifest,
                    advisory_evidence_spec(f, class),
                    "Review cargo-deny output and resolve, replace, or explicitly ignore the reported advisory set."@,
                ),
            ),
            None => if contains(message, "license"@) {
                DenyLineOutcome::Emit(
                    deny_view(
                        DoctorSeverity::Warning,
                        "deps.rust.license.reported"@,
                        message,
                        manifest,
                        Seq::empty(),
                        "Tighten your deny.toml license policy or replace the offending crate."@,
                    ),
                )
            } else if contains(message, "source"@) {
                DenyLineOutcome::Emit(
                    deny_view(
                        DoctorSeverity::Warning,
                        "deps.rust.source.reported"@,
                        message,
                        manifest,
                        Seq::empty(),
                        "Review your dependency source allowlist and remove unexpected registries or git sources."@,
                    ),
                )
            } else if code == "duplicate"@ || contains(message, "ban"@) || contains(
                message,
                "duplicate"@,
            ) {
                DenyLineOutcome::Emit(
                    deny_view(
                        DoctorSeverity::Warning,
                        "deps.rust.bans.reported"@,
                        message,
                        manifest,
                        Seq::empty(),
                        "Review duplicate or banned crates and align them with your dependency policy."@,
                    ),
                )
            } else if level == "warn"@ || level == "error"@ || sev == "warn"@ || sev == "error"@ {
                DenyLineOutcome::Emit(
                    deny_view(
                        DoctorSeverity::Info,
                        "deps.rust.engine.signal"@,
                        message,
                        manifest,
                        Seq::empty(),
                        "Inspect cargo-deny output directly if you need the raw upstream diagnostic context."@,
                    ),
                )
            } else {
                DenyLineOutcome::Skip
            },
        }
    }
}

fn deny_finding(
    severity: DoctorSeverity,
    code: &str,
    message: &str,
    manifest: &str,
    evidence: Vec<String>,
    fix_hint: &str,
) -> (f: DoctorFinding)
    ensures
        view_of(f) == deny_view(severity, code@, message@, manifest@, views(evidence@), fix_hint@),
{
    crate::doctor::doctor_finding_with_detail(
        DoctorDomain::Deps,
        Some(DoctorEcosystem::Rust),
        severity,
        code,
        message,
        Some(manifest.to_owned()),
        None,
        evidence,
        Some(fix_hint.to_owned()),
        Some("cargo-deny".to_owned()),
    )
}

/// One diagnostic read: `Ok(None)` to skip it, `Ok(Some(f))` for a finding,
/// `Err(reason)` when the whole run has to fail.
pub fn cargo_deny_line(fields: &CargoDenyFields, manifest: &str) -> (r: Result<
    Option<DoctorFinding>,
    String,
>)
    ensures
        match deny_line_spec(*fields, manifest@) {
            DenyLineOutcome::Skip => r matches Ok(None),
            DenyLineOutcome::Emit(v) => r matches Ok(Some(f)) && view_of(f) == v,
            DenyLineOutcome::Fail(m) => r matches Err(e) && e@ == m,
        },
{
    let level = to_ascii_lowercase(fields.level.as_str());
    let sev = to_ascii_lowercase(fields.severity.as_str());
    let code = to_ascii_lowercase(fields.code.as_str());
    let message = trim(fields.message.as_str());
    let m = message.as_str();
    if m.unicode_len() == 0 || str_contains(m, "unable to find a config path") {
        return Ok(None);
    }
    if str_contains(m, "failed to open advisory database") || str_contains(
        m,
        "does not appear to be a git repository",
    ) || str_contains(m, "failed to fetch") {
        return Err(concat_str("cargo-deny could not complete its advisory checks: ", m));
    }
    match cargo_deny_advisory_class(fields, code.as_str(), m) {
        Some(class) => {
            let severity = match class {
                RustAdvisoryClass::Critical | RustAdvisoryClass::High | RustAdvisoryClass::Medium
                | RustAdvisoryClass::Unsound | RustAdvisoryClass::Reported => DoctorSeverity::Error,
                RustAdvisoryClass::Low | RustAdvisoryClass::Unmaintained
                | RustAdvisoryClass::Yanked => DoctorSeverity::Warning,
                RustAdvisoryClass::Informational => DoctorSeverity::Info,
            };
            Ok(
                Some(
                    deny_finding(
                        severity,
                        class.code(),
                        m,
                        manifest,
                        cargo_deny_advisory_evidence(fields, class),
                        "Review cargo-deny output and resolve, replace, or explicitly ignore the reported advisory set.",
                    ),
                ),
            )
        },
        None => {
            if str_contains(m, "license") {
                Ok(
                    Some(
                        deny_finding(
                            DoctorSeverity::Warning,
                            "deps.rust.license.reported",
                            m,
                            manifest,
                            crate::doctor::no_evidence(),
                            "Tighten your deny.toml license policy or replace the offending crate.",
                        ),
                    ),
                )
            } else if str_contains(m, "source") {
                Ok(
                    Some(
                        deny_finding(
                            DoctorSeverity::Warning,
                            "deps.rust.source.reported",
                            m,
                            manifest,
                            crate::doctor::no_evidence(),
                            "Review your dependency source allowlist and remove unexpected registries or git sources.",
                        ),
                    ),
                )
            } else if str_eq(code.as_str(), "duplicate") || str_contains(m, "ban") || str_contains(
                m,
                "duplicate",
            ) {
                Ok(
                    Some(
                        deny_finding(
                            DoctorSeverity::Warning,
                            "deps.rust.bans.reported",
                            m,
                            manifest,
                            crate::doctor::no_evidence(),
                            "Review duplicate or banned crates and align them with your dependency policy.",
                        ),
                    ),
                )
            } else if str_eq(level.as_str(), "warn") || str_eq(level.as_str(), "error") || str_eq(
                sev.as_str(),
                "warn",
            ) || str_eq(sev.as_str(), "error") {
                Ok(
                    Some(
                        deny_finding(
                            DoctorSeverity::Info,
                            "deps.rust.engine.signal",
                            m,
                            manifest,
                            crate::doctor::no_evidence(),
                            "Inspect cargo-deny output directly if you need the raw upstream diagnostic context.",
                        ),
                    ),
                )
            } else {
                Ok(None)
            }
        },
    }
}

} // verus!

verus! {

/// The diagnostics read from the front until one fails the run.
pub open spec fn deny_scan(lines: Seq<Result<CargoDenyFields, String>>, manifest: Seq<char>) -> Result<
    Seq<FindingView>,
    Seq<char>,
>
    decreases lines.len(),
{
    if lines.len() == 0 {
        Ok(Seq::empty())
    } else {
        match lines[0] {
            Err(e) => Err("invalid cargo-deny JSON line: "@ + e@),
            Ok(f) => match deny_line_spec(f, manifest) {
                DenyLineOutcome::Fail(m) => Err(m),
                DenyLineOutcome::Skip => deny_scan(lines.drop_first(), manifest),
                DenyLineOutcome::Emit(v) => match deny_scan(lines.drop_first(), manifest) {
                    Ok(vs) => Ok(seq![v] + vs),
                    Err(e) => Err(e),
                },
            },
        }
    }
}

/// The whole cargo-deny run: the findings, deduplicated, or why the run
/// cannot be trusted.
pub open spec fn deny_output_spec(
    lines: Seq<Result<CargoDenyFields, String>>,
    combined_blank: bool,
    success: bool,
    manifest: Seq<char>,
) -> Result<Seq<FindingView>, Seq<char>> {
    match deny_scan(lines, manifest) {
        Err(e) => Err(e),
        Ok(vs) => if lines.len() == 0 && !combined_blank {
            Err("cargo-deny returned output, but ossify could not parse the JSON stream."@)
        } else if !success && vs.len() == 0 {
            Err(
                "cargo-deny completed with a non-zero status but did not emit actionable dependency findings."@,
            )
        } else {
            Ok(crate::doctor::dedup_views_spec(vs))
        },
    }
}

/// `lines` are the non-blank lines of the combined output, each parsed as
/// JSON (or the parser's error); `combined_blank` says the output held
/// nothing but whitespace; `success` is the exit status.
pub fn parse_cargo_deny_output(
    lines: &Vec<Result<CargoDenyFields, String>>,
    combined_blank: bool,
    success: bool,
    manifest: &str,
) -> (r: Result<Vec<DoctorFinding>, String>)
    ensures
        match deny_output_spec(lines@, combined_blank, success, manifest@) {
            Ok(vs) => r matches Ok(fs) && views_of(fs@) == vs,
            Err(m) => r matches Err(e) && e@ == m,
        },
{
    let mut findings: Vec<DoctorFinding> = Vec::new();
    let mut i: usize = 0;
    assert(lines@.subrange(0, lines@.len() as int) =~= lines@);
    while i < lines.len()
        invariant
            i <= lines.len(),
            deny_scan(lines@, manifest@) == (match deny_scan(
                lines@.subrange(i as int, lines@.len() as int),
                manifest@,
            ) {
                Ok(vs) => Ok(views_of(findings@) + vs),
                Err(e) => Err(e),
            }),
        decreases lines.len() - i,
    {
        let ghost rest = lines@.subrange(i as int, lines@.len() as int);
        assert(rest[0] == lines@[i as int]);
        assert(rest.drop_first() =~= lines@.subrange(i + 1, lines@.len() as int));
        match &lines[i] {
            Err(e) => {
                return Err(concat_str("invalid cargo-deny JSON line: ", e.as_str()));
            },
            Ok(fields) => match cargo_deny_line(fields, manifest) {
                Err(m) => {
                    return Err(m);
                },
                Ok(None) => {},
                Ok(Some(f)) => {
                    let ghost before = views_of(findings@);
                    findings.push(f);
                    assert(views_of(findings@) =~= before.push(view_of(f)));
                    proof {
                        match deny_scan(rest.drop_first(), manifest@) {
                            Ok(vs) => {
                                assert(before + (seq![view_of(f)] + vs) =~= views_of(findings@) + vs);
                            },
                            Err(e) => {},
                        }
                    }
                },
            },
        }
        i += 1;
    }
    assert(lines@.subrange(i as int, lines@.len() as int) =~= Seq::<Result<CargoDenyFields, String>>::empty());
    assert(views_of(findings@) + Seq::<FindingView>::empty() =~= views_of(findings@));
    if lines.len() == 0 && !combined_blank {
        return Err("cargo-deny returned output, but ossify could not parse the JSON stream.".to_owned());
    }
    if !success && findings.len() == 0 {
        return Err(
            "cargo-deny completed with a non-zero status but did not emit actionable dependency findings.".to_owned(),
        );
    }
    let ghost all = findings@;
    let r = dedup_findings(findings);
    proof {
        crate::doctor::lemma_dedup_views(all);
    }
    Ok(r)
}

} // verus!

verus! {

// ---------------------------------------------------------------------------
// audit-ci
// ---------------------------------------------------------------------------

/// The counts audit-ci reports under `metadata` (absent counts are zero).
#[derive(Debug, Clone, Copy)]
pub struct AuditCiCounts {
    pub critical: u64,
    pub high: u64,
    pub moderate: u64,
    pub low: u64,
    pub total_dependencies: u64,
}

pub open spec fn audit_ci_view(
    severity: DoctorSeverity,
    code: Seq<char>,
    key: Seq<char>,
    count: u64,
    total: u64,
    manifest: Seq<char>,
) -> FindingView {
    FindingView {
        domain: DoctorDomain::Deps,
        ecosystem: Some(DoctorEcosystem::Node),
        severity,
        code,
        message: "audit-ci reported "@ + decimal(count as nat) + " "@ + key
            + " dependency vulnerabilit"@ + (if count == 1 {
            "y"@
        } else {
            "ies"@
        }) + " across the audited Node graph."@,
        file: Some(manifest),
        help: None,
        evidence: seq!["dependencies.total="@ + decimal(total as nat)],
        fix_hint: Some(
            "Run `audit-ci --report-type full` locally and upgrade, replace, or explicitly allowlist the flagged packages."@,
        ),
        engine: Some("audit-ci"@),
    }
}

pub open spec fn counted_view(
    count: u64,
    severity: DoctorSeverity,
    code: Seq<char>,
    key: Seq<char>,
    total: u64,
    manifest: Seq<char>,
) -> Seq<FindingView> {
    if count == 0 {
        Seq::empty()
    } else {
        seq![audit_ci_view(severity, code, key, count, total, manifest)]
    }
}

/// One finding per non-zero count, most severe first.
pub open spec fn audit_ci_findings_spec(c: AuditCiCounts, manifest: Seq<char>) -> Seq<FindingView> {
    counted_view(
        c.critical,
        DoctorSeverity::Error,
        "deps.node.vulnerability.critical"@,
        "critical"@,
        c.total_dependencies,
        manifest,
    ) + counted_view(
        c.high,
        DoctorSeverity::Error,
        "deps.node.vulnerability.high"@,
        "high"@,
        c.total_dependencies,
        manifest,
    ) + counted_view(
        c.moderate,
        DoctorSeverity::Warning,
        "deps.node.vulnerability.moderate"@,
        "moderate"@,
        c.total_dependencies,
        manifest,
    ) + counted_view(
        c.low,
        DoctorSeverity::Info,
        "deps.node.vulnerability.low"@,
        "low"@,
        c.total_dependencies,
        manifest,
    )
}

fn push_count(
    out: &mut Vec<DoctorFinding>,
    count: u64,
    severity: DoctorSeverity,
    code: &str,
    key: &str,
    total: u64,
    manifest: &str,
)
    ensures
        views_of(final(out)@) == views_of(old(out)@) + counted_view(
            count,
            severity,
            code@,
            key@,
            total,
            manifest@,
        ),
{
    if count == 0 {
        assert(views_of(out@) =~= views_of(out@) + Seq::<FindingView>::empty());
        return;
    }
    let mut message = concat_str("audit-ci reported ", decimal_string(count).as_str());
    message.append(" ");
    message.append(key);
    message.append(" dependency vulnerabilit");
    message.append(if count == 1 {
        "y"
    } else {
        "ies"
    });
    message.append(" across the audited Node graph.");
    let evidence = crate::doctor::one_item(
        concat_str("dependencies.total=", decimal_string(total).as_str()).as_str(),
    );
    let f = crate::doctor::doctor_finding_with_detail(
        DoctorDomain::Deps,
        Some(DoctorEcosystem::Node),
        severity,
        code,
        message.as_str(),
        Some(manifest.to_owned()),
        None,
        evidence,
        Some(
            "Run `audit-ci --report-type full` locally and upgrade, replace, or explicitly allowlist the flagged packages.".to_owned(),
        ),
        Some("audit-ci".to_owned()),
    );
    let ghost before = views_of(out@);
    out.push(f);
    assert(views_of(out@) =~= before.push(view_of(f)));
}

/// The audit-ci findings, or why the run cannot be trusted.  `parsed` is
/// the JSON reading of the trimmed output (or the parser's error).
pub open spec fn audit_ci_output_spec(
    stdout_blank: bool,
    parsed: Result<AuditCiCounts, String>,
    success: bool,
    manifest: Seq<char>,
) -> Result<Seq<FindingView>, Seq<char>> {
    if stdout_blank {
        if success {
            Ok(Seq::empty())
        } else {
            Err("audit-ci exited non-zero without JSON output"@)
        }
    } else {
        match parsed {
            Err(e) => Err("invalid audit-ci JSON output: "@ + e@),
            Ok(c) => {
                let fs = audit_ci_findings_spec(c, manifest);
                if !success && fs.len() == 0 {
                    Err(
                        "audit-ci completed with a non-zero status but did not emit any vulnerability counts."@,
                    )
                } else {
                    Ok(fs)
                }
            },
        }
    }
}

pub fn parse_audit_ci_output(
    stdout_blank: bool,
    parsed: &Result<AuditCiCounts, String>,
    success: bool,
    manifest: &str,
) -> (r: Result<Vec<DoctorFinding>, String>)
    ensures
        match audit_ci_output_spec(stdout_blank, *parsed, success, manifest@) {
            Ok(vs) => r matches Ok(fs) && views_of(fs@) == vs,
            Err(m) => r matches Err(e) && e@ == m,
        },
{
    if stdout_blank {
        if success {
            let v: Vec<DoctorFinding> = Vec::new();
            assert(views_of(v@) =~= Seq::<FindingView>::empty());
            return Ok(v);
        }
        return Err("audit-ci exited non-zero without JSON output".to_owned());
    }
    let c = match parsed {
        Err(e) => {
            return Err(concat_str("invalid audit-ci JSON output: ", e.as_str()));
        },
        Ok(c) => *c,
    };
    let mut out: Vec<DoctorFinding> = Vec::new();
    assert(views_of(out@) =~= Seq::<FindingView>::empty());
    push_count(
        &mut out,
        c.critical,
        DoctorSeverity::Error,
        "deps.node.vulnerability.critical",
        "critical",
        c.total_dependencies,
        manifest,
    );
    push_count(
        &mut out,
        c.high,
        DoctorSeverity::Error,
        "deps.node.vulnerability.high",
        "high",
        c.total_dependencies,
        manifest,
    );
    push_count(
        &mut out,
        c.moderate,
        DoctorSeverity::Warning,
        "deps.node.vulnerability.moderate",
        "moderate",
        c.total_dependencies,
        manifest,
    );
    push_count(
        &mut out,
        c.low,
        DoctorSeverity::Info,
        "deps.node.vulnerability.low",
        "low",
        c.total_dependencies,
        manifest,
    );
    assert(views_of(out@) =~= audit_ci_findings_spec(c, manifest@));
    if !success && out.len() == 0 {
        return Err(
            "audit-ci completed with a non-zero status but did not emit any vulnerability counts.".to_owned(),
        );
    }
    Ok(out)
}

// ---------------------------------------------------------------------------
// pip-audit
// ---------------------------------------------------------------------------

/// One vulnerability record: its id (`unknown-vuln` when absent) and the
/// versions that fix it.
#[derive(Debug, Clone)]
pub struct PipVuln {
    pub id: String,
    pub fix_versions: Vec<String>,
}

/// One audited package: its name (`package` when absent) and its records.
#[derive(Debug, Clone)]
pub struct PipPackage {
    pub name: String,
    pub vulns: Vec<PipVuln>,
}

pub open spec fn vuln_line(name: Seq<char>, v: PipVuln) -> Seq<char> {
    let fixes = join_seq(views(v.fix_versions@), ", "@);
    if fixes.len() == 0 {
        name + ": "@ + v.id@
    } else {
        name + ": "@ + v.id@ + " -> "@ + fixes
    }
}

/// Lines for the first two records of a package.
pub open spec fn package_lines(p: PipPackage) -> Seq<Seq<char>> {
    let vs = p.vulns@;
    (if vs.len() > 0 {
        seq![vuln_line(p.name@, vs[0])]
    } else {
        Seq::empty()
    }) + (if vs.len() > 1 {
        seq![vuln_line(p.name@, vs[1])]
    } else {
        Seq::empty()
    })
}

pub open spec fn pip_evidence(ps: Seq<PipPackage>) -> Seq<Seq<char>>
    decreases ps.len(),
{
    if ps.len() == 0 {
        Seq::empty()
    } else {
        pip_evidence(ps.drop_last()) + package_lines(ps.last())
    }
}

pub open spec fn vuln_total(ps: Seq<PipPackage>) -> nat
    decreases ps.len(),
{
    if ps.len() == 0 {
        0
    } else {
        vuln_total(ps.drop_last()) + ps.last().vulns@.len()
    }
}

/// The pip-audit finding (one, for all records), or why the run cannot be
/// trusted.  `file` is the project's primary Python file, if any.
pub open spec fn pip_audit_output_spec(
    stdout_blank: bool,
    parsed: Result<Seq<PipPackage>, Seq<char>>,
    success: bool,
    file: Option<Seq<char>>,
) -> Result<Seq<FindingView>, Seq<char>> {
    if stdout_blank {
        if success {
            Ok(Seq::empty())
        } else {
            Err("pip-audit exited non-zero without JSON output"@)
        }
    } else {
        match parsed {
            Err(e) => Err("invalid pip-audit JSON output: "@ + e),
            Ok(ps) => {
                let n = vuln_total(ps);
                if n == 0 {
                    if !success {
                        Err(
                            "pip-audit completed with a non-zero status but did not emit any vulnerability records."@,
                        )
                    } else {
                        Ok(Seq::empty())
                    }
                } else {
                    Ok(
                        seq![
                            FindingView {
                                domain: DoctorDomain::Deps,
                                ecosystem: Some(DoctorEcosystem::Python),
                                severity: DoctorSeverity::Error,
                                code: "deps.python.vulnerability.reported"@,
                                message: "pip-audit reported "@ + decimal(n)
                                    + " known vulnerabilit"@ + (if n == 1 {
                                    "y"@
                                } else {
                                    "ies"@
                                }) + " in the Python dependency graph."@,
                                file,
                                help: None,
                                evidence: pip_evidence(ps),
                                fix_hint: Some(
                                    "Run `pip-audit -f json` locally and upgrade or constrain the vulnerable packages."@,
                                ),
                                engine: Some("pip-audit"@),
                            },
                        ],
                    )
                }
            },
        }
    }
}

fn vuln_line_exec(name: &str, v: &PipVuln) -> (r: String)
    ensures
        r@ == vuln_line(name@, *v),
{
    let fixes = join_strings(&v.fix_versions, ", ");
    let mut s = concat_str(name, ": ");
    s.append(v.id.as_str());
    if fixes.unicode_len() > 0 {
        s.append(" -> ");
        s.append(fixes.as_str());
    }
    s
}

pub fn parse_pip_audit_output(
    stdout_blank: bool,
    parsed: &Result<Vec<PipPackage>, String>,
    success: bool,
    file: Option<String>,
) -> (r: Result<Vec<DoctorFinding>, String>)
    ensures
        match pip_audit_output_spec(
            stdout_blank,
            match *parsed {
                Ok(ps) => Ok(ps@),
                Err(e) => Err(e@),
            },
            success,
            crate::doctor::opt_seq(file),
        ) {
            Ok(vs) => r matches Ok(fs) && views_of(fs@) == vs,
            Err(m) => r matches Err(e) && e@ == m,
        },
{
    if stdout_blank {
        if success {
            let v: Vec<DoctorFinding> = Vec::new();
            assert(views_of(v@) =~= Seq::<FindingView>::empty());
            return Ok(v);
        }
        return Err("pip-audit exited non-zero without JSON output".to_owned());
    }
    let packages = match parsed {
        Err(e) => {
            return Err(concat_str("invalid pip-audit JSON output: ", e.as_str()));
        },
        Ok(ps) => ps,
    };
    let mut count: u128 = 0;
    let mut evidence: Vec<String> = Vec::new();
    let mut i: usize = 0;
    while i < packages.len()
        invariant
            i <= packages.len(),
            count == vuln_total(packages@.take(i as int)),
            count <= i * 0xffff_ffff_ffff_ffff,
            views(evidence@) == pip_evidence(packages@.take(i as int)),
        decreases packages.len() - i,
    {
        assert(packages@.take(i + 1).drop_last() =~= packages@.take(i as int));
        let p = &packages[i];
        count = count + p.vulns.len() as u128;
        let ghost before = views(evidence@);
        if p.vulns.len() > 0 {
            evidence.push(vuln_line_exec(p.name.as_str(), &p.vulns[0]));
        }
        if p.vulns.len() > 1 {
            evidence.push(vuln_line_exec(p.name.as_str(), &p.vulns[1]));
        }
        assert(views(evidence@) =~= before + package_lines(*p));
        i += 1;
    }
    assert(packages@.take(packages.len() as int) =~= packages@);
    if count == 0 {
        if !success {
            return Err(
                "pip-audit completed with a non-zero status but did not emit any vulnerability records.".to_owned(),
            );
        }
        let v: Vec<DoctorFinding> = Vec::new();
        assert(views_of(v@) =~= Seq::<FindingView>::empty());
        return Ok(v);
    }
    let mut message = "pip-audit reported ".to_owned();
    message.append(crate::text::decimal_u128(count).as_str());
    message.append(" known vulnerabilit");
    message.append(if count == 1 {
        "y"
    } else {
        "ies"
    });
    message.append(" in the Python dependency graph.");
    let f = crate::doctor::doctor_finding_with_detail(
        DoctorDomain::Deps,
        Some(DoctorEcosystem::Python),
        DoctorSeverity::Error,
        "deps.python.vulnerability.reported",
        message.as_str(),
        file,
        None,
        evidence,
        Some(
            "Run `pip-audit -f json` locally and upgrade or constrain the vulnerable packages.".to_owned(),
        ),
        Some("pip-audit".to_owned()),
    );
    let mut out: Vec<DoctorFinding> = Vec::new();
    out.push(f);
    assert(views_of(out@) =~= seq![view_of(f)]);
    Ok(out)
}

} // verus!
