//! The doctor commands: findings about docs, workflows, dependencies and
//! releases, and the scores, caps and summaries drawn from them.
use vstd::prelude::*;
use crate::engines::{
    engine_status_label, tool_display_name, ManagedEngineError, ManagedEngineStatus,
};
use crate::text::{
    concat_str, contains, decimal, decimal_string, join_seq, join_strings, str_contains, str_eq,
    views,
};

verus! {

// ---------------------------------------------------------------------------
// Severities, domains, ecosystems
// ---------------------------------------------------------------------------

#[derive(Debug, Clone, Copy, PartialEq, Eq, Structural)]
pub enum DoctorSeverity {
    Error,
    Warning,
    Info,
}

pub open spec fn severity_penalty(s: DoctorSeverity) -> nat {
    match s {
        DoctorSeverity::Error => 20,
        DoctorSeverity::Warning => 10,
        DoctorSeverity::Info => 4,
    }
}

pub open spec fn severity_rank(s: DoctorSeverity) -> nat {
    match s {
        DoctorSeverity::Error => 0,
        DoctorSeverity::Warning => 1,
        DoctorSeverity::Info => 2,
    }
}

pub open spec fn severity_label(s: DoctorSeverity) -> Seq<char> {
    match s {
        DoctorSeverity::Error => "error"@,
        DoctorSeverity::Warning => "warning"@,
        DoctorSeverity::Info => "info"@,
    }
}

impl DoctorSeverity {
    pub fn penalty(self) -> (r: u16)
        ensures
            r == severity_penalty(self),
    {
        match self {
            DoctorSeverity::Error => 20,
            DoctorSeverity::Warning => 10,
            DoctorSeverity::Info => 4,
        }
    }

    pub fn rank(self) -> (r: u8)
        ensures
            r == severity_rank(self),
    {
        match self {
            DoctorSeverity::Error => 0,
            DoctorSeverity::Warning => 1,
            DoctorSeverity::Info => 2,
        }
    }

    pub fn label(self) -> (r: &'static str)
        ensures
            r@ == severity_label(self),
    {
        match self {
            DoctorSeverity::Error => "error",
            DoctorSeverity::Warning => "warning",
            DoctorSeverity::Info => "info",
        }
    }
}

#[derive(Debug, Clone, Copy, PartialEq, Eq, Structural)]
pub enum DoctorDomain {
    Docs,
    Workflow,
    Deps,
    Release,
}

pub open spec fn domain_label(d: DoctorDomain) -> Seq<char> {
    match d {
        DoctorDomain::Docs => "docs"@,
        DoctorDomain::Workflow => "workflow"@,
        DoctorDomain::Deps => "deps"@,
        DoctorDomain::Release => "release"@,
    }
}

impl DoctorDomain {
    pub fn label(self) -> (r: &'static str)
        ensures
            r@ == domain_label(self),
    {
        match self {
            DoctorDomain::Docs => "docs",
            DoctorDomain::Workflow => "workflow",
            DoctorDomain::Deps => "deps",
            DoctorDomain::Release => "release",
        }
    }
}

#[derive(Debug, Clone, Copy, PartialEq, Eq, Structural)]
pub enum DoctorEcosystem {
    Auto,
    Rust,
    Node,
    Python,
}

pub open spec fn ecosystem_label(e: DoctorEcosystem) -> Seq<char> {
    match e {
        DoctorEcosystem::Auto => "auto"@,
        DoctorEcosystem::Rust => "rust"@,
        DoctorEcosystem::Node => "node"@,
        DoctorEcosystem::Python => "python"@,
    }
}

impl DoctorEcosystem {
    pub fn label(self) -> (r: &'static str)
        ensures
            r@ == ecosystem_label(self),
    {
        match self {
            DoctorEcosystem::Auto => "auto",
            DoctorEcosystem::Rust => "rust",
            DoctorEcosystem::Node => "node",
            DoctorEcosystem::Python => "python",
        }
    }
}

/// Where a domain's verdict came from.
#[derive(Debug, Clone, Copy, PartialEq, Eq, Structural)]
pub enum EngineSource {
    OssifyNative,
    AbsorbedPolicy,
    ManagedTool,
}

// ---------------------------------------------------------------------------
// Findings and scores
// ---------------------------------------------------------------------------

/// One problem a doctor found.  `file` is the path it is about, if any.
#[derive(Debug, Clone)]
pub struct DoctorFinding {
    pub domain: DoctorDomain,
    pub ecosystem: Option<DoctorEcosystem>,
    pub severity: DoctorSeverity,
    pub code: String,
    pub message: String,
    pub file: Option<String>,
    pub help: Option<String>,
    pub evidence: Vec<String>,
    pub fix_hint: Option<String>,
    pub engine: Option<String>,
}

#[derive(Debug, Clone)]
pub struct DoctorDomainScore {
    pub domain: DoctorDomain,
    pub score: Option<u8>,
    pub cap: Option<u8>,
    pub cap_reason: Option<String>,
    pub cap_code: Option<String>,
    pub engine: String,
    pub engine_source: EngineSource,
    pub ecosystems: Vec<DoctorEcosystem>,
    pub error_count: usize,
    pub warning_count: usize,
    pub info_count: usize,
    pub summary: String,
}

#[derive(Debug, Clone)]
pub struct EcosystemDoctorScore {
    pub ecosystem: DoctorEcosystem,
    pub score: u8,
    pub cap: Option<u8>,
    pub cap_reason: Option<String>,
    pub cap_code: Option<String>,
    pub engine: String,
    pub engine_source: EngineSource,
    pub engine_status: ManagedEngineStatus,
    pub engine_detail: Option<String>,
    pub finding_count: usize,
}

/// A finding with no evidence, fix hint or engine.
pub fn doctor_finding(
    domain: DoctorDomain,
    ecosystem: Option<DoctorEcosystem>,
    severity: DoctorSeverity,
    code: &str,
    message: &str,
    file: Option<String>,
    help: Option<String>,
) -> (f: DoctorFinding)
    ensures
        f.domain == domain,
        f.ecosystem == ecosystem,
        f.severity == severity,
        f.code@ == code@,
        f.message@ == message@,
        f.file == file,
        f.help == help,
        f.evidence@.len() == 0,
        f.fix_hint.is_none(),
        f.engine.is_none(),
{
    DoctorFinding {
        domain,
        ecosystem,
        severity,
        code: code.to_owned(),
        message: message.to_owned(),
        file,
        help,
        evidence: Vec::new(),
        fix_hint: None,
        engine: None,
    }
}

/// A finding with every field given.
pub fn doctor_finding_with_detail(
    domain: DoctorDomain,
    ecosystem: Option<DoctorEcosystem>,
    severity: DoctorSeverity,
    code: &str,
    message: &str,
    file: Option<String>,
    help: Option<String>,
    evidence: Vec<String>,
    fix_hint: Option<String>,
    engine: Option<String>,
) -> (f: DoctorFinding)
    ensures
        f.domain == domain,
        f.ecosystem == ecosystem,
        f.severity == severity,
        f.code@ == code@,
        f.message@ == message@,
        f.file == file,
        f.help == help,
        f.evidence == evidence,
        f.fix_hint == fix_hint,
        f.engine == engine,
{
    DoctorFinding {
        domain,
        ecosystem,
        severity,
        code: code.to_owned(),
        message: message.to_owned(),
        file,
        help,
        evidence,
        fix_hint,
        engine,
    }
}

// ---------------------------------------------------------------------------
// Counting and searching findings
// ---------------------------------------------------------------------------

/// Number of findings with severity `s`.
pub open spec fn count_severity(fs: Seq<DoctorFinding>, s: DoctorSeverity) -> nat
    decreases fs.len(),
{
    if fs.len() == 0 {
        0
    } else {
        count_severity(fs.drop_last(), s) + if fs.last().severity == s {
            1nat
        } else {
            0nat
        }
    }
}

pub proof fn lemma_count_severity_bounded(fs: Seq<DoctorFinding>, s: DoctorSeverity)
    ensures
        count_severity(fs, s) <= fs.len(),
    decreases fs.len(),
{
    if fs.len() > 0 {
        lemma_count_severity_bounded(fs.drop_last(), s);
    }
}

/// Some finding has code `code`.
pub open spec fn has_code(fs: Seq<DoctorFinding>, code: Seq<char>) -> bool {
    exists|i: int| 0 <= i < fs.len() && #[trigger] fs[i].code@ == code
}

/// Some finding's code contains `pattern`.
pub open spec fn has_code_containing(fs: Seq<DoctorFinding>, pattern: Seq<char>) -> bool {
    exists|i: int| 0 <= i < fs.len() && contains(#[trigger] fs[i].code@, pattern)
}

/// Some finding has severity `s`.
pub open spec fn has_severity(fs: Seq<DoctorFinding>, s: DoctorSeverity) -> bool {
    exists|i: int| 0 <= i < fs.len() && #[trigger] fs[i].severity == s
}

pub fn count_with_severity(findings: &Vec<DoctorFinding>, s: DoctorSeverity) -> (n: usize)
    ensures
        n == count_severity(findings@, s),
{
    let mut n: usize = 0;
    let mut i: usize = 0;
    while i < findings.len()
        invariant
            i <= findings.len(),
            n == count_severity(findings@.take(i as int), s),
            n <= i,
        decreases findings.len() - i,
    {
        assert(findings@.take(i + 1).drop_last() =~= findings@.take(i as int));
        if findings[i].severity == s {
            n += 1;
        }
        i += 1;
    }
    assert(findings@.take(findings.len() as int) =~= findings@);
    n
}

pub fn any_code(findings: &Vec<DoctorFinding>, code: &str) -> (b: bool)
    ensures
        b == has_code(findings@, code@),
{
    let mut i: usize = 0;
    while i < findings.len()
        invariant
            i <= findings.len(),
            forall|k: int| 0 <= k < i ==> #[trigger] findings@[k].code@ != code@,
        decreases findings.len() - i,
    {
        if str_eq(findings[i].code.as_str(), code) {
            return true;
        }
        i += 1;
    }
    false
}

pub fn any_code_containing(findings: &Vec<DoctorFinding>, pattern: &str) -> (b: bool)
    ensures
        b == has_code_containing(findings@, pattern@),
{
    let mut i: usize = 0;
    while i < findings.len()
        invariant
            i <= findings.len(),
            forall|k: int| 0 <= k < i ==> !contains(#[trigger] findings@[k].code@, pattern@),
        decreases findings.len() - i,
    {
        if str_contains(findings[i].code.as_str(), pattern) {
            return true;
        }
        i += 1;
    }
    false
}

pub fn any_severity(findings: &Vec<DoctorFinding>, s: DoctorSeverity) -> (b: bool)
    ensures
        b == has_severity(findings@, s),
{
    let mut i: usize = 0;
    while i < findings.len()
        invariant
            i <= findings.len(),
            forall|k: int| 0 <= k < i ==> #[trigger] findings@[k].severity != s,
        decreases findings.len() - i,
    {
        if findings[i].severity == s {
            return true;
        }
        i += 1;
    }
    false
}

// ---------------------------------------------------------------------------
// Summaries
// ---------------------------------------------------------------------------

/// `"{n}{unit}"`.
pub open spec fn counted(n: nat, unit: Seq<char>) -> Seq<char> {
    decimal(n) + unit
}

pub fn counted_string(n: usize, unit: &str) -> (r: String)
    ensures
        r@ == counted(n as nat, unit@),
{
    let mut s = decimal_string(n as u64);
    s.append(unit);
    s
}

/// The non-zero counts among errors, warnings and info signals, in that order.
pub open spec fn count_parts(errors: nat, warnings: nat, infos: nat) -> Seq<Seq<char>> {
    (if errors > 0 {
        seq![counted(errors, " error(s)"@)]
    } else {
        Seq::empty()
    }) + (if warnings > 0 {
        seq![counted(warnings, " warning(s)"@)]
    } else {
        Seq::empty()
    }) + (if infos > 0 {
        seq![counted(infos, " info signal(s)"@)]
    } else {
        Seq::empty()
    })
}

fn count_parts_vec(errors: usize, warnings: usize, infos: usize) -> (v: Vec<String>)
    ensures
        views(v@) == count_parts(errors as nat, warnings as nat, infos as nat),
{
    let mut v: Vec<String> = Vec::new();
    if errors > 0 {
        v.push(counted_string(errors, " error(s)"));
    }
    if warnings > 0 {
        v.push(counted_string(warnings, " warning(s)"));
    }
    if infos > 0 {
        v.push(counted_string(infos, " info signal(s)"));
    }
    assert(views(v@) =~= count_parts(errors as nat, warnings as nat, infos as nat));
    v
}

/// The summary of a domain's findings: `empty` when there are none, else
/// `prefix` followed by the non-zero counts joined with " and ".
pub open spec fn domain_summary(fs: Seq<DoctorFinding>, empty: Seq<char>, prefix: Seq<char>) -> Seq<
    char,
> {
    let e = count_severity(fs, DoctorSeverity::Error);
    let w = count_severity(fs, DoctorSeverity::Warning);
    let i = count_severity(fs, DoctorSeverity::Info);
    if e == 0 && w == 0 && i == 0 {
        empty
    } else {
        prefix + " "@ + join_seq(count_parts(e, w, i), " and "@)
    }
}

pub fn summarize_domain_findings(
    findings: &Vec<DoctorFinding>,
    empty_message: &str,
    non_empty_prefix: &str,
) -> (r: String)
    ensures
        r@ == domain_summary(findings@, empty_message@, non_empty_prefix@),
{
    let errors = count_with_severity(findings, DoctorSeverity::Error);
    let warnings = count_with_severity(findings, DoctorSeverity::Warning);
    let infos = count_with_severity(findings, DoctorSeverity::Info);
    if errors == 0 && warnings == 0 && infos == 0 {
        return empty_message.to_owned();
    }
    let parts = count_parts_vec(errors, warnings, infos);
    let mut r = concat_str(non_empty_prefix, " ");
    r.append(join_strings(&parts, " and ").as_str());
    r
}

/// Some ecosystem ran without its managed engine.
pub open spec fn any_degraded(es: Seq<EcosystemDoctorScore>) -> bool {
    exists|i: int|
        0 <= i < es.len() && #[trigger] es[i].engine_status != ManagedEngineStatus::Managed
}

fn any_degraded_exec(ecosystems: &Vec<EcosystemDoctorScore>) -> (b: bool)
    ensures
        b == any_degraded(ecosystems@),
{
    let mut i: usize = 0;
    while i < ecosystems.len()
        invariant
            i <= ecosystems.len(),
            forall|k: int|
                0 <= k < i ==> #[trigger] ecosystems@[k].engine_status
                    == ManagedEngineStatus::Managed,
        decreases ecosystems.len() - i,
    {
        if ecosystems[i].engine_status != ManagedEngineStatus::Managed {
            return true;
        }
        i += 1;
    }
    false
}

pub open spec fn deps_summary_spec(fs: Seq<DoctorFinding>, es: Seq<EcosystemDoctorScore>) -> Seq<
    char,
> {
    let base = domain_summary(
        fs,
        "Dependency surface looks healthy."@,
        "Dependency surface is carrying risk signals."@,
    );
    if any_degraded(es) {
        base + " Some ecosystems are currently running in degraded fallback mode."@
    } else {
        base
    }
}

pub fn deps_summary(findings: &Vec<DoctorFinding>, ecosystems: &Vec<EcosystemDoctorScore>) -> (r:
    String)
    ensures
        r@ == deps_summary_spec(findings@, ecosystems@),
{
    let mut summary = summarize_domain_findings(
        findings,
        "Dependency surface looks healthy.",
        "Dependency surface is carrying risk signals.",
    );
    if any_degraded_exec(ecosystems) {
        summary.append(" Some ecosystems are currently running in degraded fallback mode.");
    }
    summary
}

pub open spec fn release_summary_spec(fs: Seq<DoctorFinding>, es: Seq<EcosystemDoctorScore>) -> Seq<
    char,
> {
    let base = domain_summary(
        fs,
        "Release surface looks healthy."@,
        "Release surface is still missing maintainer-grade signals."@,
    );
    if any_degraded(es) {
        base + " Some ecosystems are currently using degraded fallback release checks."@
    } else {
        base
    }
}

pub fn release_summary(findings: &Vec<DoctorFinding>, ecosystems: &Vec<EcosystemDoctorScore>) -> (r:
    String)
    ensures
        r@ == release_summary_spec(findings@, ecosystems@),
{
    let mut summary = summarize_domain_findings(
        findings,
        "Release surface looks healthy.",
        "Release surface is still missing maintainer-grade signals.",
    );
    if any_degraded_exec(ecosystems) {
        summary.append(" Some ecosystems are currently using degraded fallback release checks.");
    }
    summary
}

} // verus!

verus! {

// ---------------------------------------------------------------------------
// Scores
// ---------------------------------------------------------------------------

/// 100 minus a total penalty, floored at zero.
pub open spec fn score_after(total: nat) -> nat {
    if total >= 100 {
        0
    } else {
        (100 - total) as nat
    }
}

pub open spec fn min_nat(a: nat, b: nat) -> nat {
    if a <= b {
        a
    } else {
        b
    }
}

pub open spec fn workflow_penalty_of(f: DoctorFinding) -> nat {
    let c = f.code@;
    if c == "workflow.permissions.missing"@ {
        8
    } else if c == "workflow.actions.unpinned"@ {
        3
    } else if c == "workflow.concurrency.missing"@ || c == "workflow.timeout.missing"@ {
        2
    } else if c == "workflow.engine-bootstrap-failed"@ {
        12
    } else if c == "workflow.engine-missing"@ {
        8
    } else {
        severity_penalty(f.severity)
    }
}

pub open spec fn workflow_penalty_total(fs: Seq<DoctorFinding>) -> nat
    decreases fs.len(),
{
    if fs.len() == 0 {
        0
    } else {
        workflow_penalty_total(fs.drop_last()) + workflow_penalty_of(fs.last())
    }
}

/// The workflow score: 100 less the penalties, at most 49 with a syntax
/// error and at most 69 with any other error.
pub open spec fn workflow_score_spec(fs: Seq<DoctorFinding>) -> nat {
    let base = score_after(workflow_penalty_total(fs));
    if has_code(fs, "workflow.syntax-check"@) {
        min_nat(base, 49)
    } else if has_severity(fs, DoctorSeverity::Error) {
        min_nat(base, 69)
    } else {
        base
    }
}

pub fn workflow_penalty(finding: &DoctorFinding) -> (p: u16)
    ensures
        p == workflow_penalty_of(*finding),
        p <= 20,
{
    let c = finding.code.as_str();
    if str_eq(c, "workflow.permissions.missing") {
        8
    } else if str_eq(c, "workflow.actions.unpinned") {
        3
    } else if str_eq(c, "workflow.concurrency.missing") || str_eq(c, "workflow.timeout.missing") {
        2
    } else if str_eq(c, "workflow.engine-bootstrap-failed") {
        12
    } else if str_eq(c, "workflow.engine-missing") {
        8
    } else {
        finding.severity.penalty()
    }
}

/// A running total that only matters up to 100.
pub open spec fn clamped_total(total: u64, exact: nat) -> bool {
    &&& total < 200
    &&& exact < 100 ==> total == exact
    &&& exact >= 100 ==> total >= 100
}

pub(crate) fn score_from_total(total: u64, Ghost(exact): Ghost<nat>) -> (s: u8)
    requires
        clamped_total(total, exact),
    ensures
        s == score_after(exact),
{
    if total >= 100 {
        0
    } else {
        (100 - total) as u8
    }
}

pub fn workflow_score(findings: &Vec<DoctorFinding>) -> (s: u8)
    ensures
        s == workflow_score_spec(findings@),
{
    let mut total: u64 = 0;
    let mut i: usize = 0;
    while i < findings.len()
        invariant
            i <= findings.len(),
            clamped_total(total, workflow_penalty_total(findings@.take(i as int))),
        decreases findings.len() - i,
    {
        assert(findings@.take(i + 1).drop_last() =~= findings@.take(i as int));
        if total < 100 {
            total = total + workflow_penalty(&findings[i]) as u64;
        }
        i += 1;
    }
    assert(findings@.take(findings.len() as int) =~= findings@);
    let mut score = score_from_total(total, Ghost(workflow_penalty_total(findings@)));
    if any_code(findings, "workflow.syntax-check") {
        if score > 49 {
            score = 49;
        }
    } else if any_severity(findings, DoctorSeverity::Error) {
        if score > 69 {
            score = 69;
        }
    }
    score
}

pub open spec fn generic_deps_penalty_of(f: DoctorFinding) -> nat {
    let c = f.code@;
    if c == "deps.rust.lockfile.missing"@ || c == "deps.node.lockfile.missing"@ || c
        == "deps.python.lockfile.missing"@ {
        10
    } else if contains(c, "wildcard"@) {
        8
    } else if contains(c, "direct-source"@) {
        8
    } else if contains(c, "unpinned"@) {
        6
    } else if contains(c, "policy-missing"@) {
        3
    } else if contains(c, "license-missing"@) {
        4
    } else if contains(c, "vulnerability.critical"@) {
        28
    } else if contains(c, "vulnerability.high"@) {
        16
    } else {
        severity_penalty(f.severity)
    }
}

pub open spec fn deps_penalty_total(fs: Seq<DoctorFinding>) -> nat
    decreases fs.len(),
{
    if fs.len() == 0 {
        0
    } else {
        deps_penalty_total(fs.drop_last()) + generic_deps_penalty_of(fs.last())
    }
}

pub fn generic_deps_penalty(finding: &DoctorFinding) -> (p: u16)
    ensures
        p == generic_deps_penalty_of(*finding),
        p <= 28,
{
    let c = finding.code.as_str();
    if str_eq(c, "deps.rust.lockfile.missing") || str_eq(c, "deps.node.lockfile.missing")
        || str_eq(c, "deps.python.lockfile.missing") {
        10
    } else if str_contains(c, "wildcard") {
        8
    } else if str_contains(c, "direct-source") {
        8
    } else if str_contains(c, "unpinned") {
        6
    } else if str_contains(c, "policy-missing") {
        3
    } else if str_contains(c, "license-missing") {
        4
    } else if str_contains(c, "vulnerability.critical") {
        28
    } else if str_contains(c, "vulnerability.high") {
        16
    } else {
        finding.severity.penalty()
    }
}

pub fn deps_score(findings: &Vec<DoctorFinding>) -> (s: u8)
    ensures
        s == score_after(deps_penalty_total(findings@)),
{
    let mut total: u64 = 0;
    let mut i: usize = 0;
    while i < findings.len()
        invariant
            i <= findings.len(),
            clamped_total(total, deps_penalty_total(findings@.take(i as int))),
        decreases findings.len() - i,
    {
        assert(findings@.take(i + 1).drop_last() =~= findings@.take(i as int));
        if total < 100 {
            total = total + generic_deps_penalty(&findings[i]) as u64;
        }
        i += 1;
    }
    assert(findings@.take(findings.len() as int) =~= findings@);
    score_from_total(total, Ghost(deps_penalty_total(findings@)))
}

/// The cap on a non-Rust dependency score: 39 with a critical
/// vulnerability, 49 with a high one.
pub open spec fn deps_cap_spec(fs: Seq<DoctorFinding>) -> Option<u8> {
    if has_code_containing(fs, "vulnerability.critical"@) {
        Some(39u8)
    } else if has_code_containing(fs, "vulnerability.high"@) {
        Some(49u8)
    } else {
        None
    }
}

pub fn deps_score_cap(findings: &Vec<DoctorFinding>) -> (c: Option<u8>)
    ensures
        c == deps_cap_spec(findings@),
{
    if any_code_containing(findings, "vulnerability.critical") {
        Some(39)
    } else if any_code_containing(findings, "vulnerability.high") {
        Some(49)
    } else {
        None
    }
}

pub open spec fn release_penalty_of(f: DoctorFinding) -> nat {
    let c = f.code@;
    if contains(c, "version.missing"@) {
        14
    } else if contains(c, "workflow.missing"@) {
        12
    } else if contains(c, "changelog.missing"@) {
        8
    } else if contains(c, "distribution.missing"@) {
        6
    } else if contains(c, "tag-signal.missing"@) {
        6
    } else {
        severity_penalty(f.severity)
    }
}

pub open spec fn release_penalty_total(fs: Seq<DoctorFinding>) -> nat
    decreases fs.len(),
{
    if fs.len() == 0 {
        0
    } else {
        release_penalty_total(fs.drop_last()) + release_penalty_of(fs.last())
    }
}

pub fn release_penalty(finding: &DoctorFinding) -> (p: u16)
    ensures
        p == release_penalty_of(*finding),
        p <= 20,
{
    let c = finding.code.as_str();
    if str_contains(c, "version.missing") {
        14
    } else if str_contains(c, "workflow.missing") {
        12
    } else if str_contains(c, "changelog.missing") {
        8
    } else if str_contains(c, "distribution.missing") {
        6
    } else if str_contains(c, "tag-signal.missing") {
        6
    } else {
        finding.severity.penalty()
    }
}

pub fn release_score(findings: &Vec<DoctorFinding>) -> (s: u8)
    ensures
        s == score_after(release_penalty_total(findings@)),
{
    let mut total: u64 = 0;
    let mut i: usize = 0;
    while i < findings.len()
        invariant
            i <= findings.len(),
            clamped_total(total, release_penalty_total(findings@.take(i as int))),
        decreases findings.len() - i,
    {
        assert(findings@.take(i + 1).drop_last() =~= findings@.take(i as int));
        if total < 100 {
            total = total + release_penalty(&findings[i]) as u64;
        }
        i += 1;
    }
    assert(findings@.take(findings.len() as int) =~= findings@);
    score_from_total(total, Ghost(release_penalty_total(findings@)))
}

/// Any release error caps the release score at 59.
pub fn release_score_cap(findings: &Vec<DoctorFinding>) -> (c: Option<u8>)
    ensures
        c == (if has_severity(findings@, DoctorSeverity::Error) {
            Some(59u8)
        } else {
            None
        }),
{
    if any_severity(findings, DoctorSeverity::Error) {
        Some(59)
    } else {
        None
    }
}

// ---------------------------------------------------------------------------
// Combining ecosystems
// ---------------------------------------------------------------------------

pub open spec fn score_sum(es: Seq<EcosystemDoctorScore>) -> nat
    decreases es.len(),
{
    if es.len() == 0 {
        0
    } else {
        score_sum(es.drop_last()) + es.last().score as nat
    }
}

/// The mean of the ecosystem scores, rounded down; `None` for no ecosystems.
/// The sum and the count are 16-bit quantities.
pub fn average_scores(scores: &Vec<EcosystemDoctorScore>) -> (r: Option<u8>)
    requires
        score_sum(scores@) <= 0xffff,
        scores@.len() <= 0xffff,
    ensures
        scores@.len() == 0 ==> r.is_none(),
        scores@.len() > 0 ==> r == Some((score_sum(scores@) / scores@.len()) as u8),
{
    if scores.len() == 0 {
        return None;
    }
    let mut total: u64 = 0;
    let mut i: usize = 0;
    while i < scores.len()
        invariant
            i <= scores.len(),
            score_sum(scores@) <= 0xffff,
            total == score_sum(scores@.take(i as int)),
        decreases scores.len() - i,
    {
        assert(scores@.take(i + 1).drop_last() =~= scores@.take(i as int));
        proof {
            lemma_score_sum_prefix(scores@, i as int + 1);
        }
        total = total + scores[i].score as u64;
        i += 1;
    }
    assert(scores@.take(scores.len() as int) =~= scores@);
    Some((total / (scores.len() as u64)) as u8)
}

pub proof fn lemma_score_sum_prefix(es: Seq<EcosystemDoctorScore>, n: int)
    requires
        0 <= n <= es.len(),
    ensures
        score_sum(es.take(n)) <= score_sum(es),
    decreases es.len(),
{
    if n < es.len() {
        assert(es.drop_last().take(n) =~= es.take(n));
        lemma_score_sum_prefix(es.drop_last(), n);
    } else {
        assert(es.take(n) =~= es);
    }
}

/// Managed when any ecosystem ran its managed tool, else absorbed policy.
pub open spec fn aggregate_source_spec(es: Seq<EcosystemDoctorScore>) -> EngineSource {
    if exists|i: int|
        0 <= i < es.len() && #[trigger] es[i].engine_source == EngineSource::ManagedTool {
        EngineSource::ManagedTool
    } else {
        EngineSource::AbsorbedPolicy
    }
}

pub fn aggregate_engine_source(scores: &Vec<EcosystemDoctorScore>) -> (r: EngineSource)
    ensures
        r == aggregate_source_spec(scores@),
{
    let mut i: usize = 0;
    while i < scores.len()
        invariant
            i <= scores.len(),
            forall|k: int|
                0 <= k < i ==> #[trigger] scores@[k].engine_source != EngineSource::ManagedTool,
        decreases scores.len() - i,
    {
        if scores[i].engine_source == EngineSource::ManagedTool {
            return EngineSource::ManagedTool;
        }
        i += 1;
    }
    EngineSource::AbsorbedPolicy
}

pub open spec fn deps_engine_name(e: DoctorEcosystem) -> Seq<char> {
    match e {
        DoctorEcosystem::Rust => "cargo-deny + ossify policy"@,
        DoctorEcosystem::Node => "audit-ci + ossify policy"@,
        DoctorEcosystem::Python => "pip-audit + ossify policy"@,
        DoctorEcosystem::Auto => "ossify policy"@,
    }
}

pub fn ecosystem_deps_engine(ecosystem: DoctorEcosystem) -> (r: &'static str)
    ensures
        r@ == deps_engine_name(ecosystem),
{
    match ecosystem {
        DoctorEcosystem::Rust => "cargo-deny + ossify policy",
        DoctorEcosystem::Node => "audit-ci + ossify policy",
        DoctorEcosystem::Python => "pip-audit + ossify policy",
        DoctorEcosystem::Auto => "ossify policy",
    }
}

pub open spec fn release_engine_name(e: DoctorEcosystem) -> Seq<char> {
    match e {
        DoctorEcosystem::Rust => "release-plz + git-cliff + cargo-dist + ossify policy"@,
        DoctorEcosystem::Node | DoctorEcosystem::Python => "release-please + ossify policy"@,
        DoctorEcosystem::Auto => "ossify policy"@,
    }
}

pub fn ecosystem_release_engine(ecosystem: DoctorEcosystem) -> (r: &'static str)
    ensures
        r@ == release_engine_name(ecosystem),
{
    match ecosystem {
        DoctorEcosystem::Rust => "release-plz + git-cliff + cargo-dist + ossify policy",
        DoctorEcosystem::Node | DoctorEcosystem::Python => "release-please + ossify policy",
        DoctorEcosystem::Auto => "ossify policy",
    }
}

} // verus!

verus! {

// ---------------------------------------------------------------------------
// Reports
// ---------------------------------------------------------------------------

#[derive(Debug, Clone)]
pub struct DocsDoctorReport {
    pub target: String,
    pub score: u8,
    pub markdown_files: usize,
    pub local_links_checked: usize,
    pub findings: Vec<DoctorFinding>,
}

pub open spec fn docs_summary_spec(errors: nat, warnings: nat) -> Seq<char> {
    if errors == 0 && warnings == 0 {
        "Documentation surface looks healthy."@
    } else if errors == 0 {
        "Documentation surface has "@ + counted(warnings, " warning(s)."@)
    } else if warnings == 0 {
        "Documentation surface has "@ + counted(errors, " error(s)."@)
    } else {
        "Documentation surface has "@ + counted(errors, " error(s) and "@) + counted(
            warnings,
            " warning(s)."@,
        )
    }
}

/// The documentation domain's entry for a docs report.
pub open spec fn docs_domain_matches(d: DoctorDomainScore, r: DocsDoctorReport) -> bool {
    &&& d.domain == DoctorDomain::Docs
    &&& d.score == Some(r.score)
    &&& d.cap.is_none()
    &&& d.cap_reason.is_none()
    &&& d.cap_code.is_none()
    &&& d.engine@ == "ossify markdown policy"@
    &&& d.engine_source == EngineSource::OssifyNative
    &&& d.ecosystems@.len() == 0
    &&& d.error_count == count_severity(r.findings@, DoctorSeverity::Error)
    &&& d.warning_count == count_severity(r.findings@, DoctorSeverity::Warning)
    &&& d.info_count == count_severity(r.findings@, DoctorSeverity::Info)
    &&& d.summary@ == docs_summary_spec(
        count_severity(r.findings@, DoctorSeverity::Error),
        count_severity(r.findings@, DoctorSeverity::Warning),
    )
}

impl DocsDoctorReport {
    pub fn error_count(&self) -> (n: usize)
        ensures
            n == count_severity(self.findings@, DoctorSeverity::Error),
    {
        count_with_severity(&self.findings, DoctorSeverity::Error)
    }

    pub fn warning_count(&self) -> (n: usize)
        ensures
            n == count_severity(self.findings@, DoctorSeverity::Warning),
    {
        count_with_severity(&self.findings, DoctorSeverity::Warning)
    }

    pub fn info_count(&self) -> (n: usize)
        ensures
            n == count_severity(self.findings@, DoctorSeverity::Info),
    {
        count_with_severity(&self.findings, DoctorSeverity::Info)
    }

    pub fn summary(&self) -> (s: String)
        ensures
            s@ == docs_summary_spec(
                count_severity(self.findings@, DoctorSeverity::Error),
                count_severity(self.findings@, DoctorSeverity::Warning),
            ),
    {
        let errors = self.error_count();
        let warnings = self.warning_count();
        if errors == 0 && warnings == 0 {
            "Documentation surface looks healthy.".to_owned()
        } else if errors == 0 {
            concat_str(
                "Documentation surface has ",
                counted_string(warnings, " warning(s).").as_str(),
            )
        } else if warnings == 0 {
            concat_str("Documentation surface has ", counted_string(errors, " error(s).").as_str())
        } else {
            let mut s = concat_str(
                "Documentation surface has ",
                counted_string(errors, " error(s) and ").as_str(),
            );
            s.append(counted_string(warnings, " warning(s).").as_str());
            s
        }
    }

    pub fn domain_score(&self) -> (d: DoctorDomainScore)
        ensures
            docs_domain_matches(d, *self),
    {
        DoctorDomainScore {
            domain: DoctorDomain::Docs,
            score: Some(self.score),
            cap: None,
            cap_reason: None,
            cap_code: None,
            engine: "ossify markdown policy".to_owned(),
            engine_source: EngineSource::OssifyNative,
            ecosystems: Vec::new(),
            error_count: self.error_count(),
            warning_count: self.warning_count(),
            info_count: self.info_count(),
            summary: self.summary(),
        }
    }
}

#[derive(Debug, Clone)]
pub struct WorkflowDoctorReport {
    pub target: String,
    pub score: Option<u8>,
    pub workflow_files: usize,
    pub engine: String,
    pub engine_available: bool,
    pub findings: Vec<DoctorFinding>,
}

pub open spec fn workflow_summary_spec(r: WorkflowDoctorReport) -> Seq<char> {
    let e = count_severity(r.findings@, DoctorSeverity::Error);
    let w = count_severity(r.findings@, DoctorSeverity::Warning);
    let i = count_severity(r.findings@, DoctorSeverity::Info);
    if !r.engine_available {
        if has_code(r.findings@, "workflow.engine-bootstrap-failed"@) {
            "Workflow doctor could not bootstrap actionlint automatically."@
        } else {
            "Workflow doctor needs actionlint to run external checks."@
        }
    } else if r.workflow_files == 0 {
        "No GitHub Actions workflow files were found."@
    } else if e == 0 && w == 0 && i == 0 {
        "Workflow surface looks healthy under actionlint and ossify hygiene checks."@
    } else if e == 0 && w == 0 {
        "Workflow surface passes actionlint but still has "@ + counted(i, " hygiene signal(s)."@)
    } else if e == 0 {
        "Workflow surface passes actionlint but still has "@ + join_seq(
            count_parts(0, w, i),
            " and "@,
        ) + "."@
    } else {
        "Workflow surface has "@ + counted(e, " actionlint error(s)."@)
    }
}

/// The first finding that caps the workflow score, read from the front:
/// `Some(true)` for a syntax error, `Some(false)` for another error.
pub open spec fn workflow_cap_kind(fs: Seq<DoctorFinding>) -> Option<bool>
    decreases fs.len(),
{
    if fs.len() == 0 {
        None
    } else if fs[0].code@ == "workflow.syntax-check"@ {
        Some(true)
    } else if fs[0].severity == DoctorSeverity::Error {
        Some(false)
    } else {
        workflow_cap_kind(fs.drop_first())
    }
}

fn workflow_cap_kind_exec(findings: &Vec<DoctorFinding>) -> (r: Option<bool>)
    ensures
        r == workflow_cap_kind(findings@),
{
    let mut i: usize = 0;
    assert(findings@.subrange(0, findings@.len() as int) =~= findings@);
    while i < findings.len()
        invariant
            i <= findings.len(),
            workflow_cap_kind(findings@) == workflow_cap_kind(
                findings@.subrange(i as int, findings@.len() as int),
            ),
        decreases findings.len() - i,
    {
        let ghost rest = findings@.subrange(i as int, findings@.len() as int);
        assert(rest[0] == findings@[i as int]);
        if str_eq(findings[i].code.as_str(), "workflow.syntax-check") {
            return Some(true);
        }
        if findings[i].severity == DoctorSeverity::Error {
            return Some(false);
        }
        assert(rest.drop_first() =~= findings@.subrange(i + 1, findings@.len() as int));
        i += 1;
    }
    None
}

/// The workflow domain's entry for a workflow report.
pub open spec fn workflow_domain_matches(d: DoctorDomainScore, r: WorkflowDoctorReport) -> bool {
    &&& d.domain == DoctorDomain::Workflow
    &&& d.score == r.score
    &&& d.cap == (match workflow_cap_kind(r.findings@) {
        Some(true) => Some(49u8),
        Some(false) => Some(69u8),
        None => None,
    })
    &&& match workflow_cap_kind(r.findings@) {
        Some(true) => d.cap_reason.is_some() && d.cap_reason.unwrap()@
            == "workflow syntax error capped workflow score at 49/100"@ && d.cap_code.is_some()
            && d.cap_code.unwrap()@ == "workflow.syntax-check"@,
        Some(false) => d.cap_reason.is_some() && d.cap_reason.unwrap()@
            == "actionlint runtime errors cap workflow score below 70/100"@ && d.cap_code.is_some()
            && d.cap_code.unwrap()@ == "workflow.actionlint.error"@,
        None => d.cap_reason.is_none() && d.cap_code.is_none(),
    }
    &&& d.engine@ == r.engine@
    &&& d.engine_source == EngineSource::ManagedTool
    &&& d.ecosystems@.len() == 0
    &&& d.error_count == count_severity(r.findings@, DoctorSeverity::Error)
    &&& d.warning_count == count_severity(r.findings@, DoctorSeverity::Warning)
    &&& d.info_count == count_severity(r.findings@, DoctorSeverity::Info)
    &&& d.summary@ == workflow_summary_spec(r)
}

impl WorkflowDoctorReport {
    pub fn error_count(&self) -> (n: usize)
        ensures
            n == count_severity(self.findings@, DoctorSeverity::Error),
    {
        count_with_severity(&self.findings, DoctorSeverity::Error)
    }

    pub fn warning_count(&self) -> (n: usize)
        ensures
            n == count_severity(self.findings@, DoctorSeverity::Warning),
    {
        count_with_severity(&self.findings, DoctorSeverity::Warning)
    }

    pub fn info_count(&self) -> (n: usize)
        ensures
            n == count_severity(self.findings@, DoctorSeverity::Info),
    {
        count_with_severity(&self.findings, DoctorSeverity::Info)
    }

    pub fn summary(&self) -> (s: String)
        ensures
            s@ == workflow_summary_spec(*self),
    {
        if !self.engine_available {
            if any_code(&self.findings, "workflow.engine-bootstrap-failed") {
                return "Workflow doctor could not bootstrap actionlint automatically.".to_owned();
            }
            return "Workflow doctor needs actionlint to run external checks.".to_owned();
        }
        if self.workflow_files == 0 {
            return "No GitHub Actions workflow files were found.".to_owned();
        }
        let e = self.error_count();
        let w = self.warning_count();
        let i = self.info_count();
        if e == 0 && w == 0 && i == 0 {
            "Workflow surface looks healthy under actionlint and ossify hygiene checks.".to_owned()
        } else if e == 0 && w == 0 {
            concat_str(
                "Workflow surface passes actionlint but still has ",
                counted_string(i, " hygiene signal(s).").as_str(),
            )
        } else if e == 0 {
            let parts = count_parts_vec(0, w, i);
            let mut s = concat_str(
                "Workflow surface passes actionlint but still has ",
                join_strings(&parts, " and ").as_str(),
            );
            s.append(".");
            s
        } else {
            concat_str("Workflow surface has ", counted_string(e, " actionlint error(s).").as_str())
        }
    }

    pub fn domain_score(&self) -> (d: DoctorDomainScore)
        ensures
            workflow_domain_matches(d, *self),
    {
        let kind = workflow_cap_kind_exec(&self.findings);
        let (cap, cap_reason, cap_code) = match kind {
            Some(true) => (
                Some(49u8),
                Some("workflow syntax error capped workflow score at 49/100".to_owned()),
                Some("workflow.syntax-check".to_owned()),
            ),
            Some(false) => (
                Some(69u8),
                Some("actionlint runtime errors cap workflow score below 70/100".to_owned()),
                Some("workflow.actionlint.error".to_owned()),
            ),
            None => (None, None, None),
        };
        DoctorDomainScore {
            domain: DoctorDomain::Workflow,
            score: self.score,
            cap,
            cap_reason,
            cap_code,
            engine: self.engine.clone(),
            engine_source: EngineSource::ManagedTool,
            ecosystems: Vec::new(),
            error_count: self.error_count(),
            warning_count: self.warning_count(),
            info_count: self.info_count(),
            summary: self.summary(),
        }
    }
}

#[derive(Debug, Clone)]
pub struct DepsDoctorReport {
    pub target: String,
    pub requested_ecosystem: DoctorEcosystem,
    pub ecosystems: Vec<EcosystemDoctorScore>,
    pub domain: DoctorDomainScore,
    pub findings: Vec<DoctorFinding>,
}

impl DepsDoctorReport {
    pub fn error_count(&self) -> (n: usize)
        ensures
            n == count_severity(self.findings@, DoctorSeverity::Error),
    {
        count_with_severity(&self.findings, DoctorSeverity::Error)
    }

    pub fn warning_count(&self) -> (n: usize)
        ensures
            n == count_severity(self.findings@, DoctorSeverity::Warning),
    {
        count_with_severity(&self.findings, DoctorSeverity::Warning)
    }

    pub fn info_count(&self) -> (n: usize)
        ensures
            n == count_severity(self.findings@, DoctorSeverity::Info),
    {
        count_with_severity(&self.findings, DoctorSeverity::Info)
    }

    pub fn summary(&self) -> (s: &str)
        ensures
            s@ == self.domain.summary@,
    {
        self.domain.summary.as_str()
    }
}

#[derive(Debug, Clone)]
pub struct ReleaseDoctorReport {
    pub target: String,
    pub requested_ecosystem: DoctorEcosystem,
    pub ecosystems: Vec<EcosystemDoctorScore>,
    pub domain: DoctorDomainScore,
    pub findings: Vec<DoctorFinding>,
}

impl ReleaseDoctorReport {
    pub fn error_count(&self) -> (n: usize)
        ensures
            n == count_severity(self.findings@, DoctorSeverity::Error),
    {
        count_with_severity(&self.findings, DoctorSeverity::Error)
    }

    pub fn warning_count(&self) -> (n: usize)
        ensures
            n == count_severity(self.findings@, DoctorSeverity::Warning),
    {
        count_with_severity(&self.findings, DoctorSeverity::Warning)
    }

    pub fn info_count(&self) -> (n: usize)
        ensures
            n == count_severity(self.findings@, DoctorSeverity::Info),
    {
        count_with_severity(&self.findings, DoctorSeverity::Info)
    }

    pub fn summary(&self) -> (s: &str)
        ensures
            s@ == self.domain.summary@,
    {
        self.domain.summary.as_str()
    }
}

} // verus!

verus! {

// ---------------------------------------------------------------------------
// Engine fallbacks
// ---------------------------------------------------------------------------

pub open spec fn fallback_severity(s: ManagedEngineStatus) -> DoctorSeverity {
    match s {
        ManagedEngineStatus::HeuristicFallback | ManagedEngineStatus::Managed => DoctorSeverity::Info,
        _ => DoctorSeverity::Warning,
    }
}

pub open spec fn fallback_suffix(s: ManagedEngineStatus) -> Seq<char> {
    match s {
        ManagedEngineStatus::HeuristicFallback => "engine-missing"@,
        ManagedEngineStatus::RuntimeMissing => "engine-runtime-missing"@,
        ManagedEngineStatus::BootstrapFailed => "engine-bootstrap-failed"@,
        ManagedEngineStatus::ExecutionFailed => "engine-execution-failed"@,
        ManagedEngineStatus::ParseFailed => "engine-parse-failed"@,
        ManagedEngineStatus::Managed => "engine-managed"@,
    }
}

fn fallback_suffix_exec(s: ManagedEngineStatus) -> (r: &'static str)
    ensures
        r@ == fallback_suffix(s),
{
    match s {
        ManagedEngineStatus::HeuristicFallback => "engine-missing",
        ManagedEngineStatus::RuntimeMissing => "engine-runtime-missing",
        ManagedEngineStatus::BootstrapFailed => "engine-bootstrap-failed",
        ManagedEngineStatus::ExecutionFailed => "engine-execution-failed",
        ManagedEngineStatus::ParseFailed => "engine-parse-failed",
        ManagedEngineStatus::Managed => "engine-managed",
    }
}

/// The finding that reports a managed engine that could not run: `help`
/// is the given text, or else the engine's own message.
pub open spec fn fallback_finding_spec(
    f: DoctorFinding,
    domain: DoctorDomain,
    ecosystem: DoctorEcosystem,
    error: ManagedEngineError,
    help: Option<Seq<char>>,
) -> bool {
    &&& f.domain == domain
    &&& f.ecosystem == Some(ecosystem)
    &&& f.severity == fallback_severity(error.status)
    &&& f.code@ == domain_label(domain) + "."@ + ecosystem_label(ecosystem) + "."@
        + fallback_suffix(error.status)
    &&& f.message@ == "Managed "@ + tool_display_name(error.tool)
        + " checks could not run cleanly, so ossify used degraded fallback heuristics."@
    &&& f.file.is_none()
    &&& f.help matches Some(h) && h@ == (match help {
        Some(x) => x,
        None => error.message@,
    })
    &&& f.evidence@.len() == 0
    &&& f.fix_hint matches Some(h) && h@ == "Restore the managed "@ + tool_display_name(error.tool)
        + " path to upgrade this ecosystem back to high-confidence engine-backed checks."@
    &&& f.engine matches Some(e) && e@ == tool_display_name(error.tool)
}

/// The finding recorded when an ecosystem's managed engine could not run and
/// the absorbed heuristics were used instead.
pub fn managed_engine_fallback_finding(
    domain: DoctorDomain,
    ecosystem: DoctorEcosystem,
    error: &ManagedEngineError,
    help: Option<String>,
) -> (f: DoctorFinding)
    ensures
        fallback_finding_spec(f, domain, ecosystem, *error, opt_seq(help)),
{
    let severity = match error.status {
        ManagedEngineStatus::HeuristicFallback | ManagedEngineStatus::Managed => DoctorSeverity::Info,
        _ => DoctorSeverity::Warning,
    };
    let name = error.tool.display_name();
    let mut code = concat_str(domain.label(), ".");
    code.append(ecosystem.label());
    code.append(".");
    code.append(fallback_suffix_exec(error.status));
    let mut message = concat_str("Managed ", name);
    message.append(" checks could not run cleanly, so ossify used degraded fallback heuristics.");
    let mut hint = concat_str("Restore the managed ", name);
    hint.append(" path to upgrade this ecosystem back to high-confidence engine-backed checks.");
    let help = match help {
        Some(h) => Some(h),
        None => Some(error.message.clone()),
    };
    doctor_finding_with_detail(
        domain,
        Some(ecosystem),
        severity,
        code.as_str(),
        message.as_str(),
        None,
        help,
        Vec::new(),
        Some(hint),
        Some(name.to_owned()),
    )
}

pub open spec fn engine_error_code(s: ManagedEngineStatus) -> Seq<char> {
    match s {
        ManagedEngineStatus::RuntimeMissing => "workflow.engine-runtime-missing"@,
        ManagedEngineStatus::BootstrapFailed => "workflow.engine-bootstrap-failed"@,
        ManagedEngineStatus::ExecutionFailed => "workflow.engine-execution-failed"@,
        _ => "workflow.engine-missing"@,
    }
}

pub open spec fn engine_error_message(s: ManagedEngineStatus) -> Seq<char> {
    match s {
        ManagedEngineStatus::RuntimeMissing =>
            "actionlint could not be bootstrapped because a required runtime or platform path was missing."@,
        ManagedEngineStatus::BootstrapFailed =>
            "actionlint was missing and automatic bootstrap did not complete."@,
        ManagedEngineStatus::ExecutionFailed =>
            "actionlint is available but failed during execution."@,
        _ => "actionlint is not available, so external workflow checks could not run."@,
    }
}

/// The workflow report when actionlint could not be used: no score, one
/// finding that says why.
pub fn workflow_engine_error_report(
    target: &str,
    workflow_files: usize,
    error: &ManagedEngineError,
) -> (r: WorkflowDoctorReport)
    ensures
        r.target@ == target@,
        r.score.is_none(),
        r.workflow_files == workflow_files,
        r.engine@ == "actionlint"@,
        !r.engine_available,
        r.findings@.len() == 1,
        r.findings@[0].domain == DoctorDomain::Workflow,
        r.findings@[0].ecosystem.is_none(),
        r.findings@[0].severity == (if error.status == ManagedEngineStatus::HeuristicFallback {
            DoctorSeverity::Info
        } else {
            DoctorSeverity::Warning
        }),
        r.findings@[0].code@ == engine_error_code(error.status),
        r.findings@[0].message@ == engine_error_message(error.status),
        r.findings@[0].file.is_none(),
        r.findings@[0].help matches Some(h) && h@ == error.message@,
        r.findings@[0].evidence@.len() == 0,
        r.findings@[0].fix_hint matches Some(h) && h@
            == "Let ossify manage the workflow engine automatically, or point `OSSIFY_ACTIONLINT` at a working binary."@,
        r.findings@[0].engine matches Some(e) && e@ == "actionlint"@,
{
    let (code, message) = match error.status {
        ManagedEngineStatus::RuntimeMissing => (
            "workflow.engine-runtime-missing",
            "actionlint could not be bootstrapped because a required runtime or platform path was missing.",
        ),
        ManagedEngineStatus::BootstrapFailed => (
            "workflow.engine-bootstrap-failed",
            "actionlint was missing and automatic bootstrap did not complete.",
        ),
        ManagedEngineStatus::ExecutionFailed => (
            "workflow.engine-execution-failed",
            "actionlint is available but failed during execution.",
        ),
        _ => (
            "workflow.engine-missing",
            "actionlint is not available, so external workflow checks could not run.",
        ),
    };
    let severity = if error.status == ManagedEngineStatus::HeuristicFallback {
        DoctorSeverity::Info
    } else {
        DoctorSeverity::Warning
    };
    let finding = doctor_finding_with_detail(
        DoctorDomain::Workflow,
        None,
        severity,
        code,
        message,
        None,
        Some(error.message.clone()),
        Vec::new(),
        Some(
            "Let ossify manage the workflow engine automatically, or point `OSSIFY_ACTIONLINT` at a working binary.".to_owned(),
        ),
        Some("actionlint".to_owned()),
    );
    let mut findings = Vec::new();
    findings.push(finding);
    WorkflowDoctorReport {
        target: target.to_owned(),
        score: None,
        workflow_files,
        engine: "actionlint".to_owned(),
        engine_available: false,
        findings,
    }
}

// ---------------------------------------------------------------------------
// Ecosystems
// ---------------------------------------------------------------------------

/// The ecosystems to scan: the requested one, or under `Auto` those whose
/// manifests are present, in the order Rust, Node, Python.
pub open spec fn ecosystems_spec(
    requested: DoctorEcosystem,
    has_cargo: bool,
    has_package_json: bool,
    has_python: bool,
) -> Seq<DoctorEcosystem> {
    if requested != DoctorEcosystem::Auto {
        seq![requested]
    } else {
        (if has_cargo {
            seq![DoctorEcosystem::Rust]
        } else {
            Seq::empty()
        }) + (if has_package_json {
            seq![DoctorEcosystem::Node]
        } else {
            Seq::empty()
        }) + (if has_python {
            seq![DoctorEcosystem::Python]
        } else {
            Seq::empty()
        })
    }
}

/// `has_cargo`: `Cargo.toml` is a file at the root; `has_package_json`:
/// `package.json` is; `has_python`: `pyproject.toml` is, or a requirements
/// file exists.
pub fn requested_or_detected_ecosystems(
    requested: DoctorEcosystem,
    has_cargo: bool,
    has_package_json: bool,
    has_python: bool,
) -> (v: Vec<DoctorEcosystem>)
    ensures
        v@ == ecosystems_spec(requested, has_cargo, has_package_json, has_python),
{
    let mut v = Vec::new();
    if requested != DoctorEcosystem::Auto {
        v.push(requested);
        assert(v@ =~= seq![requested]);
        return v;
    }
    if has_cargo {
        v.push(DoctorEcosystem::Rust);
    }
    if has_package_json {
        v.push(DoctorEcosystem::Node);
    }
    if has_python {
        v.push(DoctorEcosystem::Python);
    }
    assert(v@ =~= ecosystems_spec(requested, has_cargo, has_package_json, has_python));
    v
}

// ---------------------------------------------------------------------------
// Non-Rust dependency scoring
// ---------------------------------------------------------------------------

/// How `{:?}` writes an ecosystem.
pub open spec fn ecosystem_debug(e: DoctorEcosystem) -> Seq<char> {
    match e {
        DoctorEcosystem::Auto => "Auto"@,
        DoctorEcosystem::Rust => "Rust"@,
        DoctorEcosystem::Node => "Node"@,
        DoctorEcosystem::Python => "Python"@,
    }
}

fn ecosystem_debug_exec(e: DoctorEcosystem) -> (r: &'static str)
    ensures
        r@ == ecosystem_debug(e),
{
    match e {
        DoctorEcosystem::Auto => "Auto",
        DoctorEcosystem::Rust => "Rust",
        DoctorEcosystem::Node => "Node",
        DoctorEcosystem::Python => "Python",
    }
}

#[derive(Debug, Clone)]
pub struct DepsScoring {
    pub score: u8,
    pub cap: Option<u8>,
    pub cap_reason: Option<String>,
    pub cap_code: Option<String>,
}

/// What the generic dependency scoring gives for a list of findings.
pub open spec fn generic_scoring_matches(
    r: DepsScoring,
    ecosystem: DoctorEcosystem,
    fs: Seq<DoctorFinding>,
) -> bool {
    &&& r.cap == deps_cap_spec(fs)
    &&& r.score == (match deps_cap_spec(fs) {
        Some(c) => min_nat(score_after(deps_penalty_total(fs)), c as nat),
        None => score_after(deps_penalty_total(fs)),
    })
    &&& match deps_cap_spec(fs) {
        Some(c) => (r.cap_reason matches Some(s) && s@ == ecosystem_debug(ecosystem)
            + " dependency findings capped score at "@ + decimal(c as nat) + "/100"@) && (
        r.cap_code matches Some(s) && s@ == "deps."@ + ecosystem_label(ecosystem) + ".cap"@),
        None => r.cap_reason.is_none() && r.cap_code.is_none(),
    }
}

/// What the calibrated Rust scoring gives for a list of findings.
pub open spec fn rust_scoring_matches(
    r: DepsScoring,
    fs: Seq<DoctorFinding>,
    p: crate::rust_deps::RustDepsScoringProfile,
) -> bool {
    let f = crate::rust_deps::features_spec(fs);
    &&& r.score == crate::rust_deps::rust_score_spec(f, p)
    &&& match crate::rust_deps::best_candidate(crate::rust_deps::cap_candidates(f, p)) {
        Some(c) => {
            &&& r.cap == Some(c.0)
            &&& r.cap_code matches Some(code) && code@ == crate::rust_deps::class_code(c.1)
            &&& r.cap_reason matches Some(reason) && reason@
                == crate::rust_deps::cap_reason_spec(fs, c.1, c.0)
        },
        None => r.cap.is_none() && r.cap_code.is_none() && r.cap_reason.is_none(),
    }
}

/// The scoring of one ecosystem's dependency findings.
pub open spec fn deps_scoring_matches(
    r: DepsScoring,
    ecosystem: DoctorEcosystem,
    fs: Seq<DoctorFinding>,
    p: crate::rust_deps::RustDepsScoringProfile,
) -> bool {
    if ecosystem == DoctorEcosystem::Rust {
        rust_scoring_matches(r, fs, p)
    } else {
        generic_scoring_matches(r, ecosystem, fs)
    }
}

/// The generic dependency scoring that Node and Python use.
pub fn generic_deps_scoring(ecosystem: DoctorEcosystem, findings: &Vec<DoctorFinding>) -> (r:
    DepsScoring)
    ensures
        generic_scoring_matches(r, ecosystem, findings@),
{
    let cap = deps_score_cap(findings);
    let mut score = deps_score(findings);
    match cap {
        Some(c) => {
            if c < score {
                score = c;
            }
            let mut reason = concat_str(
                ecosystem_debug_exec(ecosystem),
                " dependency findings capped score at ",
            );
            reason.append(decimal_string(c as u64).as_str());
            reason.append("/100");
            let mut code = concat_str("deps.", ecosystem.label());
            code.append(".cap");
            DepsScoring { score, cap, cap_reason: Some(reason), cap_code: Some(code) }
        },
        None => DepsScoring { score, cap, cap_reason: None, cap_code: None },
    }
}

/// Rust findings are scored with the calibrated profile; the other
/// ecosystems with the generic penalties.
pub fn deps_scoring_for_ecosystem(
    ecosystem: DoctorEcosystem,
    findings: &Vec<DoctorFinding>,
    profile: &crate::rust_deps::RustDepsScoringProfile,
) -> (r: DepsScoring)
    requires
        ecosystem == DoctorEcosystem::Rust ==> crate::rust_deps::feature_counts_fit(findings@),
        ecosystem == DoctorEcosystem::Rust ==> crate::rust_deps::penalty_fits(
            crate::rust_deps::features_spec(findings@),
            *profile,
        ),
    ensures
        deps_scoring_matches(r, ecosystem, findings@, *profile),
{
    if ecosystem == DoctorEcosystem::Rust {
        let o = crate::rust_deps::score_rust_deps_findings(findings, profile);
        return DepsScoring {
            score: o.score,
            cap: o.cap,
            cap_reason: o.cap_reason,
            cap_code: o.cap_code,
        };
    }
    generic_deps_scoring(ecosystem, findings)
}

} // verus!

verus! {

// ---------------------------------------------------------------------------
// Workflow action references
// ---------------------------------------------------------------------------

/// The reference after the last `@`, if any.
pub open spec fn action_reference(s: Seq<char>) -> Option<Seq<char>> {
    match crate::text::last_index_of(s, '@') {
        Some(i) => Some(s.subrange(i + 1, s.len() as int)),
        None => None,
    }
}

/// A full 40-character commit SHA.
pub open spec fn is_full_sha(r: Seq<char>) -> bool {
    r.len() == 40 && forall|j: int| 0 <= j < r.len() ==> crate::text::is_ascii_hex(#[trigger] r[j])
}

/// A `uses:` reference can move under the workflow: not a local or docker
/// action, has an `@ref`, and the ref is not a full commit SHA.
pub open spec fn is_mutable_action_ref_spec(s: Seq<char>) -> bool {
    if crate::text::starts_with(s, "./"@) || crate::text::starts_with(s, "docker://"@) {
        false
    } else {
        match action_reference(s) {
            Some(r) => !is_full_sha(r),
            None => false,
        }
    }
}

pub fn is_mutable_action_ref(action_ref: &str) -> (b: bool)
    ensures
        b == is_mutable_action_ref_spec(action_ref@),
{
    if crate::text::str_starts_with(action_ref, "./") || crate::text::str_starts_with(
        action_ref,
        "docker://",
    ) {
        return false;
    }
    match crate::text::rfind_char(action_ref, '@') {
        None => false,
        Some(i) => {
            let all = crate::text::chars_of(action_ref);
            assert(i < all.len());
            let reference = crate::text::subvec(&all, i + 1, all.len());
            assert(action_reference(action_ref@) == Some(reference@));
            if reference.len() != 40 {
                return true;
            }
            assert(is_mutable_action_ref_spec(action_ref@) == !is_full_sha(reference@));
            let mut j: usize = 0;
            while j < reference.len()
                invariant
                    j <= reference.len() == 40,
                    is_mutable_action_ref_spec(action_ref@) == !is_full_sha(reference@),
                    forall|k: int| 0 <= k < j ==> crate::text::is_ascii_hex(#[trigger] reference@[k]),
                decreases reference.len() - j,
            {
                if !crate::text::is_ascii_hex_char(reference[j]) {
                    return true;
                }
                j += 1;
            }
            false
        },
    }
}

pub fn is_official_github_action_ref(action_ref: &str) -> (b: bool)
    ensures
        b == crate::text::starts_with(action_ref@, "actions/"@),
{
    crate::text::str_starts_with(action_ref, "actions/")
}

// ---------------------------------------------------------------------------
// Text helpers of the doctors
// ---------------------------------------------------------------------------

/// At most four values joined by ", ", then "+N more" for the rest.
pub open spec fn join_preview_spec(values: Seq<Seq<char>>) -> Seq<char> {
    if values.len() <= 4 {
        join_seq(values, ", "@)
    } else {
        join_seq(values.take(4).push("+"@ + decimal((values.len() - 4) as nat) + " more"@), ", "@)
    }
}

pub fn join_preview(values: &Vec<String>) -> (r: String)
    ensures
        r@ == join_preview_spec(views(values@)),
{
    if values.len() <= 4 {
        return join_strings(values, ", ");
    }
    let mut preview: Vec<String> = Vec::new();
    let mut i: usize = 0;
    while i < 4
        invariant
            i <= 4 < values.len(),
            views(preview@) == views(values@).take(i as int),
        decreases 4 - i,
    {
        let ghost before = views(preview@);
        preview.push(values[i].clone());
        assert(views(preview@) =~= before.push(values@[i as int]@));
        assert(views(values@).take(i + 1) =~= views(values@).take(i as int).push(values@[i as int]@));
        i += 1;
    }
    let mut more = concat_str("+", decimal_string((values.len() - 4) as u64).as_str());
    more.append(" more");
    let ghost before = views(preview@);
    preview.push(more);
    assert(views(preview@) =~= before.push(more@));
    join_strings(&preview, ", ")
}

/// Some heading, lowercased, contains some candidate.
pub open spec fn has_heading_spec(headings: Seq<Seq<char>>, candidates: Seq<Seq<char>>) -> bool {
    exists|i: int, j: int|
        0 <= i < headings.len() && 0 <= j < candidates.len() && contains(
            crate::text::str_lowercase(#[trigger] headings[i]),
            #[trigger] candidates[j],
        )
}

pub fn has_heading(headings: &Vec<String>, candidates: &Vec<String>) -> (b: bool)
    ensures
        b == has_heading_spec(views(headings@), views(candidates@)),
{
    let mut i: usize = 0;
    while i < headings.len()
        invariant
            i <= headings.len(),
            forall|a: int, j: int|
                0 <= a < i && 0 <= j < candidates.len() ==> !contains(
                    crate::text::str_lowercase(#[trigger] views(headings@)[a]),
                    #[trigger] views(candidates@)[j],
                ),
        decreases headings.len() - i,
    {
        let normalized = crate::text::to_lowercase(headings[i].as_str());
        let mut j: usize = 0;
        while j < candidates.len()
            invariant
                i < headings.len(),
                j <= candidates.len(),
                normalized@ == crate::text::str_lowercase(headings@[i as int]@),
                forall|a: int, k: int|
                    0 <= a < i && 0 <= k < candidates.len() ==> !contains(
                        crate::text::str_lowercase(#[trigger] views(headings@)[a]),
                        #[trigger] views(candidates@)[k],
                    ),
                forall|k: int|
                    0 <= k < j ==> !contains(normalized@, #[trigger] views(candidates@)[k]),
            decreases candidates.len() - j,
        {
            if str_contains(normalized.as_str(), candidates[j].as_str()) {
                assert(views(headings@)[i as int] == headings@[i as int]@);
                assert(views(candidates@)[j as int] == candidates@[j as int]@);
                return true;
            }
            j += 1;
        }
        assert forall|a: int, k: int|
            0 <= a < i + 1 && 0 <= k < candidates.len() implies !contains(
                crate::text::str_lowercase(#[trigger] views(headings@)[a]),
                #[trigger] views(candidates@)[k],
            ) by {
            if a == i {
                assert(views(headings@)[a] == headings@[i as int]@);
            }
        }
        i += 1;
    }
    false
}

/// A link in a Markdown file that points inside the repository.
#[derive(Debug, Clone)]
pub struct LocalLink {
    pub path: Option<String>,
    pub anchor: Option<String>,
}

pub open spec fn nonempty_opt(s: Seq<char>) -> Option<Seq<char>> {
    if s.len() > 0 {
        Some(s)
    } else {
        None
    }
}

/// Not empty and not an `http`, `https`, `mailto`, `tel` or `data` URL.
pub open spec fn is_local_destination(d: Seq<char>) -> bool {
    d.len() > 0 && !crate::text::starts_with(d, "http://"@) && !crate::text::starts_with(
        d,
        "https://"@,
    ) && !crate::text::starts_with(d, "mailto:"@) && !crate::text::starts_with(d, "tel:"@)
        && !crate::text::starts_with(d, "data:"@)
}

/// The path before the first `#` and the anchor after it, each only when
/// not empty.
pub open spec fn local_link_parts(d: Seq<char>) -> (Option<Seq<char>>, Option<Seq<char>>) {
    match crate::text::first_index_of(d, '#') {
        Some(i) => (nonempty_opt(d.subrange(0, i)), nonempty_opt(d.subrange(i + 1, d.len() as int))),
        None => (nonempty_opt(d), None),
    }
}

fn nonempty_string(s: String) -> (r: Option<String>)
    ensures
        crate::rust_deps::opt_view(r) == nonempty_opt(s@),
{
    if s.unicode_len() > 0 {
        Some(s)
    } else {
        None
    }
}

pub fn parse_local_link(destination: &str) -> (r: Option<LocalLink>)
    ensures
        is_local_destination(destination@) <==> r.is_some(),
        r matches Some(l) ==> (crate::rust_deps::opt_view(l.path), crate::rust_deps::opt_view(
            l.anchor,
        )) == local_link_parts(destination@),
{
    if destination.unicode_len() == 0 || crate::text::str_starts_with(destination, "http://")
        || crate::text::str_starts_with(destination, "https://") || crate::text::str_starts_with(
        destination,
        "mailto:",
    ) || crate::text::str_starts_with(destination, "tel:") || crate::text::str_starts_with(
        destination,
        "data:",
    ) {
        return None;
    }
    match crate::text::find_char(destination, '#') {
        Some(i) => {
            let path = crate::text::prefix_until(destination, i);
            let anchor = crate::text::suffix_from(destination, i + 1);
            Some(LocalLink { path: nonempty_string(path), anchor: nonempty_string(anchor) })
        },
        None => Some(LocalLink { path: nonempty_string(destination.to_owned()), anchor: None }),
    }
}

/// Characters of a heading slug before the surrounding dashes are trimmed:
/// ASCII letters and digits lowercased, every other run turned into one dash.
pub open spec fn slug_raw(s: Seq<char>, previous_dash: bool) -> Seq<char>
    decreases s.len(),
{
    if s.len() == 0 {
        Seq::empty()
    } else if crate::text::is_ascii_alnum(s[0]) {
        seq![crate::text::ascii_lower(s[0])] + slug_raw(s.drop_first(), false)
    } else if !previous_dash {
        seq!['-'] + slug_raw(s.drop_first(), true)
    } else {
        slug_raw(s.drop_first(), true)
    }
}

/// The GitHub-style anchor slug of a heading.
pub open spec fn slugify_heading_spec(s: Seq<char>) -> Seq<char> {
    crate::text::trim_char_seq(slug_raw(s, false), '-')
}

pub fn slugify_heading(value: &str) -> (r: String)
    ensures
        r@ == slugify_heading_spec(value@),
{
    let v = crate::text::chars_of(value);
    let mut slug: Vec<char> = Vec::new();
    let mut previous_dash = false;
    let mut i: usize = 0;
    assert(v@.subrange(0, v@.len() as int) =~= v@);
    while i < v.len()
        invariant
            i <= v.len(),
            v@ == value@,
            slug@ + slug_raw(v@.subrange(i as int, v@.len() as int), previous_dash) == slug_raw(
                value@,
                false,
            ),
        decreases v.len() - i,
    {
        let ghost rest = v@.subrange(i as int, v@.len() as int);
        assert(rest.drop_first() =~= v@.subrange(i + 1, v@.len() as int));
        let ch = v[i];
        if crate::text::is_ascii_alnum_char(ch) {
            let ghost old_slug = slug@;
            slug.push(crate::text::ascii_lower_char(ch));
            assert(old_slug + (seq![crate::text::ascii_lower(ch)] + slug_raw(rest.drop_first(), false))
                =~= slug@ + slug_raw(rest.drop_first(), false));
            previous_dash = false;
        } else if !previous_dash {
            let ghost old_slug = slug@;
            slug.push('-');
            assert(old_slug + (seq!['-'] + slug_raw(rest.drop_first(), true)) =~= slug@ + slug_raw(
                rest.drop_first(),
                true,
            ));
            previous_dash = true;
        }
        i += 1;
    }
    assert(v@.subrange(i as int, v@.len() as int) =~= Seq::<char>::empty());
    assert(slug@ + Seq::<char>::empty() =~= slug@);
    crate::text::string_from_chars(&crate::text::trim_char(&slug, '-'))
}

/// One diagnostic that actionlint reported.
#[derive(Debug, Clone)]
pub struct ActionlintError {
    pub filepath: String,
    pub message: String,
    pub line: usize,
    pub column: usize,
    pub kind: Option<String>,
}

/// The diagnostic's message, with its line and column when both are known.
pub open spec fn actionlint_message_spec(entry: ActionlintError) -> Seq<char> {
    if entry.line > 0 && entry.column > 0 {
        entry.message@ + " (line "@ + decimal(entry.line as nat) + ", col "@ + decimal(
            entry.column as nat,
        ) + ")"@
    } else {
        entry.message@
    }
}

pub fn format_actionlint_message(entry: &ActionlintError) -> (r: String)
    ensures
        r@ == actionlint_message_spec(*entry),
{
    if entry.line > 0 && entry.column > 0 {
        let mut s = concat_str(entry.message.as_str(), " (line ");
        s.append(decimal_string(entry.line as u64).as_str());
        s.append(", col ");
        s.append(decimal_string(entry.column as u64).as_str());
        s.append(")");
        s
    } else {
        entry.message.clone()
    }
}

/// Arguments for `pip-audit`: JSON output without the spinner, then either
/// one `--requirement` per requirements file, or `--locked` (with a
/// `pyproject.toml`) and the project directory.
pub open spec fn python_audit_args_spec(requirements: Seq<Seq<char>>, has_pyproject: bool) -> Seq<
    Seq<char>,
> {
    let base = seq!["--format"@, "json"@, "--progress-spinner"@, "off"@];
    if requirements.len() > 0 {
        base + requirement_args(requirements)
    } else {
        base + (if has_pyproject {
            seq!["--locked"@]
        } else {
            Seq::empty()
        }) + seq!["."@]
    }
}

pub open spec fn requirement_args(names: Seq<Seq<char>>) -> Seq<Seq<char>>
    decreases names.len(),
{
    if names.len() == 0 {
        Seq::empty()
    } else {
        requirement_args(names.drop_last()) + seq!["--requirement"@, names.last()]
    }
}

/// `requirement_files`: the file names of the requirements files found.
pub fn python_audit_args(requirement_files: &Vec<String>, has_pyproject: bool) -> (r: Vec<String>)
    ensures
        views(r@) == python_audit_args_spec(views(requirement_files@), has_pyproject),
{
    let mut args: Vec<String> = Vec::new();
    args.push("--format".to_owned());
    args.push("json".to_owned());
    args.push("--progress-spinner".to_owned());
    args.push("off".to_owned());
    let ghost base = views(args@);
    assert(base =~= seq!["--format"@, "json"@, "--progress-spinner"@, "off"@]);
    if requirement_files.len() > 0 {
        let mut i: usize = 0;
        while i < requirement_files.len()
            invariant
                i <= requirement_files.len(),
                views(args@) == base + requirement_args(views(requirement_files@).take(i as int)),
            decreases requirement_files.len() - i,
        {
            let ghost before = views(args@);
            assert(views(requirement_files@).take(i + 1).drop_last() =~= views(requirement_files@).take(
                i as int,
            ));
            args.push("--requirement".to_owned());
            args.push(requirement_files[i].clone());
            assert(views(args@) =~= before + seq!["--requirement"@, requirement_files@[i as int]@]);
            i += 1;
        }
        assert(views(requirement_files@).take(requirement_files.len() as int) =~= views(
            requirement_files@,
        ));
    } else {
        if has_pyproject {
            args.push("--locked".to_owned());
        }
        args.push(".".to_owned());
        assert(views(args@) =~= python_audit_args_spec(views(requirement_files@), has_pyproject));
    }
    args
}

} // verus!

verus! {

// ---------------------------------------------------------------------------
// Findings as plain values
// ---------------------------------------------------------------------------

/// What a finding says, with every string taken by its characters.
pub struct FindingView {
    pub domain: DoctorDomain,
    pub ecosystem: Option<DoctorEcosystem>,
    pub severity: DoctorSeverity,
    pub code: Seq<char>,
    pub message: Seq<char>,
    pub file: Option<Seq<char>>,
    pub help: Option<Seq<char>>,
    pub evidence: Seq<Seq<char>>,
    pub fix_hint: Option<Seq<char>>,
    pub engine: Option<Seq<char>>,
}

pub open spec fn opt_seq(o: Option<String>) -> Option<Seq<char>> {
    match o {
        Some(s) => Some(s@),
        None => None,
    }
}

pub open spec fn view_of(f: DoctorFinding) -> FindingView {
    FindingView {
        domain: f.domain,
        ecosystem: f.ecosystem,
        severity: f.severity,
        code: f.code@,
        message: f.message@,
        file: opt_seq(f.file),
        help: opt_seq(f.help),
        evidence: views(f.evidence@),
        fix_hint: opt_seq(f.fix_hint),
        engine: opt_seq(f.engine),
    }
}

pub open spec fn views_of(fs: Seq<DoctorFinding>) -> Seq<FindingView> {
    fs.map_values(|f: DoctorFinding| view_of(f))
}

/// A finding with every optional part present.
pub open spec fn full_view(
    domain: DoctorDomain,
    ecosystem: DoctorEcosystem,
    severity: DoctorSeverity,
    code: Seq<char>,
    message: Seq<char>,
    file: Seq<char>,
    help: Seq<char>,
    evidence: Seq<Seq<char>>,
    fix_hint: Seq<char>,
    engine: Seq<char>,
) -> FindingView {
    FindingView {
        domain,
        ecosystem: Some(ecosystem),
        severity,
        code,
        message,
        file: Some(file),
        help: Some(help),
        evidence,
        fix_hint: Some(fix_hint),
        engine: Some(engine),
    }
}

/// A "nothing to scan here" finding: no file, evidence, fix hint or engine.
pub open spec fn plain_view(
    domain: DoctorDomain,
    ecosystem: DoctorEcosystem,
    severity: DoctorSeverity,
    code: Seq<char>,
    message: Seq<char>,
    help: Seq<char>,
) -> FindingView {
    FindingView {
        domain,
        ecosystem: Some(ecosystem),
        severity,
        code,
        message,
        file: None,
        help: Some(help),
        evidence: Seq::empty(),
        fix_hint: None,
        engine: None,
    }
}

pub open spec fn finding_if(c: bool, f: FindingView) -> Seq<FindingView> {
    if c {
        seq![f]
    } else {
        Seq::empty()
    }
}

pub fn full_finding(
    domain: DoctorDomain,
    ecosystem: DoctorEcosystem,
    severity: DoctorSeverity,
    code: &str,
    message: &str,
    file: &str,
    help: &str,
    evidence: Vec<String>,
    fix_hint: &str,
    engine: &str,
) -> (f: DoctorFinding)
    ensures
        view_of(f) == full_view(
            domain,
            ecosystem,
            severity,
            code@,
            message@,
            file@,
            help@,
            views(evidence@),
            fix_hint@,
            engine@,
        ),
{
    doctor_finding_with_detail(
        domain,
        Some(ecosystem),
        severity,
        code,
        message,
        Some(file.to_owned()),
        Some(help.to_owned()),
        evidence,
        Some(fix_hint.to_owned()),
        Some(engine.to_owned()),
    )
}

pub fn plain_finding(
    domain: DoctorDomain,
    ecosystem: DoctorEcosystem,
    severity: DoctorSeverity,
    code: &str,
    message: &str,
    help: &str,
) -> (f: DoctorFinding)
    ensures
        view_of(f) == plain_view(domain, ecosystem, severity, code@, message@, help@),
{
    let f = doctor_finding(
        domain,
        Some(ecosystem),
        severity,
        code,
        message,
        None,
        Some(help.to_owned()),
    );
    assert(views(f.evidence@) =~= Seq::<Seq<char>>::empty());
    f
}

/// Appends `f` when `c` holds.
pub fn push_when(out: &mut Vec<DoctorFinding>, c: bool, f: DoctorFinding)
    ensures
        views_of(final(out)@) == views_of(old(out)@) + finding_if(c, view_of(f)),
{
    if c {
        out.push(f);
        assert(views_of(final(out)@) =~= views_of(old(out)@) + finding_if(c, view_of(f)));
    } else {
        assert(views_of(final(out)@) =~= views_of(old(out)@) + finding_if(c, view_of(f)));
    }
}

/// `"{prefix}{names joined by ", "}."`.
pub open spec fn listed(prefix: Seq<char>, names: Seq<Seq<char>>) -> Seq<char> {
    prefix + join_seq(names, ", "@) + "."@
}

pub fn listed_string(prefix: &str, names: &Vec<String>) -> (r: String)
    ensures
        r@ == listed(prefix@, views(names@)),
{
    let mut s = concat_str(prefix, join_strings(names, ", ").as_str());
    s.append(".");
    s
}

} // verus!

verus! {

/// A one-item list of evidence.
pub fn one_item(s: &str) -> (r: Vec<String>)
    ensures
        views(r@) == seq![s@],
{
    let mut v: Vec<String> = Vec::new();
    v.push(s.to_owned());
    assert(views(v@) =~= seq![s@]);
    v
}

} // verus!

verus! {

/// An empty list of evidence.
pub fn no_evidence() -> (r: Vec<String>)
    ensures
        views(r@) == Seq::<Seq<char>>::empty(),
{
    let v: Vec<String> = Vec::new();
    assert(views(v@) =~= Seq::<Seq<char>>::empty());
    v
}

} // verus!

verus! {

// ---------------------------------------------------------------------------
// Deduplicating findings
// ---------------------------------------------------------------------------

pub open spec fn severity_debug(s: DoctorSeverity) -> Seq<char> {
    match s {
        DoctorSeverity::Error => "Error"@,
        DoctorSeverity::Warning => "Warning"@,
        DoctorSeverity::Info => "Info"@,
    }
}

/// How `{:?}` writes an optional ecosystem.
pub open spec fn opt_ecosystem_debug(e: Option<DoctorEcosystem>) -> Seq<char> {
    match e {
        Some(x) => "Some("@ + ecosystem_debug(x) + ")"@,
        None => "None"@,
    }
}

/// The identity of a finding for deduplication: code, severity, ecosystem,
/// file and message, joined with `::`.
pub open spec fn finding_key(f: DoctorFinding) -> Seq<char> {
    f.code@ + "::"@ + severity_debug(f.severity) + "::"@ + opt_ecosystem_debug(f.ecosystem) + "::"@
        + (match f.file {
        Some(p) => p@,
        None => Seq::empty(),
    }) + "::"@ + f.message@
}

fn finding_key_exec(f: &DoctorFinding) -> (k: String)
    ensures
        k@ == finding_key(*f),
{
    let mut k = concat_str(f.code.as_str(), "::");
    k.append(match f.severity {
        DoctorSeverity::Error => "Error",
        DoctorSeverity::Warning => "Warning",
        DoctorSeverity::Info => "Info",
    });
    k.append("::");
    match f.ecosystem {
        Some(x) => {
            k.append("Some(");
            k.append(ecosystem_debug_exec(x));
            k.append(")");
        },
        None => {
            k.append("None");
        },
    }
    k.append("::");
    match &f.file {
        Some(p) => {
            k.append(p.as_str());
        },
        None => {
            assert(k@ + Seq::<char>::empty() =~= k@);
        },
    }
    k.append("::");
    k.append(f.message.as_str());
    k
}

/// The findings with later repeats of a key dropped, first occurrences in
/// order.
pub open spec fn dedup_findings_spec(fs: Seq<DoctorFinding>) -> Seq<DoctorFinding>
    decreases fs.len(),
{
    if fs.len() == 0 {
        Seq::empty()
    } else {
        let prev = dedup_findings_spec(fs.drop_last());
        if exists|i: int| 0 <= i < fs.len() - 1 && finding_key(#[trigger] fs[i]) == finding_key(fs.last()) {
            prev
        } else {
            prev.push(fs.last())
        }
    }
}

pub fn dedup_findings(findings: Vec<DoctorFinding>) -> (r: Vec<DoctorFinding>)
    ensures
        r@ == dedup_findings_spec(findings@),
{
    let mut ordered: Vec<DoctorFinding> = Vec::new();
    let mut seen: Vec<String> = Vec::new();
    let ghost all = findings@;
    let n = findings.len();
    assert(all.len() == n);
    let mut i: usize = 0;
    let mut rest = findings;
    assert(rest@ =~= all.subrange(0, all.len() as int));
    while rest.len() > 0
        invariant
            i + rest@.len() == all.len(),
            all.len() <= usize::MAX,
            rest@ == all.subrange(i as int, all.len() as int),
            ordered@ == dedup_findings_spec(all.take(i as int)),
            forall|x: Seq<char>|
                views(seen@).contains(x) <==> exists|k: int|
                    0 <= k < i && finding_key(#[trigger] all[k]) == x,
        decreases rest.len(),
    {
        let f = rest.remove(0);
        assert(f == all[i as int]);
        assert(rest@ =~= all.subrange(i + 1, all.len() as int));
        let key = finding_key_exec(&f);
        let mut found = false;
        let mut j: usize = 0;
        while j < seen.len()
            invariant
                j <= seen.len(),
                found == exists|q: int| 0 <= q < j && #[trigger] views(seen@)[q] == key@,
            decreases seen.len() - j,
        {
            assert(views(seen@)[j as int] == seen@[j as int]@);
            if str_eq(seen[j].as_str(), key.as_str()) {
                found = true;
            }
            j += 1;
        }
        let ghost t1 = all.take(i + 1);
        assert(t1.drop_last() =~= all.take(i as int));
        assert(t1.last() == f);
        proof {
            if found {
                let q = choose|q: int| 0 <= q < seen@.len() && #[trigger] views(seen@)[q] == key@;
                assert(views(seen@).contains(key@));
                let k = choose|k: int| 0 <= k < i && finding_key(#[trigger] all[k]) == key@;
                assert(t1[k] == all[k]);
            } else {
                assert(!views(seen@).contains(key@));
                assert forall|k: int| 0 <= k < t1.len() - 1 implies finding_key(#[trigger] t1[k])
                    != finding_key(t1.last()) by {
                    assert(t1[k] == all[k]);
                }
            }
        }
        let ghost old_seen = views(seen@);
        if !found {
            seen.push(key);
            assert(views(seen@) =~= old_seen.push(finding_key(f)));
            ordered.push(f);
        }
        assert forall|x: Seq<char>|
            views(seen@).contains(x) <==> exists|k: int|
                0 <= k < i + 1 && finding_key(#[trigger] all[k]) == x by {
            if views(seen@).contains(x) {
                if old_seen.contains(x) {
                    let k = choose|k: int| 0 <= k < i && finding_key(#[trigger] all[k]) == x;
                    assert(finding_key(all[k]) == x);
                } else {
                    let q = choose|q: int| 0 <= q < views(seen@).len() && views(seen@)[q] == x;
                    if q < old_seen.len() {
                        assert(old_seen[q] == x);
                    }
                    assert(finding_key(all[i as int]) == x);
                }
            }
            if exists|k: int| 0 <= k < i + 1 && finding_key(#[trigger] all[k]) == x {
                let k = choose|k: int| 0 <= k < i + 1 && finding_key(#[trigger] all[k]) == x;
                if k < i {
                    assert(old_seen.contains(x));
                    let q = choose|q: int| 0 <= q < old_seen.len() && old_seen[q] == x;
                    assert(views(seen@)[q] == x);
                } else {
                    if found {
                        let q = choose|q: int| 0 <= q < old_seen.len() && #[trigger] old_seen[q] == key@;
                        assert(views(seen@)[q] == x);
                    } else {
                        assert(views(seen@)[old_seen.len() as int] == x);
                    }
                }
            }
        }
        i += 1;
    }
    assert(all.take(i as int) =~= all);
    ordered
}

} // verus!

verus! {

/// The deduplication key of a finding, read from its view.
pub open spec fn view_key(v: FindingView) -> Seq<char> {
    v.code + "::"@ + severity_debug(v.severity) + "::"@ + opt_ecosystem_debug(v.ecosystem) + "::"@
        + (match v.file {
        Some(p) => p,
        None => Seq::empty(),
    }) + "::"@ + v.message
}

pub open spec fn dedup_views_spec(vs: Seq<FindingView>) -> Seq<FindingView>
    decreases vs.len(),
{
    if vs.len() == 0 {
        Seq::empty()
    } else {
        let prev = dedup_views_spec(vs.drop_last());
        if exists|i: int| 0 <= i < vs.len() - 1 && view_key(#[trigger] vs[i]) == view_key(vs.last()) {
            prev
        } else {
            prev.push(vs.last())
        }
    }
}

/// Deduplicating findings and then viewing them is viewing them and then
/// deduplicating the views.
pub proof fn lemma_dedup_views(fs: Seq<DoctorFinding>)
    ensures
        views_of(dedup_findings_spec(fs)) == dedup_views_spec(views_of(fs)),
    decreases fs.len(),
{
    if fs.len() > 0 {
        lemma_dedup_views(fs.drop_last());
        let vs = views_of(fs);
        assert(views_of(fs.drop_last()) =~= vs.drop_last());
        assert forall|i: int| 0 <= i < fs.len() implies view_key(#[trigger] vs[i]) == finding_key(fs[i]) by {
            assert(vs[i] == view_of(fs[i]));
        }
        if exists|i: int| 0 <= i < fs.len() - 1 && finding_key(#[trigger] fs[i]) == finding_key(fs.last()) {
            let i = choose|i: int| 0 <= i < fs.len() - 1 && finding_key(#[trigger] fs[i]) == finding_key(fs.last());
            assert(view_key(vs[i]) == view_key(vs.last()));
        }
        if exists|i: int| 0 <= i < vs.len() - 1 && view_key(#[trigger] vs[i]) == view_key(vs.last()) {
            let i = choose|i: int| 0 <= i < vs.len() - 1 && view_key(#[trigger] vs[i]) == view_key(vs.last());
            assert(finding_key(fs[i]) == finding_key(fs.last()));
        }
        let prev = dedup_findings_spec(fs.drop_last());
        assert(views_of(prev.push(fs.last())) =~= views_of(prev).push(view_of(fs.last())));
    }
}

} // verus!
