//! The repository audit: check statuses, rule weights, coverage arithmetic,
//! readiness tiers, and the Markdown and text signals the rules read.
use vstd::prelude::*;
use crate::config::RuleRequirement;
use crate::project::RepoProfile;
use crate::text::{
    ascii_lower, chars_of, contains, ends_with, is_alphanumeric_char, lines, lines_of, lowercase_char,
    starts_with, str_contains, str_ends_with, str_eq, str_lowercase, str_starts_with,
    string_from_chars, to_lowercase, trim, trim_seq, trim_start, trim_start_char, trim_start_seq,
    unicode_white_space, views,
};

verus! {

// ---------------------------------------------------------------------------
// Statuses, tiers, categories
// ---------------------------------------------------------------------------

#[derive(Debug, Clone, Copy, PartialEq, Eq, Structural)]
pub enum CheckStatus {
    Strong,
    Partial,
    Missing,
}

pub open spec fn status_str(s: CheckStatus) -> Seq<char> {
    match s {
        CheckStatus::Strong => "strong"@,
        CheckStatus::Partial => "partial"@,
        CheckStatus::Missing => "missing"@,
    }
}

/// Coverage of 85 or more is strong, 20 or more partial, less missing.
pub open spec fn status_from_coverage(coverage: u8) -> CheckStatus {
    if coverage >= 85 {
        CheckStatus::Strong
    } else if coverage >= 20 {
        CheckStatus::Partial
    } else {
        CheckStatus::Missing
    }
}

pub open spec fn meets(s: CheckStatus, r: RuleRequirement) -> bool {
    match r {
        RuleRequirement::Partial => s == CheckStatus::Partial || s == CheckStatus::Strong,
        RuleRequirement::Strong => s == CheckStatus::Strong,
    }
}

impl CheckStatus {
    pub fn as_str(self) -> (r: &'static str)
        ensures
            r@ == status_str(self),
    {
        match self {
            CheckStatus::Strong => "strong",
            CheckStatus::Partial => "partial",
            CheckStatus::Missing => "missing",
        }
    }

    pub fn from_coverage(coverage: u8) -> (s: CheckStatus)
        ensures
            s == status_from_coverage(coverage),
    {
        if coverage >= 85 {
            CheckStatus::Strong
        } else if coverage >= 20 {
            CheckStatus::Partial
        } else {
            CheckStatus::Missing
        }
    }

    pub fn meets_requirement(self, requirement: RuleRequirement) -> (b: bool)
        ensures
            b == meets(self, requirement),
    {
        match requirement {
            RuleRequirement::Partial => self == CheckStatus::Partial || self == CheckStatus::Strong,
            RuleRequirement::Strong => self == CheckStatus::Strong,
        }
    }
}

#[derive(Debug, Clone, Copy, PartialEq, Eq, Structural)]
pub enum ReadinessTier {
    LaunchReady,
    Promising,
    Rough,
}

pub open spec fn tier_str(t: ReadinessTier) -> Seq<char> {
    match t {
        ReadinessTier::LaunchReady => "launch-ready"@,
        ReadinessTier::Promising => "promising"@,
        ReadinessTier::Rough => "rough"@,
    }
}

impl ReadinessTier {
    pub fn as_str(self) -> (r: &'static str)
        ensures
            r@ == tier_str(self),
    {
        match self {
            ReadinessTier::LaunchReady => "launch-ready",
            ReadinessTier::Promising => "promising",
            ReadinessTier::Rough => "rough",
        }
    }
}

/// 85 and above is launch-ready, 60 and above promising, below that rough.
pub open spec fn tier_for(score: u8) -> ReadinessTier {
    if score >= 85 {
        ReadinessTier::LaunchReady
    } else if score >= 60 {
        ReadinessTier::Promising
    } else {
        ReadinessTier::Rough
    }
}

pub fn readiness_tier(score: u8) -> (t: ReadinessTier)
    ensures
        t == tier_for(score),
{
    if score >= 85 {
        ReadinessTier::LaunchReady
    } else if score >= 60 {
        ReadinessTier::Promising
    } else {
        ReadinessTier::Rough
    }
}

#[derive(Debug, Clone, Copy, PartialEq, Eq, Structural)]
pub enum RuleCategory {
    Identity,
    Docs,
    Community,
    Automation,
    Release,
}

pub open spec fn category_str(c: RuleCategory) -> Seq<char> {
    match c {
        RuleCategory::Identity => "identity"@,
        RuleCategory::Docs => "docs"@,
        RuleCategory::Community => "community"@,
        RuleCategory::Automation => "automation"@,
        RuleCategory::Release => "release"@,
    }
}

impl RuleCategory {
    pub fn as_str(self) -> (r: &'static str)
        ensures
            r@ == category_str(self),
    {
        match self {
            RuleCategory::Identity => "identity",
            RuleCategory::Docs => "docs",
            RuleCategory::Community => "community",
            RuleCategory::Automation => "automation",
            RuleCategory::Release => "release",
        }
    }
}

#[derive(Debug, Clone, Copy, PartialEq, Eq, Structural)]
pub enum Fixability {
    Automatic,
    Guided,
    Manual,
}

pub open spec fn fixability_str(f: Fixability) -> Seq<char> {
    match f {
        Fixability::Automatic => "automatic"@,
        Fixability::Guided => "guided"@,
        Fixability::Manual => "manual"@,
    }
}

impl Fixability {
    pub fn as_str(self) -> (r: &'static str)
        ensures
            r@ == fixability_str(self),
    {
        match self {
            Fixability::Automatic => "automatic",
            Fixability::Guided => "guided",
            Fixability::Manual => "manual",
        }
    }

    /// Anything but manual work can be fixed by the tool.
    pub fn is_fixable(self) -> (b: bool)
        ensures
            b == (self != Fixability::Manual),
    {
        self != Fixability::Manual
    }
}

#[derive(Debug, Clone, Copy, PartialEq, Eq, Structural)]
pub enum FindingSeverity {
    Error,
    Warning,
    Info,
}

pub open spec fn finding_severity_str(s: FindingSeverity) -> Seq<char> {
    match s {
        FindingSeverity::Error => "error"@,
        FindingSeverity::Warning => "warning"@,
        FindingSeverity::Info => "info"@,
    }
}

pub open spec fn finding_severity_rank(s: FindingSeverity) -> nat {
    match s {
        FindingSeverity::Error => 0,
        FindingSeverity::Warning => 1,
        FindingSeverity::Info => 2,
    }
}

impl FindingSeverity {
    pub fn as_str(self) -> (r: &'static str)
        ensures
            r@ == finding_severity_str(self),
    {
        match self {
            FindingSeverity::Error => "error",
            FindingSeverity::Warning => "warning",
            FindingSeverity::Info => "info",
        }
    }

    pub fn rank(self) -> (r: u8)
        ensures
            r == finding_severity_rank(self),
    {
        match self {
            FindingSeverity::Error => 0,
            FindingSeverity::Warning => 1,
            FindingSeverity::Info => 2,
        }
    }
}

// ---------------------------------------------------------------------------
// Findings and scores
// ---------------------------------------------------------------------------

/// One concrete gap behind a check.  `location` is the path it is about.
#[derive(Debug, Clone)]
pub struct AuditFinding {
    pub id: String,
    pub severity: FindingSeverity,
    pub message: String,
    pub help: String,
    pub evidence: Vec<String>,
    pub location: Option<String>,
}

/// A finding together with the rule it belongs to.
#[derive(Debug, Clone)]
pub struct AuditDiagnostic {
    pub rule_id: String,
    pub rule_label: String,
    pub category: RuleCategory,
    pub severity: FindingSeverity,
    pub message: String,
    pub help: String,
    pub evidence: Vec<String>,
    pub location: Option<String>,
}

/// An improvement the fix plan expects to make to a check.
#[derive(Debug, Clone)]
pub struct PlannedCheckUpgrade {
    pub rule_id: String,
    pub message: String,
    pub evidence: Vec<String>,
    pub location: Option<String>,
}

#[derive(Debug, Clone, Copy)]
pub struct CategoryScore {
    pub category: RuleCategory,
    pub earned: u16,
    pub total: u16,
    pub score: u8,
}

/// `earned` as a percentage of `total`, rounded down; zero for no total.
pub open spec fn percentage_spec(earned: u16, total: u16) -> u8 {
    if total == 0 {
        0
    } else {
        ((earned * 100) / (total as int)) as u8
    }
}

pub fn percentage(earned: u16, total: u16) -> (p: u8)
    ensures
        p == percentage_spec(earned, total),
{
    if total == 0 {
        0
    } else {
        ((earned as u32 * 100) / (total as u32)) as u8
    }
}

/// `matched` out of `total` as a percentage; zero for no total.
pub fn coverage_ratio(matched: usize, total: usize) -> (c: u8)
    requires
        matched * 100 <= u32::MAX,
        total <= u32::MAX,
    ensures
        c == (if total == 0 {
            0u8
        } else {
            ((matched * 100) / (total as int)) as u8
        }),
{
    if total == 0 {
        0
    } else {
        (((matched as u32) * 100) / (total as u32)) as u8
    }
}

pub open spec fn weight_total(parts: Seq<(u8, bool)>) -> nat
    decreases parts.len(),
{
    if parts.len() == 0 {
        0
    } else {
        weight_total(parts.drop_last()) + parts.last().0 as nat
    }
}

pub open spec fn weight_matched(parts: Seq<(u8, bool)>) -> nat
    decreases parts.len(),
{
    if parts.len() == 0 {
        0
    } else {
        weight_matched(parts.drop_last()) + if parts.last().1 {
            parts.last().0 as nat
        } else {
            0nat
        }
    }
}

pub proof fn lemma_weight_matched_le(parts: Seq<(u8, bool)>)
    ensures
        weight_matched(parts) <= weight_total(parts),
    decreases parts.len(),
{
    if parts.len() > 0 {
        lemma_weight_matched_le(parts.drop_last());
    }
}

pub proof fn lemma_weight_total_prefix(parts: Seq<(u8, bool)>, n: int)
    requires
        0 <= n <= parts.len(),
    ensures
        weight_total(parts.take(n)) <= weight_total(parts),
        weight_matched(parts.take(n)) <= weight_matched(parts),
    decreases parts.len(),
{
    if n < parts.len() {
        assert(parts.drop_last().take(n) =~= parts.take(n));
        lemma_weight_total_prefix(parts.drop_last(), n);
    } else {
        assert(parts.take(n) =~= parts);
    }
}

/// The matched share of the weights, as a percentage; zero for no weight.
pub open spec fn weighted_coverage_spec(parts: Seq<(u8, bool)>) -> u8 {
    if weight_total(parts) == 0 {
        0
    } else {
        ((weight_matched(parts) * 100) / weight_total(parts)) as u8
    }
}

/// A weighted coverage is at most 100.
pub broadcast proof fn lemma_weighted_coverage_bounded(parts: Seq<(u8, bool)>)
    ensures
        #[trigger] weighted_coverage_spec(parts) <= 100,
{
    lemma_weight_matched_le(parts);
    let m = weight_matched(parts) as int;
    let t = weight_total(parts) as int;
    if t > 0 {
        assert((m * 100) / t <= 100) by (nonlinear_arith)
            requires
                0 <= m <= t,
                t > 0,
        ;
    }
}

pub fn weighted_coverage(parts: &Vec<(u8, bool)>) -> (c: u8)
    requires
        weight_total(parts@) * 100 <= u32::MAX,
    ensures
        c == weighted_coverage_spec(parts@),
{
    let mut total: u32 = 0;
    let mut earned: u32 = 0;
    let mut i: usize = 0;
    while i < parts.len()
        invariant
            i <= parts.len(),
            weight_total(parts@) * 100 <= u32::MAX,
            total == weight_total(parts@.take(i as int)),
            earned == weight_matched(parts@.take(i as int)),
        decreases parts.len() - i,
    {
        assert(parts@.take(i + 1).drop_last() =~= parts@.take(i as int));
        proof {
            lemma_weight_total_prefix(parts@, i + 1);
            lemma_weight_matched_le(parts@.take(i + 1));
        }
        let (w, matched) = parts[i];
        total = total + w as u32;
        if matched {
            earned = earned + w as u32;
        }
        i += 1;
    }
    assert(parts@.take(parts.len() as int) =~= parts@);
    if total == 0 {
        return 0;
    }
    proof {
        lemma_weight_matched_le(parts@);
    }
    ((earned * 100) / total) as u8
}

/// Points a check earns: its weight scaled by coverage, rounded to nearest.
pub open spec fn points_for(weight: u16, coverage: u8) -> u16 {
    ((weight * coverage + 50) / 100) as u16
}

pub fn coverage_to_points(weight: u16, coverage: u8) -> (p: u16)
    ensures
        p == points_for(weight, coverage),
{
    assert(weight * coverage <= 65535 * 255) by (nonlinear_arith)
        requires
            weight <= 65535,
            coverage <= 255,
    ;
    ((weight as u32 * coverage as u32 + 50) / 100) as u16
}

/// The coverage a status stands for when a rule reports no finer measure.
pub open spec fn default_coverage_spec(s: CheckStatus) -> u8 {
    match s {
        CheckStatus::Strong => 100,
        CheckStatus::Partial => 60,
        CheckStatus::Missing => 0,
    }
}

pub fn default_coverage(status: CheckStatus) -> (c: u8)
    ensures
        c == default_coverage_spec(status),
{
    match status {
        CheckStatus::Strong => 100,
        CheckStatus::Partial => 60,
        CheckStatus::Missing => 0,
    }
}

} // verus!

verus! {

// ---------------------------------------------------------------------------
// Rules and weights
// ---------------------------------------------------------------------------

/// The weight of a rule for a repository profile before configuration.
pub open spec fn base_weight(id: Seq<char>, p: RepoProfile) -> u16 {
    if id == "project_manifest"@ {
        8
    } else if id == "manifest_metadata"@ {
        match p {
            RepoProfile::Library => 14,
            RepoProfile::Cli => 12,
            RepoProfile::App => 11,
            RepoProfile::Generic => 10,
        }
    } else if id == "license"@ {
        12
    } else if id == "readme"@ {
        match p {
            RepoProfile::Cli => 16,
            RepoProfile::App => 15,
            _ => 14,
        }
    } else if id == "examples"@ {
        match p {
            RepoProfile::Library => 10,
            RepoProfile::Cli => 8,
            RepoProfile::App => 6,
            RepoProfile::Generic => 7,
        }
    } else if id == "contributing_guide"@ || id == "code_of_conduct"@ {
        6
    } else if id == "security_policy"@ {
        if p == RepoProfile::App {
            10
        } else {
            8
        }
    } else if id == "issue_templates"@ {
        6
    } else if id == "pull_request_template"@ {
        4
    } else if id == "codeowners"@ {
        if p == RepoProfile::Cli {
            5
        } else {
            4
        }
    } else if id == "funding"@ {
        3
    } else if id == "ci_workflow"@ {
        10
    } else if id == "tests"@ {
        match p {
            RepoProfile::Library => 10,
            RepoProfile::App => 9,
            _ => 8,
        }
    } else if id == "lint_and_format"@ {
        5
    } else if id == "dependabot"@ {
        4
    } else if id == "changelog"@ {
        6
    } else if id == "release_workflow"@ {
        if p == RepoProfile::Cli {
            7
        } else {
            6
        }
    } else {
        5
    }
}

pub fn base_rule_weight(id: &str, profile: RepoProfile) -> (w: u16)
    ensures
        w == base_weight(id@, profile),
{
    if str_eq(id, "project_manifest") {
        8
    } else if str_eq(id, "manifest_metadata") {
        match profile {
            RepoProfile::Library => 14,
            RepoProfile::Cli => 12,
            RepoProfile::App => 11,
            RepoProfile::Generic => 10,
        }
    } else if str_eq(id, "license") {
        12
    } else if str_eq(id, "readme") {
        match profile {
            RepoProfile::Cli => 16,
            RepoProfile::App => 15,
            _ => 14,
        }
    } else if str_eq(id, "examples") {
        match profile {
            RepoProfile::Library => 10,
            RepoProfile::Cli => 8,
            RepoProfile::App => 6,
            RepoProfile::Generic => 7,
        }
    } else if str_eq(id, "contributing_guide") || str_eq(id, "code_of_conduct") {
        6
    } else if str_eq(id, "security_policy") {
        if profile == RepoProfile::App {
            10
        } else {
            8
        }
    } else if str_eq(id, "issue_templates") {
        6
    } else if str_eq(id, "pull_request_template") {
        4
    } else if str_eq(id, "codeowners") {
        if profile == RepoProfile::Cli {
            5
        } else {
            4
        }
    } else if str_eq(id, "funding") {
        3
    } else if str_eq(id, "ci_workflow") {
        10
    } else if str_eq(id, "tests") {
        match profile {
            RepoProfile::Library => 10,
            RepoProfile::App => 9,
            _ => 8,
        }
    } else if str_eq(id, "lint_and_format") {
        5
    } else if str_eq(id, "dependabot") {
        4
    } else if str_eq(id, "changelog") {
        6
    } else if str_eq(id, "release_workflow") {
        if profile == RepoProfile::Cli {
            7
        } else {
            6
        }
    } else {
        5
    }
}

/// A rule of the audit: its id, label, category, how it can be fixed, and
/// the hint shown when it falls short.
#[derive(Debug, Clone, Copy)]
pub struct RuleSpec {
    pub id: &'static str,
    pub label: &'static str,
    pub category: RuleCategory,
    pub fixability: Fixability,
    pub hint: &'static str,
}

/// The eighteen rule ids, in audit order.
pub open spec fn rule_ids() -> Seq<Seq<char>> {
    seq![
        "project_manifest"@,
        "manifest_metadata"@,
        "license"@,
        "readme"@,
        "examples"@,
        "contributing_guide"@,
        "code_of_conduct"@,
        "security_policy"@,
        "issue_templates"@,
        "pull_request_template"@,
        "codeowners"@,
        "funding"@,
        "ci_workflow"@,
        "tests"@,
        "lint_and_format"@,
        "dependabot"@,
        "changelog"@,
        "release_workflow"@,
    ]
}

pub open spec fn rule_categories() -> Seq<RuleCategory> {
    seq![
        RuleCategory::Identity,
        RuleCategory::Identity,
        RuleCategory::Identity,
        RuleCategory::Docs,
        RuleCategory::Docs,
        RuleCategory::Community,
        RuleCategory::Community,
        RuleCategory::Community,
        RuleCategory::Community,
        RuleCategory::Community,
        RuleCategory::Community,
        RuleCategory::Community,
        RuleCategory::Automation,
        RuleCategory::Automation,
        RuleCategory::Automation,
        RuleCategory::Automation,
        RuleCategory::Release,
        RuleCategory::Release,
    ]
}

pub open spec fn rule_fixabilities() -> Seq<Fixability> {
    seq![
        Fixability::Manual,
        Fixability::Manual,
        Fixability::Automatic,
        Fixability::Automatic,
        Fixability::Manual,
        Fixability::Automatic,
        Fixability::Automatic,
        Fixability::Automatic,
        Fixability::Automatic,
        Fixability::Automatic,
        Fixability::Guided,
        Fixability::Guided,
        Fixability::Automatic,
        Fixability::Manual,
        Fixability::Manual,
        Fixability::Automatic,
        Fixability::Automatic,
        Fixability::Automatic,
    ]
}

fn rule(
    id: &'static str,
    label: &'static str,
    category: RuleCategory,
    fixability: Fixability,
    hint: &'static str,
) -> (r: RuleSpec)
    ensures
        r.id@ == id@,
        r.label@ == label@,
        r.category == category,
        r.fixability == fixability,
        r.hint@ == hint@,
{
    RuleSpec { id, label, category, fixability, hint }
}

/// Every rule of the audit, in order.
pub fn rule_specs() -> (v: Vec<RuleSpec>)
    ensures
        v@.len() == 18,
        forall|i: int|
            0 <= i < 18 ==> (#[trigger] v@[i]).id@ == rule_ids()[i] && v@[i].category
                == rule_categories()[i] && v@[i].fixability == rule_fixabilities()[i],
{
    let mut v: Vec<RuleSpec> = Vec::new();
    v.push(rule("project_manifest", "Project manifest", RuleCategory::Identity, Fixability::Manual, "Keep a real manifest in the repository root so the stack and package identity are explicit."));
    v.push(rule("manifest_metadata", "Manifest metadata", RuleCategory::Identity, Fixability::Manual, "Fill description, repository, homepage, version, and discoverability metadata inside the manifest."));
    v.push(rule("license", "License", RuleCategory::Identity, Fixability::Automatic, "Ship a recognized LICENSE file so adopters can evaluate usage rights immediately."));
    v.push(rule("readme", "README", RuleCategory::Docs, Fixability::Automatic, "Explain what the project is, how to install it, how to use it, and where examples live."));
    v.push(rule("examples", "Examples", RuleCategory::Docs, Fixability::Manual, "Add a concrete example or examples directory so a new user can copy a working starting point."));
    v.push(rule("contributing_guide", "Contributing guide", RuleCategory::Community, Fixability::Automatic, "Document the contribution flow, review expectations, and local verification steps."));
    v.push(rule("code_of_conduct", "Code of conduct", RuleCategory::Community, Fixability::Automatic, "Define expected behavior and a reporting path so contributors know the project is safe to join."));
    v.push(rule("security_policy", "Security policy", RuleCategory::Community, Fixability::Automatic, "Explain how to report vulnerabilities privately and what response contributors can expect."));
    v.push(rule("issue_templates", "Issue templates", RuleCategory::Community, Fixability::Automatic, "Use bug and feature templates to collect higher-signal issues."));
    v.push(rule("pull_request_template", "Pull request template", RuleCategory::Community, Fixability::Automatic, "A pull request template keeps reviews focused on context, impact, and verification."));
    v.push(rule("codeowners", "CODEOWNERS", RuleCategory::Community, Fixability::Guided, "Declare review ownership so contributors know who is responsible for the repository surface."));
    v.push(rule("funding", "Funding file", RuleCategory::Community, Fixability::Guided, "If maintainers accept sponsorship, add FUNDING.yml so support is easy to discover."));
    v.push(rule("ci_workflow", "CI workflow", RuleCategory::Automation, Fixability::Automatic, "Run build, test, and stack-specific verification on push and pull request."));
    v.push(rule("tests", "Tests", RuleCategory::Automation, Fixability::Manual, "Add or surface executable tests so the public surface is safer to evolve."));
    v.push(rule("lint_and_format", "Lint and format signals", RuleCategory::Automation, Fixability::Manual, "Expose a lint and formatting path so the repo feels maintained and predictable."));
    v.push(rule("dependabot", "Dependabot", RuleCategory::Automation, Fixability::Automatic, "Automate dependency update visibility with Dependabot."));
    v.push(rule("changelog", "Changelog", RuleCategory::Release, Fixability::Automatic, "Track release history so changes are easier to evaluate before upgrading."));
    v.push(rule("release_workflow", "Release workflow", RuleCategory::Release, Fixability::Automatic, "Automate release notes or packaging so shipping is repeatable."));
    v
}

// ---------------------------------------------------------------------------
// Strings of findings
// ---------------------------------------------------------------------------

/// The values with later repeats dropped, first occurrences in order.
pub open spec fn dedupe_spec(s: Seq<Seq<char>>) -> Seq<Seq<char>>
    decreases s.len(),
{
    if s.len() == 0 {
        Seq::empty()
    } else {
        let prev = dedupe_spec(s.drop_last());
        if prev.contains(s.last()) {
            prev
        } else {
            prev.push(s.last())
        }
    }
}

pub fn dedupe_strings(values: Vec<String>) -> (r: Vec<String>)
    ensures
        views(r@) == dedupe_spec(views(values@)),
{
    let mut unique: Vec<String> = Vec::new();
    let mut i: usize = 0;
    while i < values.len()
        invariant
            i <= values.len(),
            views(unique@) == dedupe_spec(views(values@).take(i as int)),
        decreases values.len() - i,
    {
        assert(views(values@).take(i + 1).drop_last() =~= views(values@).take(i as int));
        let v = &values[i];
        let mut found = false;
        let mut j: usize = 0;
        while j < unique.len()
            invariant
                i < values.len(),
                v@ == values@[i as int]@,
                j <= unique.len(),
                found == exists|k: int| 0 <= k < j && #[trigger] views(unique@)[k] == values@[i as int]@,
            decreases unique.len() - j,
        {
            assert(views(unique@)[j as int] == unique@[j as int]@);
            if str_eq(unique[j].as_str(), v.as_str()) {
                found = true;
            }
            j += 1;
        }
        let ghost before = views(unique@);
        proof {
            if found {
                let k = choose|k: int| 0 <= k < unique@.len() && views(unique@)[k] == values@[i as int]@;
                assert(before.contains(values@[i as int]@));
            } else {
                assert(!before.contains(values@[i as int]@));
            }
        }
        if !found {
            unique.push(v.clone());
            assert(views(unique@) =~= before.push(values@[i as int]@));
        }
        i += 1;
    }
    assert(views(values@).take(values.len() as int) =~= views(values@));
    unique
}

pub fn finding(
    id: &str,
    severity: FindingSeverity,
    message: &str,
    help: &str,
    evidence: Vec<String>,
    location: Option<String>,
) -> (f: AuditFinding)
    ensures
        f.id@ == id@,
        f.severity == severity,
        f.message@ == message@,
        f.help@ == help@,
        views(f.evidence@) == dedupe_spec(views(evidence@)),
        f.location == location,
{
    AuditFinding {
        id: id.to_owned(),
        severity,
        message: message.to_owned(),
        help: help.to_owned(),
        evidence: dedupe_strings(evidence),
        location,
    }
}

pub open spec fn contains_any_spec(s: Seq<char>, patterns: Seq<Seq<char>>) -> bool {
    exists|i: int| 0 <= i < patterns.len() && contains(s, #[trigger] patterns[i])
}

pub fn contains_any(contents: &str, patterns: &Vec<&str>) -> (b: bool)
    ensures
        b == contains_any_spec(contents@, crate::project::str_views(patterns@)),
{
    let mut i: usize = 0;
    while i < patterns.len()
        invariant
            i <= patterns.len(),
            forall|k: int|
                0 <= k < i ==> !contains(contents@, #[trigger] crate::project::str_views(patterns@)[k]),
        decreases patterns.len() - i,
    {
        if str_contains(contents, patterns[i]) {
            assert(crate::project::str_views(patterns@)[i as int] == patterns@[i as int]@);
            return true;
        }
        i += 1;
    }
    false
}

pub open spec fn placeholder_phrases() -> Seq<Seq<char>> {
    seq![
        "one-line value proposition"@,
        "add installation instructions here"@,
        "describe the bug clearly"@,
        "what is painful today"@,
        "add your test command here"@,
        "replace this workflow with the real build and test steps"@,
    ]
}

/// The text still holds one of the scaffold's placeholder phrases.
pub fn looks_placeholder(contents: &str) -> (b: bool)
    ensures
        b == contains_any_spec(contents@, placeholder_phrases()),
{
    let v: Vec<&str> = vec![
        "one-line value proposition",
        "add installation instructions here",
        "describe the bug clearly",
        "what is painful today",
        "add your test command here",
        "replace this workflow with the real build and test steps",
    ];
    assert(crate::project::str_views(v@) =~= placeholder_phrases());
    contains_any(contents, &v)
}

/// Text compared case-insensitively.
pub fn normalize(contents: &str) -> (r: String)
    ensures
        r@ == str_lowercase(contents@),
{
    to_lowercase(contents)
}

} // verus!

verus! {

// ---------------------------------------------------------------------------
// Markdown signals
// ---------------------------------------------------------------------------

/// A heading fragment reduced to lowercase words: every run of
/// non-alphanumeric characters becomes one space (none at the start), and
/// the result is trimmed.  `previous_space` says whether a space would be
/// redundant.
pub open spec fn fragment_raw(s: Seq<char>, previous_space: bool) -> Seq<char>
    decreases s.len(),
{
    if s.len() == 0 {
        Seq::empty()
    } else if crate::text::char_alphanumeric(s[0]) {
        crate::text::char_lowercase(s[0]) + fragment_raw(s.drop_first(), false)
    } else if !previous_space {
        seq![' '] + fragment_raw(s.drop_first(), true)
    } else {
        fragment_raw(s.drop_first(), true)
    }
}

pub open spec fn normalize_fragment_spec(s: Seq<char>) -> Seq<char> {
    trim_seq(fragment_raw(s, true))
}

pub fn normalize_heading_fragment(contents: &str) -> (r: String)
    ensures
        r@ == normalize_fragment_spec(contents@),
{
    let v = chars_of(contents);
    let mut out: Vec<char> = Vec::new();
    let mut previous_space = true;
    let mut i: usize = 0;
    assert(v@.subrange(0, v@.len() as int) =~= v@);
    while i < v.len()
        invariant
            i <= v.len(),
            v@ == contents@,
            out@ + fragment_raw(v@.subrange(i as int, v@.len() as int), previous_space)
                == fragment_raw(contents@, true),
        decreases v.len() - i,
    {
        let ghost rest = v@.subrange(i as int, v@.len() as int);
        assert(rest.drop_first() =~= v@.subrange(i + 1, v@.len() as int));
        let ch = v[i];
        if is_alphanumeric_char(ch) {
            let lowered = lowercase_char(ch);
            let ghost old_out = out@;
            let mut k: usize = 0;
            while k < lowered.len()
                invariant
                    k <= lowered.len(),
                    out@ == old_out + lowered@.take(k as int),
                decreases lowered.len() - k,
            {
                out.push(lowered[k]);
                assert(lowered@.take(k + 1) =~= lowered@.take(k as int).push(lowered@[k as int]));
                k += 1;
            }
            assert(lowered@.take(lowered.len() as int) =~= lowered@);
            assert(old_out + (lowered@ + fragment_raw(rest.drop_first(), false)) =~= out@ + fragment_raw(
                rest.drop_first(),
                false,
            ));
            previous_space = false;
        } else if !previous_space {
            let ghost old_out = out@;
            out.push(' ');
            assert(old_out + (seq![' '] + fragment_raw(rest.drop_first(), true)) =~= out@ + fragment_raw(
                rest.drop_first(),
                true,
            ));
            previous_space = true;
        }
        i += 1;
    }
    assert(v@.subrange(i as int, v@.len() as int) =~= Seq::<char>::empty());
    assert(out@ + Seq::<char>::empty() =~= out@);
    trim(string_from_chars(&out).as_str())
}

/// The text of a Markdown heading line: after leading whitespace and the
/// `#` marks, trimmed; `None` for a line that is not a heading.
pub open spec fn heading_text_spec(line: Seq<char>) -> Option<Seq<char>> {
    let t = trim_start_seq(line);
    if starts_with(t, "#"@) {
        Some(trim_seq(trim_start_char(t, '#')))
    } else {
        None
    }
}

pub fn markdown_heading_text(line: &str) -> (r: Option<String>)
    ensures
        crate::rust_deps::opt_view(r) == heading_text_spec(line@),
{
    let trimmed = trim_start(line);
    if !str_starts_with(trimmed.as_str(), "#") {
        return None;
    }
    let v = chars_of(trimmed.as_str());
    let mut i: usize = 0;
    assert(v@.subrange(0, v@.len() as int) =~= v@);
    while i < v.len() && v[i] == '#'
        invariant
            i <= v.len(),
            trim_start_char(v@, '#') == trim_start_char(v@.subrange(i as int, v@.len() as int), '#'),
        decreases v.len() - i,
    {
        assert(v@.subrange(i + 1, v@.len() as int) =~= v@.subrange(i as int, v@.len() as int).drop_first());
        i += 1;
    }
    let rest = string_from_chars(&crate::text::subvec(&v, i, v.len()));
    Some(trim(rest.as_str()))
}

/// Number of lines that, after leading whitespace, start with `#`.
pub open spec fn heading_line_count(ls: Seq<Seq<char>>) -> nat
    decreases ls.len(),
{
    if ls.len() == 0 {
        0
    } else {
        heading_line_count(ls.drop_last()) + if starts_with(trim_start_seq(ls.last()), "#"@) {
            1nat
        } else {
            0nat
        }
    }
}

pub fn markdown_heading_count(contents: &str) -> (n: usize)
    ensures
        n == heading_line_count(lines_of(contents@)),
{
    let ls = lines(contents);
    let mut n: usize = 0;
    let mut i: usize = 0;
    while i < ls.len()
        invariant
            i <= ls.len(),
            views(ls@) == lines_of(contents@),
            n <= i,
            n == heading_line_count(views(ls@).take(i as int)),
        decreases ls.len() - i,
    {
        assert(views(ls@).take(i + 1).drop_last() =~= views(ls@).take(i as int));
        assert(views(ls@).take(i + 1).last() == ls@[i as int]@);
        if str_starts_with(trim_start(ls[i].as_str()).as_str(), "#") {
            n += 1;
        }
        i += 1;
    }
    assert(views(ls@).take(ls.len() as int) =~= views(ls@));
    n
}

/// Non-overlapping occurrences of `p`, scanning from the left.
pub open spec fn count_matches(s: Seq<char>, p: Seq<char>) -> nat
    decreases s.len(),
{
    if p.len() == 0 || s.len() < p.len() {
        0
    } else if starts_with(s, p) {
        1 + count_matches(s.subrange(p.len() as int, s.len() as int), p)
    } else {
        count_matches(s.drop_first(), p)
    }
}

/// Number of code fences (three backticks) in a Markdown text.
pub fn markdown_code_block_count(contents: &str) -> (n: usize)
    ensures
        n == count_matches(contents@, "```"@),
{
    proof {
        reveal_strlit("```");
    }
    let v = chars_of(contents);
    let fence = chars_of("```");
    let mut n: usize = 0;
    let mut i: usize = 0;
    assert(v@.subrange(0, v@.len() as int) =~= v@);
    while i < v.len()
        invariant
            i <= v.len(),
            v@ == contents@,
            fence@ == "```"@,
            fence@.len() == 3,
            n <= i,
            n + count_matches(v@.subrange(i as int, v@.len() as int), fence@) == count_matches(
                contents@,
                fence@,
            ),
        decreases v.len() - i,
    {
        let ghost rest = v@.subrange(i as int, v@.len() as int);
        if v.len() - i < 3 {
            assert(count_matches(rest, fence@) == 0);
            assert(v@.subrange(v.len() as int, v@.len() as int) =~= Seq::<char>::empty());
            i = v.len();
        } else if crate::text::occurs_at_exec(&v, &fence, i) {
            assert(rest.subrange(0, 3) =~= v@.subrange(i as int, i + 3));
            assert(rest.subrange(3, rest.len() as int) =~= v@.subrange(i + 3, v@.len() as int));
            n += 1;
            i += 3;
        } else {
            assert(rest.subrange(0, 3) =~= v@.subrange(i as int, i + 3));
            assert(rest.drop_first() =~= v@.subrange(i + 1, v@.len() as int));
            i += 1;
        }
    }
    assert(v@.subrange(i as int, v@.len() as int) =~= Seq::<char>::empty());
    n
}

/// Some heading line, normalized, contains some normalized alias.
pub open spec fn heading_matches_spec(ls: Seq<Seq<char>>, aliases: Seq<Seq<char>>) -> bool {
    exists|i: int, j: int|
        0 <= i < ls.len() && 0 <= j < aliases.len() && (#[trigger] heading_text_spec(ls[i])) is Some
            && contains(
            normalize_fragment_spec(heading_text_spec(ls[i])->0),
            normalize_fragment_spec(#[trigger] aliases[j]),
        )
}

pub fn markdown_heading_matches(contents: &str, aliases: &Vec<&str>) -> (b: bool)
    ensures
        b == heading_matches_spec(lines_of(contents@), crate::project::str_views(aliases@)),
{
    let mut normalized: Vec<String> = Vec::new();
    let mut k: usize = 0;
    while k < aliases.len()
        invariant
            k <= aliases.len(),
            normalized@.len() == k,
            forall|j: int|
                0 <= j < k ==> (#[trigger] normalized@[j])@ == normalize_fragment_spec(
                    aliases@[j]@,
                ),
        decreases aliases.len() - k,
    {
        normalized.push(normalize_heading_fragment(aliases[k]));
        k += 1;
    }
    let ls = lines(contents);
    let mut i: usize = 0;
    while i < ls.len()
        invariant
            i <= ls.len(),
            views(ls@) == lines_of(contents@),
            normalized@.len() == aliases@.len(),
            forall|j: int|
                0 <= j < aliases@.len() ==> (#[trigger] normalized@[j])@ == normalize_fragment_spec(
                    aliases@[j]@,
                ),
            forall|a: int, j: int|
                0 <= a < i && 0 <= j < aliases@.len() ==> !((#[trigger] heading_text_spec(
                    views(ls@)[a],
                )) is Some && contains(
                    normalize_fragment_spec(heading_text_spec(views(ls@)[a])->0),
                    normalize_fragment_spec(#[trigger] crate::project::str_views(aliases@)[j]),
                )),
        decreases ls.len() - i,
    {
        assert(views(ls@)[i as int] == ls@[i as int]@);
        match markdown_heading_text(ls[i].as_str()) {
            Some(text) => {
                let heading = normalize_heading_fragment(text.as_str());
                let mut j: usize = 0;
                while j < normalized.len()
                    invariant
                        i < ls.len(),
                        j <= normalized.len() == aliases@.len(),
                        views(ls@)[i as int] == ls@[i as int]@,
                        views(ls@) == lines_of(contents@),
                        heading_text_spec(ls@[i as int]@) == Some(text@),
                        heading@ == normalize_fragment_spec(text@),
                        forall|j: int|
                            0 <= j < aliases@.len() ==> (#[trigger] normalized@[j])@
                                == normalize_fragment_spec(aliases@[j]@),
                        forall|q: int|
                            0 <= q < j ==> !contains(
                                heading@,
                                normalize_fragment_spec(
                                    #[trigger] crate::project::str_views(aliases@)[q],
                                ),
                            ),
                    decreases normalized.len() - j,
                {
                    assert(crate::project::str_views(aliases@)[j as int] == aliases@[j as int]@);
                    if str_contains(heading.as_str(), normalized[j].as_str()) {
                        assert(heading_text_spec(views(ls@)[i as int]) is Some);
                        assert(contains(
                            normalize_fragment_spec(heading_text_spec(views(ls@)[i as int])->0),
                            normalize_fragment_spec(crate::project::str_views(aliases@)[j as int]),
                        ));
                        return true;
                    }
                    j += 1;
                }
            },
            None => {},
        }
        i += 1;
    }
    false
}

pub open spec fn is_excluded_doc_name(lower: Seq<char>) -> bool {
    lower == "readme.md"@ || lower == "readme"@ || lower == "changelog.md"@ || lower
        == "contributing.md"@ || lower == "code_of_conduct.md"@ || lower == "security.md"@
}

/// The last component of a `/`-separated relative path.
pub open spec fn file_name_of(path: Seq<char>) -> Seq<char> {
    match crate::text::last_index_of(path, '/') {
        Some(i) => path.subrange(i + 1, path.len() as int),
        None => path,
    }
}

/// A Markdown file under `docs/` that is not one of the standard community
/// files.  `relative` is the path from the repository root, written with
/// `/` (backslashes are read as `/`).
pub open spec fn supporting_doc_spec(relative: Seq<char>) -> bool {
    let display = crate::text::replace_char_seq(relative, '\\', '/');
    &&& ends_with(display, ".md"@)
    &&& !starts_with(display, ".github/"@)
    &&& !is_excluded_doc_name(str_lowercase(file_name_of(relative)))
    &&& starts_with(display, "docs/"@)
}

pub fn is_supporting_doc_candidate(relative: &str) -> (b: bool)
    ensures
        b == supporting_doc_spec(relative@),
{
    let display = crate::text::replace_char(relative, '\\', '/');
    if !str_ends_with(display.as_str(), ".md") {
        return false;
    }
    if str_starts_with(display.as_str(), ".github/") {
        return false;
    }
    let n = relative.unicode_len();
    let name = match crate::text::rfind_char(relative, '/') {
        Some(i) => crate::text::suffix_from(relative, i + 1),
        None => relative.to_owned(),
    };
    let lower = to_lowercase(name.as_str());
    let l = lower.as_str();
    if str_eq(l, "readme.md") || str_eq(l, "readme") || str_eq(l, "changelog.md") || str_eq(
        l,
        "contributing.md",
    ) || str_eq(l, "code_of_conduct.md") || str_eq(l, "security.md") {
        return false;
    }
    str_starts_with(display.as_str(), "docs/")
}

/// A rule's weight: the configured weight, or else the profile's weight
/// scaled by the category multiplier, and in either case at least one.
pub open spec fn rule_weight_spec(configured: Option<u16>, scaled: u16) -> u16 {
    let w = match configured {
        Some(c) => c,
        None => scaled,
    };
    if w < 1 {
        1
    } else {
        w
    }
}

/// `scaled` is the profile's weight times the category multiplier,
/// rounded, which is floating point and computed by the caller.
pub fn rule_weight(configured: Option<u16>, scaled: u16) -> (w: u16)
    ensures
        w == rule_weight_spec(configured, scaled),
        w >= 1,
{
    let w = match configured {
        Some(c) => c,
        None => scaled,
    };
    if w < 1 {
        1
    } else {
        w
    }
}

} // verus!
