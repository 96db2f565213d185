//! The README rule of the audit: which adoption signals a README shows
//! (install, usage, contributing, license, examples, code blocks, stack
//! hints, length), the findings for the missing ones, and its coverage.
use vstd::prelude::*;
use crate::audit::{
    contains_any, contains_any_spec, count_matches, dedupe_spec, heading_matches_spec,
    looks_placeholder, markdown_code_block_count, markdown_heading_matches, normalize,
    heading_line_count, markdown_heading_count, placeholder_phrases, status_from_coverage,
    weight_total, weighted_coverage, weighted_coverage_spec, AuditFinding, CheckStatus,
    FindingSeverity,
};
use crate::doctor::opt_seq;
use crate::project::{
    binary_name_spec, install_snippet_spec, str_views, usage_snippet_spec, ProjectContext,
    ProjectKind, RepoProfile,
};
use crate::text::{
    concat_str, contains, decimal, decimal_string, lines, lines_of, starts_with, str_contains, str_lowercase, str_starts_with,
    to_lowercase, trim, trim_seq, utf8_byte_len, utf8_bytes, views,
};

verus! {

broadcast use crate::audit::lemma_weighted_coverage_bounded;

// ---------------------------------------------------------------------------
// Command surfaces
// ---------------------------------------------------------------------------

/// A README line that shows the binary being run with a subcommand or a
/// flag.
pub open spec fn cli_line(t: Seq<char>, b: Seq<char>) -> bool {
    &&& contains(t, b)
    &&& starts_with(t, ">"@) || starts_with(t, "```"@) || starts_with(t, b) || contains(t, "`"@ + b)
        || contains(t, b + " "@)
    &&& contains(t, " --"@) || contains(t, " audit"@) || contains(t, " fix"@) || contains(
        t,
        " init"@,
    ) || contains(t, " version"@) || contains(t, "["@)
}

/// The binary name as a README search key: lowercased.
pub open spec fn binary_key(project: ProjectContext) -> Seq<char> {
    str_lowercase(binary_name_spec(project.name@))
}

/// A command-line project whose README shows its binary in use.
pub open spec fn cli_surface_spec(
    normalized: Seq<char>,
    project: ProjectContext,
    profile: RepoProfile,
) -> bool {
    &&& profile == RepoProfile::Cli
    &&& binary_key(project).len() > 0
    &&& exists|i: int|
        0 <= i < lines_of(normalized).len() && cli_line(
            trim_seq(#[trigger] lines_of(normalized)[i]),
            binary_key(project),
        )
}

fn cli_line_exec(t: &str, b: &str) -> (r: bool)
    ensures
        r == cli_line(t@, b@),
{
    if !str_contains(t, b) {
        return false;
    }
    let mut tick = "`".to_owned();
    tick.append(b);
    let mut spaced = b.to_owned();
    spaced.append(" ");
    let shown = str_starts_with(t, ">") || str_starts_with(t, "```") || str_starts_with(t, b)
        || str_contains(t, tick.as_str()) || str_contains(t, spaced.as_str());
    let command = str_contains(t, " --") || str_contains(t, " audit") || str_contains(t, " fix")
        || str_contains(t, " init") || str_contains(t, " version") || str_contains(t, "[");
    shown && command
}

/// Whether a command-line project's README shows its binary in use.
pub fn readme_has_cli_command_surface(
    normalized: &str,
    project: &ProjectContext,
    profile: RepoProfile,
) -> (r: bool)
    ensures
        r == cli_surface_spec(normalized@, *project, profile),
{
    if profile != RepoProfile::Cli {
        return false;
    }
    let key = to_lowercase(project.binary_name().as_str());
    if key.as_str().is_empty() {
        return false;
    }
    let ls = lines(normalized);
    let mut i: usize = 0;
    while i < ls.len()
        invariant
            i <= ls.len(),
            views(ls@) == lines_of(normalized@),
            key@ == binary_key(*project),
            key@.len() > 0,
            profile == RepoProfile::Cli,
            forall|k: int|
                0 <= k < i ==> !cli_line(trim_seq(#[trigger] lines_of(normalized@)[k]), key@),
        decreases ls.len() - i,
    {
        let t = trim(ls[i].as_str());
        assert(lines_of(normalized@)[i as int] == ls@[i as int]@);
        if cli_line_exec(t.as_str(), key.as_str()) {
            assert(cli_line(trim_seq(lines_of(normalized@)[i as int]), binary_key(*project)));
            return true;
        }
        i += 1;
    }
    false
}

/// The commands that show an application being run, by stack.
pub open spec fn app_commands(k: ProjectKind) -> Seq<Seq<char>> {
    match k {
        ProjectKind::Node => seq![
            "bun install"@,
            "bun run dev"@,
            "bun run build"@,
            "npm install"@,
            "npm run dev"@,
            "npm run build"@,
            "pnpm install"@,
            "pnpm dev"@,
            "pnpm build"@,
            "yarn install"@,
            "yarn dev"@,
            "yarn build"@,
            "vite"@,
            "localhost:"@,
        ],
        ProjectKind::Python => seq![
            "uv run"@,
            "python -m"@,
            "streamlit run"@,
            "flask run"@,
            "uvicorn"@,
            "localhost:"@,
        ],
        ProjectKind::Rust => seq!["cargo run"@, "trunk serve"@, "localhost:"@],
        ProjectKind::Go => seq!["go run"@, "localhost:"@],
        ProjectKind::Unknown => seq!["localhost:"@],
    }
}

/// An application whose README shows how to run it.
pub open spec fn app_surface_spec(normalized: Seq<char>, kind: ProjectKind, profile: RepoProfile) -> bool {
    profile == RepoProfile::App && contains_any_spec(normalized, app_commands(kind))
}

/// Whether an application's README shows how to run it.
pub fn readme_has_app_command_surface(
    normalized: &str,
    kind: ProjectKind,
    profile: RepoProfile,
) -> (r: bool)
    ensures
        r == app_surface_spec(normalized@, kind, profile),
{
    if profile != RepoProfile::App {
        return false;
    }
    let commands: Vec<&str> = match kind {
        ProjectKind::Node => vec![
            "bun install",
            "bun run dev",
            "bun run build",
            "npm install",
            "npm run dev",
            "npm run build",
            "pnpm install",
            "pnpm dev",
            "pnpm build",
            "yarn install",
            "yarn dev",
            "yarn build",
            "vite",
            "localhost:",
        ],
        ProjectKind::Python => vec![
            "uv run",
            "python -m",
            "streamlit run",
            "flask run",
            "uvicorn",
            "localhost:",
        ],
        ProjectKind::Rust => vec!["cargo run", "trunk serve", "localhost:"],
        ProjectKind::Go => vec!["go run", "localhost:"],
        ProjectKind::Unknown => vec!["localhost:"],
    };
    assert(str_views(commands@) =~= app_commands(kind));
    contains_any(normalized, &commands)
}

// ---------------------------------------------------------------------------
// What the README rule reads
// ---------------------------------------------------------------------------

/// A file of the repository: its path, how it is shown, and its text.
#[derive(Debug, Clone)]
pub struct RepoDocument {
    pub path: String,
    /// The path as shown to the reader, relative to the repository root.
    pub display: String,
    pub contents: String,
}

/// The README of a nested standalone project.
#[derive(Debug, Clone)]
pub struct NestedReadme {
    /// The nested project's root as shown to the reader.
    pub root_display: String,
    pub path: String,
    pub display: String,
}

/// What the README rule reads of a repository.
#[derive(Debug, Clone)]
pub struct ReadmeInputs {
    /// The root README, if any.
    pub readme_path: Option<String>,
    pub readme_text: String,
    /// The preferred supporting Markdown document, if any.
    pub supporting_doc: Option<RepoDocument>,
    /// The README of the first nested project, if it has one.
    pub nested_readme: Option<NestedReadme>,
    pub project: ProjectContext,
    pub profile: RepoProfile,
    /// A `CONTRIBUTING.md` exists.
    pub has_contributing_doc: bool,
    /// A `LICENSE` or `LICENSE.md` exists.
    pub has_license_file: bool,
}

/// The verdict of a rule: its coverage (and the status that follows), its
/// confidence in thousandths, a message, evidence, findings and the file it
/// is about.
#[derive(Debug, Clone)]
pub struct RuleAssessment {
    pub status: CheckStatus,
    pub coverage: u8,
    pub confidence_permille: u16,
    pub message: String,
    pub evidence: Vec<String>,
    pub findings: Vec<AuditFinding>,
    pub location: Option<String>,
}

/// An audit finding as plain values.
pub struct AuditFindingView {
    pub id: Seq<char>,
    pub severity: FindingSeverity,
    pub message: Seq<char>,
    pub help: Seq<char>,
    pub evidence: Seq<Seq<char>>,
    pub location: Option<Seq<char>>,
}

pub open spec fn audit_view(f: AuditFinding) -> AuditFindingView {
    AuditFindingView {
        id: f.id@,
        severity: f.severity,
        message: f.message@,
        help: f.help@,
        evidence: views(f.evidence@),
        location: opt_seq(f.location),
    }
}

pub open spec fn audit_views(fs: Seq<AuditFinding>) -> Seq<AuditFindingView> {
    fs.map_values(|f: AuditFinding| audit_view(f))
}

/// The finding that `finding` builds: its evidence without repeats.
pub open spec fn afv(
    id: Seq<char>,
    severity: FindingSeverity,
    message: Seq<char>,
    help: Seq<char>,
    evidence: Seq<Seq<char>>,
    location: Option<Seq<char>>,
) -> AuditFindingView {
    AuditFindingView { id, severity, message, help, evidence: dedupe_spec(evidence), location }
}

/// A rule verdict as plain values.
pub struct AssessmentView {
    pub coverage: u8,
    pub confidence: u16,
    pub message: Seq<char>,
    pub evidence: Seq<Seq<char>>,
    pub findings: Seq<AuditFindingView>,
    pub location: Option<Seq<char>>,
}

pub open spec fn assessment_matches(r: RuleAssessment, v: AssessmentView) -> bool {
    &&& r.status == status_from_coverage(v.coverage)
    &&& r.coverage == v.coverage
    &&& r.confidence_permille == v.confidence
    &&& r.message@ == v.message
    &&& views(r.evidence@) == v.evidence
    &&& audit_views(r.findings@) == v.findings
    &&& opt_seq(r.location) == v.location
}

pub open spec fn opt_item<T>(c: bool, x: T) -> Seq<T> {
    if c {
        seq![x]
    } else {
        Seq::empty()
    }
}

// ---------------------------------------------------------------------------
// Signals of a root README
// ---------------------------------------------------------------------------

/// The adoption signals of a root README.
#[derive(Debug, Clone, Copy)]
pub struct ReadmeSignals {
    pub has_length: bool,
    pub has_install: bool,
    pub has_usage: bool,
    pub has_contributing: bool,
    pub has_license: bool,
    pub has_examples: bool,
    pub has_code_block: bool,
    pub has_stack_hint: bool,
    pub is_placeholder: bool,
    /// Contributing is known from the file only.
    pub contributing_from_doc: bool,
    /// The license is known from the file and a passing mention only.
    pub license_from_file: bool,
}

pub open spec fn install_aliases() -> Seq<Seq<char>> {
    seq!["install"@, "installation"@, "setup"@, "getting started"@, "quick start"@, "quickstart"@]
}

pub open spec fn usage_aliases() -> Seq<Seq<char>> {
    seq![
        "usage"@,
        "utilisation"@,
        "quick start"@,
        "quickstart"@,
        "getting started"@,
        "run"@,
        "running"@,
        "demo"@,
    ]
}

pub open spec fn contributing_aliases() -> Seq<Seq<char>> {
    seq!["contributing"@, "contribuer"@, "contribution"@]
}

pub open spec fn license_aliases() -> Seq<Seq<char>> {
    seq!["license"@, "licence"@]
}

pub open spec fn examples_aliases() -> Seq<Seq<char>> {
    seq!["examples"@, "example"@, "exemples"@, "exemple"@]
}

pub open spec fn stack_aliases() -> Seq<Seq<char>> {
    seq![
        "stack"@,
        "stack technique"@,
        "tech stack"@,
        "technologies"@,
        "technology"@,
        "architecture"@,
    ]
}

pub open spec fn command_headings() -> Seq<Seq<char>> {
    seq!["## commands"@, "## command line"@, "## cli"@, "## command"@]
}

pub open spec fn install_phrases() -> Seq<Seq<char>> {
    seq![
        "## install"@,
        "## setup"@,
        "### install"@,
        "cargo install"@,
        "npm install"@,
        "npm ci"@,
        "pnpm install"@,
        "yarn add"@,
        "yarn install"@,
        "bun install"@,
        "pip install"@,
        "python -m pip install"@,
        "go install"@,
        "brew install"@,
        "scoop install"@,
        "cargo build"@,
    ]
}

pub open spec fn contributing_phrases() -> Seq<Seq<char>> {
    seq!["## contributing"@, "### contributing"@, "## contribuer"@]
}

pub open spec fn license_phrases() -> Seq<Seq<char>> {
    seq!["## license"@, "## licence"@, "licensed under"@]
}

pub open spec fn example_phrases() -> Seq<Seq<char>> {
    seq!["## examples"@, "## example"@]
}

pub open spec fn license_section_phrases() -> Seq<Seq<char>> {
    seq!["## license"@, "licensed under"@]
}

pub open spec fn readme_signals_spec(inp: ReadmeInputs) -> ReadmeSignals {
    let t = inp.readme_text@;
    let n = str_lowercase(t);
    let ls = lines_of(t);
    let p = inp.project;
    let cli = cli_surface_spec(n, p, inp.profile);
    let app = app_surface_spec(n, p.kind, inp.profile);
    let install_snippet = str_lowercase(install_snippet_spec(p.kind));
    let usage_snippet = str_lowercase(usage_snippet_spec(p.kind, p.name@));
    ReadmeSignals {
        has_length: utf8_bytes(t) >= 450,
        has_install: heading_matches_spec(ls, install_aliases()) || contains_any_spec(
            n,
            install_phrases(),
        ) || contains(n, install_snippet),
        has_usage: heading_matches_spec(ls, usage_aliases()) || contains_any_spec(
            n,
            command_headings(),
        ) || cli || app,
        has_contributing: heading_matches_spec(ls, contributing_aliases()) || contains_any_spec(
            n,
            contributing_phrases(),
        ) || contains(n, "contributing.md"@) || inp.has_contributing_doc,
        has_license: heading_matches_spec(ls, license_aliases()) || contains_any_spec(
            n,
            license_phrases(),
        ) || contains(n, "license mit"@) || contains(n, "license apache"@) || contains(
            n,
            "licence mit"@,
        ) || contains(n, "licence apache"@) || contains(n, "/license"@) || (inp.has_license_file
            && (contains(n, "license"@) || contains(n, "licence"@))),
        has_examples: heading_matches_spec(ls, examples_aliases()) || contains_any_spec(
            n,
            example_phrases(),
        ),
        has_code_block: count_matches(t, "```"@) >= 2,
        has_stack_hint: heading_matches_spec(ls, stack_aliases()) || contains(n, install_snippet)
            || contains(n, usage_snippet) || cli || app,
        is_placeholder: contains_any_spec(n, placeholder_phrases()),
        contributing_from_doc: inp.has_contributing_doc && !contains(n, "contributing"@),
        license_from_file: inp.has_license_file && !contains_any_spec(n, license_section_phrases()),
    }
}

fn strs(v: Vec<&str>) -> (r: Vec<&str>)
    ensures
        r@ == v@,
{
    v
}

/// The adoption signals of the root README.
pub fn readme_signals(inp: &ReadmeInputs) -> (s: ReadmeSignals)
    ensures
        s == readme_signals_spec(*inp),
{
    let t = inp.readme_text.as_str();
    let n = normalize(t);
    let n = n.as_str();
    let p = &inp.project;
    let cli = readme_has_cli_command_surface(n, p, inp.profile);
    let app = readme_has_app_command_surface(n, p.kind, inp.profile);
    let install_snippet = to_lowercase(p.install_snippet().as_str());
    let usage_snippet = to_lowercase(p.usage_snippet().as_str());

    let install_aliases_v = strs(
        vec!["install", "installation", "setup", "getting started", "quick start", "quickstart"],
    );
    assert(str_views(install_aliases_v@) =~= install_aliases());
    let install_phrases_v = strs(
        vec![
            "## install",
            "## setup",
            "### install",
            "cargo install",
            "npm install",
            "npm ci",
            "pnpm install",
            "yarn add",
            "yarn install",
            "bun install",
            "pip install",
            "python -m pip install",
            "go install",
            "brew install",
            "scoop install",
            "cargo build",
        ],
    );
    assert(str_views(install_phrases_v@) =~= install_phrases());
    let has_install = markdown_heading_matches(t, &install_aliases_v) || contains_any(
        n,
        &install_phrases_v,
    ) || str_contains(n, install_snippet.as_str());

    let usage_aliases_v = strs(
        vec![
            "usage",
            "utilisation",
            "quick start",
            "quickstart",
            "getting started",
            "run",
            "running",
            "demo",
        ],
    );
    assert(str_views(usage_aliases_v@) =~= usage_aliases());
    let command_headings_v = strs(vec!["## commands", "## command line", "## cli", "## command"]);
    assert(str_views(command_headings_v@) =~= command_headings());
    let has_usage = markdown_heading_matches(t, &usage_aliases_v) || contains_any(
        n,
        &command_headings_v,
    ) || cli || app;

    let contributing_aliases_v = strs(vec!["contributing", "contribuer", "contribution"]);
    assert(str_views(contributing_aliases_v@) =~= contributing_aliases());
    let contributing_phrases_v = strs(vec!["## contributing", "### contributing", "## contribuer"]);
    assert(str_views(contributing_phrases_v@) =~= contributing_phrases());
    let has_contributing = markdown_heading_matches(t, &contributing_aliases_v) || contains_any(
        n,
        &contributing_phrases_v,
    ) || str_contains(n, "contributing.md") || inp.has_contributing_doc;

    let license_aliases_v = strs(vec!["license", "licence"]);
    assert(str_views(license_aliases_v@) =~= license_aliases());
    let license_phrases_v = strs(vec!["## license", "## licence", "licensed under"]);
    assert(str_views(license_phrases_v@) =~= license_phrases());
    let has_license = markdown_heading_matches(t, &license_aliases_v) || contains_any(
        n,
        &license_phrases_v,
    ) || str_contains(n, "license mit") || str_contains(n, "license apache") || str_contains(
        n,
        "licence mit",
    ) || str_contains(n, "licence apache") || str_contains(n, "/license") || (
    inp.has_license_file && (str_contains(n, "license") || str_contains(n, "licence")));

    let examples_aliases_v = strs(vec!["examples", "example", "exemples", "exemple"]);
    assert(str_views(examples_aliases_v@) =~= examples_aliases());
    let example_phrases_v = strs(vec!["## examples", "## example"]);
    assert(str_views(example_phrases_v@) =~= example_phrases());
    let has_examples = markdown_heading_matches(t, &examples_aliases_v) || contains_any(
        n,
        &example_phrases_v,
    );

    let has_code_block = markdown_code_block_count(t) >= 2;

    let stack_aliases_v = strs(
        vec![
            "stack",
            "stack technique",
            "tech stack",
            "technologies",
            "technology",
            "architecture",
        ],
    );
    assert(str_views(stack_aliases_v@) =~= stack_aliases());
    let has_stack_hint = markdown_heading_matches(t, &stack_aliases_v) || str_contains(
        n,
        install_snippet.as_str(),
    ) || str_contains(n, usage_snippet.as_str()) || cli || app;

    let license_section_v = strs(vec!["## license", "licensed under"]);
    assert(str_views(license_section_v@) =~= license_section_phrases());
    ReadmeSignals {
        has_length: utf8_byte_len(t) >= 450,
        has_install,
        has_usage,
        has_contributing,
        has_license,
        has_examples,
        has_code_block,
        has_stack_hint,
        is_placeholder: looks_placeholder(n),
        contributing_from_doc: inp.has_contributing_doc && !str_contains(n, "contributing"),
        license_from_file: inp.has_license_file && !contains_any(n, &license_section_v),
    }
}

// ---------------------------------------------------------------------------
// The verdict
// ---------------------------------------------------------------------------

/// The labels of the signals a README shows, in order.
pub open spec fn readme_evidence(s: ReadmeSignals) -> Seq<Seq<char>> {
    opt_item(s.has_length, "length"@) + opt_item(s.has_install, "install"@) + opt_item(
        s.has_usage,
        "usage"@,
    ) + opt_item(
        s.has_contributing,
        if s.contributing_from_doc {
            "contributing-doc"@
        } else {
            "contributing"@
        },
    ) + opt_item(
        s.has_license,
        if s.license_from_file {
            "license-reference"@
        } else {
            "license"@
        },
    ) + opt_item(s.has_examples, "examples"@) + opt_item(s.has_code_block, "code-blocks"@)
        + opt_item(s.has_stack_hint, "stack-hints"@)
}

/// The finding for a missing README section.
pub open spec fn missing_section(
    present: bool,
    id: Seq<char>,
    section: Seq<char>,
    help: Seq<char>,
    path: Seq<char>,
) -> Seq<AuditFindingView> {
    opt_item(
        !present,
        afv(
            id,
            FindingSeverity::Warning,
            "The README is missing a clear "@ + section + "."@,
            help,
            Seq::empty(),
            Some(path),
        ),
    )
}

pub open spec fn readme_findings_spec(s: ReadmeSignals, path: Seq<char>) -> Seq<AuditFindingView> {
    opt_item(
        !s.has_length,
        afv(
            "readme.depth"@,
            FindingSeverity::Warning,
            "The README is still very short for a first-time visitor."@,
            "Expand it with enough context, installation, usage, and examples for a new adopter."@,
            Seq::empty(),
            Some(path),
        ),
    ) + missing_section(
        s.has_install,
        "readme.install"@,
        "installation section"@,
        "Add an install or setup section with the first command a user should run."@,
        path,
    ) + missing_section(
        s.has_usage,
        "readme.usage"@,
        "usage section"@,
        "Add a usage or quick-start section that shows the core command or import path."@,
        path,
    ) + missing_section(
        s.has_examples,
        "readme.examples"@,
        "examples section"@,
        "Link to a reusable example path or include one concrete example in the README."@,
        path,
    ) + missing_section(
        s.has_contributing,
        "readme.contributing"@,
        "contributing guidance"@,
        "Link to CONTRIBUTING.md or summarize how contributors can get started."@,
        path,
    ) + missing_section(
        s.has_license,
        "readme.license"@,
        "license section"@,
        "Mention the project license and link to the root LICENSE file."@,
        path,
    ) + missing_section(
        s.has_code_block,
        "readme.code-blocks"@,
        "copy-pasteable code blocks"@,
        "Add at least one runnable command or code example that a reader can copy-paste."@,
        path,
    ) + missing_section(
        s.has_stack_hint,
        "readme.stack-hints"@,
        "stack-specific install or usage hints"@,
        "Mention the actual install or usage command for the detected stack."@,
        path,
    ) + opt_item(
        s.is_placeholder,
        afv(
            "readme.placeholder"@,
            FindingSeverity::Warning,
            "The README still reads like scaffold copy."@,
            "Replace starter text with project-specific positioning, examples, and contributor context."@,
            Seq::empty(),
            Some(path),
        ),
    )
}

/// The weights of the README signals: install and usage count double.
pub open spec fn readme_parts(s: ReadmeSignals) -> Seq<(u8, bool)> {
    seq![
        (10u8, s.has_length),
        (20u8, s.has_install),
        (20u8, s.has_usage),
        (10u8, s.has_contributing),
        (10u8, s.has_license),
        (10u8, s.has_examples),
        (10u8, s.has_code_block),
        (10u8, s.has_stack_hint),
    ]
}

/// The weighted coverage of the signals, 20 less for starter copy.
pub open spec fn readme_coverage(s: ReadmeSignals) -> u8 {
    let c = weighted_coverage_spec(readme_parts(s));
    if s.is_placeholder {
        if c >= 20 {
            (c - 20) as u8
        } else {
            0
        }
    } else {
        c
    }
}

pub open spec fn readme_message(s: ReadmeSignals) -> Seq<char> {
    if status_from_coverage(readme_coverage(s)) == CheckStatus::Strong {
        "README covers the main adoption flow with concrete sections and examples."@
    } else if s.is_placeholder {
        "README exists, but it still reads like starter copy and needs more project-specific guidance."@
    } else {
        "README covers "@ + decimal(readme_evidence(s).len())
            + "/8 adoption signals, but key onboarding sections are still missing."@
    }
}

pub open spec fn present_view(s: ReadmeSignals, path: Seq<char>) -> AssessmentView {
    AssessmentView {
        coverage: readme_coverage(s),
        confidence: 800,
        message: readme_message(s),
        evidence: readme_evidence(s),
        findings: readme_findings_spec(s, path),
        location: Some(path),
    }
}

pub open spec fn usage_flow_phrases() -> Seq<Seq<char>> {
    seq![
        "## usage"@,
        "## quick start"@,
        "## pipeline"@,
        "## execution"@,
        "python scripts/"@,
        "cargo run"@,
        "python -m"@,
    ]
}

pub open spec fn supporting_usage(d: RepoDocument) -> bool {
    contains_any_spec(str_lowercase(d.contents@), usage_flow_phrases())
}

pub open spec fn supporting_evidence(d: RepoDocument) -> Seq<Seq<char>> {
    let c = d.contents@;
    seq![d.display@] + opt_item(heading_line_count(lines_of(c)) >= 4, "structured-headings"@)
        + opt_item(count_matches(c, "```"@) >= 2, "code-blocks"@) + opt_item(
        supporting_usage(d),
        "usage-flow"@,
    )
}

/// No root README, but a supporting document: partial credit by how
/// structured it is.
pub open spec fn supporting_view(d: RepoDocument) -> AssessmentView {
    let ev = supporting_evidence(d);
    AssessmentView {
        coverage: (35 + ((ev.len() * 100) / 4) / 3) as u8,
        confidence: 780,
        message: "No canonical README was found, but "@ + d.display@
            + " contains substantial project documentation."@,
        evidence: ev,
        findings: seq![
            afv(
                "readme.missing-root"@,
                FindingSeverity::Warning,
                "There is no canonical README in the repository root."@,
                "Add a root README that orients a new visitor before they discover deeper project docs."@,
                seq![d.display@],
                Some(d.path@),
            ),
        ] + opt_item(
            !supporting_usage(d),
            afv(
                "readme.usage"@,
                FindingSeverity::Warning,
                "Supporting docs exist, but they do not clearly expose a runnable usage flow."@,
                "Add a quick-start or usage section with a copy-pasteable command path."@,
                Seq::empty(),
                Some(d.path@),
            ),
        ),
        location: Some(d.path@),
    }
}

/// No root README, but a nested project with its own.
pub open spec fn nested_view(n: NestedReadme) -> AssessmentView {
    let ev = seq!["nested project: "@ + n.root_display@, n.display@];
    AssessmentView {
        coverage: 25,
        confidence: 760,
        message: "No root README was found, but a nested standalone project already has its own README."@,
        evidence: ev,
        findings: seq![
            afv(
                "readme.nested_project"@,
                FindingSeverity::Warning,
                "The repository root has no README, but a nested project already carries project docs."@,
                "Add a root README that explains the repository layout and points readers to `"@
                    + n.display@ + "` if that nested project is the real app."@,
                ev,
                Some(n.path@),
            ),
        ],
        location: Some(n.path@),
    }
}

/// No README anywhere.
pub open spec fn no_readme_view() -> AssessmentView {
    AssessmentView {
        coverage: 0,
        confidence: 990,
        message: "No README was found in the repository root."@,
        evidence: Seq::empty(),
        findings: seq![
            afv(
                "readme.missing"@,
                FindingSeverity::Error,
                "No README was found in the repository root."@,
                "Add a README that explains what the project does, how to install it, how to use it, and where examples live."@,
                Seq::empty(),
                None,
            ),
        ],
        location: None,
    }
}

/// The README rule's verdict.
pub open spec fn readme_assessment_spec(inp: ReadmeInputs) -> AssessmentView {
    match inp.readme_path {
        Some(path) => present_view(readme_signals_spec(inp), path@),
        None => match inp.supporting_doc {
            Some(d) => supporting_view(d),
            None => match inp.nested_readme {
                Some(n) => nested_view(n),
                None => no_readme_view(),
            },
        },
    }
}

fn audit_finding(
    id: &str,
    severity: FindingSeverity,
    message: &str,
    help: &str,
    evidence: Vec<String>,
    location: Option<String>,
) -> (f: AuditFinding)
    ensures
        audit_view(f) == afv(id@, severity, message@, help@, views(evidence@), opt_seq(location)),
{
    crate::audit::finding(id, severity, message, help, evidence, location)
}

fn push_item(v: &mut Vec<String>, c: bool, x: &str)
    ensures
        views(final(v)@) == views(old(v)@) + opt_item(c, x@),
{
    if c {
        v.push(x.to_owned());
    }
    assert(views(v@) =~= views(old(v)@) + opt_item(c, x@));
}

fn push_finding(v: &mut Vec<AuditFinding>, c: bool, f: AuditFinding)
    ensures
        audit_views(final(v)@) == audit_views(old(v)@) + opt_item(c, audit_view(f)),
{
    if c {
        v.push(f);
    }
    assert(audit_views(v@) =~= audit_views(old(v)@) + opt_item(c, audit_view(f)));
}

fn missing_section_exec(
    v: &mut Vec<AuditFinding>,
    present: bool,
    id: &str,
    section: &str,
    help: &str,
    path: &str,
)
    ensures
        audit_views(final(v)@) == audit_views(old(v)@) + missing_section(
            present,
            id@,
            section@,
            help@,
            path@,
        ),
{
    let mut message = concat_str("The README is missing a clear ", section);
    message.append(".");
    let f = audit_finding(
        id,
        FindingSeverity::Warning,
        message.as_str(),
        help,
        no_evidence(),
        Some(path.to_owned()),
    );
    push_finding(v, !present, f);
}

fn no_evidence() -> (r: Vec<String>)
    ensures
        views(r@) == Seq::<Seq<char>>::empty(),
{
    let r: Vec<String> = Vec::new();
    assert(views(r@) =~= Seq::<Seq<char>>::empty());
    r
}

fn readme_evidence_exec(s: ReadmeSignals) -> (evidence: Vec<String>)
    ensures
        views(evidence@) == readme_evidence(s),
{
    let mut evidence: Vec<String> = Vec::new();
    push_item(&mut evidence, s.has_length, "length");
    push_item(&mut evidence, s.has_install, "install");
    push_item(&mut evidence, s.has_usage, "usage");
    push_item(
        &mut evidence,
        s.has_contributing,
        if s.contributing_from_doc {
            "contributing-doc"
        } else {
            "contributing"
        },
    );
    push_item(
        &mut evidence,
        s.has_license,
        if s.license_from_file {
            "license-reference"
        } else {
            "license"
        },
    );
    push_item(&mut evidence, s.has_examples, "examples");
    push_item(&mut evidence, s.has_code_block, "code-blocks");
    push_item(&mut evidence, s.has_stack_hint, "stack-hints");
    assert(views(evidence@) =~= readme_evidence(s));
    evidence
}

#[verifier::rlimit(40)]
fn readme_findings_exec(s: ReadmeSignals, path: &str) -> (findings: Vec<AuditFinding>)
    ensures
        audit_views(findings@) == readme_findings_spec(s, path@),
{
    let mut findings: Vec<AuditFinding> = Vec::new();
    let depth = audit_finding(
        "readme.depth",
        FindingSeverity::Warning,
        "The README is still very short for a first-time visitor.",
        "Expand it with enough context, installation, usage, and examples for a new adopter.",
        no_evidence(),
        Some(path.to_owned()),
    );
    push_finding(&mut findings, !s.has_length, depth);
    missing_section_exec(
        &mut findings,
        s.has_install,
        "readme.install",
        "installation section",
        "Add an install or setup section with the first command a user should run.",
        path,
    );
    missing_section_exec(
        &mut findings,
        s.has_usage,
        "readme.usage",
        "usage section",
        "Add a usage or quick-start section that shows the core command or import path.",
        path,
    );
    missing_section_exec(
        &mut findings,
        s.has_examples,
        "readme.examples",
        "examples section",
        "Link to a reusable example path or include one concrete example in the README.",
        path,
    );
    missing_section_exec(
        &mut findings,
        s.has_contributing,
        "readme.contributing",
        "contributing guidance",
        "Link to CONTRIBUTING.md or summarize how contributors can get started.",
        path,
    );
    missing_section_exec(
        &mut findings,
        s.has_license,
        "readme.license",
        "license section",
        "Mention the project license and link to the root LICENSE file.",
        path,
    );
    missing_section_exec(
        &mut findings,
        s.has_code_block,
        "readme.code-blocks",
        "copy-pasteable code blocks",
        "Add at least one runnable command or code example that a reader can copy-paste.",
        path,
    );
    missing_section_exec(
        &mut findings,
        s.has_stack_hint,
        "readme.stack-hints",
        "stack-specific install or usage hints",
        "Mention the actual install or usage command for the detected stack.",
        path,
    );
    let placeholder = audit_finding(
        "readme.placeholder",
        FindingSeverity::Warning,
        "The README still reads like scaffold copy.",
        "Replace starter text with project-specific positioning, examples, and contributor context.",
        no_evidence(),
        Some(path.to_owned()),
    );
    push_finding(&mut findings, s.is_placeholder, placeholder);
    assert(audit_views(findings@) =~= readme_findings_spec(s, path@));
    findings
}

fn readme_coverage_exec(s: ReadmeSignals) -> (coverage: u8)
    ensures
        coverage == readme_coverage(s),
{
    let parts: Vec<(u8, bool)> = vec![
        (10, s.has_length),
        (20, s.has_install),
        (20, s.has_usage),
        (10, s.has_contributing),
        (10, s.has_license),
        (10, s.has_examples),
        (10, s.has_code_block),
        (10, s.has_stack_hint),
    ];
    assert(parts@ =~= readme_parts(s));
    proof {
        reveal_with_fuel(weight_total, 9);
    }
    assert(weight_total(parts@) == 100);
    let coverage = weighted_coverage(&parts);
    if s.is_placeholder {
        if coverage >= 20 {
            coverage - 20
        } else {
            0
        }
    } else {
        coverage
    }
}

fn present_assessment(s: ReadmeSignals, path: &str) -> (r: RuleAssessment)
    ensures
        assessment_matches(r, present_view(s, path@)),
{
    let evidence = readme_evidence_exec(s);
    let findings = readme_findings_exec(s, path);
    let coverage = readme_coverage_exec(s);
    let status = CheckStatus::from_coverage(coverage);
    let message = if status == CheckStatus::Strong {
        "README covers the main adoption flow with concrete sections and examples.".to_owned()
    } else if s.is_placeholder {
        "README exists, but it still reads like starter copy and needs more project-specific guidance.".to_owned()
    } else {
        let mut m = concat_str("README covers ", decimal_string(evidence.len() as u64).as_str());
        m.append("/8 adoption signals, but key onboarding sections are still missing.");
        m
    };
    RuleAssessment {
        status,
        coverage,
        confidence_permille: 800,
        message,
        evidence,
        findings,
        location: Some(path.to_owned()),
    }
}

fn supporting_assessment(d: &RepoDocument) -> (r: RuleAssessment)
    ensures
        assessment_matches(r, supporting_view(*d)),
{
    let c = d.contents.as_str();
    let normalized = normalize(c);
    let headings = markdown_heading_count(c);
    let code_blocks = markdown_code_block_count(c);
    let phrases = strs(
        vec![
            "## usage",
            "## quick start",
            "## pipeline",
            "## execution",
            "python scripts/",
            "cargo run",
            "python -m",
        ],
    );
    assert(str_views(phrases@) =~= usage_flow_phrases());
    let has_usage_flow = contains_any(normalized.as_str(), &phrases);
    let mut evidence: Vec<String> = Vec::new();
    evidence.push(d.display.clone());
    push_item(&mut evidence, headings >= 4, "structured-headings");
    push_item(&mut evidence, code_blocks >= 2, "code-blocks");
    push_item(&mut evidence, has_usage_flow, "usage-flow");
    assert(views(evidence@) =~= supporting_evidence(*d));
    let mut shown: Vec<String> = Vec::new();
    shown.push(d.display.clone());
    assert(views(shown@) =~= seq![d.display@]);
    let mut findings: Vec<AuditFinding> = Vec::new();
    findings.push(
        audit_finding(
            "readme.missing-root",
            FindingSeverity::Warning,
            "There is no canonical README in the repository root.",
            "Add a root README that orients a new visitor before they discover deeper project docs.",
            shown,
            Some(d.path.clone()),
        ),
    );
    let usage = audit_finding(
        "readme.usage",
        FindingSeverity::Warning,
        "Supporting docs exist, but they do not clearly expose a runnable usage flow.",
        "Add a quick-start or usage section with a copy-pasteable command path.",
        no_evidence(),
        Some(d.path.clone()),
    );
    let ghost first = audit_views(findings@);
    push_finding(&mut findings, !has_usage_flow, usage);
    assert(audit_views(findings@) =~= supporting_view(*d).findings);
    let ratio = crate::audit::coverage_ratio(evidence.len(), 4);
    let coverage: u8 = 35 + ratio / 3;
    let mut message = concat_str("No canonical README was found, but ", d.display.as_str());
    message.append(" contains substantial project documentation.");
    RuleAssessment {
        status: CheckStatus::from_coverage(coverage),
        coverage,
        confidence_permille: 780,
        message,
        evidence,
        findings,
        location: Some(d.path.clone()),
    }
}

fn nested_assessment(n: &NestedReadme) -> (r: RuleAssessment)
    ensures
        assessment_matches(r, nested_view(*n)),
{
    let mut evidence: Vec<String> = Vec::new();
    evidence.push(concat_str("nested project: ", n.root_display.as_str()));
    evidence.push(n.display.clone());
    let mut shown: Vec<String> = Vec::new();
    shown.push(concat_str("nested project: ", n.root_display.as_str()));
    shown.push(n.display.clone());
    assert(views(evidence@) =~= seq!["nested project: "@ + n.root_display@, n.display@]);
    assert(views(shown@) =~= seq!["nested project: "@ + n.root_display@, n.display@]);
    let mut help = concat_str(
        "Add a root README that explains the repository layout and points readers to `",
        n.display.as_str(),
    );
    help.append("` if that nested project is the real app.");
    let mut findings: Vec<AuditFinding> = Vec::new();
    findings.push(
        audit_finding(
            "readme.nested_project",
            FindingSeverity::Warning,
            "The repository root has no README, but a nested project already carries project docs.",
            help.as_str(),
            shown,
            Some(n.path.clone()),
        ),
    );
    assert(audit_views(findings@) =~= nested_view(*n).findings);
    RuleAssessment {
        status: CheckStatus::from_coverage(25),
        coverage: 25,
        confidence_permille: 760,
        message: "No root README was found, but a nested standalone project already has its own README.".to_owned(),
        evidence,
        findings,
        location: Some(n.path.clone()),
    }
}

/// The README rule's verdict for a repository.
pub fn assess_readme(inp: &ReadmeInputs) -> (r: RuleAssessment)
    ensures
        r.status == crate::audit::status_from_coverage(r.coverage),
        r.coverage <= 100,
        assessment_matches(r, readme_assessment_spec(*inp)),
{
    match &inp.readme_path {
        Some(path) => {
            let s = readme_signals(inp);
            present_assessment(s, path.as_str())
        },
        None => match &inp.supporting_doc {
            Some(d) => supporting_assessment(d),
            None => match &inp.nested_readme {
                Some(n) => nested_assessment(n),
                None => {
                    let mut findings: Vec<AuditFinding> = Vec::new();
                    findings.push(
                        audit_finding(
                            "readme.missing",
                            FindingSeverity::Error,
                            "No README was found in the repository root.",
                            "Add a README that explains what the project does, how to install it, how to use it, and where examples live.",
                            no_evidence(),
                            None,
                        ),
                    );
                    assert(audit_views(findings@) =~= no_readme_view().findings);
                    let evidence = no_evidence();
                    RuleAssessment {
                        status: CheckStatus::from_coverage(0),
                        coverage: 0,
                        confidence_permille: 990,
                        message: "No README was found in the repository root.".to_owned(),
                        evidence,
                        findings,
                        location: None,
                    }
                },
            },
        },
    }
}

} // verus!
