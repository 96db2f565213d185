//! Repair prompts: the issues an audit leaves open, written as a prompt a
//! coding assistant can act on, and the files to inspect first.
use vstd::prelude::*;
use crate::audit::{
    category_str, finding_severity_str, fixability_str, status_str, AuditFinding, CheckStatus,
    FindingSeverity, Fixability, ReadinessTier, RuleCategory,
};
use crate::project::ProjectContext;
use crate::text::{
    concat_str, contains, decimal, decimal_string, join_seq, join_strings, lines, lines_of,
    replace_char, replace_char_seq, str_contains, str_eq, str_lowercase, to_lowercase, trim,
    trim_seq, views,
};

verus! {

#[derive(Debug, Clone, Copy, PartialEq, Eq, Structural)]
pub enum PromptStrategy {
    OneShot,
    Targeted,
}

pub open spec fn strategy_str(s: PromptStrategy) -> Seq<char> {
    match s {
        PromptStrategy::OneShot => "one-shot"@,
        PromptStrategy::Targeted => "targeted"@,
    }
}

impl PromptStrategy {
    pub fn as_str(self) -> (r: &'static str)
        ensures
            r@ == strategy_str(self),
    {
        match self {
            PromptStrategy::OneShot => "one-shot",
            PromptStrategy::Targeted => "targeted",
        }
    }
}

/// One rule an audit left open, as a prompt presents it.
#[derive(Debug, Clone)]
pub struct PromptIssue {
    pub rule_id: String,
    pub rule_label: String,
    pub category: RuleCategory,
    pub status: CheckStatus,
    pub fixability: Fixability,
    pub gap: u16,
    pub blocking: bool,
    pub primary_cause: Option<String>,
    pub summary: String,
    pub hint: String,
    pub findings: Vec<String>,
    pub locations: Vec<String>,
    pub evidence: Vec<String>,
}

/// One generated prompt and the issues it covers.
#[derive(Debug, Clone)]
pub struct GeneratedBugPrompt {
    pub strategy: PromptStrategy,
    pub title: String,
    pub issue_count: usize,
    pub selected_rules: Vec<String>,
    pub automatic_count: usize,
    pub guided_count: usize,
    pub manual_count: usize,
    pub preserve: Vec<String>,
    pub issues: Vec<PromptIssue>,
    pub prompt: String,
}

/// The prompts for a repository and the audit they come from.
#[derive(Debug, Clone)]
pub struct BugPromptReport {
    pub target: String,
    pub project: ProjectContext,
    pub score: u8,
    pub readiness: ReadinessTier,
    pub minimum_score: u8,
    pub strong_count: usize,
    pub partial_count: usize,
    pub missing_count: usize,
    pub prompt_count: usize,
    pub prompts: Vec<GeneratedBugPrompt>,
}

pub open spec fn prompt_texts(ps: Seq<GeneratedBugPrompt>) -> Seq<Seq<char>> {
    ps.map_values(|p: GeneratedBugPrompt| p.prompt@)
}

/// The report's prompts, separated by a rule, as one text to copy.
pub fn prompt_report_text(report: &BugPromptReport) -> (r: String)
    ensures
        r@ == join_seq(prompt_texts(report.prompts@), "\n\n---\n\n"@),
{
    let mut texts: Vec<String> = Vec::new();
    let mut i: usize = 0;
    while i < report.prompts.len()
        invariant
            i <= report.prompts.len(),
            views(texts@) == prompt_texts(report.prompts@.take(i as int)),
        decreases report.prompts.len() - i,
    {
        let ghost before = views(texts@);
        texts.push(report.prompts[i].prompt.clone());
        assert(views(texts@) =~= before.push(report.prompts@[i as int].prompt@));
        assert(prompt_texts(report.prompts@.take(i + 1)) =~= prompt_texts(
            report.prompts@.take(i as int),
        ).push(report.prompts@[i as int].prompt@));
        i += 1;
    }
    assert(report.prompts@.take(report.prompts.len() as int) =~= report.prompts@);
    join_strings(&texts, "\n\n---\n\n")
}

// ---------------------------------------------------------------------------
// Issue blocks
// ---------------------------------------------------------------------------

/// How many issues are fixable automatically, with guidance, and by hand.
pub open spec fn fixability_count(issues: Seq<PromptIssue>, f: Fixability) -> nat
    decreases issues.len(),
{
    if issues.len() == 0 {
        0
    } else {
        fixability_count(issues.drop_last(), f) + if issues.last().fixability == f {
            1nat
        } else {
            0nat
        }
    }
}

pub fn count_fixability(issues: &Vec<PromptIssue>) -> (r: (usize, usize, usize))
    ensures
        r.0 == fixability_count(issues@, Fixability::Automatic),
        r.1 == fixability_count(issues@, Fixability::Guided),
        r.2 == fixability_count(issues@, Fixability::Manual),
{
    let mut automatic: usize = 0;
    let mut guided: usize = 0;
    let mut manual: usize = 0;
    let mut i: usize = 0;
    while i < issues.len()
        invariant
            i <= issues.len(),
            automatic + guided + manual <= i,
            automatic == fixability_count(issues@.take(i as int), Fixability::Automatic),
            guided == fixability_count(issues@.take(i as int), Fixability::Guided),
            manual == fixability_count(issues@.take(i as int), Fixability::Manual),
        decreases issues.len() - i,
    {
        assert(issues@.take(i + 1).drop_last() =~= issues@.take(i as int));
        match issues[i].fixability {
            Fixability::Automatic => automatic = automatic + 1,
            Fixability::Guided => guided = guided + 1,
            Fixability::Manual => manual = manual + 1,
        }
        i += 1;
    }
    assert(issues@.take(issues.len() as int) =~= issues@);
    (automatic, guided, manual)
}

pub open spec fn bullets(items: Seq<Seq<char>>, indent: Seq<char>) -> Seq<Seq<char>> {
    items.map_values(|item: Seq<char>| indent + "- "@ + item)
}

/// Items as a bulleted list, or the fallback line when there are none.
pub open spec fn bullet_block_spec(items: Seq<Seq<char>>, indent: Seq<char>, fallback: Seq<char>) -> Seq<
    char,
> {
    if items.len() == 0 {
        indent + fallback
    } else {
        join_seq(bullets(items, indent), "\n"@)
    }
}

pub fn bullet_block(items: &Vec<String>, indent: &str, fallback: &str) -> (r: String)
    ensures
        r@ == bullet_block_spec(views(items@), indent@, fallback@),
{
    if items.len() == 0 {
        return concat_str(indent, fallback);
    }
    let mut lines_out: Vec<String> = Vec::new();
    let mut i: usize = 0;
    while i < items.len()
        invariant
            i <= items.len(),
            views(lines_out@) == bullets(views(items@).take(i as int), indent@),
        decreases items.len() - i,
    {
        let mut line = concat_str(indent, "- ");
        line.append(items[i].as_str());
        let ghost before = views(lines_out@);
        lines_out.push(line);
        assert(views(lines_out@) =~= before.push(indent@ + "- "@ + items@[i as int]@));
        assert(bullets(views(items@).take(i + 1), indent@) =~= bullets(
            views(items@).take(i as int),
            indent@,
        ).push(indent@ + "- "@ + items@[i as int]@));
        i += 1;
    }
    assert(views(items@).take(items.len() as int) =~= views(items@));
    join_strings(&lines_out, "\n")
}

pub open spec fn indented(ls: Seq<Seq<char>>, indent: Seq<char>) -> Seq<Seq<char>> {
    ls.map_values(|l: Seq<char>| indent + l)
}

/// Every line of the text indented.
pub open spec fn indent_block_spec(input: Seq<char>, indent: Seq<char>) -> Seq<char> {
    join_seq(indented(lines_of(input), indent), "\n"@)
}

pub fn indent_block(input: &str, indent: &str) -> (r: String)
    ensures
        r@ == indent_block_spec(input@, indent@),
{
    let ls = lines(input);
    let mut out: Vec<String> = Vec::new();
    let mut i: usize = 0;
    while i < ls.len()
        invariant
            i <= ls.len(),
            views(ls@) == lines_of(input@),
            views(out@) == indented(views(ls@).take(i as int), indent@),
        decreases ls.len() - i,
    {
        let ghost before = views(out@);
        out.push(concat_str(indent, ls[i].as_str()));
        assert(views(out@) =~= before.push(indent@ + ls@[i as int]@));
        assert(indented(views(ls@).take(i + 1), indent@) =~= indented(
            views(ls@).take(i as int),
            indent@,
        ).push(indent@ + ls@[i as int]@));
        i += 1;
    }
    assert(views(ls@).take(ls.len() as int) =~= views(ls@));
    join_strings(&out, "\n")
}

pub open spec fn opt_text(o: Option<String>, fallback: Seq<char>) -> Seq<char> {
    match o {
        Some(s) => s@,
        None => fallback,
    }
}

/// The detail lines of an issue block.
pub open spec fn issue_details(issue: PromptIssue) -> Seq<Seq<char>> {
    seq![
        "Status: "@ + status_str(issue.status) + " | Category: "@ + category_str(issue.category)
            + " | Fixability: "@ + fixability_str(issue.fixability) + " | Gap: "@ + decimal(
            issue.gap as nat,
        ) + if issue.blocking {
            " | Blocking"@
        } else {
            ""@
        },
        "Primary cause: "@ + opt_text(
            issue.primary_cause,
            "No single cause was isolated; use the findings and evidence below."@,
        ),
        "Rule summary: "@ + issue.summary@,
        "Hint: "@ + issue.hint@,
        "Findings:"@,
        bullet_block_spec(
            views(issue.findings@),
            "  "@,
            "- No granular findings were emitted for this issue."@,
        ),
        "Inspect first:"@,
        bullet_block_spec(
            views(issue.locations@),
            "  "@,
            "- No exact file was pinned; inspect the repository root and the nearest related files."@,
        ),
        "Evidence captured during audit:"@,
        bullet_block_spec(
            views(issue.evidence@),
            "  "@,
            "- No direct evidence was captured beyond the rule summary."@,
        ),
    ]
}

/// An issue as a numbered block: its header, then its details indented.
pub open spec fn issue_block_spec(index: nat, issue: PromptIssue) -> Seq<char> {
    decimal(index) + ". "@ + issue.rule_label@ + " (`"@ + issue.rule_id@ + "`)"@ + "\n"@
        + indent_block_spec(join_seq(issue_details(issue), "\n"@), "   "@)
}

pub fn format_issue_block(index: usize, issue: &PromptIssue) -> (r: String)
    ensures
        r@ == issue_block_spec(index as nat, *issue),
{
    let mut header = concat_str(decimal_string(index as u64).as_str(), ". ");
    header.append(issue.rule_label.as_str());
    header.append(" (`");
    header.append(issue.rule_id.as_str());
    header.append("`)");

    let mut status = concat_str("Status: ", issue.status.as_str());
    status.append(" | Category: ");
    status.append(issue.category.as_str());
    status.append(" | Fixability: ");
    status.append(issue.fixability.as_str());
    status.append(" | Gap: ");
    status.append(decimal_string(issue.gap as u64).as_str());
    status.append(if issue.blocking {
        " | Blocking"
    } else {
        ""
    });
    let cause = concat_str(
        "Primary cause: ",
        match &issue.primary_cause {
            Some(c) => c.as_str(),
            None => "No single cause was isolated; use the findings and evidence below.",
        },
    );
    let mut details: Vec<String> = Vec::new();
    details.push(status);
    details.push(cause);
    details.push(concat_str("Rule summary: ", issue.summary.as_str()));
    details.push(concat_str("Hint: ", issue.hint.as_str()));
    details.push("Findings:".to_owned());
    details.push(
        bullet_block(&issue.findings, "  ", "- No granular findings were emitted for this issue."),
    );
    details.push("Inspect first:".to_owned());
    details.push(
        bullet_block(
            &issue.locations,
            "  ",
            "- No exact file was pinned; inspect the repository root and the nearest related files.",
        ),
    );
    details.push("Evidence captured during audit:".to_owned());
    details.push(
        bullet_block(
            &issue.evidence,
            "  ",
            "- No direct evidence was captured beyond the rule summary.",
        ),
    );
    assert(views(details@) =~= issue_details(*issue));
    let body = indent_block(join_strings(&details, "\n").as_str(), "   ");
    header.append("\n");
    header.append(body.as_str());
    header
}

/// A finding as one line: its severity tag, its message and, when there is
/// help text, the help trimmed.
pub open spec fn finding_line(f: AuditFinding) -> Seq<char> {
    "["@ + finding_severity_str(f.severity) + "] "@ + f.message@ + if trim_seq(f.help@).len() == 0 {
        ""@
    } else {
        " | "@ + trim_seq(f.help@)
    }
}

pub fn format_finding(finding: &AuditFinding) -> (r: String)
    ensures
        r@ == finding_line(*finding),
{
    let help = trim(finding.help.as_str());
    let mut s = concat_str("[", finding.severity.as_str());
    s.append("] ");
    s.append(finding.message.as_str());
    let ghost base = s@;
    if !help.as_str().is_empty() {
        s.append(" | ");
        s.append(help.as_str());
        assert(s@ =~= base + (" | "@ + help@));
    } else {
        proof {
            reveal_strlit("");
        }
        assert(s@ =~= base + ""@);
    }
    s
}

// ---------------------------------------------------------------------------
// Where to look
// ---------------------------------------------------------------------------

/// A location under a tool's or a dependency's directory.
pub open spec fn ignored_location(entry: Seq<char>) -> bool {
    let n = str_lowercase(replace_char_seq(entry, '\\', '/'));
    contains(n, "/.git/"@) || contains(n, "/.agents/"@) || contains(n, "/.codex/"@) || contains(
        n,
        "/node_modules/"@,
    )
}

/// The locations with `entry` added, unless it is ignored or already there.
pub open spec fn push_location_spec(locations: Seq<Seq<char>>, entry: Seq<char>) -> Seq<Seq<char>> {
    if ignored_location(entry) || locations.contains(entry) {
        locations
    } else {
        locations.push(entry)
    }
}

fn contains_str(v: &Vec<String>, s: &str) -> (b: bool)
    ensures
        b == views(v@).contains(s@),
{
    let mut i: usize = 0;
    while i < v.len()
        invariant
            i <= v.len(),
            forall|k: int| 0 <= k < i ==> #[trigger] views(v@)[k] != s@,
        decreases v.len() - i,
    {
        if str_eq(v[i].as_str(), s) {
            assert(views(v@)[i as int] == s@);
            return true;
        }
        i += 1;
    }
    false
}

/// Adds a location unless it is ignored or already listed.
pub fn push_location(locations: &mut Vec<String>, entry: String)
    ensures
        views(final(locations)@) == push_location_spec(views(old(locations)@), entry@),
{
    let normalized = to_lowercase(replace_char(entry.as_str(), '\\', '/').as_str());
    let n = normalized.as_str();
    if str_contains(n, "/.git/") || str_contains(n, "/.agents/") || str_contains(n, "/.codex/")
        || str_contains(n, "/node_modules/") {
        return;
    }
    if !contains_str(locations, entry.as_str()) {
        let ghost before = views(locations@);
        let ghost e = entry@;
        locations.push(entry);
        assert(views(locations@) =~= before.push(e));
    }
}

/// Where a file the rule expects would be, marked as expected.
pub open spec fn expected_spec(target: Seq<char>, relative: Seq<char>) -> Seq<char> {
    if relative.len() == 0 {
        target
    } else {
        target + "\\"@ + replace_char_seq(relative, '/', '\\') + " (expected)"@
    }
}

fn expected(target: &str, relative: &str) -> (r: String)
    ensures
        r@ == expected_spec(target@, relative@),
{
    if relative.is_empty() {
        return target.to_owned();
    }
    let mut s = concat_str(target, "\\");
    s.append(replace_char(relative, '/', '\\').as_str());
    s.append(" (expected)");
    s
}

/// The files a rule expects, relative to the repository.
pub open spec fn expected_files(rule_id: Seq<char>) -> Seq<Seq<char>> {
    if rule_id == "readme"@ {
        seq!["README.md"@]
    } else if rule_id == "license"@ {
        seq!["LICENSE"@]
    } else if rule_id == "contributing"@ {
        seq!["CONTRIBUTING.md"@]
    } else if rule_id == "code_of_conduct"@ {
        seq!["CODE_OF_CONDUCT.md"@]
    } else if rule_id == "security_policy"@ {
        seq!["SECURITY.md"@]
    } else if rule_id == "changelog"@ {
        seq!["CHANGELOG.md"@]
    } else if rule_id == "codeowners"@ {
        seq![".github/CODEOWNERS"@]
    } else if rule_id == "funding"@ {
        seq![".github/FUNDING.yml"@]
    } else if rule_id == "dependabot"@ {
        seq![".github/dependabot.yml"@]
    } else if rule_id == "ci_workflow"@ {
        seq![".github/workflows/ci.yml"@]
    } else if rule_id == "release_workflow"@ {
        seq![".github/workflows/release.yml"@]
    } else if rule_id == "issue_templates"@ {
        seq![".github/ISSUE_TEMPLATE/bug_report.md"@, ".github/ISSUE_TEMPLATE/feature_request.md"@]
    } else if rule_id == "pull_request_template"@ {
        seq![".github/PULL_REQUEST_TEMPLATE.md"@]
    } else if rule_id == "tests"@ {
        seq!["tests"@]
    } else {
        Seq::empty()
    }
}

/// The rules whose manifest is worth inspecting.
pub open spec fn uses_manifest(rule_id: Seq<char>) -> bool {
    rule_id == "project_manifest"@ || rule_id == "manifest_metadata"@ || rule_id
        == "lint_and_format"@ || rule_id == "tests"@ || rule_id == "examples"@
}

/// The files a rule's expected locations add after its own files.
pub open spec fn extra_expected(rule_id: Seq<char>) -> Seq<Seq<char>> {
    if rule_id == "examples"@ {
        seq!["examples"@, "scripts"@]
    } else if rule_id == "lint_and_format"@ {
        seq![".github/workflows/ci.yml"@]
    } else {
        Seq::empty()
    }
}

/// Pushing each entry in turn.
pub open spec fn push_all(locations: Seq<Seq<char>>, entries: Seq<Seq<char>>) -> Seq<Seq<char>>
    decreases entries.len(),
{
    if entries.len() == 0 {
        locations
    } else {
        push_location_spec(push_all(locations, entries.drop_last()), entries.last())
    }
}

pub open spec fn expected_all(target: Seq<char>, rels: Seq<Seq<char>>) -> Seq<Seq<char>> {
    rels.map_values(|r: Seq<char>| expected_spec(target, r))
}

/// Where to look first for a rule: the files it expects, the manifest for
/// the rules that read it, then the rule's extra places.
pub open spec fn expected_locations_spec(
    rule_id: Seq<char>,
    target: Seq<char>,
    project: ProjectContext,
) -> Seq<Seq<char>> {
    let own = push_all(Seq::empty(), expected_all(target, expected_files(rule_id)));
    let with_manifest = if uses_manifest(rule_id) {
        match project.manifest_path {
            Some(m) => push_location_spec(own, m@),
            None => own,
        }
    } else {
        own
    };
    push_all(with_manifest, expected_all(target, extra_expected(rule_id)))
}

fn rel_list(rule_id: &str) -> (r: Vec<&'static str>)
    ensures
        crate::project::str_views(r@) == expected_files(rule_id@),
{
    proof {
        reveal_strlit("readme");
        reveal_strlit("license");
    }
    let r: Vec<&'static str> = if str_eq(rule_id, "readme") {
        vec!["README.md"]
    } else if str_eq(rule_id, "license") {
        vec!["LICENSE"]
    } else if str_eq(rule_id, "contributing") {
        vec!["CONTRIBUTING.md"]
    } else if str_eq(rule_id, "code_of_conduct") {
        vec!["CODE_OF_CONDUCT.md"]
    } else if str_eq(rule_id, "security_policy") {
        vec!["SECURITY.md"]
    } else if str_eq(rule_id, "changelog") {
        vec!["CHANGELOG.md"]
    } else if str_eq(rule_id, "codeowners") {
        vec![".github/CODEOWNERS"]
    } else if str_eq(rule_id, "funding") {
        vec![".github/FUNDING.yml"]
    } else if str_eq(rule_id, "dependabot") {
        vec![".github/dependabot.yml"]
    } else if str_eq(rule_id, "ci_workflow") {
        vec![".github/workflows/ci.yml"]
    } else if str_eq(rule_id, "release_workflow") {
        vec![".github/workflows/release.yml"]
    } else if str_eq(rule_id, "issue_templates") {
        vec![".github/ISSUE_TEMPLATE/bug_report.md", ".github/ISSUE_TEMPLATE/feature_request.md"]
    } else if str_eq(rule_id, "pull_request_template") {
        vec![".github/PULL_REQUEST_TEMPLATE.md"]
    } else if str_eq(rule_id, "tests") {
        vec!["tests"]
    } else {
        Vec::new()
    };
    assert(crate::project::str_views(r@) =~= expected_files(rule_id@));
    r
}

fn extra_list(rule_id: &str) -> (r: Vec<&'static str>)
    ensures
        crate::project::str_views(r@) == extra_expected(rule_id@),
{
    let r: Vec<&'static str> = if str_eq(rule_id, "examples") {
        vec!["examples", "scripts"]
    } else if str_eq(rule_id, "lint_and_format") {
        vec![".github/workflows/ci.yml"]
    } else {
        Vec::new()
    };
    assert(crate::project::str_views(r@) =~= extra_expected(rule_id@));
    r
}

fn push_expected_all(locations: &mut Vec<String>, target: &str, rels: &Vec<&str>)
    ensures
        views(final(locations)@) == push_all(
            views(old(locations)@),
            expected_all(target@, crate::project::str_views(rels@)),
        ),
{
    let ghost start = views(locations@);
    let ghost es = expected_all(target@, crate::project::str_views(rels@));
    let mut i: usize = 0;
    while i < rels.len()
        invariant
            i <= rels.len(),
            es == expected_all(target@, crate::project::str_views(rels@)),
            views(locations@) == push_all(start, es.take(i as int)),
        decreases rels.len() - i,
    {
        assert(es.take(i + 1).drop_last() =~= es.take(i as int));
        assert(es.take(i + 1).last() == expected_spec(target@, rels@[i as int]@));
        push_location(locations, expected(target, rels[i]));
        i += 1;
    }
    assert(es.take(rels.len() as int) =~= es);
}

/// Where to look first for a rule.
pub fn expected_locations(rule_id: &str, target: &str, project: &ProjectContext) -> (r: Vec<
    String,
>)
    ensures
        views(r@) == expected_locations_spec(rule_id@, target@, *project),
{
    let mut locations: Vec<String> = Vec::new();
    assert(views(locations@) =~= Seq::<Seq<char>>::empty());
    push_expected_all(&mut locations, target, &rel_list(rule_id));
    let manifest_rule = str_eq(rule_id, "project_manifest") || str_eq(rule_id, "manifest_metadata")
        || str_eq(rule_id, "lint_and_format") || str_eq(rule_id, "tests") || str_eq(
        rule_id,
        "examples",
    );
    if manifest_rule {
        match &project.manifest_path {
            Some(m) => push_location(&mut locations, m.clone()),
            None => {},
        }
    }
    push_expected_all(&mut locations, target, &extra_list(rule_id));
    locations
}

} // verus!
