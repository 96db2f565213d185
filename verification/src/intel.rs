//! Repository intelligence: context chunk kinds, history references, and
//! the per-rule knowledge (aliases, paths, commands) that explains checks.
use vstd::prelude::*;
use crate::audit::FindingSeverity;
use crate::text::{
    ascii_lower, ascii_lower_char, byte_prefix_or_all, chars_of, get_prefix_or_all, is_ascii_alnum,
    is_ascii_alnum_char, seq_lt, str_eq, str_less, string_from_chars, trim_char, trim_char_seq,
    views,
};

verus! {

#[derive(Debug, Clone, Copy, PartialEq, Eq, Structural)]
pub enum CacheState {
    Cold,
    Warm,
    Unavailable,
}

impl CacheState {
    /// A new retrieval scope starts cold.
    pub fn default_state() -> (c: CacheState)
        ensures
            c == CacheState::Cold,
    {
        CacheState::Cold
    }
}

#[derive(Debug, Clone, Copy, PartialEq, Eq, Structural)]
pub enum ChunkKind {
    Manifest,
    ManifestSection,
    MarkdownDocument,
    MarkdownHeading,
    MarkdownCodeFence,
    Workflow,
    WorkflowJob,
    WorkflowStep,
    Script,
    TestPath,
    ExamplePath,
    DocsPath,
    FilePath,
}

pub open spec fn chunk_kind_str(k: ChunkKind) -> Seq<char> {
    match k {
        ChunkKind::Manifest => "manifest"@,
        ChunkKind::ManifestSection => "manifest-section"@,
        ChunkKind::MarkdownDocument => "markdown-document"@,
        ChunkKind::MarkdownHeading => "markdown-heading"@,
        ChunkKind::MarkdownCodeFence => "markdown-code-fence"@,
        ChunkKind::Workflow => "workflow"@,
        ChunkKind::WorkflowJob => "workflow-job"@,
        ChunkKind::WorkflowStep => "workflow-step"@,
        ChunkKind::Script => "script"@,
        ChunkKind::TestPath => "test-path"@,
        ChunkKind::ExamplePath => "example-path"@,
        ChunkKind::DocsPath => "docs-path"@,
        ChunkKind::FilePath => "file-path"@,
    }
}

impl ChunkKind {
    pub fn as_str(self) -> (r: &'static str)
        ensures
            r@ == chunk_kind_str(self),
    {
        match self {
            ChunkKind::Manifest => "manifest",
            ChunkKind::ManifestSection => "manifest-section",
            ChunkKind::MarkdownDocument => "markdown-document",
            ChunkKind::MarkdownHeading => "markdown-heading",
            ChunkKind::MarkdownCodeFence => "markdown-code-fence",
            ChunkKind::Workflow => "workflow",
            ChunkKind::WorkflowJob => "workflow-job",
            ChunkKind::WorkflowStep => "workflow-step",
            ChunkKind::Script => "script",
            ChunkKind::TestPath => "test-path",
            ChunkKind::ExamplePath => "example-path",
            ChunkKind::DocsPath => "docs-path",
            ChunkKind::FilePath => "file-path",
        }
    }
}

/// Where a check's evidence sits in a file.
#[derive(Debug, Clone)]
pub struct ContextRef {
    pub path: String,
    pub chunk_kind: ChunkKind,
    pub byte_start: Option<u32>,
    pub byte_end: Option<u32>,
    pub line_start: Option<u32>,
    pub line_end: Option<u32>,
    pub approximate: bool,
    pub excerpt: Option<String>,
}

/// A commit or tag that bears on a check.
#[derive(Debug, Clone)]
pub struct HistoryRef {
    pub kind: String,
    pub id: String,
    pub summary: String,
    pub commit_time: Option<i64>,
    pub path: Option<String>,
}

#[derive(Debug, Clone, Copy, PartialEq, Eq, Structural)]
pub enum ProofKind {
    Satisfied,
    Missing,
    Contradiction,
    Historical,
}

/// What was consulted to explain a check.
#[derive(Debug, Clone)]
pub struct RetrievalScope {
    pub consulted_paths: Vec<String>,
    pub chunk_kinds: Vec<String>,
    pub used_history: bool,
    pub cache_state: CacheState,
}

/// The recent history of a repository.
#[derive(Debug, Clone)]
pub struct HistorySnapshot {
    pub head_rev: Option<String>,
    pub recent_commits: Vec<HistoryRef>,
    pub recent_tags: Vec<HistoryRef>,
}

pub open spec fn uses_tags(rule_id: Seq<char>) -> bool {
    rule_id == "release_workflow"@ || rule_id == "changelog"@
}

pub open spec fn uses_more_commits(rule_id: Seq<char>) -> bool {
    rule_id == "readme"@ || rule_id == "contributing_guide"@ || rule_id == "security_policy"@
}

pub open spec fn min_int(a: int, b: int) -> int {
    if a <= b {
        a
    } else {
        b
    }
}

/// The history a rule cites: the recent tags for release rules, then the
/// five (documentation rules) or three most recent commits, at most eight
/// references in all.
pub open spec fn refs_for_rule_spec(
    tags: Seq<HistoryRef>,
    commits: Seq<HistoryRef>,
    rule_id: Seq<char>,
) -> Seq<HistoryRef> {
    let all = (if uses_tags(rule_id) {
        tags
    } else {
        Seq::empty()
    }) + commits.take(
        min_int(
            commits.len() as int,
            if uses_more_commits(rule_id) {
                5
            } else {
                3
            },
        ),
    );
    all.take(min_int(all.len() as int, 8))
}

/// Copies a history reference field by field.
fn copy_ref(r: &HistoryRef) -> (c: HistoryRef)
    ensures
        c == *r,
{
    HistoryRef {
        kind: r.kind.clone(),
        id: r.id.clone(),
        summary: r.summary.clone(),
        commit_time: r.commit_time,
        path: match &r.path {
            Some(p) => Some(p.clone()),
            None => None,
        },
    }
}

impl HistorySnapshot {
    pub fn refs_for_rule(&self, rule_id: &str) -> (r: Vec<HistoryRef>)
        ensures
            r@ == refs_for_rule_spec(self.recent_tags@, self.recent_commits@, rule_id@),
            r@.len() <= 8,
    {
        let mut refs: Vec<HistoryRef> = Vec::new();
        let tags = str_eq(rule_id, "release_workflow") || str_eq(rule_id, "changelog");
        if tags {
            let mut i: usize = 0;
            while i < self.recent_tags.len()
                invariant
                    i <= self.recent_tags.len(),
                    refs@ == self.recent_tags@.take(i as int),
                decreases self.recent_tags.len() - i,
            {
                refs.push(copy_ref(&self.recent_tags[i]));
                assert(refs@ =~= self.recent_tags@.take(i + 1));
                i += 1;
            }
            assert(self.recent_tags@.take(self.recent_tags.len() as int) =~= self.recent_tags@);
        }
        let ghost base = refs@;
        let more = str_eq(rule_id, "readme") || str_eq(rule_id, "contributing_guide") || str_eq(
            rule_id,
            "security_policy",
        );
        let limit: usize = if more {
            5
        } else {
            3
        };
        let count = if self.recent_commits.len() < limit {
            self.recent_commits.len()
        } else {
            limit
        };
        let mut j: usize = 0;
        while j < count
            invariant
                j <= count <= self.recent_commits.len(),
                refs@ == base + self.recent_commits@.take(j as int),
            decreases count - j,
        {
            refs.push(copy_ref(&self.recent_commits[j]));
            assert(refs@ =~= base + self.recent_commits@.take(j + 1));
            j += 1;
        }
        let ghost all = refs@;
        assert(base =~= (if uses_tags(rule_id@) {
            self.recent_tags@
        } else {
            Seq::empty()
        }));
        if refs.len() > 8 {
            refs.truncate(8);
        }
        assert(refs@ =~= all.take(min_int(all.len() as int, 8)));
        refs
    }
}

/// A commit id shortened to its first eight bytes when those end on a
/// character boundary.
pub fn short_id(value: &str) -> (r: String)
    ensures
        r@ == byte_prefix_or_all(value@, 8),
{
    get_prefix_or_all(value, 8)
}

/// ASCII letters and digits lowercased, anything else a dash.
pub open spec fn slug_char(c: char) -> char {
    if is_ascii_alnum(c) {
        ascii_lower(c)
    } else {
        '-'
    }
}

pub open spec fn slugify_spec(s: Seq<char>) -> Seq<char> {
    trim_char_seq(s.map_values(|c: char| slug_char(c)), '-')
}

pub fn slugify(value: &str) -> (r: String)
    ensures
        r@ == slugify_spec(value@),
{
    let v = chars_of(value);
    let mut out: Vec<char> = Vec::new();
    let mut i: usize = 0;
    while i < v.len()
        invariant
            i <= v.len(),
            v@ == value@,
            out@ == v@.take(i as int).map_values(|c: char| slug_char(c)),
        decreases v.len() - i,
    {
        let c = v[i];
        out.push(if is_ascii_alnum_char(c) {
            ascii_lower_char(c)
        } else {
            '-'
        });
        assert(v@.take(i + 1).map_values(|c: char| slug_char(c)) =~= v@.take(i as int).map_values(
            |c: char| slug_char(c),
        ).push(slug_char(c)));
        i += 1;
    }
    assert(v@.take(v.len() as int) =~= v@);
    string_from_chars(&trim_char(&out, '-'))
}

/// How much a finding of each severity weighs in an explanation.
pub fn severity_weight(severity: FindingSeverity) -> (w: u16)
    ensures
        w == (match severity {
            FindingSeverity::Error => 5u16,
            FindingSeverity::Warning => 4u16,
            FindingSeverity::Info => 3u16,
        }),
{
    match severity {
        FindingSeverity::Error => 5,
        FindingSeverity::Warning => 4,
        FindingSeverity::Info => 3,
    }
}

/// A finding as the rule inference reads it.
#[derive(Debug, Clone)]
pub struct FindingSignal {
    pub id: String,
    pub severity: crate::audit::FindingSeverity,
    pub message: String,
    pub help: String,
    pub location: Option<String>,
}

/// What the rule inference reads of one audited rule.
#[derive(Debug, Clone)]
pub struct RuleInput {
    pub rule_id: String,
    pub label: String,
    pub coverage: u8,
    pub message: String,
    pub evidence: Vec<String>,
    pub findings: Vec<FindingSignal>,
    pub location: Option<String>,
}

} // verus!
