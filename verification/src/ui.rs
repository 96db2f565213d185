//! Terminal presentation decisions: whether to go interactive, the explorer's
//! views and filters, and text bars.
use vstd::prelude::*;
use crate::audit::{CheckStatus, RuleCategory};
use crate::text::{push_char, str_eq};

verus! {

/// Interactive mode needs a terminal that is not `TERM=dumb`.
pub fn interactive_supported(is_tty: bool, term: Option<String>) -> (b: bool)
    ensures
        b == (is_tty && !(term matches Some(t) && t@ == "dumb"@)),
{
    let dumb = match &term {
        Some(t) => str_eq(t.as_str(), "dumb"),
        None => false,
    };
    is_tty && !dumb
}

/// The explorer's tabs.
#[derive(Debug, Clone, Copy, PartialEq, Eq, Structural)]
pub enum ActiveView {
    Overview,
    Checks,
    Diagnostics,
    Plan,
}

pub open spec fn view_label_spec(v: ActiveView) -> Seq<char> {
    match v {
        ActiveView::Overview => "Overview"@,
        ActiveView::Checks => "Checks"@,
        ActiveView::Diagnostics => "Diagnostics"@,
        ActiveView::Plan => "Plan"@,
    }
}

pub fn view_label(view: ActiveView) -> (r: &'static str)
    ensures
        r@ == view_label_spec(view),
{
    match view {
        ActiveView::Overview => "Overview",
        ActiveView::Checks => "Checks",
        ActiveView::Diagnostics => "Diagnostics",
        ActiveView::Plan => "Plan",
    }
}

/// Which check statuses the explorer lists.
#[derive(Debug, Clone, Copy, PartialEq, Eq, Structural)]
pub enum StatusFilter {
    All,
    Strong,
    Partial,
    Missing,
}

pub open spec fn next_filter(f: StatusFilter) -> StatusFilter {
    match f {
        StatusFilter::All => StatusFilter::Strong,
        StatusFilter::Strong => StatusFilter::Partial,
        StatusFilter::Partial => StatusFilter::Missing,
        StatusFilter::Missing => StatusFilter::All,
    }
}

pub open spec fn filter_label(f: StatusFilter) -> Seq<char> {
    match f {
        StatusFilter::All => "all"@,
        StatusFilter::Strong => "strong"@,
        StatusFilter::Partial => "partial"@,
        StatusFilter::Missing => "missing"@,
    }
}

pub open spec fn filter_matches(f: StatusFilter, s: CheckStatus) -> bool {
    match f {
        StatusFilter::All => true,
        StatusFilter::Strong => s == CheckStatus::Strong,
        StatusFilter::Partial => s == CheckStatus::Partial,
        StatusFilter::Missing => s == CheckStatus::Missing,
    }
}

impl StatusFilter {
    pub fn next(self) -> (r: StatusFilter)
        ensures
            r == next_filter(self),
    {
        match self {
            StatusFilter::All => StatusFilter::Strong,
            StatusFilter::Strong => StatusFilter::Partial,
            StatusFilter::Partial => StatusFilter::Missing,
            StatusFilter::Missing => StatusFilter::All,
        }
    }

    pub fn label(self) -> (r: &'static str)
        ensures
            r@ == filter_label(self),
    {
        match self {
            StatusFilter::All => "all",
            StatusFilter::Strong => "strong",
            StatusFilter::Partial => "partial",
            StatusFilter::Missing => "missing",
        }
    }

    pub fn matches(self, status: CheckStatus) -> (b: bool)
        ensures
            b == filter_matches(self, status),
    {
        match self {
            StatusFilter::All => true,
            StatusFilter::Strong => status == CheckStatus::Strong,
            StatusFilter::Partial => status == CheckStatus::Partial,
            StatusFilter::Missing => status == CheckStatus::Missing,
        }
    }
}

/// Cycling through the category filter: none, then each category in order.
pub open spec fn next_category_spec(c: Option<RuleCategory>) -> Option<RuleCategory> {
    match c {
        None => Some(RuleCategory::Identity),
        Some(RuleCategory::Identity) => Some(RuleCategory::Docs),
        Some(RuleCategory::Docs) => Some(RuleCategory::Community),
        Some(RuleCategory::Community) => Some(RuleCategory::Automation),
        Some(RuleCategory::Automation) => Some(RuleCategory::Release),
        Some(RuleCategory::Release) => None,
    }
}

pub fn next_category(current: Option<RuleCategory>) -> (r: Option<RuleCategory>)
    ensures
        r == next_category_spec(current),
{
    match current {
        None => Some(RuleCategory::Identity),
        Some(RuleCategory::Identity) => Some(RuleCategory::Docs),
        Some(RuleCategory::Docs) => Some(RuleCategory::Community),
        Some(RuleCategory::Community) => Some(RuleCategory::Automation),
        Some(RuleCategory::Automation) => Some(RuleCategory::Release),
        Some(RuleCategory::Release) => None,
    }
}

/// Moving a selection by `delta` in a list of `len` items, clamped to the
/// list; zero for an empty list.
pub open spec fn next_index_spec(current: int, len: int, delta: int) -> int {
    if len == 0 {
        0
    } else if delta < 0 {
        if current + delta < 0 {
            0
        } else {
            current + delta
        }
    } else if current + delta > len - 1 {
        len - 1
    } else {
        current + delta
    }
}

pub fn next_index(current: usize, len: usize, delta: isize) -> (r: usize)
    requires
        delta >= 0 ==> current + delta <= usize::MAX,
    ensures
        r == next_index_spec(current as int, len as int, delta as int),
{
    if len == 0 {
        return 0;
    }
    if delta < 0 {
        let magnitude: usize = if delta == isize::MIN {
            (isize::MAX as usize) + 1
        } else {
            (-delta) as usize
        };
        if magnitude > current {
            0
        } else {
            current - magnitude
        }
    } else {
        let sum = current + delta as usize;
        if sum > len - 1 {
            len - 1
        } else {
            sum
        }
    }
}

/// A bar of `width` cells, the filled share rounded to nearest.
pub open spec fn progress_bar_spec(score: u8, width: nat) -> Seq<char> {
    let filled = ((score * width + 50) / 100) as nat;
    Seq::new(filled, |i: int| '=') + Seq::new(
        if width >= filled {
            (width - filled) as nat
        } else {
            0
        },
        |i: int| '.',
    )
}

pub fn progress_bar(score: u8, width: usize) -> (r: String)
    requires
        score * width + 50 <= usize::MAX,
    ensures
        r@ == progress_bar_spec(score, width as nat),
{
    let filled = ((score as usize) * width + 50) / 100;
    let rest = if width >= filled {
        width - filled
    } else {
        0
    };
    let mut s = String::new();
    let mut i: usize = 0;
    while i < filled
        invariant
            i <= filled,
            s@ == Seq::new(i as nat, |k: int| '='),
        decreases filled - i,
    {
        push_char(&mut s, '=');
        assert(s@ =~= Seq::new((i + 1) as nat, |k: int| '='));
        i += 1;
    }
    let ghost bar = s@;
    let mut j: usize = 0;
    while j < rest
        invariant
            j <= rest,
            s@ == bar + Seq::new(j as nat, |k: int| '.'),
        decreases rest - j,
    {
        push_char(&mut s, '.');
        assert(s@ =~= bar + Seq::new((j + 1) as nat, |k: int| '.'));
        j += 1;
    }
    s
}

// ---------------------------------------------------------------------------
// The report model the interface draws
// ---------------------------------------------------------------------------

#[derive(Debug, Clone, Copy, PartialEq, Eq, Structural)]
pub enum UiMode {
    Audit,
    Fix,
    Plan,
}

#[derive(Debug, Clone, Copy)]
pub struct UiScoreSummary {
    pub score: u8,
    pub readiness: crate::audit::ReadinessTier,
    pub minimum_score: u8,
    pub strict_passed: bool,
}

#[derive(Debug, Clone)]
pub struct UiCategoryScore {
    pub label: String,
    pub score: u8,
    pub earned: u16,
    pub total: u16,
}

#[derive(Debug, Clone)]
pub struct UiCheck {
    pub id: String,
    pub label: String,
    pub status: CheckStatus,
    pub category: RuleCategory,
    pub fixability: crate::audit::Fixability,
    pub fixable: bool,
    pub gap: u16,
    pub coverage: u8,
    pub blocking: bool,
    pub message: String,
    pub hint: String,
    pub evidence: Vec<String>,
    pub primary_cause: Option<String>,
    pub primary_cause_detail: Option<String>,
    pub strongest_proof: Option<String>,
    pub strongest_contradiction: Option<String>,
    pub closest_context: Option<String>,
    pub retrieval_scope: Vec<String>,
    pub history_refs: Vec<String>,
}

#[derive(Debug, Clone)]
pub struct UiFile {
    pub action: crate::generator::FileAction,
    pub path: String,
    pub reason: Option<String>,
}

pub open spec fn ui_file_matches(u: UiFile, f: crate::generator::GeneratedFile) -> bool {
    &&& u.action == f.action
    &&& u.path@ == f.path@
    &&& crate::doctor::opt_seq(u.reason) == crate::doctor::opt_seq(f.reason)
}

/// The files of a scaffold report, as the interface lists them.
pub fn map_files(report: &crate::generator::InitReport) -> (r: Vec<UiFile>)
    ensures
        r@.len() == report.files@.len(),
        forall|i: int| 0 <= i < r@.len() ==> ui_file_matches(#[trigger] r@[i], report.files@[i]),
{
    let mut r: Vec<UiFile> = Vec::new();
    let mut i: usize = 0;
    while i < report.files.len()
        invariant
            i <= report.files.len(),
            r@.len() == i,
            forall|k: int| 0 <= k < i ==> ui_file_matches(#[trigger] r@[k], report.files@[k]),
        decreases report.files.len() - i,
    {
        let f = &report.files[i];
        let reason = match &f.reason {
            Some(x) => Some(x.clone()),
            None => None,
        };
        r.push(UiFile { action: f.action, path: f.path.clone(), reason });
        i += 1;
    }
    r
}

/// The categories of an audit, as the interface lists them.
pub fn map_categories(scores: &Vec<crate::audit::CategoryScore>) -> (r: Vec<UiCategoryScore>)
    ensures
        r@.len() == scores@.len(),
        forall|i: int|
            0 <= i < r@.len() ==> {
                &&& (#[trigger] r@[i]).label@ == crate::audit::category_str(scores@[i].category)
                &&& r@[i].score == scores@[i].score
                &&& r@[i].earned == scores@[i].earned
                &&& r@[i].total == scores@[i].total
            },
{
    let mut r: Vec<UiCategoryScore> = Vec::new();
    let mut i: usize = 0;
    while i < scores.len()
        invariant
            i <= scores.len(),
            r@.len() == i,
            forall|k: int|
                0 <= k < i ==> {
                    &&& (#[trigger] r@[k]).label@ == crate::audit::category_str(scores@[k].category)
                    &&& r@[k].score == scores@[k].score
                    &&& r@[k].earned == scores@[k].earned
                    &&& r@[k].total == scores@[k].total
                },
        decreases scores.len() - i,
    {
        let c = &scores[i];
        r.push(
            UiCategoryScore {
                label: c.category.as_str().to_owned(),
                score: c.score,
                earned: c.earned,
                total: c.total,
            },
        );
        i += 1;
    }
    r
}

/// A context reference as `path`, `path:line` or `path:start-end`.
pub open spec fn context_ref_text(c: crate::intel::ContextRef) -> Seq<char> {
    match (c.line_start, c.line_end) {
        (Some(start), Some(end)) => if start == end {
            c.path@ + ":"@ + crate::text::decimal(start as nat)
        } else {
            c.path@ + ":"@ + crate::text::decimal(start as nat) + "-"@ + crate::text::decimal(
                end as nat,
            )
        },
        _ => c.path@,
    }
}

pub fn format_context_ref(c: &crate::intel::ContextRef) -> (r: String)
    ensures
        r@ == context_ref_text(*c),
{
    match (c.line_start, c.line_end) {
        (Some(start), Some(end)) => {
            let mut s = crate::text::concat_str(c.path.as_str(), ":");
            s.append(crate::text::decimal_string(start as u64).as_str());
            if start != end {
                s.append("-");
                s.append(crate::text::decimal_string(end as u64).as_str());
            }
            s
        },
        _ => c.path.clone(),
    }
}

} // verus!
