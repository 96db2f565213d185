//! Which open rules a repair prompt covers, in what order, and the issues
//! and signals it lists.
use vstd::prelude::*;
use crate::audit::{AuditFinding, CheckStatus, FindingSeverity};
use crate::audit_report::{AuditCheck, AuditReport};
use crate::project::ProjectContext;
use crate::prompt::{
    bullet_block, bullet_block_spec, count_fixability, expected_locations, expected_locations_spec,
    finding_line, fixability_count, format_finding, format_issue_block, issue_block_spec, push_location,
    push_location_spec, BugPromptReport, GeneratedBugPrompt, PromptIssue, PromptStrategy,
};
use crate::audit::{category_str, fixability_str, status_str, tier_str, Fixability, ReadinessTier};
use crate::audit_report::status_count;
use crate::project::kind_display_name;
use crate::text::{decimal, decimal_string, join_seq, join_strings};
use crate::text::{
    ascii_lowercase, concat_str, contains, seq_lt, str_contains, str_eq, str_less, str_lowercase,
    to_ascii_lowercase, to_lowercase, trim, trim_seq, views,
};

verus! {

// ---------------------------------------------------------------------------
// Ranking
// ---------------------------------------------------------------------------

pub open spec fn finding_points(s: FindingSeverity) -> nat {
    match s {
        FindingSeverity::Error => 3,
        FindingSeverity::Warning => 2,
        FindingSeverity::Info => 1,
    }
}

/// The worst severity among the findings: 3 for an error, 2 for a warning,
/// 1 for a note, 0 without findings.
pub open spec fn severity_score_spec(fs: Seq<AuditFinding>) -> nat
    decreases fs.len(),
{
    if fs.len() == 0 {
        0
    } else {
        let prev = severity_score_spec(fs.drop_last());
        let p = finding_points(fs.last().severity);
        if p > prev {
            p
        } else {
            prev
        }
    }
}

pub fn severity_score(check: &AuditCheck) -> (s: u8)
    ensures
        s == severity_score_spec(check.findings@),
{
    let mut best: u8 = 0;
    let mut i: usize = 0;
    while i < check.findings.len()
        invariant
            i <= check.findings.len(),
            best == severity_score_spec(check.findings@.take(i as int)),
            best <= 3,
        decreases check.findings.len() - i,
    {
        assert(check.findings@.take(i + 1).drop_last() =~= check.findings@.take(i as int));
        let p: u8 = match check.findings[i].severity {
            FindingSeverity::Error => 3,
            FindingSeverity::Warning => 2,
            FindingSeverity::Info => 1,
        };
        if p > best {
            best = p;
        }
        i += 1;
    }
    assert(check.findings@.take(check.findings.len() as int) =~= check.findings@);
    best
}

pub open spec fn gap_spec(c: AuditCheck) -> nat {
    if c.weight >= c.earned {
        (c.weight - c.earned) as nat
    } else {
        0
    }
}

/// The order in which open rules are fixed: blocking rules first, then the
/// larger gap, the worse finding, and the label.
pub open spec fn fix_before(a: AuditCheck, b: AuditCheck) -> bool {
    if a.blocking != b.blocking {
        a.blocking
    } else if gap_spec(a) != gap_spec(b) {
        gap_spec(a) > gap_spec(b)
    } else if severity_score_spec(a.findings@) != severity_score_spec(b.findings@) {
        severity_score_spec(a.findings@) > severity_score_spec(b.findings@)
    } else {
        seq_lt(a.label@, b.label@)
    }
}

/// The order of the strong signals: higher coverage first, then the label.
pub open spec fn keep_before(a: AuditCheck, b: AuditCheck) -> bool {
    if a.coverage != b.coverage {
        a.coverage > b.coverage
    } else {
        seq_lt(a.label@, b.label@)
    }
}

pub open spec fn before(a: AuditCheck, b: AuditCheck, fixing: bool) -> bool {
    if fixing {
        fix_before(a, b)
    } else {
        keep_before(a, b)
    }
}

/// The first position in `r` (indices into `cs`) whose check `x` goes before.
pub open spec fn slot_from(cs: Seq<AuditCheck>, r: Seq<usize>, x: usize, fixing: bool, i: int) -> int
    decreases r.len() - i,
{
    if i >= r.len() || i < 0 {
        r.len() as int
    } else if before(cs[x as int], cs[r[i] as int], fixing) {
        i
    } else {
        slot_from(cs, r, x, fixing, i + 1)
    }
}

/// `idx` sorted, stably, by `before` (an insertion sort).
pub open spec fn ranked(cs: Seq<AuditCheck>, idx: Seq<usize>, fixing: bool) -> Seq<usize>
    decreases idx.len(),
{
    if idx.len() == 0 {
        Seq::empty()
    } else {
        let r = ranked(cs, idx.drop_last(), fixing);
        r.insert(slot_from(cs, r, idx.last(), fixing, 0), idx.last())
    }
}

pub proof fn lemma_slot_range(cs: Seq<AuditCheck>, r: Seq<usize>, x: usize, fixing: bool, i: int)
    requires
        0 <= i <= r.len(),
    ensures
        i <= slot_from(cs, r, x, fixing, i) <= r.len(),
    decreases r.len() - i,
{
    if i < r.len() && !before(cs[x as int], cs[r[i] as int], fixing) {
        lemma_slot_range(cs, r, x, fixing, i + 1);
    }
}

pub proof fn lemma_ranked_len(cs: Seq<AuditCheck>, idx: Seq<usize>, fixing: bool)
    ensures
        ranked(cs, idx, fixing).len() == idx.len(),
        forall|k: int|
            0 <= k < ranked(cs, idx, fixing).len() ==> idx.contains(#[trigger] ranked(cs, idx, fixing)[k]),
    decreases idx.len(),
{
    if idx.len() > 0 {
        let r = ranked(cs, idx.drop_last(), fixing);
        lemma_ranked_len(cs, idx.drop_last(), fixing);
        lemma_slot_range(cs, r, idx.last(), fixing, 0);
        let p = slot_from(cs, r, idx.last(), fixing, 0);
        let out = r.insert(p, idx.last());
        assert forall|k: int| 0 <= k < out.len() implies idx.contains(#[trigger] out[k]) by {
            if k < p {
                assert(out[k] == r[k]);
                assert(idx.drop_last().contains(r[k]));
                let j = choose|j: int| 0 <= j < idx.drop_last().len() && idx.drop_last()[j] == r[k];
                assert(idx[j] == r[k]);
            } else if k == p {
                assert(idx[idx.len() - 1] == out[k]);
            } else {
                assert(out[k] == r[k - 1]);
                assert(idx.drop_last().contains(r[k - 1]));
                let j = choose|j: int| 0 <= j < idx.drop_last().len() && idx.drop_last()[j] == r[k - 1];
                assert(idx[j] == r[k - 1]);
            }
        }
    }
}

pub proof fn lemma_slot_first(cs: Seq<AuditCheck>, r: Seq<usize>, x: usize, fixing: bool, i: int)
    requires
        0 <= i <= r.len(),
    ensures
        forall|k: int|
            i <= k < slot_from(cs, r, x, fixing, i) ==> !before(cs[x as int], cs[#[trigger] r[k] as int], fixing),
        slot_from(cs, r, x, fixing, i) < r.len() ==> before(
            cs[x as int],
            cs[r[slot_from(cs, r, x, fixing, i)] as int],
            fixing,
        ),
    decreases r.len() - i,
{
    if i < r.len() && !before(cs[x as int], cs[r[i] as int], fixing) {
        lemma_slot_first(cs, r, x, fixing, i + 1);
    }
}

/// The checks come first that block, then those that miss more points.
pub open spec fn ranks_at_least(a: AuditCheck, b: AuditCheck) -> bool {
    (a.blocking && !b.blocking) || (a.blocking == b.blocking && gap_spec(a) >= gap_spec(b))
}

/// The fix ranking orders its checks by blocking, then by missing points.
pub proof fn lemma_ranked_by_blocking_and_gap(cs: Seq<AuditCheck>, idx: Seq<usize>)
    ensures
        forall|p: int, q: int|
            0 <= p < q < ranked(cs, idx, true).len() ==> ranks_at_least(
                cs[#[trigger] ranked(cs, idx, true)[p] as int],
                cs[#[trigger] ranked(cs, idx, true)[q] as int],
            ),
    decreases idx.len(),
{
    if idx.len() > 0 {
        let r = ranked(cs, idx.drop_last(), true);
        let x = idx.last();
        lemma_ranked_by_blocking_and_gap(cs, idx.drop_last());
        lemma_slot_range(cs, r, x, true, 0);
        lemma_slot_first(cs, r, x, true, 0);
        let s = slot_from(cs, r, x, true, 0);
        let u = r.insert(s, x);
        let cx = cs[x as int];
        assert forall|p: int, q: int| 0 <= p < q < u.len() implies ranks_at_least(
            cs[#[trigger] u[p] as int],
            cs[#[trigger] u[q] as int],
        ) by {
            if q < s {
                assert(u[p] == r[p] && u[q] == r[q]);
            } else if q == s {
                assert(u[p] == r[p] && u[q] == x);
                assert(!before(cx, cs[r[p] as int], true));
            } else if p < s {
                assert(u[p] == r[p] && u[q] == r[q - 1]);
                assert(!before(cx, cs[r[p] as int], true));
                assert(before(cx, cs[r[s] as int], true));
                if s < q - 1 {
                    assert(ranks_at_least(cs[r[s] as int], cs[r[q - 1] as int]));
                }
            } else if p == s {
                assert(u[p] == x && u[q] == r[q - 1]);
                assert(before(cx, cs[r[s] as int], true));
                if s < q - 1 {
                    assert(ranks_at_least(cs[r[s] as int], cs[r[q - 1] as int]));
                }
            } else {
                assert(u[p] == r[p - 1] && u[q] == r[q - 1]);
            }
        }
    }
}

fn before_exec(a: &AuditCheck, b: &AuditCheck, fixing: bool) -> (r: bool)
    ensures
        r == before(*a, *b, fixing),
{
    if fixing {
        if a.blocking != b.blocking {
            return a.blocking;
        }
        let ga = a.gap();
        let gb = b.gap();
        if ga != gb {
            return ga > gb;
        }
        let sa = severity_score(a);
        let sb = severity_score(b);
        if sa != sb {
            return sa > sb;
        }
        str_less(a.label.as_str(), b.label.as_str())
    } else {
        if a.coverage != b.coverage {
            return a.coverage > b.coverage;
        }
        str_less(a.label.as_str(), b.label.as_str())
    }
}

/// The indices `idx` of checks sorted stably by `before`.
pub fn rank_indices(checks: &Vec<AuditCheck>, idx: &Vec<usize>, fixing: bool) -> (r: Vec<usize>)
    requires
        forall|k: int| 0 <= k < idx@.len() ==> (#[trigger] idx@[k]) < checks@.len(),
    ensures
        r@ == ranked(checks@, idx@, fixing),
        forall|k: int| 0 <= k < r@.len() ==> (#[trigger] r@[k]) < checks@.len(),
{
    let mut r: Vec<usize> = Vec::new();
    let mut i: usize = 0;
    while i < idx.len()
        invariant
            i <= idx.len(),
            forall|k: int| 0 <= k < idx@.len() ==> (#[trigger] idx@[k]) < checks@.len(),
            r@ == ranked(checks@, idx@.take(i as int), fixing),
            forall|k: int| 0 <= k < r@.len() ==> (#[trigger] r@[k]) < checks@.len(),
        decreases idx.len() - i,
    {
        assert(idx@.take(i + 1).drop_last() =~= idx@.take(i as int));
        assert(idx@.take(i + 1).last() == idx@[i as int]);
        let x = idx[i];
        let mut p: usize = 0;
        while p < r.len()
            invariant
                p <= r.len(),
                x < checks@.len(),
                forall|k: int| 0 <= k < r@.len() ==> (#[trigger] r@[k]) < checks@.len(),
                slot_from(checks@, r@, x, fixing, p as int) == slot_from(checks@, r@, x, fixing, 0),
            ensures
                p <= r.len(),
                slot_from(checks@, r@, x, fixing, 0) == p,
            decreases r.len() - p,
        {
            if before_exec(&checks[x], &checks[r[p]], fixing) {
                break;
            }
            p += 1;
        }
        let ghost before_r = r@;
        r.insert(p, x);
        assert forall|k: int| 0 <= k < r@.len() implies (#[trigger] r@[k]) < checks@.len() by {
            if k < p {
                assert(r@[k] == before_r[k]);
            } else if k > p {
                assert(r@[k] == before_r[k - 1]);
            }
        }
        i += 1;
    }
    assert(idx@.take(idx.len() as int) =~= idx@);
    r
}

// ---------------------------------------------------------------------------
// Selecting rules
// ---------------------------------------------------------------------------

/// The indices of the checks with status other than strong (or, with
/// `strong`, of the strong checks), in order.
pub open spec fn indices_where(cs: Seq<AuditCheck>, n: int, strong: bool) -> Seq<usize>
    decreases n,
{
    if n <= 0 {
        Seq::empty()
    } else {
        indices_where(cs, n - 1, strong) + if (cs[n - 1].status == CheckStatus::Strong) == strong {
            seq![(n - 1) as usize]
        } else {
            Seq::empty()
        }
    }
}

fn status_indices(checks: &Vec<AuditCheck>, strong: bool) -> (r: Vec<usize>)
    ensures
        r@ == indices_where(checks@, checks@.len() as int, strong),
        forall|k: int| 0 <= k < r@.len() ==> (#[trigger] r@[k]) < checks@.len(),
{
    let mut r: Vec<usize> = Vec::new();
    let mut i: usize = 0;
    while i < checks.len()
        invariant
            i <= checks.len(),
            r@ == indices_where(checks@, i as int, strong),
            forall|k: int| 0 <= k < r@.len() ==> (#[trigger] r@[k]) < i,
        decreases checks.len() - i,
    {
        let is_strong = match checks[i].status {
            CheckStatus::Strong => true,
            _ => false,
        };
        if is_strong == strong {
            r.push(i);
        }
        assert(r@ =~= indices_where(checks@, i + 1, strong));
        i += 1;
    }
    r
}

/// The open rules, in the order they are fixed.
pub open spec fn candidates(cs: Seq<AuditCheck>) -> Seq<usize> {
    ranked(cs, indices_where(cs, cs.len() as int, false), true)
}

/// Does the check answer to `needle` (lowercase): its id or label equal to
/// it up to ASCII case, or containing it once lowercased?
pub open spec fn rule_matches(c: AuditCheck, needle: Seq<char>) -> bool {
    ascii_lowercase(c.id@) == ascii_lowercase(needle) || ascii_lowercase(c.label@) == ascii_lowercase(
        needle,
    ) || contains(str_lowercase(c.id@), needle) || contains(str_lowercase(c.label@), needle)
}

/// The first candidate that answers to `needle`.
pub open spec fn first_match(cs: Seq<AuditCheck>, cands: Seq<usize>, needle: Seq<char>) -> Option<int> {
    if exists|k: int| 0 <= k < cands.len() && rule_matches(cs[#[trigger] cands[k] as int], needle) {
        Some(
            choose|k: int|
                0 <= k < cands.len() && rule_matches(cs[#[trigger] cands[k] as int], needle) && forall|
                    j: int,
                |
                    0 <= j < k ==> !rule_matches(cs[#[trigger] cands[j] as int], needle),
        )
    } else {
        None
    }
}

/// The rules a prompt covers: the one named by `requested` (or an error
/// naming it), or the first `count` open rules (all of them for a count
/// of 0), or an error when every rule is strong.
pub open spec fn select_spec(cs: Seq<AuditCheck>, requested: Option<Seq<char>>, count: nat) -> Result<
    Seq<usize>,
    Seq<char>,
> {
    let cands = candidates(cs);
    match requested {
        Some(rule) => {
            let needle = str_lowercase(trim_seq(rule));
            match first_match(cs, cands, needle) {
                Some(k) => Ok(seq![cands[k]]),
                None => Err("No matching bug rule found for `"@ + rule + "`."@),
            }
        },
        None => if cands.len() == 0 {
            Err("No promptable gaps were found. Every audited rule is already strong."@)
        } else if count == 0 || count >= cands.len() {
            Ok(cands)
        } else {
            Ok(cands.take(count as int))
        },
    }
}

fn matches_rule(c: &AuditCheck, needle: &str) -> (b: bool)
    ensures
        b == rule_matches(*c, needle@),
{
    let n = to_ascii_lowercase(needle);
    str_eq(to_ascii_lowercase(c.id.as_str()).as_str(), n.as_str()) || str_eq(
        to_ascii_lowercase(c.label.as_str()).as_str(),
        n.as_str(),
    ) || str_contains(to_lowercase(c.id.as_str()).as_str(), needle) || str_contains(
        to_lowercase(c.label.as_str()).as_str(),
        needle,
    )
}

/// The checks (as indices into the report's checks) a prompt covers.
pub fn select_checks(report: &AuditReport, requested_rule: Option<&str>, count: usize) -> (r: Result<
    Vec<usize>,
    String,
>)
    ensures
        match r {
            Ok(v) => select_spec(
                report.checks@,
                match requested_rule {
                    Some(x) => Some(x@),
                    None => None,
                },
                count as nat,
            ) == Ok::<Seq<usize>, Seq<char>>(v@),
            Err(e) => select_spec(
                report.checks@,
                match requested_rule {
                    Some(x) => Some(x@),
                    None => None,
                },
                count as nat,
            ) == Err::<Seq<usize>, Seq<char>>(e@),
        },
        match r {
            Ok(v) => forall|k: int| 0 <= k < v@.len() ==> (#[trigger] v@[k]) < report.checks@.len(),
            Err(_) => true,
        },
{
    let open = status_indices(&report.checks, false);
    let cands = rank_indices(&report.checks, &open, true);
    let ghost cs = report.checks@;
    match requested_rule {
        Some(rule) => {
            let needle = to_lowercase(trim(rule).as_str());
            let mut k: usize = 0;
            while k < cands.len()
                invariant
                    k <= cands.len(),
                    cands@ == candidates(cs),
                    cs == report.checks@,
                    requested_rule == Some(rule),
                    needle@ == str_lowercase(trim_seq(rule@)),
                    forall|j: int| 0 <= j < cands@.len() ==> (#[trigger] cands@[j]) < cs.len(),
                    forall|j: int| 0 <= j < k ==> !rule_matches(cs[#[trigger] cands@[j] as int], needle@),
                decreases cands.len() - k,
            {
                if matches_rule(&report.checks[cands[k]], needle.as_str()) {
                    proof {
                        assert(rule_matches(cs[cands@[k as int] as int], needle@) && forall|j: int|
                            0 <= j < k ==> !rule_matches(cs[#[trigger] cands@[j] as int], needle@));
                        let w = choose|w: int|
                            0 <= w < cands@.len() && rule_matches(cs[#[trigger] cands@[w] as int], needle@)
                                && forall|j: int|
                                0 <= j < w ==> !rule_matches(cs[#[trigger] cands@[j] as int], needle@);
                        assert(rule_matches(cs[cands@[k as int] as int], needle@));
                        if w < k {
                            assert(!rule_matches(cs[cands@[w] as int], needle@));
                        }
                        if k < w {
                            assert(!rule_matches(cs[cands@[k as int] as int], needle@));
                        }
                        assert(first_match(cs, cands@, needle@) == Some(k as int));
                    }
                    let mut v: Vec<usize> = Vec::new();
                    v.push(cands[k]);
                    assert(v@ =~= seq![cands@[k as int]]);

                    return Ok(v);
                }
                k += 1;
            }
            let mut e = concat_str("No matching bug rule found for `", rule);
            e.append("`.");
            Err(e)
        },
        None => {
            if cands.len() == 0 {
                return Err("No promptable gaps were found. Every audited rule is already strong.".to_owned());
            }
            if count == 0 || count >= cands.len() {
                return Ok(cands);
            }
            let mut v: Vec<usize> = Vec::new();
            let mut k: usize = 0;
            while k < count
                invariant
                    k <= count,
                    count < cands@.len(),
                    v@ == cands@.take(k as int),
                    forall|j: int| 0 <= j < cands@.len() ==> (#[trigger] cands@[j]) < cs.len(),
                    cs == report.checks@,
                decreases count - k,
            {
                v.push(cands[k]);
                assert(v@ =~= cands@.take(k + 1));
                k += 1;
            }
            Ok(v)
        },
    }
}

// ---------------------------------------------------------------------------
// Issues
// ---------------------------------------------------------------------------

pub open spec fn first_n<T>(s: Seq<T>, n: nat) -> Seq<T> {
    if s.len() > n {
        s.take(n as int)
    } else {
        s
    }
}

/// Up to four findings as lines, or a note that there are none.
pub open spec fn issue_findings_spec(c: AuditCheck) -> Seq<Seq<char>> {
    if c.findings@.len() == 0 {
        seq!["No granular findings were emitted; rely on the rule summary, hint, and evidence."@]
    } else {
        first_n(c.findings@, 4).map_values(|f: AuditFinding| finding_line(f))
    }
}

/// Up to six pieces of evidence, or a note that there is none.
pub open spec fn issue_evidence_spec(c: AuditCheck) -> Seq<Seq<char>> {
    if c.evidence@.len() == 0 {
        seq!["No direct evidence was captured beyond the rule summary."@]
    } else {
        first_n(views(c.evidence@), 6)
    }
}

pub open spec fn with_finding_locations(locs: Seq<Seq<char>>, fs: Seq<AuditFinding>) -> Seq<Seq<char>>
    decreases fs.len(),
{
    if fs.len() == 0 {
        locs
    } else {
        let prev = with_finding_locations(locs, fs.drop_last());
        match fs.last().location {
            Some(p) => push_location_spec(prev, p@),
            None => prev,
        }
    }
}

/// Where to look first: the files the rule expects, the check's location
/// and its findings' locations (each once), or the target; at most eight.
pub open spec fn issue_locations_spec(c: AuditCheck, target: Seq<char>, project: ProjectContext) -> Seq<
    Seq<char>,
> {
    let l0 = expected_locations_spec(c.id@, target, project);
    let l1 = match c.location {
        Some(p) => push_location_spec(l0, p@),
        None => l0,
    };
    let l2 = with_finding_locations(l1, c.findings@);
    first_n(
        if l2.len() == 0 {
            seq![target]
        } else {
            l2
        },
        8,
    )
}

/// The issue a prompt lists for a check.
pub open spec fn issue_matches(i: PromptIssue, c: AuditCheck, target: Seq<char>, project: ProjectContext) -> bool {
    &&& i.rule_id@ == c.id@
    &&& i.rule_label@ == c.label@
    &&& i.category == c.category
    &&& i.status == c.status
    &&& i.fixability == c.fixability
    &&& i.gap == gap_spec(c)
    &&& i.blocking == c.blocking
    &&& i.primary_cause.is_none()
    &&& i.summary@ == c.message@
    &&& i.hint@ == c.hint@
    &&& views(i.findings@) == issue_findings_spec(c)
    &&& views(i.locations@) == issue_locations_spec(c, target, project)
    &&& views(i.evidence@) == issue_evidence_spec(c)
}

fn take_strings(v: &Vec<String>, n: usize) -> (r: Vec<String>)
    ensures
        views(r@) == first_n(views(v@), n as nat),
{
    let mut r: Vec<String> = Vec::new();
    let mut k: usize = 0;
    while k < v.len() && k < n
        invariant
            k <= v.len(),
            k <= n,
            views(r@) == views(v@).take(k as int),
        decreases v.len() - k,
    {
        let ghost before = views(r@);
        r.push(v[k].clone());
        assert(views(r@) =~= before.push(v@[k as int]@));
        assert(views(v@).take(k + 1) =~= views(v@).take(k as int).push(v@[k as int]@));
        k += 1;
    }
    assert(views(r@) =~= first_n(views(v@), n as nat));
    r
}

fn issue_findings(c: &AuditCheck) -> (r: Vec<String>)
    ensures
        views(r@) == issue_findings_spec(*c),
{
    let mut r: Vec<String> = Vec::new();
    if c.findings.len() == 0 {
        r.push("No granular findings were emitted; rely on the rule summary, hint, and evidence.".to_owned());
        assert(views(r@) =~= issue_findings_spec(*c));
        return r;
    }
    let mut k: usize = 0;
    while k < c.findings.len() && k < 4
        invariant
            k <= c.findings.len(),
            k <= 4,
            views(r@) == c.findings@.take(k as int).map_values(|f: AuditFinding| finding_line(f)),
        decreases c.findings.len() - k,
    {
        let ghost before = views(r@);
        r.push(format_finding(&c.findings[k]));
        assert(views(r@) =~= before.push(finding_line(c.findings@[k as int])));
        assert(c.findings@.take(k + 1).map_values(|f: AuditFinding| finding_line(f)) =~= c.findings@.take(
            k as int,
        ).map_values(|f: AuditFinding| finding_line(f)).push(finding_line(c.findings@[k as int])));
        k += 1;
    }
    assert(views(r@) =~= issue_findings_spec(*c));
    r
}

fn issue_evidence(c: &AuditCheck) -> (r: Vec<String>)
    ensures
        views(r@) == issue_evidence_spec(*c),
{
    if c.evidence.len() == 0 {
        let mut r: Vec<String> = Vec::new();
        r.push("No direct evidence was captured beyond the rule summary.".to_owned());
        assert(views(r@) =~= issue_evidence_spec(*c));
        return r;
    }
    take_strings(&c.evidence, 6)
}

fn issue_locations(c: &AuditCheck, target: &str, project: &ProjectContext) -> (r: Vec<String>)
    ensures
        views(r@) == issue_locations_spec(*c, target@, *project),
{
    let mut locations = expected_locations(c.id.as_str(), target, project);
    match &c.location {
        Some(p) => push_location(&mut locations, p.clone()),
        None => {},
    }
    let ghost l1 = views(locations@);
    let mut k: usize = 0;
    while k < c.findings.len()
        invariant
            k <= c.findings.len(),
            views(locations@) == with_finding_locations(l1, c.findings@.take(k as int)),
        decreases c.findings.len() - k,
    {
        assert(c.findings@.take(k + 1).drop_last() =~= c.findings@.take(k as int));
        match &c.findings[k].location {
            Some(p) => push_location(&mut locations, p.clone()),
            None => {},
        }
        k += 1;
    }
    assert(c.findings@.take(c.findings.len() as int) =~= c.findings@);
    if locations.len() == 0 {
        locations.push(target.to_owned());
        assert(views(locations@) =~= seq![target@]);
    }
    take_strings(&locations, 8)
}

/// The issue a prompt lists for `check`.
pub fn build_issue(check: &AuditCheck, target: &str, project: &ProjectContext) -> (i: PromptIssue)
    ensures
        issue_matches(i, *check, target@, *project),
{
    PromptIssue {
        rule_id: check.id.clone(),
        rule_label: check.label.clone(),
        category: check.category,
        status: check.status,
        fixability: check.fixability,
        gap: check.gap(),
        blocking: check.blocking,
        primary_cause: None,
        summary: check.message.clone(),
        hint: check.hint.clone(),
        findings: issue_findings(check),
        locations: issue_locations(check, target, project),
        evidence: issue_evidence(check),
    }
}

// ---------------------------------------------------------------------------
// Signals to keep
// ---------------------------------------------------------------------------

/// A strong check worth keeping in mind, unless it is funding that only
/// counts as optional.
pub open spec fn worth_keeping(c: AuditCheck) -> bool {
    let m = str_lowercase(c.message@);
    c.id@ != "funding"@ || !(contains(m, "optional"@) || contains(m, "not meaningful"@))
}

pub open spec fn kept_of(cs: Seq<AuditCheck>, idx: Seq<usize>) -> Seq<usize>
    decreases idx.len(),
{
    if idx.len() == 0 {
        Seq::empty()
    } else if worth_keeping(cs[idx.last() as int]) {
        kept_of(cs, idx.drop_last()).push(idx.last())
    } else {
        kept_of(cs, idx.drop_last())
    }
}

/// Up to four strong checks, highest coverage first, as `label | message`.
pub open spec fn preserve_spec(cs: Seq<AuditCheck>) -> Seq<Seq<char>> {
    first_n(kept_of(cs, ranked(cs, indices_where(cs, cs.len() as int, true), false)), 4).map_values(
        |i: usize| cs[i as int].label@ + " | "@ + cs[i as int].message@,
    )
}

pub fn collect_preserve_signals(report: &AuditReport) -> (r: Vec<String>)
    ensures
        views(r@) == preserve_spec(report.checks@),
{
    let strong = status_indices(&report.checks, true);
    let order = rank_indices(&report.checks, &strong, false);
    let ghost cs = report.checks@;
    let mut kept: Vec<usize> = Vec::new();
    let mut k: usize = 0;
    while k < order.len()
        invariant
            k <= order.len(),
            cs == report.checks@,
            forall|j: int| 0 <= j < order@.len() ==> (#[trigger] order@[j]) < cs.len(),
            kept@ == kept_of(cs, order@.take(k as int)),
            forall|j: int| 0 <= j < kept@.len() ==> (#[trigger] kept@[j]) < cs.len(),
        decreases order.len() - k,
    {
        assert(order@.take(k + 1).drop_last() =~= order@.take(k as int));
        let c = &report.checks[order[k]];
        let m = to_lowercase(c.message.as_str());
        let keep = !str_eq(c.id.as_str(), "funding") || !(str_contains(m.as_str(), "optional")
            || str_contains(m.as_str(), "not meaningful"));
        if keep {
            kept.push(order[k]);
        }
        k += 1;
    }
    assert(order@.take(order.len() as int) =~= order@);
    let mut r: Vec<String> = Vec::new();
    let mut j: usize = 0;
    while j < kept.len() && j < 4
        invariant
            j <= kept.len(),
            j <= 4,
            cs == report.checks@,
            forall|t: int| 0 <= t < kept@.len() ==> (#[trigger] kept@[t]) < cs.len(),
            views(r@) == kept@.take(j as int).map_values(
                |i: usize| cs[i as int].label@ + " | "@ + cs[i as int].message@,
            ),
        decreases kept.len() - j,
    {
        let c = &report.checks[kept[j]];
        let mut line = concat_str(c.label.as_str(), " | ");
        line.append(c.message.as_str());
        let ghost before = views(r@);
        let ghost lv = line@;
        r.push(line);
        assert(views(r@) =~= before.push(lv));
        assert(kept@.take(j + 1).map_values(|i: usize| cs[i as int].label@ + " | "@ + cs[i as int].message@)
            =~= kept@.take(j as int).map_values(
            |i: usize| cs[i as int].label@ + " | "@ + cs[i as int].message@,
        ).push(lv));
        j += 1;
    }
    assert(views(r@) =~= preserve_spec(report.checks@));
    r
}

// ---------------------------------------------------------------------------
// Prompt texts
// ---------------------------------------------------------------------------

/// The text of a prompt that fixes one rule.
pub open spec fn targeted_text(
    target: Seq<char>,
    rule_id: Seq<char>,
    rule_label: Seq<char>,
    project: Seq<char>,
    summary: Seq<char>,
    score: nat,
    tier: Seq<char>,
    category: Seq<char>,
    status: Seq<char>,
    fixability: Seq<char>,
    gap: nat,
    preserve_block: Seq<char>,
    issue_block: Seq<char>,
) -> Seq<char> {
    "You are fixing one concrete repository issue in `"@ + target + "`.\n\nMission\n- Resolve the rule `"@ + rule_id + "` ("@ + rule_label + ") in a way that fits this repository's current direction.\n- Keep the fix focused and coherent, but do enough work that the issue is genuinely closed rather than cosmetically hidden.\n- Preserve the strong signals already present in the repository.\n\nRepository context\n- Project: "@ + project + "\n- Summary: "@ + summary + "\n- Current ossify score: "@ + decimal(score) + "/100 ("@ + tier + ")\n- Target rule: "@ + rule_label + " (`"@ + rule_id + "`)\n- Category: "@ + category + "\n- Current status: "@ + status + "\n- Fixability: "@ + fixability + "\n- Gap to close: "@ + decimal(gap) + " points\n\nStrong signals to preserve\n"@ + preserve_block + "\n\nIssue to fix\n"@ + issue_block + "\n\nExecution rules\n- Make the smallest coherent change set that truly resolves this issue.\n- Prefer repository-specific content over generic scaffolding.\n- If the fix touches executable code or runtime behavior, add or update focused tests when the repository already has a test setup.\n- Do not refactor unrelated parts of the repo.\n\nDefinition of done\n- `ossify audit "@ + target + "` no longer reports `"@ + rule_id + "` as `"@ + status + "`.\n- The findings above are removed or materially reduced.\n- Any new docs, policies, or config files are specific to this repository.\n- Summarize exactly what changed and why it resolves the issue.\n"@
}

fn write_targeted(
    target: &str,
    rule_id: &str,
    rule_label: &str,
    project: &str,
    summary: &str,
    score_value: u8,
    tier: &str,
    category: &str,
    status: &str,
    fixability: &str,
    gap_value: u16,
    preserve_block: &str,
    issue_block: &str,
) -> (r: String)
    ensures
        r@ == targeted_text(
            target@,
            rule_id@,
            rule_label@,
            project@,
            summary@,
            score_value as nat,
            tier@,
            category@,
            status@,
            fixability@,
            gap_value as nat,
            preserve_block@,
            issue_block@,
        ),
{
    let score_s = decimal_string(score_value as u64);
    let score = score_s.as_str();
    let gap_s = decimal_string(gap_value as u64);
    let gap = gap_s.as_str();
    let mut text = String::new();
    text.append("You are fixing one concrete repository issue in `");
    text.append(target);
    text.append("`.\n\nMission\n- Resolve the rule `");
    text.append(rule_id);
    text.append("` (");
    text.append(rule_label);
    text.append(") in a way that fits this repository's current direction.\n- Keep the fix focused and coherent, but do enough work that the issue is genuinely closed rather than cosmetically hidden.\n- Preserve the strong signals already present in the repository.\n\nRepository context\n- Project: ");
    text.append(project);
    text.append("\n- Summary: ");
    text.append(summary);
    text.append("\n- Current ossify score: ");
    text.append(score);
    text.append("/100 (");
    text.append(tier);
    text.append(")\n- Target rule: ");
    text.append(rule_label);
    text.append(" (`");
    text.append(rule_id);
    text.append("`)\n- Category: ");
    text.append(category);
    text.append("\n- Current status: ");
    text.append(status);
    text.append("\n- Fixability: ");
    text.append(fixability);
    text.append("\n- Gap to close: ");
    text.append(gap);
    text.append(" points\n\nStrong signals to preserve\n");
    text.append(preserve_block);
    text.append("\n\nIssue to fix\n");
    text.append(issue_block);
    text.append("\n\nExecution rules\n- Make the smallest coherent change set that truly resolves this issue.\n- Prefer repository-specific content over generic scaffolding.\n- If the fix touches executable code or runtime behavior, add or update focused tests when the repository already has a test setup.\n- Do not refactor unrelated parts of the repo.\n\nDefinition of done\n- `ossify audit ");
    text.append(target);
    text.append("` no longer reports `");
    text.append(rule_id);
    text.append("` as `");
    text.append(status);
    text.append("`.\n- The findings above are removed or materially reduced.\n- Any new docs, policies, or config files are specific to this repository.\n- Summarize exactly what changed and why it resolves the issue.\n");
    assert(text@ =~= targeted_text(
        target@,
        rule_id@,
        rule_label@,
        project@,
        summary@,
        score_value as nat,
        tier@,
        category@,
        status@,
        fixability@,
        gap_value as nat,
        preserve_block@,
        issue_block@,
    ));
    text
}

/// The text of a prompt that fixes several rules in one pass.
pub open spec fn one_shot_text(
    target: Seq<char>,
    mission: Seq<char>,
    selection: Seq<char>,
    project: Seq<char>,
    summary: Seq<char>,
    score: nat,
    tier: Seq<char>,
    issue_count: nat,
    automatic: nat,
    guided: nat,
    manual: nat,
    preserve_block: Seq<char>,
    issue_block: Seq<char>,
    rules: Seq<char>,
) -> Seq<char> {
    "You are taking one repository-wide bug-fix pass on `"@ + target + "`.\n\nMission\n- "@ + mission + "\n- Resolve the prioritized gaps below in one coherent change set instead of isolated micro-fixes.\n- Preserve working behavior, the project's product direction, and the strong signals already present.\n- "@ + selection + "\n\nRepository context\n- Project: "@ + project + "\n- Summary: "@ + summary + "\n- Current score: "@ + decimal(score) + "/100\n- Current tier: "@ + tier + "\n- Gaps in scope: "@ + decimal(issue_count) + "\n- Fixability mix: automatic "@ + decimal(automatic) + ", guided "@ + decimal(guided) + ", manual "@ + decimal(manual) + "\n\nStrong signals to preserve\n"@ + preserve_block + "\n\nPrioritized issues to fix\n"@ + issue_block + "\n\nExecution rules\n- Prefer repository-specific fixes over generic boilerplate.\n- Keep the change set cohesive: combine related docs, config, workflow, and code updates when they solve the same issue cluster.\n- If a rule is automatic or guided, it is acceptable to add the missing file or config directly.\n- If a rule is manual, write concrete content tailored to this repository rather than placeholders.\n- If executable code or runtime behavior must change, keep the change minimal and add focused tests when the repo already has a test setup.\n- Do not refactor unrelated parts of the repository.\n\nDefinition of done\n- Re-run `ossify audit "@ + target + "` after the changes.\n- The selected rules should be materially improved or resolved: "@ + rules + ".\n- Summarize each changed file and map it to the rule or rules it fixes.\n- If one issue cannot be fully resolved without a product or maintainer decision, explain the exact blocker instead of guessing.\n"@
}

fn write_one_shot(
    target: &str,
    mission: &str,
    selection: &str,
    project: &str,
    summary: &str,
    score_value: u8,
    tier: &str,
    counts: (usize, usize, usize, usize),
    preserve_block: &str,
    issue_block: &str,
    rules: &str,
) -> (r: String)
    ensures
        r@ == one_shot_text(
            target@,
            mission@,
            selection@,
            project@,
            summary@,
            score_value as nat,
            tier@,
            counts.0 as nat,
            counts.1 as nat,
            counts.2 as nat,
            counts.3 as nat,
            preserve_block@,
            issue_block@,
            rules@,
        ),
{
    let score_s = decimal_string(score_value as u64);
    let score = score_s.as_str();
    let n_s = decimal_string(counts.0 as u64);
    let issue_count = n_s.as_str();
    let a_s = decimal_string(counts.1 as u64);
    let automatic = a_s.as_str();
    let g_s = decimal_string(counts.2 as u64);
    let guided = g_s.as_str();
    let m_s = decimal_string(counts.3 as u64);
    let manual = m_s.as_str();
    let mut text = String::new();
    text.append("You are taking one repository-wide bug-fix pass on `");
    text.append(target);
    text.append("`.\n\nMission\n- ");
    text.append(mission);
    text.append("\n- Resolve the prioritized gaps below in one coherent change set instead of isolated micro-fixes.\n- Preserve working behavior, the project's product direction, and the strong signals already present.\n- ");
    text.append(selection);
    text.append("\n\nRepository context\n- Project: ");
    text.append(project);
    text.append("\n- Summary: ");
    text.append(summary);
    text.append("\n- Current score: ");
    text.append(score);
    text.append("/100\n- Current tier: ");
    text.append(tier);
    text.append("\n- Gaps in scope: ");
    text.append(issue_count);
    text.append("\n- Fixability mix: automatic ");
    text.append(automatic);
    text.append(", guided ");
    text.append(guided);
    text.append(", manual ");
    text.append(manual);
    text.append("\n\nStrong signals to preserve\n");
    text.append(preserve_block);
    text.append("\n\nPrioritized issues to fix\n");
    text.append(issue_block);
    text.append("\n\nExecution rules\n- Prefer repository-specific fixes over generic boilerplate.\n- Keep the change set cohesive: combine related docs, config, workflow, and code updates when they solve the same issue cluster.\n- If a rule is automatic or guided, it is acceptable to add the missing file or config directly.\n- If a rule is manual, write concrete content tailored to this repository rather than placeholders.\n- If executable code or runtime behavior must change, keep the change minimal and add focused tests when the repo already has a test setup.\n- Do not refactor unrelated parts of the repository.\n\nDefinition of done\n- Re-run `ossify audit ");
    text.append(target);
    text.append("` after the changes.\n- The selected rules should be materially improved or resolved: ");
    text.append(rules);
    text.append(".\n- Summarize each changed file and map it to the rule or rules it fixes.\n- If one issue cannot be fully resolved without a product or maintainer decision, explain the exact blocker instead of guessing.\n");
    assert(text@ =~= one_shot_text(
        target@,
        mission@,
        selection@,
        project@,
        summary@,
        score_value as nat,
        tier@,
        counts.0 as nat,
        counts.1 as nat,
        counts.2 as nat,
        counts.3 as nat,
        preserve_block@,
        issue_block@,
        rules@,
    ));
    text
}

// ---------------------------------------------------------------------------
// Prompts
// ---------------------------------------------------------------------------

/// The mission line: above the minimum, close the remaining gaps; below
/// it, reach it.
pub open spec fn mission_spec(r: AuditReport) -> Seq<char> {
    if r.score >= r.minimum_score {
        "Raise ossify readiness for `"@ + r.project.name@ + "` above "@ + decimal(r.score as nat) + "/100 ("@
            + tier_str(r.readiness) + ") by closing the remaining high-impact gaps."@
    } else {
        "Raise ossify readiness for `"@ + r.project.name@ + "` from "@ + decimal(r.score as nat) + "/100 ("@
            + tier_str(r.readiness) + ") toward at least "@ + decimal(r.minimum_score as nat) + "/100."@
    }
}

pub open spec fn selection_spec(n: nat, open: nat) -> Seq<char> {
    if n == open {
        "This prompt covers every currently non-strong rule in the repository audit."@
    } else {
        "This prompt covers the highest-impact "@ + decimal(n) + " non-strong rule(s) from the current audit."@
    }
}

pub open spec fn count_if(b: bool) -> nat {
    if b {
        1
    } else {
        0
    }
}

/// The prompt that fixes the rule of check `i`.
pub open spec fn targeted_matches(g: GeneratedBugPrompt, r: AuditReport, i: int) -> bool {
    let c = r.checks@[i];
    let keep = preserve_spec(r.checks@);
    &&& g.strategy == PromptStrategy::Targeted
    &&& g.title@ == "Fix "@ + c.label@ + " in "@ + r.project.name@
    &&& g.issue_count == 1
    &&& views(g.selected_rules@) == seq![c.id@]
    &&& g.automatic_count == count_if(c.fixability == Fixability::Automatic)
    &&& g.guided_count == count_if(c.fixability == Fixability::Guided)
    &&& g.manual_count == count_if(c.fixability == Fixability::Manual)
    &&& views(g.preserve@) == keep
    &&& g.issues@.len() == 1
    &&& issue_matches(g.issues@[0], c, r.target@, r.project)
    &&& g.prompt@ == targeted_text(
        r.target@,
        c.id@,
        c.label@,
        r.project.name@,
        crate::rules::summary_spec(r.project),
        r.score as nat,
        tier_str(r.readiness),
        category_str(c.category),
        status_str(c.status),
        fixability_str(c.fixability),
        gap_spec(c),
        bullet_block_spec(keep, ""@, "- Keep the currently strong signals intact while you fix this issue."@),
        issue_block_spec(1, g.issues@[0]),
    )
}

/// A prompt that fixes the rule of check `index`.
pub fn build_targeted_prompt(report: &AuditReport, index: usize) -> (g: GeneratedBugPrompt)
    requires
        index < report.checks@.len(),
    ensures
        targeted_matches(g, *report, index as int),
{
    let c = &report.checks[index];
    let issue = build_issue(c, report.target.as_str(), &report.project);
    let preserve = collect_preserve_signals(report);
    let preserve_block = bullet_block(
        &preserve,
        "",
        "- Keep the currently strong signals intact while you fix this issue.",
    );
    let issue_block = format_issue_block(1, &issue);
    let prompt = write_targeted(
        report.target.as_str(),
        c.id.as_str(),
        c.label.as_str(),
        report.project.name.as_str(),
        report.project.summary().as_str(),
        report.score,
        report.readiness.as_str(),
        c.category.as_str(),
        c.status.as_str(),
        c.fixability.as_str(),
        c.gap(),
        preserve_block.as_str(),
        issue_block.as_str(),
    );
    let mut title = concat_str("Fix ", c.label.as_str());
    title.append(" in ");
    title.append(report.project.name.as_str());
    let mut selected: Vec<String> = Vec::new();
    selected.push(c.id.clone());
    assert(views(selected@) =~= seq![c.id@]);
    let (a, gd, m) = match c.fixability {
        Fixability::Automatic => (1usize, 0usize, 0usize),
        Fixability::Guided => (0, 1, 0),
        Fixability::Manual => (0, 0, 1),
    };
    let mut issues: Vec<PromptIssue> = Vec::new();
    issues.push(issue);
    GeneratedBugPrompt {
        strategy: PromptStrategy::Targeted,
        title,
        issue_count: 1,
        selected_rules: selected,
        automatic_count: a,
        guided_count: gd,
        manual_count: m,
        preserve,
        issues,
        prompt,
    }
}

pub open spec fn issue_blocks(issues: Seq<PromptIssue>) -> Seq<Seq<char>> {
    issues.map(|k: int, x: PromptIssue| issue_block_spec((k + 1) as nat, x))
}

pub open spec fn selected_ids(cs: Seq<AuditCheck>, sel: Seq<usize>) -> Seq<Seq<char>> {
    sel.map_values(|i: usize| cs[i as int].id@)
}

/// The prompt that fixes the rules of the checks `sel`, in that order.
pub open spec fn one_shot_matches(g: GeneratedBugPrompt, r: AuditReport, sel: Seq<usize>) -> bool {
    let cs = r.checks@;
    let keep = preserve_spec(cs);
    &&& g.strategy == PromptStrategy::OneShot
    &&& g.title@ == "One-Shot Fix Prompt for "@ + r.project.name@
    &&& g.issue_count == sel.len()
    &&& g.issues@.len() == sel.len()
    &&& forall|k: int|
        0 <= k < sel.len() ==> issue_matches(#[trigger] g.issues@[k], cs[sel[k] as int], r.target@, r.project)
    &&& views(g.selected_rules@) == selected_ids(cs, sel)
    &&& g.automatic_count == fixability_count(g.issues@, Fixability::Automatic)
    &&& g.guided_count == fixability_count(g.issues@, Fixability::Guided)
    &&& g.manual_count == fixability_count(g.issues@, Fixability::Manual)
    &&& views(g.preserve@) == keep
    &&& g.prompt@ == one_shot_text(
        r.target@,
        mission_spec(r),
        selection_spec(
            sel.len(),
            status_count(cs, CheckStatus::Partial) + status_count(cs, CheckStatus::Missing),
        ),
        r.project.name@,
        crate::rules::summary_spec(r.project),
        r.score as nat,
        tier_str(r.readiness),
        sel.len(),
        fixability_count(g.issues@, Fixability::Automatic),
        fixability_count(g.issues@, Fixability::Guided),
        fixability_count(g.issues@, Fixability::Manual),
        bullet_block_spec(keep, ""@, "- Keep the currently strong signals intact while you fix the weak ones."@),
        join_seq(issue_blocks(g.issues@), "\n\n"@),
        join_seq(selected_ids(cs, sel), ", "@),
    )
}

fn mission_line(report: &AuditReport) -> (r: String)
    ensures
        r@ == mission_spec(*report),
{
    let mut s = concat_str("Raise ossify readiness for `", report.project.name.as_str());
    if report.score >= report.minimum_score {
        s.append("` above ");
        s.append(decimal_string(report.score as u64).as_str());
        s.append("/100 (");
        s.append(report.readiness.as_str());
        s.append(") by closing the remaining high-impact gaps.");
    } else {
        s.append("` from ");
        s.append(decimal_string(report.score as u64).as_str());
        s.append("/100 (");
        s.append(report.readiness.as_str());
        s.append(") toward at least ");
        s.append(decimal_string(report.minimum_score as u64).as_str());
        s.append("/100.");
    }
    s
}

/// A prompt that fixes the rules of the checks `sel` in one pass.
pub fn build_one_shot_prompt(report: &AuditReport, sel: &Vec<usize>) -> (g: GeneratedBugPrompt)
    requires
        forall|k: int| 0 <= k < sel@.len() ==> (#[trigger] sel@[k]) < report.checks@.len(),
    ensures
        one_shot_matches(g, *report, sel@),
{
    let ghost cs = report.checks@;
    let mut issues: Vec<PromptIssue> = Vec::new();
    let mut ids: Vec<String> = Vec::new();
    let mut blocks: Vec<String> = Vec::new();
    let mut k: usize = 0;
    while k < sel.len()
        invariant
            k <= sel.len(),
            cs == report.checks@,
            forall|j: int| 0 <= j < sel@.len() ==> (#[trigger] sel@[j]) < cs.len(),
            issues@.len() == k,
            forall|j: int|
                0 <= j < k ==> issue_matches(#[trigger] issues@[j], cs[sel@[j] as int], report.target@, report.project),
            views(ids@) == selected_ids(cs, sel@.take(k as int)),
            views(blocks@) == issue_blocks(issues@),
        decreases sel.len() - k,
    {
        let c = &report.checks[sel[k]];
        let issue = build_issue(c, report.target.as_str(), &report.project);
        let block = format_issue_block(k + 1, &issue);
        let ghost before_blocks = views(blocks@);
        let ghost before_issues = issues@;
        let ghost bv = block@;
        blocks.push(block);
        issues.push(issue);
        assert(views(blocks@) =~= before_blocks.push(bv));
        assert(issue_blocks(issues@) =~= issue_blocks(before_issues).push(issue_block_spec((k + 1) as nat, issues@[k as int])));
        let ghost before_ids = views(ids@);
        ids.push(c.id.clone());
        assert(views(ids@) =~= before_ids.push(c.id@));
        assert(selected_ids(cs, sel@.take(k + 1)) =~= selected_ids(cs, sel@.take(k as int)).push(c.id@));
        k += 1;
    }
    assert(sel@.take(sel.len() as int) =~= sel@);
    let preserve = collect_preserve_signals(report);
    let preserve_block = bullet_block(
        &preserve,
        "",
        "- Keep the currently strong signals intact while you fix the weak ones.",
    );
    let (a, gd, m) = count_fixability(&issues);
    let _total = report.checks.len();
    proof {
        crate::audit_report::lemma_status_counts_partition(report.checks@);
    }
    let open = report.partial_count() + report.missing_count();
    let selection = if sel.len() == open {
        "This prompt covers every currently non-strong rule in the repository audit.".to_owned()
    } else {
        let mut t = concat_str("This prompt covers the highest-impact ", decimal_string(sel.len() as u64).as_str());
        t.append(" non-strong rule(s) from the current audit.");
        t
    };
    let prompt = write_one_shot(
        report.target.as_str(),
        mission_line(report).as_str(),
        selection.as_str(),
        report.project.name.as_str(),
        report.project.summary().as_str(),
        report.score,
        report.readiness.as_str(),
        (sel.len(), a, gd, m),
        preserve_block.as_str(),
        join_strings(&blocks, "\n\n").as_str(),
        join_strings(&ids, ", ").as_str(),
    );
    GeneratedBugPrompt {
        strategy: PromptStrategy::OneShot,
        title: concat_str("One-Shot Fix Prompt for ", report.project.name.as_str()),
        issue_count: sel.len(),
        selected_rules: ids,
        automatic_count: a,
        guided_count: gd,
        manual_count: m,
        preserve,
        issues,
        prompt,
    }
}

/// The prompt report for an audit: one prompt, for the rule named by
/// `requested_rule` or for the first `count` open rules, with the audit's
/// score and counts.
pub open spec fn prompt_report_matches(
    b: BugPromptReport,
    r: AuditReport,
    requested: Option<Seq<char>>,
    sel: Seq<usize>,
) -> bool {
    &&& b.target@ == r.target@
    &&& b.project.kind == r.project.kind
    &&& b.project.name@ == r.project.name@
    &&& b.project.manifest_path == r.project.manifest_path
    &&& b.score == r.score
    &&& b.readiness == r.readiness
    &&& b.minimum_score == r.minimum_score
    &&& b.strong_count == status_count(r.checks@, CheckStatus::Strong)
    &&& b.partial_count == status_count(r.checks@, CheckStatus::Partial)
    &&& b.missing_count == status_count(r.checks@, CheckStatus::Missing)
    &&& b.prompt_count == 1
    &&& b.prompts@.len() == 1
    &&& (requested.is_some() ==> sel.len() == 1 && targeted_matches(b.prompts@[0], r, sel[0] as int))
    &&& (requested.is_none() ==> one_shot_matches(b.prompts@[0], r, sel))
}

pub fn build_bug_prompt_report(report: &AuditReport, requested_rule: Option<&str>, count: usize) -> (r:
    Result<BugPromptReport, String>)
    ensures
        match r {
            Ok(b) => exists|sel: Seq<usize>|
                select_spec(
                    report.checks@,
                    match requested_rule {
                        Some(x) => Some(x@),
                        None => None,
                    },
                    count as nat,
                ) == Ok::<Seq<usize>, Seq<char>>(sel) && prompt_report_matches(
                    b,
                    *report,
                    match requested_rule {
                        Some(x) => Some(x@),
                        None => None,
                    },
                    sel,
                ),
            Err(e) => select_spec(
                report.checks@,
                match requested_rule {
                    Some(x) => Some(x@),
                    None => None,
                },
                count as nat,
            ) == Err::<Seq<usize>, Seq<char>>(e@),
        },
{
    let sel = match select_checks(report, requested_rule, count) {
        Ok(v) => v,
        Err(e) => {
            return Err(e);
        },
    };
    let prompt = match requested_rule {
        Some(_) => build_targeted_prompt(report, sel[0]),
        None => build_one_shot_prompt(report, &sel),
    };
    let mut prompts: Vec<GeneratedBugPrompt> = Vec::new();
    prompts.push(prompt);
    let project = ProjectContext {
        kind: report.project.kind,
        name: report.project.name.clone(),
        manifest_path: match &report.project.manifest_path {
            Some(m) => Some(m.clone()),
            None => None,
        },
    };
    let b = BugPromptReport {
        target: report.target.clone(),
        project,
        score: report.score,
        readiness: report.readiness,
        minimum_score: report.minimum_score,
        strong_count: report.strong_count(),
        partial_count: report.partial_count(),
        missing_count: report.missing_count(),
        prompt_count: 1,
        prompts,
    };
    assert(prompt_report_matches(
        b,
        *report,
        match requested_rule {
            Some(x) => Some(x@),
            None => None,
        },
        sel@,
    ));
    Ok(b)
}

} // verus!
