//! The audit dashboard: the report's score and tier, gauges per domain and
//! category, the strongest checks and the largest gaps, in boxed panels side
//! by side from 112 columns on.
use vstd::prelude::*;
use crate::audit::{
    category_str, finding_severity_rank, finding_severity_str, status_str, AuditDiagnostic,
    CategoryScore, CheckStatus,
};
use crate::audit_report::{AuditCheck, AuditReport};
use crate::project::kind_display_name;
use crate::styled::{paint_spec, score_text_spec, tier_text_spec, ReportStyle};
use crate::doctor::{domain_label, DoctorDomainScore};
use crate::panels::{
    box_section, box_spec, columns_spec, display_width, display_width_spec, join_columns,
    pad_to_width, pad_to_width_spec, repeat_char, sat_sub, spaces, stack_sections, stacked,
};
use crate::text::{
    byte_prefix_or_all, concat_str, seq_lt, str_less, contains, str_contains, str_lowercase, to_lowercase, decimal, decimal_string, get_prefix_or_all, join_seq,
    join_strings, starts_with, str_eq, str_starts_with, utf8_byte_len, utf8_bytes, views, words,
    words_of,
};

verus! {

// ---------------------------------------------------------------------------
// Gauges
// ---------------------------------------------------------------------------

/// A gauge of `width` cells (at least one), the filled share of a score out
/// of a hundred rounded to nearest.
pub open spec fn meter_spec(score: u8, width: nat) -> Seq<char> {
    let w: nat = if width == 0 {
        1
    } else {
        width
    };
    let filled = ((score * w + 50) / 100) as nat;
    Seq::new(filled, |i: int| '█') + Seq::new(sat_sub(w, filled), |i: int| '░')
}

pub fn meter(score: u8, width: usize) -> (r: String)
    requires
        score <= 100,
        width <= 1000,
    ensures
        r@ == meter_spec(score, width as nat),
{
    let w: usize = if width == 0 {
        1
    } else {
        width
    };
    assert((score as usize) * w <= 100 * 1000) by (nonlinear_arith)
        requires
            score <= 100,
            w <= 1000,
    ;
    let filled = ((score as usize) * w + 50) / 100;
    assert(filled <= w) by (nonlinear_arith)
        requires
            filled == (score * w + 50) / 100,
            score <= 100,
            w >= 1,
    ;
    let head = repeat_char('█', filled);
    let tail = repeat_char('░', w - filled);
    concat_str(head.as_str(), tail.as_str())
}

/// A number right-aligned in three columns (`{:>3}`).
pub open spec fn right3(n: nat) -> Seq<char> {
    spaces(sat_sub(3, decimal(n).len())) + decimal(n)
}

fn right3_text(n: u8) -> (r: String)
    ensures
        r@ == right3(n as nat),
{
    let d = decimal_string(n as u64);
    let len = d.as_str().unicode_len();
    let pad = if len < 3 {
        3 - len
    } else {
        0
    };
    let head = repeat_char(' ', pad);
    concat_str(head.as_str(), d.as_str())
}

// ---------------------------------------------------------------------------
// Cap reasons
// ---------------------------------------------------------------------------

/// The first word that satisfies `p`.
pub open spec fn first_where(ws: Seq<Seq<char>>, p: spec_fn(Seq<char>) -> bool) -> Option<int>
    decreases ws.len(),
{
    if ws.len() == 0 {
        None
    } else {
        match first_where(ws.drop_last(), p) {
            Some(i) => Some(i),
            None => if p(ws.last()) {
                Some(ws.len() - 1)
            } else {
                None
            },
        }
    }
}

proof fn lemma_first_where_range(ws: Seq<Seq<char>>, p: spec_fn(Seq<char>) -> bool)
    ensures
        first_where(ws, p) matches Some(i) ==> 0 <= i < ws.len(),
    decreases ws.len(),
{
    if ws.len() > 0 {
        lemma_first_where_range(ws.drop_last(), p);
    }
}

/// An advisory id: RustSec, CVE or GitHub.
pub open spec fn is_advisory_id(w: Seq<char>) -> bool {
    starts_with(w, "RUSTSEC-"@) || starts_with(w, "CVE-"@) || starts_with(w, "GHSA-"@)
}

pub open spec fn advisory_word() -> spec_fn(Seq<char>) -> bool {
    |w: Seq<char>| is_advisory_id(w)
}

pub open spec fn for_word() -> spec_fn(Seq<char>) -> bool {
    |w: Seq<char>| w == "for"@
}

/// The words of a cap reason joined by single spaces.
pub open spec fn joined_words(reason: Seq<char>) -> Seq<char> {
    join_seq(words_of(reason), " "@)
}

/// A cap reason can be shortened: when it names no advisory and runs over
/// fifty bytes, its first forty-seven bytes end on a character boundary.
pub open spec fn cap_reason_cuttable(reason: Seq<char>) -> bool {
    let j = joined_words(reason);
    first_where(words_of(reason), advisory_word()) is None && utf8_bytes(j) > 50 ==> exists|k: int|
        0 <= k <= j.len() && utf8_bytes(#[trigger] j.take(k)) == 47
}

/// A cap reason in short: the advisory id with the package and version that
/// follow `for`, the id alone, or the reason cut to forty-seven bytes and an
/// ellipsis when it runs over fifty.
pub open spec fn compact_cap_reason_spec(reason: Seq<char>) -> Seq<char> {
    let ws = words_of(reason);
    match first_where(ws, advisory_word()) {
        Some(a) => match first_where(ws, for_word()) {
            Some(i) => if i + 2 < ws.len() {
                ws[a] + "  ·  "@ + ws[i + 1] + " "@ + ws[i + 2]
            } else if i + 1 < ws.len() {
                ws[a] + "  ·  "@ + ws[i + 1]
            } else {
                ws[a]
            },
            None => ws[a],
        },
        None => {
            let j = joined_words(reason);
            if utf8_bytes(j) > 50 {
                byte_prefix_or_all(j, 47) + "…"@
            } else {
                j
            }
        },
    }
}

fn find_advisory(ws: &Vec<String>) -> (r: Option<usize>)
    ensures
        crate::rust_deps::opt_int(r) == first_where(views(ws@), advisory_word()),
{
    let ghost v = views(ws@);
    let mut found: Option<usize> = None;
    let mut i: usize = 0;
    while i < ws.len()
        invariant
            i <= ws.len(),
            v == views(ws@),
            crate::rust_deps::opt_int(found) == first_where(v.take(i as int), advisory_word()),
        decreases ws.len() - i,
    {
        assert(v.take(i + 1).drop_last() =~= v.take(i as int));
        assert(v.take(i + 1).last() == ws@[i as int]@);
        if found.is_none() {
            let w = ws[i].as_str();
            if str_starts_with(w, "RUSTSEC-") || str_starts_with(w, "CVE-") || str_starts_with(
                w,
                "GHSA-",
            ) {
                found = Some(i);
            }
        }
        i += 1;
    }
    assert(v.take(ws.len() as int) =~= v);
    found
}

fn find_for(ws: &Vec<String>) -> (r: Option<usize>)
    ensures
        crate::rust_deps::opt_int(r) == first_where(views(ws@), for_word()),
{
    let ghost v = views(ws@);
    let mut found: Option<usize> = None;
    let mut i: usize = 0;
    while i < ws.len()
        invariant
            i <= ws.len(),
            v == views(ws@),
            crate::rust_deps::opt_int(found) == first_where(v.take(i as int), for_word()),
        decreases ws.len() - i,
    {
        assert(v.take(i + 1).drop_last() =~= v.take(i as int));
        assert(v.take(i + 1).last() == ws@[i as int]@);
        if found.is_none() && str_eq(ws[i].as_str(), "for") {
            found = Some(i);
        }
        i += 1;
    }
    assert(v.take(ws.len() as int) =~= v);
    found
}

/// Shortens a domain's cap reason for its gauge line.
pub fn compact_cap_reason(reason: &str) -> (r: String)
    requires
        cap_reason_cuttable(reason@),
    ensures
        r@ == compact_cap_reason_spec(reason@),
{
    let ws = words(reason);
    let ghost v = views(ws@);
    let adv = find_advisory(&ws);
    let fo = find_for(&ws);
    proof {
        lemma_first_where_range(v, advisory_word());
        lemma_first_where_range(v, for_word());
    }
    match adv {
        Some(a) => {
            let mut s = ws[a].clone();
            match fo {
                Some(i) => {
                    if i < ws.len() && ws.len() - i > 2 {
                        s.append("  ·  ");
                        s.append(ws[i + 1].as_str());
                        s.append(" ");
                        s.append(ws[i + 2].as_str());
                    } else if i < ws.len() && ws.len() - i > 1 {
                        s.append("  ·  ");
                        s.append(ws[i + 1].as_str());
                    }
                },
                None => {},
            }
            s
        },
        None => {
            let j = join_strings(&ws, " ");
            if utf8_byte_len(j.as_str()) > 50 {
                let cut = get_prefix_or_all(j.as_str(), 47);
                concat_str(cut.as_str(), "…")
            } else {
                j
            }
        },
    }
}

// ---------------------------------------------------------------------------
// Gauge lines
// ---------------------------------------------------------------------------

/// The widest of the texts in columns, and at least `floor`.
pub open spec fn max_width(ls: Seq<Seq<char>>, floor: nat) -> nat
    decreases ls.len(),
{
    if ls.len() == 0 {
        floor
    } else {
        let m = max_width(ls.drop_last(), floor);
        let w = display_width_spec(ls.last()) as nat;
        if w > m {
            w
        } else {
            m
        }
    }
}

pub open spec fn category_labels(cs: Seq<CategoryScore>) -> Seq<Seq<char>> {
    cs.map_values(|c: CategoryScore| category_str(c.category))
}

/// `label  gauge  score%  earned/total`, the label padded to `lw` columns.
pub open spec fn category_line(c: CategoryScore, lw: nat) -> Seq<char> {
    pad_to_width_spec(category_str(c.category), lw) + "  "@ + meter_spec(c.score, 18) + "  "@
        + right3(c.score as nat) + "%  "@ + decimal(c.earned as nat) + "/"@ + decimal(
        c.total as nat,
    )
}

/// One gauge line per category, the gauges in one column.
pub open spec fn category_lines(cs: Seq<CategoryScore>) -> Seq<Seq<char>> {
    let lw = max_width(category_labels(cs), 10);
    cs.map_values(|c: CategoryScore| category_line(c, lw))
}

pub open spec fn domain_labels(ds: Seq<DoctorDomainScore>) -> Seq<Seq<char>> {
    ds.map_values(|d: DoctorDomainScore| domain_label(d.domain))
}

/// `label  score%  cap N`, the label padded to `lw` columns.
pub open spec fn domain_head(d: DoctorDomainScore, lw: nat) -> Seq<char> {
    pad_to_width_spec(domain_label(d.domain), lw) + "  "@ + score_cell(d.score) + cap_cell(d.cap)
}

pub open spec fn score_cell(score: Option<u8>) -> Seq<char> {
    match score {
        Some(v) => right3(v as nat) + "%"@,
        None => " n/a"@,
    }
}

pub open spec fn cap_cell(cap: Option<u8>) -> Seq<char> {
    match cap {
        Some(c) => "  cap "@ + right3(c as nat),
        None => Seq::empty(),
    }
}

/// A domain's score and cap, and its cap reason in short on a line of its
/// own when there is one.
pub open spec fn domain_entry_lines(d: DoctorDomainScore, lw: nat) -> Seq<Seq<char>> {
    let head = domain_head(d, lw);
    match d.cap_reason {
        Some(r) => seq![head, "  cap  "@ + compact_cap_reason_spec(r@)],
        None => seq![head],
    }
}

pub open spec fn domain_lines_at(ds: Seq<DoctorDomainScore>, lw: nat) -> Seq<Seq<char>>
    decreases ds.len(),
{
    if ds.len() == 0 {
        Seq::empty()
    } else {
        domain_lines_at(ds.drop_last(), lw) + domain_entry_lines(ds.last(), lw)
    }
}

/// The gauge lines of the domains, labels padded to one width.
pub open spec fn domain_lines(ds: Seq<DoctorDomainScore>) -> Seq<Seq<char>> {
    domain_lines_at(ds, max_width(domain_labels(ds), 8))
}

fn max_width_of(ls: &Vec<&str>, floor: usize) -> (r: usize)
    ensures
        r == max_width(crate::project::str_views(ls@), floor as nat),
{
    let ghost v = crate::project::str_views(ls@);
    let mut m = floor;
    let mut i: usize = 0;
    while i < ls.len()
        invariant
            i <= ls.len(),
            v == crate::project::str_views(ls@),
            m == max_width(v.take(i as int), floor as nat),
        decreases ls.len() - i,
    {
        assert(v.take(i + 1).drop_last() =~= v.take(i as int));
        assert(v.take(i + 1).last() == ls@[i as int]@);
        let w = display_width(ls[i]);
        if w > m {
            m = w;
        }
        i += 1;
    }
    assert(v.take(ls.len() as int) =~= v);
    m
}

fn category_line_text(c: &CategoryScore, lw: usize) -> (r: String)
    requires
        c.score <= 100,
    ensures
        r@ == category_line(*c, lw as nat),
{
    let mut s = pad_to_width(c.category.as_str(), lw);
    s.append("  ");
    s.append(meter(c.score, 18).as_str());
    s.append("  ");
    s.append(right3_text(c.score).as_str());
    s.append("%  ");
    s.append(decimal_string(c.earned as u64).as_str());
    s.append("/");
    s.append(decimal_string(c.total as u64).as_str());
    s
}

/// The category gauge lines.
pub fn render_category_lines(cs: &Vec<CategoryScore>) -> (r: Vec<String>)
    requires
        forall|i: int| 0 <= i < cs.len() ==> (#[trigger] cs[i]).score <= 100,
    ensures
        views(r@) == category_lines(cs@),
{
    let mut labels: Vec<&str> = Vec::new();
    let mut i: usize = 0;
    while i < cs.len()
        invariant
            i <= cs.len(),
            crate::project::str_views(labels@) == category_labels(cs@).take(i as int),
        decreases cs.len() - i,
    {
        let ghost before = crate::project::str_views(labels@);
        labels.push(cs[i].category.as_str());
        assert(crate::project::str_views(labels@) =~= before.push(category_str(cs@[i as int].category)));
        assert(category_labels(cs@).take(i + 1) =~= category_labels(cs@).take(i as int).push(
            category_str(cs@[i as int].category),
        ));
        i += 1;
    }
    assert(category_labels(cs@).take(cs.len() as int) =~= category_labels(cs@));
    let lw = max_width_of(&labels, 10);
    let mut out: Vec<String> = Vec::new();
    let mut k: usize = 0;
    while k < cs.len()
        invariant
            k <= cs.len(),
            lw == max_width(category_labels(cs@), 10),
            forall|i: int| 0 <= i < cs.len() ==> (#[trigger] cs[i]).score <= 100,
            views(out@) == category_lines(cs@).take(k as int),
        decreases cs.len() - k,
    {
        let ghost before = views(out@);
        out.push(category_line_text(&cs[k], lw));
        assert(views(out@) =~= before.push(category_line(cs@[k as int], lw as nat)));
        assert(category_lines(cs@).take(k + 1) =~= category_lines(cs@).take(k as int).push(
            category_line(cs@[k as int], lw as nat),
        ));
        k += 1;
    }
    assert(category_lines(cs@).take(cs.len() as int) =~= category_lines(cs@));
    out
}

/// Every cap reason of the domains can be shortened.
pub open spec fn cap_reasons_cuttable(ds: Seq<DoctorDomainScore>) -> bool {
    forall|i: int|
        0 <= i < ds.len() ==> ((#[trigger] ds[i]).cap_reason matches Some(r) ==> cap_reason_cuttable(
            r@,
        ))
}

fn domain_entry_text(d: &DoctorDomainScore, lw: usize, out: &mut Vec<String>)
    requires
        d.cap_reason matches Some(r) ==> cap_reason_cuttable(r@),
    ensures
        views(final(out)@) == views(old(out)@) + domain_entry_lines(*d, lw as nat),
{
    let mut head = pad_to_width(d.domain.label(), lw);
    head.append("  ");
    match d.score {
        Some(v) => {
            head.append(right3_text(v).as_str());
            head.append("%");
        },
        None => {
            head.append(" n/a");
        },
    }
    match d.cap {
        Some(c) => {
            head.append("  cap ");
            head.append(right3_text(c).as_str());
        },
        None => {},
    }
    assert(head@ =~= domain_head(*d, lw as nat));
    let ghost before = views(out@);
    out.push(head);
    match &d.cap_reason {
        Some(r) => {
            let line = concat_str("  cap  ", compact_cap_reason(r.as_str()).as_str());
            out.push(line);
            assert(views(out@) =~= before + domain_entry_lines(*d, lw as nat));
        },
        None => {
            assert(views(out@) =~= before + domain_entry_lines(*d, lw as nat));
        },
    }
}

/// The domain gauge lines.
pub fn render_domain_lines(ds: &Vec<DoctorDomainScore>) -> (r: Vec<String>)
    requires
        cap_reasons_cuttable(ds@),
    ensures
        views(r@) == domain_lines(ds@),
{
    let mut labels: Vec<&str> = Vec::new();
    let mut i: usize = 0;
    while i < ds.len()
        invariant
            i <= ds.len(),
            crate::project::str_views(labels@) == domain_labels(ds@).take(i as int),
        decreases ds.len() - i,
    {
        let ghost before = crate::project::str_views(labels@);
        labels.push(ds[i].domain.label());
        assert(crate::project::str_views(labels@) =~= before.push(domain_label(ds@[i as int].domain)));
        assert(domain_labels(ds@).take(i + 1) =~= domain_labels(ds@).take(i as int).push(
            domain_label(ds@[i as int].domain),
        ));
        i += 1;
    }
    assert(domain_labels(ds@).take(ds.len() as int) =~= domain_labels(ds@));
    let lw = max_width_of(&labels, 8);
    let mut out: Vec<String> = Vec::new();
    let mut k: usize = 0;
    while k < ds.len()
        invariant
            k <= ds.len(),
            lw == max_width(domain_labels(ds@), 8),
            cap_reasons_cuttable(ds@),
            views(out@) == domain_lines_at(ds@.take(k as int), lw as nat),
        decreases ds.len() - k,
    {
        assert(ds@.take(k + 1).drop_last() =~= ds@.take(k as int));
        assert(ds@.take(k + 1).last() == ds@[k as int]);
        assert(ds@[k as int].cap_reason matches Some(r) ==> cap_reason_cuttable(r@));
        domain_entry_text(&ds[k], lw, &mut out);
        k += 1;
    }
    assert(ds@.take(ds.len() as int) =~= ds@);
    out
}

// ---------------------------------------------------------------------------
// Strongest checks and largest gaps
// ---------------------------------------------------------------------------

/// A check's sort key and its position among the report's checks.
pub type Entry = (nat, int);

pub open spec fn entry_views(v: Seq<(u16, usize)>) -> Seq<Entry> {
    v.map_values(|e: (u16, usize)| (e.0 as nat, e.1 as int))
}

/// Where an entry with key `k` goes among entries ordered by key, largest
/// first: after every entry whose key is at least `k`.
pub open spec fn desc_pos(s: Seq<Entry>, k: nat) -> int
    decreases s.len(),
{
    if s.len() == 0 {
        0
    } else {
        let i = desc_pos(s.drop_last(), k);
        if i < s.len() - 1 {
            i
        } else if s.last().0 < k {
            s.len() - 1
        } else {
            s.len() as int
        }
    }
}

/// The entries ordered by key, largest first, entries with equal keys in
/// their original order (a stable sort on the reversed key).
pub open spec fn sort_desc(s: Seq<Entry>) -> Seq<Entry>
    decreases s.len(),
{
    if s.len() == 0 {
        s
    } else {
        let t = sort_desc(s.drop_last());
        t.insert(desc_pos(t, s.last().0), s.last())
    }
}

proof fn lemma_desc_pos_range(s: Seq<Entry>, k: nat)
    ensures
        0 <= desc_pos(s, k) <= s.len(),
    decreases s.len(),
{
    if s.len() > 0 {
        lemma_desc_pos_range(s.drop_last(), k);
    }
}

/// Sorting keeps the number of entries and their positions below `n`.
pub proof fn lemma_sort_desc_indices(s: Seq<Entry>, n: int)
    requires
        forall|i: int| 0 <= i < s.len() ==> 0 <= (#[trigger] s[i]).1 < n,
    ensures
        sort_desc(s).len() == s.len(),
        forall|i: int| 0 <= i < sort_desc(s).len() ==> 0 <= (#[trigger] sort_desc(s)[i]).1 < n,
    decreases s.len(),
{
    if s.len() > 0 {
        let d = s.drop_last();
        assert forall|i: int| 0 <= i < d.len() implies 0 <= (#[trigger] d[i]).1 < n by {
            assert(d[i] == s[i]);
        }
        lemma_sort_desc_indices(d, n);
        let t = sort_desc(d);
        lemma_desc_pos_range(t, s.last().0);
        let p = desc_pos(t, s.last().0);
        assert(s.last() == s[s.len() - 1]);
        let u = t.insert(p, s.last());
        assert forall|i: int| 0 <= i < u.len() implies 0 <= (#[trigger] u[i]).1 < n by {
            if i < p {
                assert(u[i] == t[i]);
            } else if i > p {
                assert(u[i] == t[i - 1]);
            }
        }
    }
}

proof fn lemma_desc_pos_first(s: Seq<Entry>, k: nat)
    ensures
        forall|j: int| 0 <= j < desc_pos(s, k) ==> (#[trigger] s[j]).0 >= k,
        desc_pos(s, k) < s.len() ==> s[desc_pos(s, k)].0 < k,
    decreases s.len(),
{
    lemma_desc_pos_range(s, k);
    if s.len() > 0 {
        let d = s.drop_last();
        lemma_desc_pos_first(d, k);
        lemma_desc_pos_range(d, k);
        assert forall|j: int| 0 <= j < desc_pos(s, k) implies (#[trigger] s[j]).0 >= k by {
            if j < d.len() {
                assert(d[j] == s[j]);
            }
        }
        if desc_pos(d, k) < d.len() {
            assert(d[desc_pos(d, k)] == s[desc_pos(d, k)]);
        }
    }
}

/// Sorted entries run from the largest key down.
pub proof fn lemma_sort_desc_sorted(s: Seq<Entry>)
    ensures
        forall|i: int, j: int|
            0 <= i < j < sort_desc(s).len() ==> (#[trigger] sort_desc(s)[i]).0 >= (
            #[trigger] sort_desc(s)[j]).0,
    decreases s.len(),
{
    if s.len() > 0 {
        let t = sort_desc(s.drop_last());
        let x = s.last();
        lemma_sort_desc_sorted(s.drop_last());
        lemma_desc_pos_range(t, x.0);
        lemma_desc_pos_first(t, x.0);
        let p = desc_pos(t, x.0);
        let u = t.insert(p, x);
        assert forall|i: int, j: int| 0 <= i < j < u.len() implies (#[trigger] u[i]).0 >= (
        #[trigger] u[j]).0 by {
            if j < p {
                assert(u[i] == t[i] && u[j] == t[j]);
            } else if j == p {
                assert(u[i] == t[i]);
            } else if i < p {
                assert(u[i] == t[i] && u[j] == t[j - 1]);
                assert(t[i].0 >= x.0);
                assert(t[p].0 >= t[j - 1].0);
            } else if i == p {
                assert(u[j] == t[j - 1]);
                assert(t[p].0 >= t[j - 1].0);
            } else {
                assert(u[i] == t[i - 1] && u[j] == t[j - 1]);
            }
        }
    }
}

/// Every sorted entry is one of the entries sorted.
pub proof fn lemma_sort_desc_members(s: Seq<Entry>)
    ensures
        forall|i: int| 0 <= i < sort_desc(s).len() ==> s.contains(#[trigger] sort_desc(s)[i]),
    decreases s.len(),
{
    if s.len() > 0 {
        let d = s.drop_last();
        let t = sort_desc(d);
        lemma_sort_desc_members(d);
        lemma_desc_pos_range(t, s.last().0);
        let p = desc_pos(t, s.last().0);
        let u = t.insert(p, s.last());
        assert forall|i: int| 0 <= i < u.len() implies s.contains(#[trigger] u[i]) by {
            if i < p {
                assert(u[i] == t[i]);
                assert(d.contains(t[i]));
                let j = choose|j: int| 0 <= j < d.len() && d[j] == t[i];
                assert(s[j] == d[j]);
            } else if i > p {
                assert(u[i] == t[i - 1]);
                assert(d.contains(t[i - 1]));
                let j = choose|j: int| 0 <= j < d.len() && d[j] == t[i - 1];
                assert(s[j] == d[j]);
            } else {
                assert(s[s.len() - 1] == s.last());
            }
        }
    }
}

/// Each gap entry is a check that is not strong, keyed by the points it
/// misses; each strength entry a strong check, keyed by its coverage.
pub proof fn lemma_entries_describe(cs: Seq<AuditCheck>)
    ensures
        forall|i: int|
            0 <= i < gap_entries(cs).len() ==> {
                let e = #[trigger] gap_entries(cs)[i];
                0 <= e.1 < cs.len() && cs[e.1].status != CheckStatus::Strong && e.0 == gap_of(
                    cs[e.1],
                )
            },
        forall|i: int|
            0 <= i < strength_entries(cs).len() ==> {
                let e = #[trigger] strength_entries(cs)[i];
                0 <= e.1 < cs.len() && is_strength(cs[e.1]) && e.0 == cs[e.1].coverage
            },
    decreases cs.len(),
{
    if cs.len() > 0 {
        let d = cs.drop_last();
        lemma_entries_describe(d);
        let g = gap_entries(d);
        let st = strength_entries(d);
        assert forall|i: int| 0 <= i < gap_entries(cs).len() implies {
            let e = #[trigger] gap_entries(cs)[i];
            0 <= e.1 < cs.len() && cs[e.1].status != CheckStatus::Strong && e.0 == gap_of(cs[e.1])
        } by {
            if i < g.len() {
                assert(gap_entries(cs)[i] == g[i]);
                assert(d[g[i].1] == cs[g[i].1]);
            }
        }
        assert forall|i: int| 0 <= i < strength_entries(cs).len() implies {
            let e = #[trigger] strength_entries(cs)[i];
            0 <= e.1 < cs.len() && is_strength(cs[e.1]) && e.0 == cs[e.1].coverage
        } by {
            if i < st.len() {
                assert(strength_entries(cs)[i] == st[i]);
                assert(d[st[i].1] == cs[st[i].1]);
            }
        }
    }
}

fn desc_pos_exec(v: &Vec<(u16, usize)>, k: u16) -> (r: usize)
    ensures
        r == desc_pos(entry_views(v@), k as nat),
{
    let ghost ev = entry_views(v@);
    let mut pos: usize = 0;
    let mut i: usize = 0;
    while i < v.len()
        invariant
            i <= v.len(),
            ev == entry_views(v@),
            pos == desc_pos(ev.take(i as int), k as nat),
            pos <= i,
        decreases v.len() - i,
    {
        assert(ev.take(i + 1).drop_last() =~= ev.take(i as int));
        assert(ev.take(i + 1).last() == ev[i as int]);
        if pos == i && v[i].0 < k {
        } else if pos == i {
            pos = i + 1;
        }
        i += 1;
    }
    assert(ev.take(v.len() as int) =~= ev);
    pos
}

/// The entries ordered by key, largest first, ties kept in order.
pub fn sort_entries_desc(v: &Vec<(u16, usize)>) -> (r: Vec<(u16, usize)>)
    ensures
        entry_views(r@) == sort_desc(entry_views(v@)),
{
    let ghost ev = entry_views(v@);
    let mut out: Vec<(u16, usize)> = Vec::new();
    let mut i: usize = 0;
    while i < v.len()
        invariant
            i <= v.len(),
            ev == entry_views(v@),
            entry_views(out@) == sort_desc(ev.take(i as int)),
        decreases v.len() - i,
    {
        assert(ev.take(i + 1).drop_last() =~= ev.take(i as int));
        assert(ev.take(i + 1).last() == ev[i as int]);
        let e = v[i];
        let p = desc_pos_exec(&out, e.0);
        proof {
            lemma_desc_pos_range(entry_views(out@), e.0 as nat);
        }
        let ghost before = entry_views(out@);
        out.insert(p, e);
        assert(entry_views(out@) =~= before.insert(p as int, (e.0 as nat, e.1 as int)));
        i += 1;
    }
    assert(ev.take(v.len() as int) =~= ev);
    out
}

/// At most the first `n` entries.
pub open spec fn first_n<T>(s: Seq<T>, n: nat) -> Seq<T> {
    if s.len() <= n {
        s
    } else {
        s.take(n as int)
    }
}

/// A strong check, leaving out a funding file whose message calls it
/// optional or not meaningful for the project.
pub open spec fn is_strength(c: AuditCheck) -> bool {
    c.status == CheckStatus::Strong && !(c.id@ == "funding"@ && (contains(
        str_lowercase(c.message@),
        "optional"@,
    ) || contains(str_lowercase(c.message@), "not meaningful"@)))
}

/// The strong checks, keyed by coverage, in report order.
pub open spec fn strength_entries(cs: Seq<AuditCheck>) -> Seq<Entry>
    decreases cs.len(),
{
    if cs.len() == 0 {
        Seq::empty()
    } else {
        let e = strength_entries(cs.drop_last());
        if is_strength(cs.last()) {
            e.push((cs.last().coverage as nat, cs.len() - 1))
        } else {
            e
        }
    }
}

/// The points a check misses, by its weight.
pub open spec fn gap_of(c: AuditCheck) -> nat {
    sat_sub(c.weight as nat, c.earned as nat)
}

/// The checks that are not strong, keyed by the points they miss, in report
/// order.
pub open spec fn gap_entries(cs: Seq<AuditCheck>) -> Seq<Entry>
    decreases cs.len(),
{
    if cs.len() == 0 {
        Seq::empty()
    } else {
        let e = gap_entries(cs.drop_last());
        if cs.last().status != CheckStatus::Strong {
            e.push((gap_of(cs.last()), cs.len() - 1))
        } else {
            e
        }
    }
}

pub open spec fn entry_labels(cs: Seq<AuditCheck>, es: Seq<Entry>) -> Seq<Seq<char>> {
    es.map_values(|e: Entry| cs[e.1].label@)
}

/// `label  coverage%`, the label padded to `lw` columns.
pub open spec fn strength_line(c: AuditCheck, lw: nat) -> Seq<char> {
    pad_to_width_spec(c.label@, lw) + "  "@ + decimal(c.coverage as nat) + "%"@
}

/// The four strongest checks by coverage, labels padded to the widest label
/// of all strong checks.
pub open spec fn strength_lines(cs: Seq<AuditCheck>) -> Seq<Seq<char>> {
    let es = strength_entries(cs);
    let lw = max_width(entry_labels(cs, es), 0);
    strength_rows(cs, first_n(sort_desc(es), 4), lw)
}

pub open spec fn strength_rows(cs: Seq<AuditCheck>, es: Seq<Entry>, lw: nat) -> Seq<Seq<char>> {
    es.map_values(|e: Entry| strength_line(cs[e.1], lw))
}

pub open spec fn gap_rows(cs: Seq<AuditCheck>, es: Seq<Entry>) -> Seq<Seq<char>> {
    es.map_values(|e: Entry| gap_line(cs[e.1]))
}

/// `status | label | message | -gap`.
pub open spec fn gap_line(c: AuditCheck) -> Seq<char> {
    status_str(c.status) + " | "@ + c.label@ + " | "@ + c.message@ + " | -"@ + decimal(gap_of(c))
}

/// The five checks that miss the most points.
pub open spec fn gap_lines(cs: Seq<AuditCheck>) -> Seq<Seq<char>> {
    gap_rows(cs, first_n(sort_desc(gap_entries(cs)), 5))
}

fn is_strength_exec(c: &AuditCheck) -> (b: bool)
    ensures
        b == is_strength(*c),
{
    if c.status != CheckStatus::Strong {
        return false;
    }
    if !str_eq(c.id.as_str(), "funding") {
        return true;
    }
    let lower = to_lowercase(c.message.as_str());
    !(str_contains(lower.as_str(), "optional") || str_contains(lower.as_str(), "not meaningful"))
}

proof fn lemma_entries_in_range(cs: Seq<AuditCheck>)
    ensures
        forall|i: int|
            0 <= i < strength_entries(cs).len() ==> 0 <= (#[trigger] strength_entries(cs)[i]).1
                < cs.len(),
        forall|i: int|
            0 <= i < gap_entries(cs).len() ==> 0 <= (#[trigger] gap_entries(cs)[i]).1 < cs.len(),
    decreases cs.len(),
{
    if cs.len() > 0 {
        let d = cs.drop_last();
        lemma_entries_in_range(d);
        let e = strength_entries(d);
        let g = gap_entries(d);
        assert forall|i: int| 0 <= i < strength_entries(cs).len() implies 0 <= (
        #[trigger] strength_entries(cs)[i]).1 < cs.len() by {
            if i < e.len() {
                assert(strength_entries(cs)[i] == e[i]);
            }
        }
        assert forall|i: int| 0 <= i < gap_entries(cs).len() implies 0 <= (
        #[trigger] gap_entries(cs)[i]).1 < cs.len() by {
            if i < g.len() {
                assert(gap_entries(cs)[i] == g[i]);
            }
        }
    }
}

fn collect_entries(cs: &Vec<AuditCheck>, strengths: bool) -> (r: Vec<(u16, usize)>)
    ensures
        entry_views(r@) == (if strengths {
            strength_entries(cs@)
        } else {
            gap_entries(cs@)
        }),
{
    let mut out: Vec<(u16, usize)> = Vec::new();
    let mut i: usize = 0;
    while i < cs.len()
        invariant
            i <= cs.len(),
            entry_views(out@) == (if strengths {
                strength_entries(cs@.take(i as int))
            } else {
                gap_entries(cs@.take(i as int))
            }),
        decreases cs.len() - i,
    {
        assert(cs@.take(i + 1).drop_last() =~= cs@.take(i as int));
        assert(cs@.take(i + 1).last() == cs@[i as int]);
        let c = &cs[i];
        let ghost before = entry_views(out@);
        if strengths {
            if is_strength_exec(c) {
                out.push((c.coverage as u16, i));
                assert(entry_views(out@) =~= before.push((c.coverage as nat, i as int)));
            }
        } else {
            if c.status != CheckStatus::Strong {
                out.push((c.gap(), i));
                assert(entry_views(out@) =~= before.push((gap_of(*c), i as int)));
            }
        }
        i += 1;
    }
    assert(cs@.take(cs.len() as int) =~= cs@);
    out
}

/// The strongest checks, as the dashboard lists them.
pub fn top_strengths(cs: &Vec<AuditCheck>) -> (r: Vec<String>)
    ensures
        views(r@) == strength_lines(cs@),
{
    let es = collect_entries(cs, true);
    proof {
        lemma_entries_in_range(cs@);
    }
    assert forall|j: int| 0 <= j < es.len() implies (#[trigger] es@[j]).1 < cs.len() by {
        assert(entry_views(es@)[j] == strength_entries(cs@)[j]);
    }
    let mut labels: Vec<&str> = Vec::new();
    let mut i: usize = 0;
    while i < es.len()
        invariant
            i <= es.len(),
            entry_views(es@) == strength_entries(cs@),
            forall|j: int| 0 <= j < es.len() ==> (#[trigger] es@[j]).1 < cs.len(),
            crate::project::str_views(labels@) == entry_labels(cs@, entry_views(es@)).take(i as int),
        decreases es.len() - i,
    {
        assert(entry_views(es@)[i as int].1 == es@[i as int].1 as int);
        let ghost before = crate::project::str_views(labels@);
        labels.push(cs[es[i].1].label.as_str());
        assert(crate::project::str_views(labels@) =~= before.push(cs@[es@[i as int].1 as int].label@));
        assert(entry_labels(cs@, entry_views(es@)).take(i + 1) =~= entry_labels(
            cs@,
            entry_views(es@),
        ).take(i as int).push(cs@[es@[i as int].1 as int].label@));
        i += 1;
    }
    assert(entry_labels(cs@, entry_views(es@)).take(es.len() as int) =~= entry_labels(
        cs@,
        entry_views(es@),
    ));
    let lw = max_width_of(&labels, 0);
    let sorted = sort_entries_desc(&es);
    proof {
        lemma_sort_desc_indices(strength_entries(cs@), cs.len() as int);
    }
    let ghost top = first_n(sort_desc(strength_entries(cs@)), 4);
    let n: usize = if sorted.len() <= 4 {
        sorted.len()
    } else {
        4
    };
    let mut out: Vec<String> = Vec::new();
    let mut k: usize = 0;
    while k < n
        invariant
            k <= n,
            n <= sorted.len(),
            n == top.len(),
            entry_views(sorted@) == sort_desc(strength_entries(cs@)),
            top == first_n(sort_desc(strength_entries(cs@)), 4),
            forall|j: int|
                0 <= j < sort_desc(strength_entries(cs@)).len() ==> 0 <= (#[trigger] sort_desc(
                    strength_entries(cs@),
                )[j]).1 < cs.len(),
            views(out@) == strength_rows(cs@, top.take(k as int), lw as nat),
        decreases n - k,
    {
        let e = sorted[k];
        assert(top[k as int] == entry_views(sorted@)[k as int]);
        let c = &cs[e.1];
        let mut line = pad_to_width(c.label.as_str(), lw);
        line.append("  ");
        line.append(decimal_string(c.coverage as u64).as_str());
        line.append("%");
        assert(line@ =~= strength_line(cs@[top[k as int].1], lw as nat));
        let ghost before = views(out@);
        out.push(line);
        assert(strength_rows(cs@, top.take(k + 1), lw as nat) =~= strength_rows(
            cs@,
            top.take(k as int),
            lw as nat,
        ).push(line@));
        assert(views(out@) =~= before.push(line@));
        k += 1;
    }
    assert(top.take(n as int) =~= top);
    out
}

/// The largest gaps, as the dashboard lists them.
pub fn top_gaps(cs: &Vec<AuditCheck>) -> (r: Vec<String>)
    ensures
        views(r@) == gap_lines(cs@),
{
    let es = collect_entries(cs, false);
    proof {
        lemma_entries_in_range(cs@);
        lemma_sort_desc_indices(gap_entries(cs@), cs.len() as int);
    }
    let sorted = sort_entries_desc(&es);
    let ghost top = first_n(sort_desc(gap_entries(cs@)), 5);
    let n: usize = if sorted.len() <= 5 {
        sorted.len()
    } else {
        5
    };
    let mut out: Vec<String> = Vec::new();
    let mut k: usize = 0;
    while k < n
        invariant
            k <= n,
            n <= sorted.len(),
            n == top.len(),
            entry_views(sorted@) == sort_desc(gap_entries(cs@)),
            top == first_n(sort_desc(gap_entries(cs@)), 5),
            forall|j: int|
                0 <= j < sort_desc(gap_entries(cs@)).len() ==> 0 <= (#[trigger] sort_desc(
                    gap_entries(cs@),
                )[j]).1 < cs.len(),
            views(out@) == gap_rows(cs@, top.take(k as int)),
        decreases n - k,
    {
        let e = sorted[k];
        assert(top[k as int] == entry_views(sorted@)[k as int]);
        let c = &cs[e.1];
        let mut line = concat_str(c.status.as_str(), " | ");
        line.append(c.label.as_str());
        line.append(" | ");
        line.append(c.message.as_str());
        line.append(" | -");
        line.append(decimal_string(c.gap() as u64).as_str());
        assert(line@ =~= gap_line(cs@[top[k as int].1]));
        let ghost before = views(out@);
        out.push(line);
        assert(gap_rows(cs@, top.take(k + 1)) =~= gap_rows(cs@, top.take(k as int)).push(line@));
        assert(views(out@) =~= before.push(line@));
        k += 1;
    }
    assert(top.take(n as int) =~= top);
    out
}

// ---------------------------------------------------------------------------
// The screen
// ---------------------------------------------------------------------------

pub open spec fn report_badge(color: bool) -> Seq<char> {
    paint_spec(color, "1;96"@, "OSSIFY REPORT"@)
}

/// The project's name and kind, then score, tier and the strict verdict
/// with its minimum, then a gauge of the score.  (The project summary is
/// shown up to its ` via ` and the manifest path, which leaves the kind.)
pub open spec fn hero_lines(r: AuditReport, color: bool) -> Seq<Seq<char>> {
    seq![
        r.project.name@ + "  ·  "@ + kind_display_name(r.project.kind),
        paint_spec(color, "90"@, "score"@) + "  "@ + score_text_spec(color, Some(r.score)) + "   "@
            + paint_spec(color, "90"@, "tier"@) + "  "@ + tier_text_spec(color, r.readiness)
            + "   "@ + paint_spec(color, "90"@, "strict"@) + "  "@ + (if r.strict_passed {
            paint_spec(color, "92"@, "pass"@)
        } else {
            paint_spec(color, "91"@, "fail"@)
        }) + "  (≥"@ + decimal(r.minimum_score as nat) + ")"@,
        meter_spec(r.score, 30),
    ]
}

/// What to run next after an audit.
pub open spec fn next_moves() -> Seq<Seq<char>> {
    seq!["ossify fix . --plan"@, "ossify audit . --strict"@]
}

/// A box for the lines, or nothing when there are none.
pub open spec fn opt_box(w: nat, title: Seq<char>, lines: Seq<Seq<char>>) -> Seq<Seq<char>> {
    if lines.len() == 0 {
        Seq::empty()
    } else {
        seq![box_spec(w, title, lines, false)]
    }
}

/// The width of the screen: at least 72 columns.
pub open spec fn dashboard_width(width: nat) -> nat {
    if width < 72 {
        72
    } else {
        width
    }
}

/// The left column, or the whole screen below the score when narrow:
/// domains, categories and strongest checks.
pub open spec fn left_boxes(r: AuditReport, w: nat) -> Seq<Seq<char>> {
    opt_box(w, "Domain Scores"@, domain_lines(r.domain_scores@)) + seq![
        box_spec(w, "Category Scores"@, category_lines(r.category_scores@), false),
    ] + opt_box(w, "Top Strengths"@, strength_lines(r.checks@))
}

/// The right column: largest gaps, diagnostics and what to run next.
pub open spec fn right_boxes(r: AuditReport, diagnostics: Seq<Seq<char>>, w: nat) -> Seq<
    Seq<char>,
> {
    opt_box(w, "Top Gaps"@, gap_lines(r.checks@)) + opt_box(
        w,
        "Diagnostics"@,
        first_n(diagnostics, 5),
    ) + seq![box_spec(w, "Next Move"@, next_moves(), false)]
}

/// The audit dashboard at `width` columns (72 at least): the score box on
/// top, then the panels one below the other, or from 112 columns on in two
/// columns of half the width less one.  `diagnostics` are the diagnostic
/// lines, most important first; five are shown.
pub open spec fn audit_dashboard_spec(
    r: AuditReport,
    diagnostics: Seq<Seq<char>>,
    color: bool,
    width: nat,
) -> Seq<char> {
    let w = dashboard_width(width);
    let hero = box_spec(w, report_badge(color), hero_lines(r, color), false);
    if w < 112 {
        join_seq(seq![hero] + left_boxes(r, w) + right_boxes(r, diagnostics, w), "\n\n"@)
    } else {
        let half = (w / 2 - 1) as nat;
        hero + "\n\n"@ + columns_spec(
            stacked(left_boxes(r, half)),
            stacked(right_boxes(r, diagnostics, half)),
            half,
            half,
        )
    }
}

/// What the dashboard needs of a report: scores out of a hundred and cap
/// reasons that can be shortened.
pub open spec fn dashboard_ready(r: AuditReport) -> bool {
    &&& r.score <= 100
    &&& forall|i: int|
        0 <= i < r.category_scores@.len() ==> (#[trigger] r.category_scores@[i]).score <= 100
    &&& cap_reasons_cuttable(r.domain_scores@)
}

fn hero_text(r: &AuditReport, color: bool) -> (v: Vec<String>)
    requires
        r.score <= 100,
    ensures
        views(v@) == hero_lines(*r, color),
{
    let style = ReportStyle { enabled: color };
    let mut first = concat_str(r.project.name.as_str(), "  ·  ");
    first.append(r.project.kind.display_name());
    let mut second = style.paint("90", "score");
    second.append("  ");
    second.append(style.score(Some(r.score)).as_str());
    second.append("   ");
    second.append(style.paint("90", "tier").as_str());
    second.append("  ");
    second.append(style.tier(r.readiness).as_str());
    second.append("   ");
    second.append(style.paint("90", "strict").as_str());
    second.append("  ");
    if r.strict_passed {
        second.append(style.paint("92", "pass").as_str());
    } else {
        second.append(style.paint("91", "fail").as_str());
    }
    second.append("  (≥");
    second.append(decimal_string(r.minimum_score as u64).as_str());
    second.append(")");
    let mut v: Vec<String> = Vec::new();
    v.push(first);
    v.push(second);
    v.push(meter(r.score, 30));
    assert(views(v@) =~= hero_lines(*r, color));
    v
}

fn push_opt_box(out: &mut Vec<String>, w: usize, title: &str, lines: &Vec<String>)
    ensures
        views(final(out)@) == views(old(out)@) + opt_box(w as nat, title@, views(lines@)),
{
    let ghost before = views(out@);
    if lines.len() > 0 {
        out.push(box_section(w, title, lines));
        assert(views(out@) =~= before + opt_box(w as nat, title@, views(lines@)));
    } else {
        assert(views(out@) =~= before + opt_box(w as nat, title@, views(lines@)));
    }
}

fn first_lines(v: &Vec<String>, n: usize) -> (r: Vec<String>)
    ensures
        views(r@) == first_n(views(v@), n as nat),
{
    let mut out: Vec<String> = Vec::new();
    let mut i: usize = 0;
    while i < v.len() && i < n
        invariant
            i <= v.len(),
            i <= n,
            views(out@) == views(v@).take(i as int),
        decreases v.len() - i,
    {
        let ghost before = views(out@);
        out.push(v[i].clone());
        assert(views(v@).take(i + 1) =~= before.push(v@[i as int]@));
        i += 1;
    }
    assert(views(v@).take(i as int) =~= first_n(views(v@), n as nat));
    out
}

fn narrow_screen(hero: String, left: Vec<String>, right: Vec<String>) -> (r: String)
    ensures
        r@ == join_seq(seq![hero@] + views(left@) + views(right@), "\n\n"@),
{
    let ghost h = hero@;
    let ghost lv = views(left@);
    let ghost rv = views(right@);
    let mut parts: Vec<String> = Vec::new();
    parts.push(hero);
    let mut l = left;
    let mut r = right;
    parts.append(&mut l);
    parts.append(&mut r);
    assert(views(parts@) =~= seq![h] + lv + rv);
    join_strings(&parts, "\n\n")
}

/// The audit dashboard, as `audit` prints it for people.
#[verifier::rlimit(30)]
pub fn render_audit_dashboard(
    report: &AuditReport,
    diagnostics: &Vec<String>,
    color: bool,
    width: usize,
) -> (r: String)
    requires
        dashboard_ready(*report),
    ensures
        r@ == audit_dashboard_spec(*report, views(diagnostics@), color, width as nat),
{
    let w: usize = if width < 72 {
        72
    } else {
        width
    };
    let style = ReportStyle { enabled: color };
    let badge = style.paint("1;96", "OSSIFY REPORT");
    let hero = box_section(w, badge.as_str(), &hero_text(report, color));
    let domains = render_domain_lines(&report.domain_scores);
    let categories = render_category_lines(&report.category_scores);
    let strengths = top_strengths(&report.checks);
    let gaps = top_gaps(&report.checks);
    let diags = first_lines(diagnostics, 5);
    let mut moves: Vec<String> = Vec::new();
    moves.push(String::from_str("ossify fix . --plan"));
    moves.push(String::from_str("ossify audit . --strict"));
    assert(views(moves@) =~= next_moves());
    let bw: usize = if w < 112 {
        w
    } else {
        w / 2 - 1
    };
    let mut left: Vec<String> = Vec::new();
    push_opt_box(&mut left, bw, "Domain Scores", &domains);
    let ghost l0 = views(left@);
    left.push(box_section(bw, "Category Scores", &categories));
    assert(views(left@) =~= l0 + seq![
        box_spec(bw as nat, "Category Scores"@, category_lines(report.category_scores@), false),
    ]);
    push_opt_box(&mut left, bw, "Top Strengths", &strengths);
    assert(views(left@) =~= left_boxes(*report, bw as nat));
    let mut right: Vec<String> = Vec::new();
    push_opt_box(&mut right, bw, "Top Gaps", &gaps);
    push_opt_box(&mut right, bw, "Diagnostics", &diags);
    let ghost r0 = views(right@);
    right.push(box_section(bw, "Next Move", &moves));
    assert(views(right@) =~= r0 + seq![box_spec(bw as nat, "Next Move"@, next_moves(), false)]);
    assert(views(right@) =~= right_boxes(*report, views(diagnostics@), bw as nat));
    if w < 112 {
        narrow_screen(hero, left, right)
    } else {
        let lcol = stack_sections(&left);
        let rcol = stack_sections(&right);
        let cols = join_columns(&lcol, &rcol, bw, bw);
        let mut s = hero;
        s.append("\n\n");
        s.append(cols.as_str());
        s
    }
}

// ---------------------------------------------------------------------------
// Diagnostics
// ---------------------------------------------------------------------------

/// `a` is listed before `b`: more severe, or as severe and of a rule whose
/// label comes first.
pub open spec fn diag_before(a: AuditDiagnostic, b: AuditDiagnostic) -> bool {
    finding_severity_rank(a.severity) < finding_severity_rank(b.severity) || (
    finding_severity_rank(a.severity) == finding_severity_rank(b.severity) && seq_lt(
        a.rule_label@,
        b.rule_label@,
    ))
}

/// Where diagnostic `x` goes among the positions in `order`: before the
/// first that it is listed before.
pub open spec fn diag_pos(ds: Seq<AuditDiagnostic>, order: Seq<int>, x: int) -> int
    decreases order.len(),
{
    if order.len() == 0 {
        0
    } else {
        let i = diag_pos(ds, order.drop_last(), x);
        if i < order.len() - 1 {
            i
        } else if diag_before(ds[x], ds[order.last()]) {
            order.len() - 1
        } else {
            order.len() as int
        }
    }
}

/// The positions of the first `n` diagnostics in listing order, equal ones
/// in their original order (a stable sort).
pub open spec fn diag_order(ds: Seq<AuditDiagnostic>, n: nat) -> Seq<int>
    decreases n,
{
    if n == 0 {
        Seq::empty()
    } else {
        let t = diag_order(ds, (n - 1) as nat);
        t.insert(diag_pos(ds, t, n - 1), n - 1)
    }
}

/// `severity | rule | message`, and ` @ location` when there is one.
pub open spec fn diagnostic_line(d: AuditDiagnostic) -> Seq<char> {
    finding_severity_str(d.severity) + " | "@ + d.rule_label@ + " | "@ + d.message@ + match d.location {
        Some(l) => " @ "@ + l@,
        None => Seq::empty(),
    }
}

/// The five diagnostics listed first, as lines.
pub open spec fn diagnostic_lines_spec(ds: Seq<AuditDiagnostic>) -> Seq<Seq<char>> {
    first_n(diag_order(ds, ds.len()), 5).map_values(|i: int| diagnostic_line(ds[i]))
}

proof fn lemma_diag_pos_range(ds: Seq<AuditDiagnostic>, order: Seq<int>, x: int)
    ensures
        0 <= diag_pos(ds, order, x) <= order.len(),
    decreases order.len(),
{
    if order.len() > 0 {
        lemma_diag_pos_range(ds, order.drop_last(), x);
    }
}

proof fn lemma_diag_order_range(ds: Seq<AuditDiagnostic>, n: nat)
    ensures
        diag_order(ds, n).len() == n,
        forall|i: int| 0 <= i < n ==> 0 <= #[trigger] diag_order(ds, n)[i] < n,
    decreases n,
{
    if n > 0 {
        let t = diag_order(ds, (n - 1) as nat);
        lemma_diag_order_range(ds, (n - 1) as nat);
        lemma_diag_pos_range(ds, t, n - 1);
        let p = diag_pos(ds, t, n - 1);
        let u = t.insert(p, n - 1);
        assert forall|i: int| 0 <= i < n implies 0 <= #[trigger] u[i] < n by {
            if i < p {
                assert(u[i] == t[i]);
            } else if i > p {
                assert(u[i] == t[i - 1]);
            }
        }
    }
}

fn diag_before_exec(a: &AuditDiagnostic, b: &AuditDiagnostic) -> (r: bool)
    ensures
        r == diag_before(*a, *b),
{
    let ra = a.severity.rank();
    let rb = b.severity.rank();
    ra < rb || (ra == rb && str_less(a.rule_label.as_str(), b.rule_label.as_str()))
}

/// The diagnostics as the dashboard lists them: most severe first, then by
/// rule label, five at most.
pub fn diagnostic_lines(ds: &Vec<AuditDiagnostic>) -> (r: Vec<String>)
    ensures
        views(r@) == diagnostic_lines_spec(ds@),
{
    let mut order: Vec<usize> = Vec::new();
    let mut n: usize = 0;
    while n < ds.len()
        invariant
            n <= ds.len(),
            order@.map_values(|i: usize| i as int) == diag_order(ds@, n as nat),
        decreases ds.len() - n,
    {
        proof {
            lemma_diag_order_range(ds@, n as nat);
        }
        let ghost t = diag_order(ds@, n as nat);
        let mut pos: usize = 0;
        let mut j: usize = 0;
        while j < order.len()
            invariant
                j <= order.len(),
                n < ds.len(),
                t == order@.map_values(|i: usize| i as int),
                t.len() == n,
                forall|i: int| 0 <= i < n ==> 0 <= #[trigger] t[i] < n,
                pos == diag_pos(ds@, t.take(j as int), n as int),
                pos <= j,
            decreases order.len() - j,
        {
            assert(t.take(j + 1).drop_last() =~= t.take(j as int));
            assert(t.take(j + 1).last() == t[j as int]);
            assert(t[j as int] == order@[j as int] as int);
            if pos == j && diag_before_exec(&ds[n], &ds[order[j]]) {
            } else if pos == j {
                pos = j + 1;
            }
            j += 1;
        }
        assert(t.take(order.len() as int) =~= t);
        proof {
            lemma_diag_pos_range(ds@, t, n as int);
        }
        order.insert(pos, n);
        assert(order@.map_values(|i: usize| i as int) =~= t.insert(pos as int, n as int));
        n += 1;
    }
    proof {
        lemma_diag_order_range(ds@, ds.len() as nat);
    }
    let ghost all = diag_order(ds@, ds.len() as nat);
    let ghost top = first_n(all, 5);
    let m: usize = if order.len() <= 5 {
        order.len()
    } else {
        5
    };
    let mut out: Vec<String> = Vec::new();
    let mut k: usize = 0;
    while k < m
        invariant
            k <= m,
            m <= order.len(),
            m == top.len(),
            order@.map_values(|i: usize| i as int) == all,
            all.len() == ds.len(),
            forall|i: int| 0 <= i < ds.len() ==> 0 <= #[trigger] all[i] < ds.len(),
            top == first_n(all, 5),
            views(out@) == top.take(k as int).map_values(|i: int| diagnostic_line(ds@[i])),
        decreases m - k,
    {
        assert(top[k as int] == all[k as int]);
        assert(all[k as int] == order@[k as int] as int);
        let d = &ds[order[k]];
        let mut line = concat_str(d.severity.as_str(), " | ");
        line.append(d.rule_label.as_str());
        line.append(" | ");
        line.append(d.message.as_str());
        match &d.location {
            Some(l) => {
                line.append(" @ ");
                line.append(l.as_str());
            },
            None => {},
        }
        assert(line@ =~= diagnostic_line(ds@[top[k as int]]));
        let ghost before = views(out@);
        out.push(line);
        assert(top.take(k + 1).map_values(|i: int| diagnostic_line(ds@[i])) =~= top.take(
            k as int,
        ).map_values(|i: int| diagnostic_line(ds@[i])).push(diagnostic_line(ds@[top[k as int]])));
        assert(views(out@) =~= before.push(diagnostic_line(ds@[top[k as int]])));
        k += 1;
    }
    assert(top.take(m as int) =~= top);
    out
}

} // verus!
