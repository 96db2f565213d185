//! The order in which findings are listed: by severity, then ecosystem,
//! file and code, keeping the original order among equals.
use vstd::prelude::*;
use crate::doctor::{severity_rank, DoctorEcosystem, DoctorFinding};
use crate::text::{chars_of, seq_lt, str_less};

verus! {

// ---------------------------------------------------------------------------
// Paths
// ---------------------------------------------------------------------------

/// The pieces of `s` between `/` separators, empty pieces included;
/// `cur` holds the piece read so far.
pub open spec fn split_slash(s: Seq<char>, cur: Seq<char>) -> Seq<Seq<char>>
    decreases s.len(),
{
    if s.len() == 0 {
        seq![cur]
    } else if s[0] == '/' {
        seq![cur] + split_slash(s.drop_first(), Seq::empty())
    } else {
        split_slash(s.drop_first(), cur.push(s[0]))
    }
}

/// A path component: its kind (1 root, 2 current dir, 3 parent dir,
/// 4 normal, in `Component`'s order) and, for a normal one, its name.
pub open spec fn piece_component(p: Seq<char>) -> (nat, Seq<char>) {
    if p == ".."@ {
        (3, Seq::empty())
    } else {
        (4, p)
    }
}

/// Components of the pieces after the first: empty pieces and `.` dropped.
pub open spec fn later_components(ps: Seq<Seq<char>>) -> Seq<(nat, Seq<char>)>
    decreases ps.len(),
{
    if ps.len() == 0 {
        Seq::empty()
    } else {
        (if ps[0].len() == 0 || ps[0] == "."@ {
            Seq::empty()
        } else {
            seq![piece_component(ps[0])]
        }) + later_components(ps.drop_first())
    }
}

/// `Path::components` of a `/`-separated path: a root for a leading `/`,
/// a current-dir component for a leading `.` piece of a relative path,
/// then the pieces without empty ones and `.`.
pub open spec fn path_components(s: Seq<char>) -> Seq<(nat, Seq<char>)> {
    let ps = split_slash(s, Seq::empty());
    if s.len() > 0 && s[0] == '/' {
        seq![(1nat, Seq::<char>::empty())] + later_components(ps.drop_first())
    } else if ps[0] == "."@ {
        seq![(2nat, Seq::<char>::empty())] + later_components(ps.drop_first())
    } else {
        later_components(ps)
    }
}

pub open spec fn component_lt(a: (nat, Seq<char>), b: (nat, Seq<char>)) -> bool {
    a.0 < b.0 || (a.0 == b.0 && seq_lt(a.1, b.1))
}

/// Lexicographic order of component lists.
pub open spec fn components_lt(a: Seq<(nat, Seq<char>)>, b: Seq<(nat, Seq<char>)>) -> bool
    decreases a.len(),
{
    if a.len() == 0 {
        b.len() > 0
    } else if b.len() == 0 {
        false
    } else if a[0] != b[0] {
        component_lt(a[0], b[0])
    } else {
        components_lt(a.drop_first(), b.drop_first())
    }
}

/// The order of `Path`: component by component.
pub open spec fn path_lt(a: Seq<char>, b: Seq<char>) -> bool {
    components_lt(path_components(a), path_components(b))
}

fn split_slash_exec(s: &str) -> (r: Vec<Vec<char>>)
    ensures
        r@.len() > 0,
        r@.map_values(|v: Vec<char>| v@) == split_slash(s@, Seq::empty()),
{
    let v = chars_of(s);
    let mut out: Vec<Vec<char>> = Vec::new();
    let mut cur: Vec<char> = Vec::new();
    let mut i: usize = 0;
    assert(v@.subrange(0, v@.len() as int) =~= v@);
    while i < v.len()
        invariant
            i <= v.len(),
            v@ == s@,
            out@.map_values(|v: Vec<char>| v@) + split_slash(v@.subrange(i as int, v@.len() as int), cur@)
                == split_slash(s@, Seq::empty()),
        decreases v.len() - i,
    {
        let ghost rest = v@.subrange(i as int, v@.len() as int);
        assert(rest.drop_first() =~= v@.subrange(i + 1, v@.len() as int));
        if v[i] == '/' {
            let ghost before = out@.map_values(|v: Vec<char>| v@);
            let piece = cur;
            out.push(piece);
            assert(out@.map_values(|v: Vec<char>| v@) =~= before.push(piece@));
            assert(before + (seq![piece@] + split_slash(rest.drop_first(), Seq::empty())) =~= out@.map_values(
                |v: Vec<char>| v@,
            ) + split_slash(rest.drop_first(), Seq::empty()));
            cur = Vec::new();
            assert(cur@ =~= Seq::<char>::empty());
        } else {
            cur.push(v[i]);
        }
        i += 1;
    }
    assert(v@.subrange(i as int, v@.len() as int) =~= Seq::<char>::empty());
    let ghost before = out@.map_values(|v: Vec<char>| v@);
    let last = cur;
    out.push(last);
    assert(out@.map_values(|v: Vec<char>| v@) =~= before + seq![last@]);
    out
}

fn is_dot(p: &Vec<char>) -> (b: bool)
    ensures
        b == (p@ == "."@),
{
    proof {
        reveal_strlit(".");
    }
    let r = p.len() == 1 && p[0] == '.';
    proof {
        if r {
            assert(p@ =~= "."@);
        }
    }
    r
}

fn is_dot_dot(p: &Vec<char>) -> (b: bool)
    ensures
        b == (p@ == ".."@),
{
    proof {
        reveal_strlit("..");
    }
    let r = p.len() == 2 && p[0] == '.' && p[1] == '.';
    proof {
        if r {
            assert(p@ =~= ".."@);
        }
    }
    r
}

/// Components with their names as vectors.
pub open spec fn comp_views(v: Seq<(u8, Vec<char>)>) -> Seq<(nat, Seq<char>)> {
    v.map_values(|c: (u8, Vec<char>)| (c.0 as nat, c.1@))
}

fn later_components_exec(ps: &Vec<Vec<char>>, from: usize, out: &mut Vec<(u8, Vec<char>)>)
    requires
        from <= ps@.len(),
    ensures
        comp_views(final(out)@) == comp_views(old(out)@) + later_components(
            ps@.map_values(|v: Vec<char>| v@).subrange(from as int, ps@.len() as int),
        ),
{
    let ghost all = ps@.map_values(|v: Vec<char>| v@);
    let ghost start = comp_views(out@);
    let mut i = from;
    assert(later_components(all.subrange(from as int, ps@.len() as int)) == later_components(
        all.subrange(from as int, ps@.len() as int),
    ));
    while i < ps.len()
        invariant
            from <= i <= ps@.len(),
            all == ps@.map_values(|v: Vec<char>| v@),
            start + later_components(all.subrange(from as int, ps@.len() as int)) == comp_views(out@)
                + later_components(all.subrange(i as int, ps@.len() as int)),
        decreases ps.len() - i,
    {
        let ghost rest = all.subrange(i as int, ps@.len() as int);
        assert(rest[0] == ps@[i as int]@);
        assert(rest.drop_first() =~= all.subrange(i + 1, ps@.len() as int));
        let p = &ps[i];
        let ghost before = comp_views(out@);
        if p.len() == 0 || is_dot(p) {
            assert(before + later_components(rest) =~= before + later_components(rest.drop_first()));
        } else {
            let mut copy: Vec<char> = Vec::new();
            let mut k: usize = 0;
            while k < p.len()
                invariant
                    k <= p.len(),
                    copy@ == p@.take(k as int),
                decreases p.len() - k,
            {
                copy.push(p[k]);
                assert(copy@ =~= p@.take(k + 1));
                k += 1;
            }
            assert(copy@ =~= p@);
            if is_dot_dot(p) {
                out.push((3u8, Vec::new()));
                assert(comp_views(out@) =~= before.push((3nat, Seq::<char>::empty())));
            } else {
                out.push((4u8, copy));
                assert(comp_views(out@) =~= before.push((4nat, p@)));
            }
            assert(before + later_components(rest) =~= comp_views(out@) + later_components(
                rest.drop_first(),
            ));
        }
        i += 1;
    }
    assert(all.subrange(ps@.len() as int, ps@.len() as int) =~= Seq::<Seq<char>>::empty());
    assert(comp_views(out@) + Seq::<(nat, Seq<char>)>::empty() =~= comp_views(out@));
}

pub fn components_of(s: &str) -> (r: Vec<(u8, Vec<char>)>)
    ensures
        comp_views(r@) == path_components(s@),
{
    let ps = split_slash_exec(s);
    let v = chars_of(s);
    let mut out: Vec<(u8, Vec<char>)> = Vec::new();
    let ghost all = ps@.map_values(|v: Vec<char>| v@);
    assert(all[0] == ps@[0]@);
    if v.len() > 0 && v[0] == '/' {
        out.push((1u8, Vec::new()));
        assert(comp_views(out@) =~= seq![(1nat, Seq::<char>::empty())]);
        later_components_exec(&ps, 1, &mut out);
        assert(all.subrange(1, all.len() as int) =~= all.drop_first());
    } else if is_dot(&ps[0]) {
        out.push((2u8, Vec::new()));
        assert(comp_views(out@) =~= seq![(2nat, Seq::<char>::empty())]);
        later_components_exec(&ps, 1, &mut out);
        assert(all.subrange(1, all.len() as int) =~= all.drop_first());
    } else {
        assert(comp_views(out@) =~= Seq::<(nat, Seq<char>)>::empty());
        later_components_exec(&ps, 0, &mut out);
        assert(all.subrange(0, all.len() as int) =~= all);
        assert(Seq::<(nat, Seq<char>)>::empty() + later_components(all) =~= later_components(all));
    }
    out
}

fn chars_less(a: &Vec<char>, b: &Vec<char>) -> (r: bool)
    ensures
        r == seq_lt(a@, b@),
{
    let mut i: usize = 0;
    assert(a@.subrange(0, a@.len() as int) =~= a@);
    assert(b@.subrange(0, b@.len() as int) =~= b@);
    while i < a.len() && i < b.len() && a[i] == b[i]
        invariant
            i <= a.len(),
            i <= b.len(),
            seq_lt(a@, b@) == seq_lt(
                a@.subrange(i as int, a@.len() as int),
                b@.subrange(i as int, b@.len() as int),
            ),
        decreases a.len() - i,
    {
        assert(a@.subrange(i + 1, a@.len() as int) =~= a@.subrange(i as int, a@.len() as int).drop_first());
        assert(b@.subrange(i + 1, b@.len() as int) =~= b@.subrange(i as int, b@.len() as int).drop_first());
        i += 1;
    }
    if i == a.len() {
        i < b.len()
    } else if i == b.len() {
        false
    } else {
        a[i] < b[i]
    }
}

fn chars_equal(a: &Vec<char>, b: &Vec<char>) -> (r: bool)
    ensures
        r == (a@ == b@),
{
    if a.len() != b.len() {
        return false;
    }
    let mut i: usize = 0;
    while i < a.len()
        invariant
            i <= a.len() == b.len(),
            forall|k: int| 0 <= k < i ==> a@[k] == b@[k],
        decreases a.len() - i,
    {
        if a[i] != b[i] {
            return false;
        }
        i += 1;
    }
    assert(a@ =~= b@);
    true
}

pub fn path_less(a: &str, b: &str) -> (r: bool)
    ensures
        r == path_lt(a@, b@),
{
    let x = components_of(a);
    let y = components_of(b);
    let ghost xs = comp_views(x@);
    let ghost ys = comp_views(y@);
    let mut i: usize = 0;
    assert(xs.subrange(0, xs.len() as int) =~= xs);
    assert(ys.subrange(0, ys.len() as int) =~= ys);
    while i < x.len() && i < y.len()
        invariant
            i <= x.len(),
            i <= y.len(),
            xs == comp_views(x@),
            ys == comp_views(y@),
            path_lt(a@, b@) == components_lt(
                xs.subrange(i as int, xs.len() as int),
                ys.subrange(i as int, ys.len() as int),
            ),
        decreases x.len() - i,
    {
        let ghost xr = xs.subrange(i as int, xs.len() as int);
        let ghost yr = ys.subrange(i as int, ys.len() as int);
        assert(xr[0] == xs[i as int]);
        assert(yr[0] == ys[i as int]);
        let same = x[i].0 == y[i].0 && chars_equal(&x[i].1, &y[i].1);
        if !same {
            return x[i].0 < y[i].0 || (x[i].0 == y[i].0 && chars_less(&x[i].1, &y[i].1));
        }
        assert(xr.drop_first() =~= xs.subrange(i + 1, xs.len() as int));
        assert(yr.drop_first() =~= ys.subrange(i + 1, ys.len() as int));
        i += 1;
    }
    i == x.len() && i < y.len()
}

} // verus!

verus! {

// ---------------------------------------------------------------------------
// Findings
// ---------------------------------------------------------------------------

/// `None` first, then the ecosystems in declaration order.
pub open spec fn ecosystem_index(e: Option<DoctorEcosystem>) -> nat {
    match e {
        None => 0,
        Some(DoctorEcosystem::Auto) => 1,
        Some(DoctorEcosystem::Rust) => 2,
        Some(DoctorEcosystem::Node) => 3,
        Some(DoctorEcosystem::Python) => 4,
    }
}

/// No file first, then files in path order.
pub open spec fn file_lt(a: Option<String>, b: Option<String>) -> bool {
    match (a, b) {
        (None, Some(_)) => true,
        (Some(x), Some(y)) => path_lt(x@, y@),
        _ => false,
    }
}

pub open spec fn file_same(a: Option<String>, b: Option<String>) -> bool {
    match (a, b) {
        (None, None) => true,
        (Some(x), Some(y)) => path_components(x@) == path_components(y@),
        _ => false,
    }
}

/// `a` is listed before `b`: by severity (errors first), then, when
/// `by_ecosystem`, by ecosystem, then by file and by code.
pub open spec fn listed_before(a: DoctorFinding, b: DoctorFinding, by_ecosystem: bool) -> bool {
    severity_rank(a.severity) < severity_rank(b.severity) || (severity_rank(a.severity)
        == severity_rank(b.severity) && ((by_ecosystem && ecosystem_index(a.ecosystem)
        < ecosystem_index(b.ecosystem)) || ((!by_ecosystem || ecosystem_index(a.ecosystem)
        == ecosystem_index(b.ecosystem)) && (file_lt(a.file, b.file) || (file_same(a.file, b.file)
        && seq_lt(a.code@, b.code@))))))
}

/// `x` placed into `r` after every finding it is not listed before.
pub open spec fn insert_listed(r: Seq<DoctorFinding>, x: DoctorFinding, by_ecosystem: bool) -> Seq<
    DoctorFinding,
>
    decreases r.len(),
{
    if r.len() == 0 {
        seq![x]
    } else if listed_before(x, r[0], by_ecosystem) {
        seq![x] + r
    } else {
        seq![r[0]] + insert_listed(r.drop_first(), x, by_ecosystem)
    }
}

/// The findings in listing order, equal ones in their original order
/// (a stable sort).
pub open spec fn listing_order(s: Seq<DoctorFinding>, by_ecosystem: bool) -> Seq<DoctorFinding>
    decreases s.len(),
{
    if s.len() == 0 {
        Seq::empty()
    } else {
        insert_listed(listing_order(s.drop_last(), by_ecosystem), s.last(), by_ecosystem)
    }
}

pub proof fn lemma_insert_listed_at(r: Seq<DoctorFinding>, x: DoctorFinding, by_ecosystem: bool, p: int)
    requires
        0 <= p <= r.len(),
        forall|k: int| 0 <= k < p ==> !listed_before(x, #[trigger] r[k], by_ecosystem),
        p < r.len() ==> listed_before(x, r[p], by_ecosystem),
    ensures
        insert_listed(r, x, by_ecosystem) == r.insert(p, x),
    decreases p,
{
    if r.len() == 0 {
        assert(r.insert(p, x) =~= seq![x]);
    } else if p == 0 {
        assert(r.insert(0, x) =~= seq![x] + r);
    } else {
        assert forall|k: int| 0 <= k < p - 1 implies !listed_before(
            x,
            #[trigger] r.drop_first()[k],
            by_ecosystem,
        ) by {
            assert(r.drop_first()[k] == r[k + 1]);
        }
        if p < r.len() {
            assert(r.drop_first()[p - 1] == r[p]);
        }
        lemma_insert_listed_at(r.drop_first(), x, by_ecosystem, p - 1);
        assert(r.insert(p, x) =~= seq![r[0]] + r.drop_first().insert(p - 1, x));
    }
}

fn ecosystem_index_exec(e: Option<DoctorEcosystem>) -> (n: u8)
    ensures
        n == ecosystem_index(e),
{
    match e {
        None => 0,
        Some(DoctorEcosystem::Auto) => 1,
        Some(DoctorEcosystem::Rust) => 2,
        Some(DoctorEcosystem::Node) => 3,
        Some(DoctorEcosystem::Python) => 4,
    }
}

fn components_equal(a: &str, b: &str) -> (r: bool)
    ensures
        r == (path_components(a@) == path_components(b@)),
{
    let x = components_of(a);
    let y = components_of(b);
    assert(comp_views(x@).len() == x@.len());
    assert(comp_views(y@).len() == y@.len());
    if x.len() != y.len() {
        return false;
    }
    let mut i: usize = 0;
    while i < x.len()
        invariant
            i <= x.len() == y.len(),
            comp_views(x@) == path_components(a@),
            comp_views(y@) == path_components(b@),
            forall|k: int| 0 <= k < i ==> comp_views(x@)[k] == comp_views(y@)[k],
        decreases x.len() - i,
    {
        assert(comp_views(x@)[i as int] == (x@[i as int].0 as nat, x@[i as int].1@));
        assert(comp_views(y@)[i as int] == (y@[i as int].0 as nat, y@[i as int].1@));
        if x[i].0 != y[i].0 || !chars_equal(&x[i].1, &y[i].1) {
            assert(comp_views(x@)[i as int] != comp_views(y@)[i as int]);
            assert(path_components(a@)[i as int] != path_components(b@)[i as int]);
            return false;
        }
        i += 1;
    }
    assert(comp_views(x@) =~= comp_views(y@));
    true
}

pub fn is_listed_before(a: &DoctorFinding, b: &DoctorFinding, by_ecosystem: bool) -> (r: bool)
    ensures
        r == listed_before(*a, *b, by_ecosystem),
{
    let ra = a.severity.rank();
    let rb = b.severity.rank();
    if ra != rb {
        return ra < rb;
    }
    if by_ecosystem {
        let ea = ecosystem_index_exec(a.ecosystem);
        let eb = ecosystem_index_exec(b.ecosystem);
        if ea != eb {
            return ea < eb;
        }
    }
    let (lt, same) = match (&a.file, &b.file) {
        (None, None) => (false, true),
        (None, Some(_)) => (true, false),
        (Some(_), None) => (false, false),
        (Some(x), Some(y)) => (path_less(x.as_str(), y.as_str()), components_equal(
            x.as_str(),
            y.as_str(),
        )),
    };
    lt || (same && str_less(a.code.as_str(), b.code.as_str()))
}

/// Sorts findings into listing order, stably.
pub fn sort_listed(findings: Vec<DoctorFinding>, by_ecosystem: bool) -> (r: Vec<DoctorFinding>)
    ensures
        r@ == listing_order(findings@, by_ecosystem),
{
    let ghost all = findings@;
    let n = findings.len();
    let mut rest = findings;
    let mut r: Vec<DoctorFinding> = Vec::new();
    let mut i: usize = 0;
    assert(rest@ =~= all.subrange(0, all.len() as int));
    while rest.len() > 0
        invariant
            i + rest@.len() == all.len(),
            all.len() == n,
            rest@ == all.subrange(i as int, all.len() as int),
            r@ == listing_order(all.take(i as int), by_ecosystem),
        decreases rest.len(),
    {
        let x = rest.remove(0);
        assert(x == all[i as int]);
        assert(rest@ =~= all.subrange(i + 1, all.len() as int));
        let mut p: usize = 0;
        while p < r.len() && !is_listed_before(&x, &r[p], by_ecosystem)
            invariant
                p <= r.len(),
                forall|k: int| 0 <= k < p ==> !listed_before(x, #[trigger] r@[k], by_ecosystem),
            decreases r.len() - p,
        {
            p += 1;
        }
        proof {
            lemma_insert_listed_at(r@, x, by_ecosystem, p as int);
            assert(all.take(i + 1).drop_last() =~= all.take(i as int));
            assert(all.take(i + 1).last() == x);
        }
        r.insert(p, x);
        i += 1;
    }
    assert(all.take(i as int) =~= all);
    r
}

/// `slice::sort_by` on findings with the doctors' listing order.
pub fn sort_doctor_findings(findings: Vec<DoctorFinding>) -> (r: Vec<DoctorFinding>)
    ensures
        r@ == listing_order(findings@, true),
{
    sort_listed(findings, true)
}

} // verus!
