//! Lexical path normalization: `.` dropped and `..` taking back the
//! previous name, as the documentation doctor resolves local links.
use vstd::prelude::*;
use crate::order::{comp_views, components_of, path_components};
use crate::project::{join_path, join_path_spec};
use crate::text::{join_seq, join_strings, string_from_chars, views};

verus! {

/// The components kept: a current-dir component is dropped, a parent-dir
/// component removes the name before it (a root stays), anything else is
/// kept.
pub open spec fn norm_fold(cs: Seq<(nat, Seq<char>)>) -> Seq<(nat, Seq<char>)>
    decreases cs.len(),
{
    if cs.len() == 0 {
        Seq::empty()
    } else {
        let prev = norm_fold(cs.drop_last());
        let c = cs.last();
        if c.0 == 2 {
            prev
        } else if c.0 == 3 {
            if prev.len() > 0 && prev.last().0 == 4 {
                prev.drop_last()
            } else {
                prev
            }
        } else {
            prev.push(c)
        }
    }
}

pub open spec fn names_of(cs: Seq<(nat, Seq<char>)>) -> Seq<Seq<char>> {
    cs.map_values(|c: (nat, Seq<char>)| c.1)
}

/// Components written back as a path: `/` for a root, then the names
/// joined with `/`.
pub open spec fn render_components(cs: Seq<(nat, Seq<char>)>) -> Seq<char> {
    if cs.len() > 0 && cs[0].0 == 1 {
        "/"@ + join_seq(names_of(cs.drop_first()), "/"@)
    } else {
        join_seq(names_of(cs), "/"@)
    }
}

/// The path with `.` and `..` resolved lexically.
pub open spec fn normalize_path_spec(p: Seq<char>) -> Seq<char> {
    render_components(norm_fold(path_components(p)))
}

/// `path` with `.` components dropped and each `..` removing the name
/// before it.
pub fn normalize_path(path: &str) -> (r: String)
    ensures
        r@ == normalize_path_spec(path@),
{
    let comps = components_of(path);
    let ghost all = comp_views(comps@);
    let mut kept: Vec<(u8, Vec<char>)> = Vec::new();
    let mut i: usize = 0;
    while i < comps.len()
        invariant
            i <= comps.len(),
            all == comp_views(comps@),
            comp_views(kept@) == norm_fold(all.take(i as int)),
        decreases comps.len() - i,
    {
        assert(all.take(i + 1).drop_last() =~= all.take(i as int));
        assert(all.take(i + 1).last() == (comps@[i as int].0 as nat, comps@[i as int].1@));
        let kind = comps[i].0;
        let ghost before = comp_views(kept@);
        if kind == 2 {
        } else if kind == 3 {
            if kept.len() > 0 && kept[kept.len() - 1].0 == 4 {
                kept.pop();
                assert(comp_views(kept@) =~= before.drop_last());
            }
        } else {
            let mut name: Vec<char> = Vec::new();
            let mut k: usize = 0;
            while k < comps[i].1.len()
                invariant
                    k <= comps@[i as int].1@.len(),
                    i < comps@.len(),
                    name@ == comps@[i as int].1@.take(k as int),
                decreases comps@[i as int].1@.len() - k,
            {
                name.push(comps[i].1[k]);
                assert(name@ =~= comps@[i as int].1@.take(k + 1));
                k += 1;
            }
            assert(name@ =~= comps@[i as int].1@);
            kept.push((kind, name));
            assert(comp_views(kept@) =~= before.push((kind as nat, comps@[i as int].1@)));
        }
        i += 1;
    }
    assert(all.take(comps.len() as int) =~= all);
    let ghost folded = comp_views(kept@);
    let rooted = kept.len() > 0 && kept[0].0 == 1;
    let mut names: Vec<String> = Vec::new();
    let start: usize = if rooted {
        1
    } else {
        0
    };
    let mut j: usize = start;
    while j < kept.len()
        invariant
            start <= j <= kept.len(),
            folded == comp_views(kept@),
            views(names@) == names_of(folded.subrange(start as int, j as int)),
        decreases kept.len() - j,
    {
        let ghost before = views(names@);
        let s = string_from_chars(&kept[j].1);
        names.push(s);
        assert(views(names@) =~= before.push(folded[j as int].1));
        assert(names_of(folded.subrange(start as int, j + 1)) =~= names_of(
            folded.subrange(start as int, j as int),
        ).push(folded[j as int].1));
        j += 1;
    }
    let joined = join_strings(&names, "/");
    if rooted {
        assert(folded.subrange(1, folded.len() as int) =~= folded.drop_first());
        let mut r = "/".to_owned();
        r.append(joined.as_str());
        r
    } else {
        assert(folded.subrange(0, folded.len() as int) =~= folded);
        joined
    }
}

/// Where a local link points: `link_path` taken from the linking file's
/// directory `doc_dir` and normalized.
pub fn link_target_path(doc_dir: &str, link_path: &str) -> (r: String)
    ensures
        r@ == normalize_path_spec(join_path_spec(doc_dir@, link_path@)),
{
    normalize_path(join_path(doc_dir, link_path).as_str())
}

} // verus!
