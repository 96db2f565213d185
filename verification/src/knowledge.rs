//! Rule knowledge: aliases, related paths, commands, anti-patterns and
//! section aliases of each audit rule, and how an ecosystem's pack is laid
//! over the common one.  Keyed lists are kept sorted by key, each key once,
//! as the maps they stand for.
use vstd::prelude::*;
use crate::text::{
    lemma_seq_lt_total, lemma_seq_lt_transitive, seq_lt, str_eq, str_less, views,
};

verus! {

/// The aliases of one README section.
#[derive(Debug)]
pub struct SectionAliases {
    pub section: String,
    pub aliases: Vec<String>,
}

/// What is known about one rule.
#[derive(Debug)]
pub struct RuleKnowledge {
    pub aliases: Vec<String>,
    pub related_paths: Vec<String>,
    pub valid_commands: Vec<String>,
    pub anti_patterns: Vec<String>,
    /// Sorted by section name, each section once.
    pub section_aliases: Vec<SectionAliases>,
}

/// One rule's knowledge in a pack.
#[derive(Debug)]
pub struct RuleEntry {
    pub id: String,
    pub knowledge: RuleKnowledge,
}

/// The knowledge of every rule, sorted by rule id, each id once.
#[derive(Debug)]
pub struct KnowledgePack {
    pub rules: Vec<RuleEntry>,
}

// ---------------------------------------------------------------------------
// Views
// ---------------------------------------------------------------------------

pub type SectionView = (Seq<char>, Seq<Seq<char>>);

pub open spec fn section_view(s: SectionAliases) -> SectionView {
    (s.section@, views(s.aliases@))
}

pub open spec fn sections_view(v: Seq<SectionAliases>) -> Seq<SectionView> {
    v.map_values(|s: SectionAliases| section_view(s))
}

/// A rule's knowledge as plain values.
pub struct KnowledgeView {
    pub aliases: Seq<Seq<char>>,
    pub related_paths: Seq<Seq<char>>,
    pub valid_commands: Seq<Seq<char>>,
    pub anti_patterns: Seq<Seq<char>>,
    pub sections: Seq<SectionView>,
}

pub open spec fn knowledge_view(k: RuleKnowledge) -> KnowledgeView {
    KnowledgeView {
        aliases: views(k.aliases@),
        related_paths: views(k.related_paths@),
        valid_commands: views(k.valid_commands@),
        anti_patterns: views(k.anti_patterns@),
        sections: sections_view(k.section_aliases@),
    }
}

pub open spec fn pack_view(p: KnowledgePack) -> Seq<(Seq<char>, KnowledgeView)> {
    p.rules@.map_values(|e: RuleEntry| (e.id@, knowledge_view(e.knowledge)))
}

// ---------------------------------------------------------------------------
// Lists without repeats
// ---------------------------------------------------------------------------

/// `target` with each incoming value it lacks appended, in order.
pub open spec fn extend_unique_spec(target: Seq<Seq<char>>, incoming: Seq<Seq<char>>) -> Seq<
    Seq<char>,
>
    decreases incoming.len(),
{
    if incoming.len() == 0 {
        target
    } else {
        let t = extend_unique_spec(target, incoming.drop_last());
        if t.contains(incoming.last()) {
            t
        } else {
            t.push(incoming.last())
        }
    }
}

fn has_string(v: &Vec<String>, s: &str) -> (b: bool)
    ensures
        b == views(v@).contains(s@),
{
    let mut i: usize = 0;
    while i < v.len()
        invariant
            i <= v.len(),
            forall|k: int| 0 <= k < i ==> #[trigger] views(v@)[k] != s@,
        decreases v.len() - i,
    {
        if str_eq(v[i].as_str(), s) {
            assert(views(v@)[i as int] == s@);
            return true;
        }
        i += 1;
    }
    false
}

/// Appends each incoming value that `target` does not hold yet.
pub fn extend_unique(target: &mut Vec<String>, incoming: &Vec<String>)
    ensures
        views(final(target)@) == extend_unique_spec(views(old(target)@), views(incoming@)),
{
    let ghost start = views(target@);
    let mut i: usize = 0;
    while i < incoming.len()
        invariant
            i <= incoming.len(),
            views(target@) == extend_unique_spec(start, views(incoming@).take(i as int)),
        decreases incoming.len() - i,
    {
        assert(views(incoming@).take(i + 1).drop_last() =~= views(incoming@).take(i as int));
        assert(views(incoming@).take(i + 1).last() == incoming@[i as int]@);
        if !has_string(target, incoming[i].as_str()) {
            let ghost before = views(target@);
            target.push(incoming[i].clone());
            assert(views(target@) =~= before.push(incoming@[i as int]@));
        }
        i += 1;
    }
    assert(views(incoming@).take(incoming.len() as int) =~= views(incoming@));
}

fn copy_strings(v: &Vec<String>) -> (r: Vec<String>)
    ensures
        views(r@) == views(v@),
{
    let mut r: Vec<String> = Vec::new();
    assert(views(r@) =~= Seq::<Seq<char>>::empty());
    extend_unique_all(&mut r, v);
    r
}

/// Appends every incoming value, repeats included.
fn extend_unique_all(target: &mut Vec<String>, incoming: &Vec<String>)
    ensures
        views(final(target)@) == views(old(target)@) + views(incoming@),
{
    let ghost start = views(target@);
    let mut i: usize = 0;
    while i < incoming.len()
        invariant
            i <= incoming.len(),
            views(target@) == start + views(incoming@).take(i as int),
        decreases incoming.len() - i,
    {
        let ghost before = views(target@);
        target.push(incoming[i].clone());
        assert(views(target@) =~= before.push(incoming@[i as int]@));
        assert(start + views(incoming@).take(i + 1) =~= (start + views(incoming@).take(i as int)).push(
            incoming@[i as int]@,
        ));
        i += 1;
    }
    assert(views(incoming@).take(incoming.len() as int) =~= views(incoming@));
}

// ---------------------------------------------------------------------------
// Keyed lists
// ---------------------------------------------------------------------------

/// The keys of a keyed list.
pub open spec fn keys_of<T>(v: Seq<(Seq<char>, T)>) -> Seq<Seq<char>> {
    v.map_values(|p: (Seq<char>, T)| p.0)
}

/// The first position holding key `k`.
pub open spec fn key_pos(keys: Seq<Seq<char>>, k: Seq<char>) -> Option<int>
    decreases keys.len(),
{
    if keys.len() == 0 {
        None
    } else {
        match key_pos(keys.drop_last(), k) {
            Some(i) => Some(i),
            None => if keys.last() == k {
                Some(keys.len() - 1)
            } else {
                None
            },
        }
    }
}

/// Where a new key goes: before the first key that comes after it.
pub open spec fn insert_pos(keys: Seq<Seq<char>>, k: Seq<char>) -> int
    decreases keys.len(),
{
    if keys.len() == 0 {
        0
    } else {
        let i = insert_pos(keys.drop_last(), k);
        if i < keys.len() - 1 {
            i
        } else if seq_lt(k, keys.last()) {
            keys.len() - 1
        } else {
            keys.len() as int
        }
    }
}

pub open spec fn key_index<T>(v: Seq<(Seq<char>, T)>, k: Seq<char>) -> Option<int> {
    key_pos(keys_of(v), k)
}

pub open spec fn insert_index<T>(v: Seq<(Seq<char>, T)>, k: Seq<char>) -> int {
    insert_pos(keys_of(v), k)
}

pub proof fn lemma_key_positions(keys: Seq<Seq<char>>, k: Seq<char>)
    ensures
        key_pos(keys, k) matches Some(i) ==> 0 <= i < keys.len() && keys[i] == k,
        0 <= insert_pos(keys, k) <= keys.len(),
    decreases keys.len(),
{
    if keys.len() > 0 {
        lemma_key_positions(keys.drop_last(), k);
    }
}

pub proof fn lemma_key_indices<T>(v: Seq<(Seq<char>, T)>, k: Seq<char>)
    ensures
        key_index(v, k) matches Some(i) ==> 0 <= i < v.len() && v[i].0 == k,
        0 <= insert_index(v, k) <= v.len(),
{
    lemma_key_positions(keys_of(v), k);
    if let Some(i) = key_index(v, k) {
        assert(keys_of(v)[i] == v[i].0);
    }
}

/// Keys in strictly increasing order: sorted, each key once.
pub open spec fn keys_sorted(keys: Seq<Seq<char>>) -> bool {
    forall|i: int, j: int| 0 <= i < j < keys.len() ==> seq_lt(#[trigger] keys[i], #[trigger] keys[j])
}

/// A rule's knowledge is well formed when its sections are sorted by name,
/// each section once.
pub open spec fn knowledge_wf(k: KnowledgeView) -> bool {
    keys_sorted(keys_of(k.sections))
}

/// A pack is well formed when its rules are sorted by id, each id once, and
/// each rule's knowledge is well formed.
pub open spec fn pack_wf(p: Seq<RuleView>) -> bool {
    &&& keys_sorted(keys_of(p))
    &&& forall|i: int| 0 <= i < p.len() ==> knowledge_wf(#[trigger] p[i].1)
}

proof fn lemma_key_pos_absent(keys: Seq<Seq<char>>, k: Seq<char>, j: int)
    requires
        key_pos(keys, k) is None,
        0 <= j < keys.len(),
    ensures
        keys[j] != k,
    decreases keys.len(),
{
    if j < keys.len() - 1 {
        lemma_key_pos_absent(keys.drop_last(), k, j);
        assert(keys.drop_last()[j] == keys[j]);
    }
}

proof fn lemma_insert_pos_first(keys: Seq<Seq<char>>, k: Seq<char>)
    ensures
        forall|j: int| 0 <= j < insert_pos(keys, k) ==> !seq_lt(k, #[trigger] keys[j]),
        insert_pos(keys, k) < keys.len() ==> seq_lt(k, keys[insert_pos(keys, k)]),
    decreases keys.len(),
{
    lemma_key_positions(keys, k);
    if keys.len() > 0 {
        let d = keys.drop_last();
        lemma_insert_pos_first(d, k);
        lemma_key_positions(d, k);
        assert forall|j: int| 0 <= j < insert_pos(keys, k) implies !seq_lt(k, #[trigger] keys[j]) by {
            if j < d.len() {
                assert(d[j] == keys[j]);
            }
        }
        if insert_pos(d, k) < d.len() {
            assert(d[insert_pos(d, k)] == keys[insert_pos(d, k)]);
        }
    }
}

/// Inserting an absent key where `insert_pos` puts it keeps the keys sorted.
pub proof fn lemma_insert_keeps_sorted(keys: Seq<Seq<char>>, k: Seq<char>)
    requires
        keys_sorted(keys),
        key_pos(keys, k) is None,
    ensures
        keys_sorted(keys.insert(insert_pos(keys, k), k)),
{
    let p = insert_pos(keys, k);
    lemma_key_positions(keys, k);
    lemma_insert_pos_first(keys, k);
    assert forall|j: int| 0 <= j < p implies seq_lt(#[trigger] keys[j], k) by {
        lemma_key_pos_absent(keys, k, j);
        lemma_seq_lt_total(keys[j], k);
    }
    assert forall|j: int| p <= j < keys.len() implies seq_lt(k, #[trigger] keys[j]) by {
        if j > p {
            lemma_seq_lt_transitive(k, keys[p], keys[j]);
        }
    }
    let s = keys.insert(p, k);
    assert forall|i: int, j: int| 0 <= i < j < s.len() implies seq_lt(#[trigger] s[i], #[trigger] s[j]) by {
        if j < p {
            assert(s[i] == keys[i] && s[j] == keys[j]);
        } else if j == p {
            assert(s[i] == keys[i]);
        } else if i < p {
            assert(s[i] == keys[i] && s[j] == keys[j - 1]);
            lemma_seq_lt_transitive(keys[i], k, keys[j - 1]);
        } else if i == p {
            assert(s[j] == keys[j - 1]);
        } else {
            assert(s[i] == keys[i - 1] && s[j] == keys[j - 1]);
        }
    }
}

proof fn lemma_keys_of_insert<T>(v: Seq<(Seq<char>, T)>, p: int, e: (Seq<char>, T))
    requires
        0 <= p <= v.len(),
    ensures
        keys_of(v.insert(p, e)) == keys_of(v).insert(p, e.0),
{
    assert(keys_of(v.insert(p, e)) =~= keys_of(v).insert(p, e.0));
}

proof fn lemma_keys_of_update<T>(v: Seq<(Seq<char>, T)>, i: int, e: (Seq<char>, T))
    requires
        0 <= i < v.len(),
        v[i].0 == e.0,
    ensures
        keys_of(v.update(i, e)) == keys_of(v),
{
    assert(keys_of(v.update(i, e)) =~= keys_of(v));
}

/// Laying sections over sorted sections leaves them sorted.
pub proof fn lemma_upsert_sections_sorted(v: Seq<SectionView>, incoming: Seq<SectionView>)
    requires
        keys_sorted(keys_of(v)),
    ensures
        keys_sorted(keys_of(upsert_sections(v, incoming))),
    decreases incoming.len(),
{
    if incoming.len() > 0 {
        let w = upsert_sections(v, incoming.drop_last());
        let s = incoming.last();
        lemma_upsert_sections_sorted(v, incoming.drop_last());
        lemma_key_indices(w, s.0);
        match key_index(w, s.0) {
            Some(i) => {
                lemma_keys_of_update(w, i, (s.0, extend_unique_spec(w[i].1, s.1)));
            },
            None => {
                lemma_keys_of_insert(w, insert_index(w, s.0), s);
                lemma_insert_keeps_sorted(keys_of(w), s.0);
            },
        }
    }
}

/// Laying rules whose knowledge is well formed over a well formed pack
/// leaves it well formed.
pub proof fn lemma_upsert_rules_wf(v: Seq<RuleView>, incoming: Seq<RuleView>)
    requires
        pack_wf(v),
        forall|i: int| 0 <= i < incoming.len() ==> knowledge_wf(#[trigger] incoming[i].1),
    ensures
        pack_wf(upsert_rules(v, incoming)),
    decreases incoming.len(),
{
    if incoming.len() > 0 {
        let d = incoming.drop_last();
        assert forall|i: int| 0 <= i < d.len() implies knowledge_wf(#[trigger] d[i].1) by {
            assert(d[i] == incoming[i]);
        }
        lemma_upsert_rules_wf(v, d);
        let w = upsert_rules(v, d);
        let r = incoming.last();
        assert(knowledge_wf(incoming[incoming.len() - 1].1));
        lemma_key_indices(w, r.0);
        match key_index(w, r.0) {
            Some(i) => {
                let m = merge_spec(w[i].1, r.1);
                lemma_keys_of_update(w, i, (r.0, m));
                lemma_upsert_sections_sorted(w[i].1.sections, r.1.sections);
                let u = w.update(i, (r.0, m));
                assert forall|j: int| 0 <= j < u.len() implies knowledge_wf(#[trigger] u[j].1) by {
                    if j != i {
                        assert(u[j] == w[j]);
                    }
                }
            },
            None => {
                let p = insert_index(w, r.0);
                lemma_keys_of_insert(w, p, r);
                lemma_insert_keeps_sorted(keys_of(w), r.0);
                let u = w.insert(p, r);
                assert forall|j: int| 0 <= j < u.len() implies knowledge_wf(#[trigger] u[j].1) by {
                    if j < p {
                        assert(u[j] == w[j]);
                    } else if j > p {
                        assert(u[j] == w[j - 1]);
                    }
                }
            },
        }
    }
}

/// The position of key `k` among `keys` and where it would be inserted.
fn find_key(keys: &Vec<&str>, k: &str) -> (r: (Option<usize>, usize))
    ensures
        crate::rust_deps::opt_int(r.0) == key_pos(crate::project::str_views(keys@), k@),
        r.1 == insert_pos(crate::project::str_views(keys@), k@),
{
    let ghost sv = crate::project::str_views(keys@);
    let mut found: Option<usize> = None;
    let mut pos: usize = 0;
    let mut i: usize = 0;
    while i < keys.len()
        invariant
            i <= keys.len(),
            sv == crate::project::str_views(keys@),
            crate::rust_deps::opt_int(found) == key_pos(sv.take(i as int), k@),
            pos == insert_pos(sv.take(i as int), k@),
            pos <= i,
        decreases keys.len() - i,
    {
        assert(sv.take(i + 1).drop_last() =~= sv.take(i as int));
        assert(sv.take(i + 1).last() == keys@[i as int]@);
        if found.is_none() && str_eq(keys[i], k) {
            found = Some(i);
        }
        if pos == i && str_less(k, keys[i]) {
        } else if pos == i {
            pos = i + 1;
        }
        i += 1;
    }
    assert(sv.take(keys.len() as int) =~= sv);
    (found, pos)
}

/// A section's aliases laid over the sections: merged into the same
/// section, or added in key order.
pub open spec fn upsert_section(v: Seq<SectionView>, s: SectionView) -> Seq<SectionView> {
    match key_index(v, s.0) {
        Some(i) => v.update(i, (s.0, extend_unique_spec(v[i].1, s.1))),
        None => v.insert(insert_index(v, s.0), s),
    }
}

pub open spec fn upsert_sections(v: Seq<SectionView>, incoming: Seq<SectionView>) -> Seq<SectionView>
    decreases incoming.len(),
{
    if incoming.len() == 0 {
        v
    } else {
        upsert_section(upsert_sections(v, incoming.drop_last()), incoming.last())
    }
}

/// Rule knowledge laid over other knowledge: every list extended without
/// repeats, every section merged.
pub open spec fn merge_spec(a: KnowledgeView, b: KnowledgeView) -> KnowledgeView {
    KnowledgeView {
        aliases: extend_unique_spec(a.aliases, b.aliases),
        related_paths: extend_unique_spec(a.related_paths, b.related_paths),
        valid_commands: extend_unique_spec(a.valid_commands, b.valid_commands),
        anti_patterns: extend_unique_spec(a.anti_patterns, b.anti_patterns),
        sections: upsert_sections(a.sections, b.sections),
    }
}

fn find_key_section(v: &Vec<SectionAliases>, k: &str) -> (r: (Option<usize>, usize))
    ensures
        crate::rust_deps::opt_int(r.0) == key_index(sections_view(v@), k@),
        r.1 == insert_index(sections_view(v@), k@),
{
    let mut keys: Vec<&str> = Vec::new();
    let mut i: usize = 0;
    while i < v.len()
        invariant
            i <= v.len(),
            crate::project::str_views(keys@) == keys_of(sections_view(v@)).take(i as int),
        decreases v.len() - i,
    {
        let ghost before = crate::project::str_views(keys@);
        keys.push(v[i].section.as_str());
        assert(crate::project::str_views(keys@) =~= before.push(v@[i as int].section@));
        assert(keys_of(sections_view(v@)).take(i + 1) =~= keys_of(sections_view(v@)).take(
            i as int,
        ).push(v@[i as int].section@));
        i += 1;
    }
    assert(keys_of(sections_view(v@)).take(v.len() as int) =~= keys_of(sections_view(v@)));
    find_key(&keys, k)
}

fn copy_section(s: &SectionAliases) -> (r: SectionAliases)
    ensures
        section_view(r) == section_view(*s),
{
    SectionAliases { section: s.section.clone(), aliases: copy_strings(&s.aliases) }
}

fn upsert_section_exec(v: &mut Vec<SectionAliases>, s: &SectionAliases)
    ensures
        sections_view(final(v)@) == upsert_section(sections_view(old(v)@), section_view(*s)),
{
    proof {
        lemma_key_indices(sections_view(v@), s.section@);
    }
    let (found, pos) = find_key_section(v, s.section.as_str());
    match found {
        Some(i) => {
            let ghost before = sections_view(v@);
            let mut entry = v.remove(i);
            extend_unique(&mut entry.aliases, &s.aliases);
            v.insert(i, entry);
            assert(sections_view(v@) =~= before.update(
                i as int,
                (s.section@, extend_unique_spec(before[i as int].1, views(s.aliases@))),
            ));
        },
        None => {
            let ghost before = sections_view(v@);
            v.insert(pos, copy_section(s));
            assert(sections_view(v@) =~= before.insert(pos as int, section_view(*s)));
        },
    }
}

/// Knowledge of nothing.
pub open spec fn empty_knowledge() -> KnowledgeView {
    KnowledgeView {
        aliases: Seq::empty(),
        related_paths: Seq::empty(),
        valid_commands: Seq::empty(),
        anti_patterns: Seq::empty(),
        sections: Seq::empty(),
    }
}

impl RuleKnowledge {
    /// Knowledge of nothing.
    pub fn empty() -> (r: RuleKnowledge)
        ensures
            knowledge_view(r) == empty_knowledge(),
    {
        let r = RuleKnowledge {
            aliases: Vec::new(),
            related_paths: Vec::new(),
            valid_commands: Vec::new(),
            anti_patterns: Vec::new(),
            section_aliases: Vec::new(),
        };
        assert(views(r.aliases@) =~= Seq::<Seq<char>>::empty());
        assert(views(r.related_paths@) =~= Seq::<Seq<char>>::empty());
        assert(views(r.valid_commands@) =~= Seq::<Seq<char>>::empty());
        assert(views(r.anti_patterns@) =~= Seq::<Seq<char>>::empty());
        assert(sections_view(r.section_aliases@) =~= Seq::<SectionView>::empty());
        r
    }

    /// A copy of this knowledge.
    pub fn copy(&self) -> (r: RuleKnowledge)
        ensures
            knowledge_view(r) == knowledge_view(*self),
    {
        let mut sections: Vec<SectionAliases> = Vec::new();
        let mut i: usize = 0;
        while i < self.section_aliases.len()
            invariant
                i <= self.section_aliases.len(),
                sections_view(sections@) == sections_view(self.section_aliases@).take(i as int),
            decreases self.section_aliases.len() - i,
        {
            let ghost before = sections_view(sections@);
            sections.push(copy_section(&self.section_aliases[i]));
            assert(sections_view(sections@) =~= before.push(
                section_view(self.section_aliases@[i as int]),
            ));
            assert(sections_view(self.section_aliases@).take(i + 1) =~= sections_view(
                self.section_aliases@,
            ).take(i as int).push(section_view(self.section_aliases@[i as int])));
            i += 1;
        }
        assert(sections_view(self.section_aliases@).take(self.section_aliases.len() as int)
            =~= sections_view(self.section_aliases@));
        RuleKnowledge {
            aliases: copy_strings(&self.aliases),
            related_paths: copy_strings(&self.related_paths),
            valid_commands: copy_strings(&self.valid_commands),
            anti_patterns: copy_strings(&self.anti_patterns),
            section_aliases: sections,
        }
    }

    /// Lays `other` over this knowledge.
    pub fn merge(&mut self, other: &RuleKnowledge)
        ensures
            knowledge_view(*final(self)) == merge_spec(knowledge_view(*old(self)), knowledge_view(*other)),
            knowledge_wf(knowledge_view(*old(self))) ==> knowledge_wf(knowledge_view(*final(self))),
    {
        extend_unique(&mut self.aliases, &other.aliases);
        extend_unique(&mut self.related_paths, &other.related_paths);
        extend_unique(&mut self.valid_commands, &other.valid_commands);
        extend_unique(&mut self.anti_patterns, &other.anti_patterns);
        let ghost start = sections_view(self.section_aliases@);
        let ghost incoming = sections_view(other.section_aliases@);
        let ghost lists = (
            views(self.aliases@),
            views(self.related_paths@),
            views(self.valid_commands@),
            views(self.anti_patterns@),
        );
        let mut i: usize = 0;
        while i < other.section_aliases.len()
            invariant
                i <= other.section_aliases.len(),
                incoming == sections_view(other.section_aliases@),
                lists == (
                    views(self.aliases@),
                    views(self.related_paths@),
                    views(self.valid_commands@),
                    views(self.anti_patterns@),
                ),
                sections_view(self.section_aliases@) == upsert_sections(start, incoming.take(i as int)),
            decreases other.section_aliases.len() - i,
        {
            assert(incoming.take(i + 1).drop_last() =~= incoming.take(i as int));
            assert(incoming.take(i + 1).last() == section_view(other.section_aliases@[i as int]));
            upsert_section_exec(&mut self.section_aliases, &other.section_aliases[i]);
            i += 1;
        }
        assert(incoming.take(other.section_aliases.len() as int) =~= incoming);
        proof {
            if keys_sorted(keys_of(start)) {
                lemma_upsert_sections_sorted(start, incoming);
            }
        }
    }

    /// Every term of the rule: aliases, commands, anti-patterns and section
    /// aliases, each once, in that order.
    pub fn all_terms(&self) -> (r: Vec<String>)
        ensures
            views(r@) == all_terms_spec(knowledge_view(*self)),
    {
        let mut out = copy_strings(&self.aliases);
        extend_unique(&mut out, &self.valid_commands);
        extend_unique(&mut out, &self.anti_patterns);
        let ghost base = views(out@);
        let ghost secs = sections_view(self.section_aliases@);
        let mut i: usize = 0;
        while i < self.section_aliases.len()
            invariant
                i <= self.section_aliases.len(),
                secs == sections_view(self.section_aliases@),
                views(out@) == section_terms(base, secs.take(i as int)),
            decreases self.section_aliases.len() - i,
        {
            assert(secs.take(i + 1).drop_last() =~= secs.take(i as int));
            assert(secs.take(i + 1).last() == section_view(self.section_aliases@[i as int]));
            extend_unique(&mut out, &self.section_aliases[i].aliases);
            i += 1;
        }
        assert(secs.take(self.section_aliases.len() as int) =~= secs);
        out
    }
}

/// The terms with every section's aliases added, section by section.
pub open spec fn section_terms(out: Seq<Seq<char>>, secs: Seq<SectionView>) -> Seq<Seq<char>>
    decreases secs.len(),
{
    if secs.len() == 0 {
        out
    } else {
        extend_unique_spec(section_terms(out, secs.drop_last()), secs.last().1)
    }
}

pub open spec fn all_terms_spec(k: KnowledgeView) -> Seq<Seq<char>> {
    section_terms(
        extend_unique_spec(extend_unique_spec(k.aliases, k.valid_commands), k.anti_patterns),
        k.sections,
    )
}

// ---------------------------------------------------------------------------
// Packs
// ---------------------------------------------------------------------------

pub type RuleView = (Seq<char>, KnowledgeView);

/// A rule's knowledge laid over a pack: merged into the same rule, or added
/// in id order.
pub open spec fn upsert_rule(v: Seq<RuleView>, r: RuleView) -> Seq<RuleView> {
    match key_index(v, r.0) {
        Some(i) => v.update(i, (r.0, merge_spec(v[i].1, r.1))),
        None => v.insert(insert_index(v, r.0), r),
    }
}

pub open spec fn upsert_rules(v: Seq<RuleView>, incoming: Seq<RuleView>) -> Seq<RuleView>
    decreases incoming.len(),
{
    if incoming.len() == 0 {
        v
    } else {
        upsert_rule(upsert_rules(v, incoming.drop_last()), incoming.last())
    }
}

fn find_key_rule(v: &Vec<RuleEntry>, k: &str) -> (r: (Option<usize>, usize))
    ensures
        crate::rust_deps::opt_int(r.0) == key_pos(v@.map_values(|e: RuleEntry| e.id@), k@),
        r.1 == insert_pos(v@.map_values(|e: RuleEntry| e.id@), k@),
{
    let mut keys: Vec<&str> = Vec::new();
    let mut i: usize = 0;
    while i < v.len()
        invariant
            i <= v.len(),
            crate::project::str_views(keys@) == v@.map_values(|e: RuleEntry| e.id@).take(i as int),
        decreases v.len() - i,
    {
        let ghost before = crate::project::str_views(keys@);
        keys.push(v[i].id.as_str());
        assert(crate::project::str_views(keys@) =~= before.push(v@[i as int].id@));
        assert(v@.map_values(|e: RuleEntry| e.id@).take(i + 1) =~= v@.map_values(
            |e: RuleEntry| e.id@,
        ).take(i as int).push(v@[i as int].id@));
        i += 1;
    }
    assert(v@.map_values(|e: RuleEntry| e.id@).take(v.len() as int) =~= v@.map_values(
        |e: RuleEntry| e.id@,
    ));
    find_key(&keys, k)
}

pub proof fn lemma_pack_keys(p: KnowledgePack)
    ensures
        keys_of(pack_view(p)) == p.rules@.map_values(|e: RuleEntry| e.id@),
{
    assert(keys_of(pack_view(p)) =~= p.rules@.map_values(|e: RuleEntry| e.id@));
}

impl KnowledgePack {
    /// The common pack with an ecosystem's pack laid over it, rule by rule.
    pub fn load(common: KnowledgePack, ecosystem: Option<KnowledgePack>) -> (r: KnowledgePack)
        ensures
            pack_view(r) == (match ecosystem {
                Some(e) => upsert_rules(pack_view(common), pack_view(e)),
                None => pack_view(common),
            }),
            pack_wf(pack_view(common)) && (ecosystem matches Some(e) ==> pack_wf(pack_view(e)))
                ==> pack_wf(pack_view(r)),
    {
        let mut pack = common;
        match ecosystem {
            None => pack,
            Some(e) => {
                let ghost start = pack_view(pack);
                let ghost incoming = pack_view(e);
                let mut i: usize = 0;
                while i < e.rules.len()
                    invariant
                        i <= e.rules.len(),
                        incoming == pack_view(e),
                        pack_view(pack) == upsert_rules(start, incoming.take(i as int)),
                    decreases e.rules.len() - i,
                {
                    assert(incoming.take(i + 1).drop_last() =~= incoming.take(i as int));
                    assert(incoming.take(i + 1).last() == (
                        e.rules@[i as int].id@,
                        knowledge_view(e.rules@[i as int].knowledge),
                    ));
                    let entry = &e.rules[i];
                    let ghost before = pack_view(pack);
                    proof {
                        lemma_key_indices(before, entry.id@);
                        lemma_pack_keys(pack);
                    }
                    let (found, pos) = find_key_rule(&pack.rules, entry.id.as_str());
                    match found {
                        Some(k) => {
                            let mut existing = pack.rules.remove(k);
                            existing.knowledge.merge(&entry.knowledge);
                            pack.rules.insert(k, existing);
                            assert(pack_view(pack) =~= before.update(
                                k as int,
                                (entry.id@, merge_spec(before[k as int].1, knowledge_view(entry.knowledge))),
                            ));
                        },
                        None => {
                            let copy = RuleEntry {
                                id: entry.id.clone(),
                                knowledge: entry.knowledge.copy(),
                            };
                            pack.rules.insert(pos, copy);
                            assert(pack_view(pack) =~= before.insert(
                                pos as int,
                                (entry.id@, knowledge_view(entry.knowledge)),
                            ));
                        },
                    }
                    i += 1;
                }
                assert(incoming.take(e.rules.len() as int) =~= incoming);
                proof {
                    if pack_wf(start) && pack_wf(incoming) {
                        lemma_upsert_rules_wf(start, incoming);
                    }
                }
                pack
            },
        }
    }

    /// The knowledge of a rule, or knowledge of nothing for an unknown rule.
    pub fn rule(&self, id: &str) -> (r: RuleKnowledge)
        ensures
            match key_index(pack_view(*self), id@) {
                Some(i) => knowledge_view(r) == pack_view(*self)[i].1,
                None => knowledge_view(r) == empty_knowledge(),
            },
    {
        proof {
            lemma_key_indices(pack_view(*self), id@);
            lemma_pack_keys(*self);
        }
        let (found, _pos) = find_key_rule(&self.rules, id);
        match found {
            Some(i) => self.rules[i].knowledge.copy(),
            None => RuleKnowledge::empty(),
        }
    }
}

} // verus!
