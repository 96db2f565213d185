//! Reading manifests: the dependency tables of `Cargo.toml`, the sections
//! of `package.json` and the project tables of `pyproject.toml`, each
//! parsed and turned into the facts that the dependency checks read.
use vstd::prelude::*;
use crate::deps::{
    analyze_node_deps, analyze_python_deps, analyze_rust_deps, node_deps_findings_spec,
    python_deps_findings_spec, rust_deps_findings_spec, CargoDepSpec, CargoDependency,
    NodeDependency, NodeDepsFacts, PythonDepsFacts, RustDepsFacts,
};
use crate::doctor::{views_of, DoctorFinding};
use crate::manifest::ManifestMetadata;
use crate::project::ProjectKind;
use crate::engine_output::{
    AuditCiCounts, CargoDenyAdvisory, CargoDenyFields, CvssBand, CvssScore, PipPackage, PipVuln,
};
use crate::structured::{
    json_first_value_of, parse_yaml, yaml_parse_of, at_path, entries_of, entry_for, entry_value, items_of, json_parse_of, member, member_of,
    parse_json, parse_toml, path_of, str_of, str_value, toml_parse_of, DocValue,
};
use crate::workflow::{hygiene_findings_spec, workflow_hygiene_findings, WorkflowDocument, WorkflowJob};
use crate::text::{concat_str, distinct_sorted_strings, sorted_distinct, str_eq, views};

verus! {

// ---------------------------------------------------------------------------
// Keys
// ---------------------------------------------------------------------------

/// The text of a string key; a key of any other kind has none.
pub open spec fn key_text(k: DocValue) -> Option<Seq<char>> {
    match k {
        DocValue::Str(s) => Some(s@),
        _ => None,
    }
}

fn key_string(k: &DocValue) -> (r: Option<String>)
    ensures
        match r {
            Some(s) => key_text(*k) == Some(s@),
            None => key_text(*k) is None,
        },
{
    match k {
        DocValue::Str(s) => Some(s.clone()),
        _ => None,
    }
}

// ---------------------------------------------------------------------------
// Cargo.toml
// ---------------------------------------------------------------------------

/// A dependency as plain values: name, whether its spec is a table, the
/// version, and whether the table names `git`, `path` or `registry`.
pub type CargoDepView = (Seq<char>, bool, Option<Seq<char>>, bool, bool, bool);

pub open spec fn cargo_dep_view(d: CargoDependency) -> CargoDepView {
    match d.spec {
        CargoDepSpec::Version(v) => (d.name@, false, Some(v@), false, false, false),
        CargoDepSpec::Table { version, git, path, registry } => (
            d.name@,
            true,
            match version {
                Some(v) => Some(v@),
                None => None,
            },
            git,
            path,
            registry,
        ),
    }
}

pub open spec fn cargo_dep_views(ds: Seq<CargoDependency>) -> Seq<CargoDepView> {
    ds.map_values(|d: CargoDependency| cargo_dep_view(d))
}

/// A dependency-table entry as a dependency: a string is a version, a
/// table is read for `version`, `git`, `path` and `registry`; anything else
/// is no dependency.
pub open spec fn cargo_entry_view(e: (DocValue, DocValue)) -> Option<CargoDepView> {
    match key_text(e.0) {
        None => None,
        Some(name) => match e.1 {
            DocValue::Str(v) => Some((name, false, Some(v@), false, false, false)),
            DocValue::Mapping(t) => Some(
                (
                    name,
                    true,
                    str_of(entry_for(t@, "version"@)),
                    entry_for(t@, "git"@) is Some,
                    entry_for(t@, "path"@) is Some,
                    entry_for(t@, "registry"@) is Some,
                ),
            ),
            _ => None,
        },
    }
}

pub open spec fn cargo_entries_views(es: Seq<(DocValue, DocValue)>) -> Seq<CargoDepView>
    decreases es.len(),
{
    if es.len() == 0 {
        Seq::empty()
    } else {
        cargo_entries_views(es.drop_last()) + match cargo_entry_view(es.last()) {
            Some(v) => seq![v],
            None => Seq::empty(),
        }
    }
}

/// Every dependency of `dependencies`, `dev-dependencies`,
/// `build-dependencies` and `workspace.dependencies`, in that order.
pub open spec fn cargo_collected(doc: DocValue) -> Seq<CargoDepView> {
    cargo_entries_views(entries_of(at_path(doc, seq!["dependencies"@])))
        + cargo_entries_views(entries_of(at_path(doc, seq!["dev-dependencies"@])))
        + cargo_entries_views(entries_of(at_path(doc, seq!["build-dependencies"@])))
        + cargo_entries_views(entries_of(at_path(doc, seq!["workspace"@, "dependencies"@])))
}

/// The first collected dependency named `name`.
pub open spec fn first_cargo_named(vs: Seq<CargoDepView>, name: Seq<char>) -> CargoDepView
    decreases vs.len(),
{
    if vs.len() == 0 {
        (name, false, Some(Seq::empty()), false, false, false)
    } else if vs[0].0 == name {
        vs[0]
    } else {
        first_cargo_named(vs.drop_first(), name)
    }
}

/// The manifest's dependencies by name, ascending, each with the spec of
/// its first occurrence.
pub open spec fn cargo_deps_spec(doc: DocValue) -> Seq<CargoDepView> {
    let all = cargo_collected(doc);
    sorted_distinct(all.map_values(|v: CargoDepView| v.0)).map_values(
        |n: Seq<char>| first_cargo_named(all, n),
    )
}

/// `package.license` or `workspace.package.license` is a string.
pub open spec fn cargo_has_license(doc: DocValue) -> bool {
    str_of(at_path(doc, seq!["package"@, "license"@])) is Some || str_of(
        at_path(doc, seq!["workspace"@, "package"@, "license"@]),
    ) is Some
}

fn has_entry(t: &Vec<(DocValue, DocValue)>, key: &str) -> (b: bool)
    ensures
        b == (entry_for(t@, key@) is Some),
{
    entry_value(t, key).is_some()
}

fn cargo_entry(e: &(DocValue, DocValue)) -> (r: Option<CargoDependency>)
    ensures
        match r {
            Some(d) => cargo_entry_view(*e) == Some(cargo_dep_view(d)),
            None => cargo_entry_view(*e) is None,
        },
{
    let name = match key_string(&e.0) {
        Some(n) => n,
        None => {
            return None;
        },
    };
    match &e.1 {
        DocValue::Str(v) => Some(CargoDependency { name, spec: CargoDepSpec::Version(v.clone()) }),
        DocValue::Mapping(t) => {
            let version = str_value(entry_value(t, "version"));
            let git = has_entry(t, "git");
            let path = has_entry(t, "path");
            let registry = has_entry(t, "registry");
            Some(CargoDependency { name, spec: CargoDepSpec::Table { version, git, path, registry } })
        },
        _ => None,
    }
}

fn collect_cargo_table(table: Option<&DocValue>, out: &mut Vec<CargoDependency>)
    ensures
        cargo_dep_views(final(out)@) == cargo_dep_views(old(out)@) + cargo_entries_views(
            entries_of(
                match table {
                    Some(x) => Some(*x),
                    None => None,
                },
            ),
        ),
{
    let ghost start = cargo_dep_views(out@);
    let es = match table {
        Some(DocValue::Mapping(es)) => es,
        _ => {
            assert(cargo_dep_views(out@) =~= start + Seq::<CargoDepView>::empty());
            return;
        },
    };
    let mut i: usize = 0;
    while i < es.len()
        invariant
            i <= es.len(),
            cargo_dep_views(out@) == start + cargo_entries_views(es@.take(i as int)),
        decreases es.len() - i,
    {
        assert(es@.take(i + 1).drop_last() =~= es@.take(i as int));
        assert(es@.take(i + 1).last() == es@[i as int]);
        let ghost before = out@;
        match cargo_entry(&es[i]) {
            Some(d) => {
                out.push(d);
                assert(cargo_dep_views(out@) =~= cargo_dep_views(before) + seq![
                    cargo_dep_view(out@.last()),
                ]);
            },
            None => {
                assert(cargo_entries_views(es@.take(i + 1)) =~= cargo_entries_views(
                    es@.take(i as int),
                ) + Seq::<CargoDepView>::empty());
            },
        }
        i += 1;
    }
    assert(es@.take(es.len() as int) =~= es@);
}

fn cargo_path<'a>(doc: &'a DocValue, first: &str, second: Option<&str>) -> (r: Option<&'a DocValue>)
    ensures
        match r {
            Some(x) => Some(*x) == at_path(
                *doc,
                match second {
                    Some(s) => seq![first@, s@],
                    None => seq![first@],
                },
            ),
            None => at_path(
                *doc,
                match second {
                    Some(s) => seq![first@, s@],
                    None => seq![first@],
                },
            ) is None,
        },
{
    let mut path: Vec<&str> = Vec::new();
    path.push(first);
    match second {
        Some(s) => path.push(s),
        None => {},
    }
    let r = path_of(doc, &path);
    proof {
        let ps = path@.map_values(|s: &str| s@);
        match second {
            Some(s) => assert(ps =~= seq![first@, s@]),
            None => assert(ps =~= seq![first@]),
        }
    }
    r
}

/// The first dependency of `all` named `name`.
fn first_named(all: &Vec<CargoDependency>, name: &String) -> (r: CargoDependency)
    ensures
        cargo_dep_view(r) == first_cargo_named(cargo_dep_views(all@), name@),
{
    let ghost vs = cargo_dep_views(all@);
    let mut i: usize = 0;
    assert(vs.subrange(0, vs.len() as int) =~= vs);
    while i < all.len()
        invariant
            i <= all.len(),
            vs == cargo_dep_views(all@),
            first_cargo_named(vs, name@) == first_cargo_named(vs.subrange(i as int, vs.len() as int), name@),
        decreases all.len() - i,
    {
        let ghost rest = vs.subrange(i as int, vs.len() as int);
        assert(rest.drop_first() =~= vs.subrange(i + 1, vs.len() as int));
        if str_eq(all[i].name.as_str(), name.as_str()) {
            let spec = match &all[i].spec {
                CargoDepSpec::Version(v) => CargoDepSpec::Version(v.clone()),
                CargoDepSpec::Table { version, git, path, registry } => CargoDepSpec::Table {
                    version: match version {
                        Some(v) => Some(v.clone()),
                        None => None,
                    },
                    git: *git,
                    path: *path,
                    registry: *registry,
                },
            };
            return CargoDependency { name: name.clone(), spec };
        }
        i += 1;
    }
    assert(vs.subrange(all.len() as int, vs.len() as int) =~= Seq::<CargoDepView>::empty());
    CargoDependency {
        name: name.clone(),
        spec: CargoDepSpec::Version(String::new()),
    }
}

/// The dependencies of a parsed `Cargo.toml`, by name, ascending, each
/// from its first occurrence.
pub fn cargo_dependencies(doc: &DocValue) -> (r: Vec<CargoDependency>)
    ensures
        cargo_dep_views(r@) == cargo_deps_spec(*doc),
{
    let mut all: Vec<CargoDependency> = Vec::new();
    collect_cargo_table(cargo_path(doc, "dependencies", None), &mut all);
    collect_cargo_table(cargo_path(doc, "dev-dependencies", None), &mut all);
    collect_cargo_table(cargo_path(doc, "build-dependencies", None), &mut all);
    collect_cargo_table(cargo_path(doc, "workspace", Some("dependencies")), &mut all);
    let ghost collected = cargo_dep_views(all@);
    assert(collected =~= cargo_collected(*doc));
    let mut names: Vec<String> = Vec::new();
    let mut i: usize = 0;
    while i < all.len()
        invariant
            i <= all.len(),
            views(names@) == cargo_dep_views(all@).take(i as int).map_values(|v: CargoDepView| v.0),
        decreases all.len() - i,
    {
        let ghost before = views(names@);
        names.push(all[i].name.clone());
        assert(cargo_dep_view(all@[i as int]).0 == all@[i as int].name@);
        assert(views(names@) =~= before.push(all@[i as int].name@));
        assert(cargo_dep_views(all@).take(i + 1).map_values(|v: CargoDepView| v.0) =~= cargo_dep_views(
            all@,
        ).take(i as int).map_values(|v: CargoDepView| v.0).push(cargo_dep_view(all@[i as int]).0));
        i += 1;
    }
    assert(cargo_dep_views(all@).take(all.len() as int) =~= cargo_dep_views(all@));
    let sorted = distinct_sorted_strings(names);
    let mut r: Vec<CargoDependency> = Vec::new();
    let mut j: usize = 0;
    while j < sorted.len()
        invariant
            j <= sorted.len(),
            cargo_dep_views(r@) == views(sorted@).take(j as int).map_values(
                |n: Seq<char>| first_cargo_named(cargo_dep_views(all@), n),
            ),
        decreases sorted.len() - j,
    {
        let d = first_named(&all, &sorted[j]);
        let ghost before = cargo_dep_views(r@);
        r.push(d);
        assert(cargo_dep_views(r@) =~= before.push(cargo_dep_view(d)));
        assert(views(sorted@).take(j + 1) =~= views(sorted@).take(j as int).push(sorted@[j as int]@));
        assert(cargo_dep_views(r@) =~= views(sorted@).take(j + 1).map_values(
            |n: Seq<char>| first_cargo_named(cargo_dep_views(all@), n),
        ));
        j += 1;
    }
    assert(views(sorted@).take(sorted.len() as int) =~= views(sorted@));
    r
}

fn has_string_at(doc: &DocValue, path: &Vec<&str>) -> (b: bool)
    ensures
        b == (str_of(at_path(*doc, path@.map_values(|s: &str| s@))) is Some),
{
    match path_of(doc, path) {
        Some(DocValue::Str(_)) => true,
        _ => false,
    }
}

pub fn cargo_license_declared(doc: &DocValue) -> (b: bool)
    ensures
        b == cargo_has_license(*doc),
{
    let mut p1: Vec<&str> = Vec::new();
    p1.push("package");
    p1.push("license");
    let mut p2: Vec<&str> = Vec::new();
    p2.push("workspace");
    p2.push("package");
    p2.push("license");
    assert(p1@.map_values(|s: &str| s@) =~= seq!["package"@, "license"@]);
    assert(p2@.map_values(|s: &str| s@) =~= seq!["workspace"@, "package"@, "license"@]);
    has_string_at(doc, &p1) || has_string_at(doc, &p2)
}

/// The facts hold what a parsed manifest and the repository give.
pub open spec fn rust_facts_match(
    f: RustDepsFacts,
    doc: DocValue,
    manifest_path: Seq<char>,
    policy_path: Seq<char>,
    has_lockfile: bool,
    has_policy: bool,
) -> bool {
    &&& f.manifest_present
    &&& f.manifest_path@ == manifest_path
    &&& f.policy_path@ == policy_path
    &&& cargo_dep_views(f.dependencies@) == cargo_deps_spec(doc)
    &&& f.has_lockfile == has_lockfile
    &&& f.has_policy == has_policy
    &&& f.has_license == cargo_has_license(doc)
}

pub fn rust_deps_facts(
    doc: &DocValue,
    manifest_path: &str,
    policy_path: &str,
    has_lockfile: bool,
    has_policy: bool,
) -> (r: RustDepsFacts)
    ensures
        rust_facts_match(r, *doc, manifest_path@, policy_path@, has_lockfile, has_policy),
{
    RustDepsFacts {
        manifest_present: true,
        manifest_path: manifest_path.to_owned(),
        policy_path: policy_path.to_owned(),
        dependencies: cargo_dependencies(doc),
        has_lockfile,
        has_policy,
        has_license: cargo_license_declared(doc),
    }
}

/// The Rust dependency check of a repository: without a `Cargo.toml`, the
/// note that none was found; with one, its findings, or the parser's
/// message where the manifest is no TOML.
pub fn analyze_rust_manifest(
    manifest: &Option<String>,
    manifest_path: &str,
    policy_path: &str,
    has_lockfile: bool,
    has_policy: bool,
) -> (r: Result<Vec<DoctorFinding>, String>)
    ensures
        match manifest {
            None => r matches Ok(fs) && exists|f: RustDepsFacts|
                !f.manifest_present && f.manifest_path@ == manifest_path@ && views_of(fs@)
                    == #[trigger] rust_deps_findings_spec(f),
            Some(text) => match toml_parse_of(text@) {
                Some(doc) => r matches Ok(fs) && exists|f: RustDepsFacts|
                    #[trigger] rust_facts_match(f, doc, manifest_path@, policy_path@, has_lockfile, has_policy)
                        && views_of(fs@) == rust_deps_findings_spec(f),
                None => r is Err,
            },
        },
{
    match manifest {
        None => {
            let facts = RustDepsFacts {
                manifest_present: false,
                manifest_path: manifest_path.to_owned(),
                policy_path: policy_path.to_owned(),
                dependencies: Vec::new(),
                has_lockfile,
                has_policy,
                has_license: false,
            };
            let fs = analyze_rust_deps(&facts);
            assert(views_of(fs@) == rust_deps_findings_spec(facts));
            Ok(fs)
        },
        Some(text) => match parse_toml(text.as_str()) {
            Ok(doc) => {
                let facts = rust_deps_facts(&doc, manifest_path, policy_path, has_lockfile, has_policy);
                let fs = analyze_rust_deps(&facts);
                assert(rust_facts_match(facts, doc, manifest_path@, policy_path@, has_lockfile, has_policy));
                Ok(fs)
            },
            Err(e) => Err(e),
        },
    }
}

// ---------------------------------------------------------------------------
// package.json
// ---------------------------------------------------------------------------

pub type NodeDepView = (Seq<char>, Seq<char>);

pub open spec fn node_dep_views(ds: Seq<NodeDependency>) -> Seq<NodeDepView> {
    ds.map_values(|d: NodeDependency| (d.name@, d.version@))
}

/// A section entry whose value is a string is a dependency.
pub open spec fn node_entry_view(e: (DocValue, DocValue)) -> Option<NodeDepView> {
    match (key_text(e.0), e.1) {
        (Some(name), DocValue::Str(v)) => Some((name, v@)),
        _ => None,
    }
}

pub open spec fn node_entries_views(es: Seq<(DocValue, DocValue)>) -> Seq<NodeDepView>
    decreases es.len(),
{
    if es.len() == 0 {
        Seq::empty()
    } else {
        node_entries_views(es.drop_last()) + match node_entry_view(es.last()) {
            Some(v) => seq![v],
            None => Seq::empty(),
        }
    }
}

/// The string specs of `dependencies`, `devDependencies`,
/// `peerDependencies` and `optionalDependencies`, in that order.
pub open spec fn node_collected(doc: DocValue) -> Seq<NodeDepView> {
    node_entries_views(entries_of(member(doc, "dependencies"@)))
        + node_entries_views(entries_of(member(doc, "devDependencies"@)))
        + node_entries_views(entries_of(member(doc, "peerDependencies"@)))
        + node_entries_views(entries_of(member(doc, "optionalDependencies"@)))
}

pub open spec fn first_node_named(vs: Seq<NodeDepView>, name: Seq<char>) -> NodeDepView
    decreases vs.len(),
{
    if vs.len() == 0 {
        (name, Seq::empty())
    } else if vs[0].0 == name {
        vs[0]
    } else {
        first_node_named(vs.drop_first(), name)
    }
}

/// The manifest's dependencies by name, ascending, each with the spec of
/// its first occurrence.
pub open spec fn node_deps_spec(doc: DocValue) -> Seq<NodeDepView> {
    let all = node_collected(doc);
    sorted_distinct(all.map_values(|v: NodeDepView| v.0)).map_values(
        |n: Seq<char>| first_node_named(all, n),
    )
}

fn collect_node_section(section: Option<&DocValue>, out: &mut Vec<NodeDependency>)
    ensures
        node_dep_views(final(out)@) == node_dep_views(old(out)@) + node_entries_views(
            entries_of(
                match section {
                    Some(x) => Some(*x),
                    None => None,
                },
            ),
        ),
{
    let ghost start = node_dep_views(out@);
    let es = match section {
        Some(DocValue::Mapping(es)) => es,
        _ => {
            assert(node_dep_views(out@) =~= start + Seq::<NodeDepView>::empty());
            return;
        },
    };
    let mut i: usize = 0;
    while i < es.len()
        invariant
            i <= es.len(),
            node_dep_views(out@) == start + node_entries_views(es@.take(i as int)),
        decreases es.len() - i,
    {
        assert(es@.take(i + 1).drop_last() =~= es@.take(i as int));
        assert(es@.take(i + 1).last() == es@[i as int]);
        let ghost before = out@;
        let name = key_string(&es[i].0);
        match (name, &es[i].1) {
            (Some(n), DocValue::Str(v)) => {
                out.push(NodeDependency { name: n, version: v.clone() });
                assert(node_dep_views(out@) =~= node_dep_views(before) + seq![
                    (out@.last().name@, out@.last().version@),
                ]);
            },
            _ => {
                assert(node_entries_views(es@.take(i + 1)) =~= node_entries_views(
                    es@.take(i as int),
                ) + Seq::<NodeDepView>::empty());
            },
        }
        i += 1;
    }
    assert(es@.take(es.len() as int) =~= es@);
}

fn first_node(all: &Vec<NodeDependency>, name: &String) -> (r: NodeDependency)
    ensures
        (r.name@, r.version@) == first_node_named(node_dep_views(all@), name@),
{
    let ghost vs = node_dep_views(all@);
    let mut i: usize = 0;
    assert(vs.subrange(0, vs.len() as int) =~= vs);
    while i < all.len()
        invariant
            i <= all.len(),
            vs == node_dep_views(all@),
            first_node_named(vs, name@) == first_node_named(vs.subrange(i as int, vs.len() as int), name@),
        decreases all.len() - i,
    {
        let ghost rest = vs.subrange(i as int, vs.len() as int);
        assert(rest.drop_first() =~= vs.subrange(i + 1, vs.len() as int));
        if str_eq(all[i].name.as_str(), name.as_str()) {
            return NodeDependency { name: name.clone(), version: all[i].version.clone() };
        }
        i += 1;
    }
    assert(vs.subrange(all.len() as int, vs.len() as int) =~= Seq::<NodeDepView>::empty());
    NodeDependency { name: name.clone(), version: String::new() }
}

/// The dependencies of a parsed `package.json`, by name, ascending, each
/// from its first occurrence.
pub fn node_dependencies(doc: &DocValue) -> (r: Vec<NodeDependency>)
    ensures
        node_dep_views(r@) == node_deps_spec(*doc),
{
    let mut all: Vec<NodeDependency> = Vec::new();
    collect_node_section(member_of(doc, "dependencies"), &mut all);
    collect_node_section(member_of(doc, "devDependencies"), &mut all);
    collect_node_section(member_of(doc, "peerDependencies"), &mut all);
    collect_node_section(member_of(doc, "optionalDependencies"), &mut all);
    assert(node_dep_views(all@) =~= node_collected(*doc));
    let mut names: Vec<String> = Vec::new();
    let mut i: usize = 0;
    while i < all.len()
        invariant
            i <= all.len(),
            views(names@) == node_dep_views(all@).take(i as int).map_values(|v: NodeDepView| v.0),
        decreases all.len() - i,
    {
        let ghost before = views(names@);
        names.push(all[i].name.clone());
        assert(views(names@) =~= before.push(all@[i as int].name@));
        assert(node_dep_views(all@).take(i + 1).map_values(|v: NodeDepView| v.0) =~= node_dep_views(
            all@,
        ).take(i as int).map_values(|v: NodeDepView| v.0).push(all@[i as int].name@));
        i += 1;
    }
    assert(node_dep_views(all@).take(all.len() as int) =~= node_dep_views(all@));
    let sorted = distinct_sorted_strings(names);
    let mut r: Vec<NodeDependency> = Vec::new();
    let mut j: usize = 0;
    while j < sorted.len()
        invariant
            j <= sorted.len(),
            node_dep_views(r@) == views(sorted@).take(j as int).map_values(
                |n: Seq<char>| first_node_named(node_dep_views(all@), n),
            ),
        decreases sorted.len() - j,
    {
        let d = first_node(&all, &sorted[j]);
        let ghost before = node_dep_views(r@);
        let ghost dv = (d.name@, d.version@);
        r.push(d);
        assert(node_dep_views(r@) =~= before.push(dv));
        assert(views(sorted@).take(j + 1) =~= views(sorted@).take(j as int).push(sorted@[j as int]@));
        assert(node_dep_views(r@) =~= views(sorted@).take(j + 1).map_values(
            |n: Seq<char>| first_node_named(node_dep_views(all@), n),
        ));
        j += 1;
    }
    assert(views(sorted@).take(sorted.len() as int) =~= views(sorted@));
    r
}

/// The facts hold what a parsed `package.json` and the repository give.
pub open spec fn node_facts_match(
    f: NodeDepsFacts,
    doc: DocValue,
    manifest_path: Seq<char>,
    policy_path: Seq<char>,
    has_lockfile: bool,
    has_policy: bool,
) -> bool {
    &&& f.manifest_present
    &&& f.manifest_path@ == manifest_path
    &&& f.policy_path@ == policy_path
    &&& node_dep_views(f.dependencies@) == node_deps_spec(doc)
    &&& f.has_lockfile == has_lockfile
    &&& f.has_policy == has_policy
    &&& f.has_license == (str_of(member(doc, "license"@)) is Some)
}

pub fn node_deps_facts(
    doc: &DocValue,
    manifest_path: &str,
    policy_path: &str,
    has_lockfile: bool,
    has_policy: bool,
) -> (r: NodeDepsFacts)
    ensures
        node_facts_match(r, *doc, manifest_path@, policy_path@, has_lockfile, has_policy),
{
    let has_license = match member_of(doc, "license") {
        Some(DocValue::Str(_)) => true,
        _ => false,
    };
    NodeDepsFacts {
        manifest_present: true,
        manifest_path: manifest_path.to_owned(),
        policy_path: policy_path.to_owned(),
        dependencies: node_dependencies(doc),
        has_lockfile,
        has_policy,
        has_license,
    }
}

/// The Node dependency check of a repository: without a `package.json`,
/// the note that none was found; with one, its findings, or the parser's
/// message where the manifest is no JSON.
pub fn analyze_node_manifest(
    manifest: &Option<String>,
    manifest_path: &str,
    policy_path: &str,
    has_lockfile: bool,
    has_policy: bool,
) -> (r: Result<Vec<DoctorFinding>, String>)
    ensures
        match manifest {
            None => r matches Ok(fs) && exists|f: NodeDepsFacts|
                !f.manifest_present && f.manifest_path@ == manifest_path@ && views_of(fs@)
                    == #[trigger] node_deps_findings_spec(f),
            Some(text) => match json_parse_of(text@) {
                Some(doc) => r matches Ok(fs) && exists|f: NodeDepsFacts|
                    #[trigger] node_facts_match(f, doc, manifest_path@, policy_path@, has_lockfile, has_policy)
                        && views_of(fs@) == node_deps_findings_spec(f),
                None => r is Err,
            },
        },
{
    match manifest {
        None => {
            let facts = NodeDepsFacts {
                manifest_present: false,
                manifest_path: manifest_path.to_owned(),
                policy_path: policy_path.to_owned(),
                dependencies: Vec::new(),
                has_lockfile,
                has_policy,
                has_license: false,
            };
            let fs = analyze_node_deps(&facts);
            assert(views_of(fs@) == node_deps_findings_spec(facts));
            Ok(fs)
        },
        Some(text) => match parse_json(text.as_str()) {
            Ok(doc) => {
                let facts = node_deps_facts(&doc, manifest_path, policy_path, has_lockfile, has_policy);
                let fs = analyze_node_deps(&facts);
                assert(node_facts_match(facts, doc, manifest_path@, policy_path@, has_lockfile, has_policy));
                Ok(fs)
            },
            Err(e) => Err(e),
        },
    }
}

// ---------------------------------------------------------------------------
// pyproject.toml
// ---------------------------------------------------------------------------

/// The license a pyproject declares: `project.license` as a string, or the
/// `text` or `file` of a `project.license` table, else
/// `tool.poetry.license`.
pub open spec fn pyproject_license_spec(doc: DocValue) -> Option<Seq<char>> {
    let p = at_path(doc, seq!["project"@, "license"@]);
    let table = entries_of(p);
    let is_table = p matches Some(DocValue::Mapping(_));
    if str_of(p) is Some {
        str_of(p)
    } else if is_table && str_of(entry_for(table, "text"@)) is Some {
        str_of(entry_for(table, "text"@))
    } else if is_table && str_of(entry_for(table, "file"@)) is Some {
        str_of(entry_for(table, "file"@))
    } else {
        str_of(at_path(doc, seq!["tool"@, "poetry"@, "license"@]))
    }
}

/// The strings of a list, in order.
pub open spec fn strings_in(xs: Seq<DocValue>) -> Seq<Seq<char>>
    decreases xs.len(),
{
    if xs.len() == 0 {
        Seq::empty()
    } else {
        strings_in(xs.drop_last()) + match xs.last() {
            DocValue::Str(s) => seq![s@],
            _ => Seq::empty(),
        }
    }
}

/// The strings of every list among the values of a table.
pub open spec fn optional_groups(es: Seq<(DocValue, DocValue)>) -> Seq<Seq<char>>
    decreases es.len(),
{
    if es.len() == 0 {
        Seq::empty()
    } else {
        optional_groups(es.drop_last()) + strings_in(items_of(Some(es.last().1)))
    }
}

/// A poetry dependency as a requirement: name and version, or the name
/// alone for a git or path source; `python` and anything else give none.
pub open spec fn poetry_entry(e: (DocValue, DocValue)) -> Seq<Seq<char>> {
    match key_text(e.0) {
        None => Seq::empty(),
        Some(name) => if name == "python"@ {
            Seq::empty()
        } else {
            match e.1 {
                DocValue::Str(v) => seq![name + v@],
                DocValue::Mapping(t) => match str_of(entry_for(t@, "version"@)) {
                    Some(v) => seq![name + v],
                    None => if entry_for(t@, "git"@) is Some || entry_for(t@, "path"@) is Some {
                        seq![name]
                    } else {
                        Seq::empty()
                    },
                },
                _ => Seq::empty(),
            }
        },
    }
}

pub open spec fn poetry_entries(es: Seq<(DocValue, DocValue)>) -> Seq<Seq<char>>
    decreases es.len(),
{
    if es.len() == 0 {
        Seq::empty()
    } else {
        poetry_entries(es.drop_last()) + poetry_entry(es.last())
    }
}

/// `project.dependencies`, then every list of
/// `project.optional-dependencies`, then `tool.poetry.dependencies`.
pub open spec fn pyproject_deps_spec(doc: DocValue) -> Seq<Seq<char>> {
    strings_in(items_of(at_path(doc, seq!["project"@, "dependencies"@]))) + optional_groups(
        entries_of(at_path(doc, seq!["project"@, "optional-dependencies"@])),
    ) + poetry_entries(entries_of(at_path(doc, seq!["tool"@, "poetry"@, "dependencies"@])))
}

fn two(a: &'static str, b: &'static str) -> (r: Vec<&'static str>)
    ensures
        r@.map_values(|s: &str| s@) == seq![a@, b@],
{
    let mut v: Vec<&'static str> = Vec::new();
    v.push(a);
    v.push(b);
    assert(v@.map_values(|s: &str| s@) =~= seq![a@, b@]);
    v
}

fn three(a: &'static str, b: &'static str, c: &'static str) -> (r: Vec<&'static str>)
    ensures
        r@.map_values(|s: &str| s@) == seq![a@, b@, c@],
{
    let mut v: Vec<&'static str> = Vec::new();
    v.push(a);
    v.push(b);
    v.push(c);
    assert(v@.map_values(|s: &str| s@) =~= seq![a@, b@, c@]);
    v
}

pub fn pyproject_license(doc: &DocValue) -> (r: Option<String>)
    ensures
        crate::structured::opt_text(r) == pyproject_license_spec(*doc),
{
    let p = path_of(doc, &two("project", "license"));
    if let Some(DocValue::Str(s)) = p {
        return Some(s.clone());
    }
    if let Some(DocValue::Mapping(t)) = p {
        if let Some(DocValue::Str(s)) = entry_value(t, "text") {
            return Some(s.clone());
        }
        if let Some(DocValue::Str(s)) = entry_value(t, "file") {
            return Some(s.clone());
        }
    }
    str_value(path_of(doc, &three("tool", "poetry", "license")))
}

fn push_strings(list: Option<&DocValue>, out: &mut Vec<String>)
    ensures
        views(final(out)@) == views(old(out)@) + strings_in(
            items_of(
                match list {
                    Some(x) => Some(*x),
                    None => None,
                },
            ),
        ),
{
    let ghost start = views(out@);
    let xs = match list {
        Some(DocValue::List(xs)) => xs,
        _ => {
            assert(views(out@) =~= start + Seq::<Seq<char>>::empty());
            return;
        },
    };
    let mut i: usize = 0;
    while i < xs.len()
        invariant
            i <= xs.len(),
            views(out@) == start + strings_in(xs@.take(i as int)),
        decreases xs.len() - i,
    {
        assert(xs@.take(i + 1).drop_last() =~= xs@.take(i as int));
        assert(xs@.take(i + 1).last() == xs@[i as int]);
        let ghost before = views(out@);
        match &xs[i] {
            DocValue::Str(s) => {
                out.push(s.clone());
                assert(views(out@) =~= before + seq![s@]);
            },
            _ => {
                assert(views(out@) =~= before + Seq::<Seq<char>>::empty());
            },
        }
        i += 1;
    }
    assert(xs@.take(xs.len() as int) =~= xs@);
}

fn push_poetry(e: &(DocValue, DocValue), out: &mut Vec<String>)
    ensures
        views(final(out)@) == views(old(out)@) + poetry_entry(*e),
{
    let ghost start = views(out@);
    let name = match key_string(&e.0) {
        Some(n) => n,
        None => {
            assert(views(out@) =~= start + Seq::<Seq<char>>::empty());
            return;
        },
    };
    if str_eq(name.as_str(), "python") {
        assert(views(out@) =~= start + Seq::<Seq<char>>::empty());
        return;
    }
    match &e.1 {
        DocValue::Str(v) => {
            out.push(concat_str(name.as_str(), v.as_str()));
        },
        DocValue::Mapping(t) => {
            if let Some(DocValue::Str(v)) = entry_value(t, "version") {
                out.push(concat_str(name.as_str(), v.as_str()));
            } else if has_entry(t, "git") || has_entry(t, "path") {
                out.push(name);
            } else {
                assert(views(out@) =~= start + Seq::<Seq<char>>::empty());
                return;
            }
        },
        _ => {
            assert(views(out@) =~= start + Seq::<Seq<char>>::empty());
            return;
        },
    }
    assert(views(out@) =~= start + poetry_entry(*e));
}

pub fn pyproject_dependencies(doc: &DocValue) -> (r: Vec<String>)
    ensures
        views(r@) == pyproject_deps_spec(*doc),
{
    let mut out: Vec<String> = Vec::new();
    push_strings(path_of(doc, &two("project", "dependencies")), &mut out);
    assert(views(out@) =~= strings_in(items_of(at_path(*doc, seq!["project"@, "dependencies"@]))));
    let ghost base = views(out@);
    match path_of(doc, &two("project", "optional-dependencies")) {
        Some(DocValue::Mapping(es)) => {
            let mut i: usize = 0;
            while i < es.len()
                invariant
                    i <= es.len(),
                    views(out@) == base + optional_groups(es@.take(i as int)),
                decreases es.len() - i,
            {
                assert(es@.take(i + 1).drop_last() =~= es@.take(i as int));
                assert(es@.take(i + 1).last() == es@[i as int]);
                push_strings(Some(&es[i].1), &mut out);
                i += 1;
            }
            assert(es@.take(es.len() as int) =~= es@);
        },
        _ => {
            assert(views(out@) =~= base + Seq::<Seq<char>>::empty());
        },
    }
    let ghost mid = views(out@);
    match path_of(doc, &three("tool", "poetry", "dependencies")) {
        Some(DocValue::Mapping(es)) => {
            let mut i: usize = 0;
            while i < es.len()
                invariant
                    i <= es.len(),
                    views(out@) == mid + poetry_entries(es@.take(i as int)),
                decreases es.len() - i,
            {
                assert(es@.take(i + 1).drop_last() =~= es@.take(i as int));
                assert(es@.take(i + 1).last() == es@[i as int]);
                push_poetry(&es[i], &mut out);
                i += 1;
            }
            assert(es@.take(es.len() as int) =~= es@);
        },
        _ => {
            assert(views(out@) =~= mid + Seq::<Seq<char>>::empty());
        },
    }
    out
}

/// The facts hold what the repository and, where there is one, the parsed
/// `pyproject.toml` give.
pub open spec fn python_facts_match(
    f: PythonDepsFacts,
    doc: Option<DocValue>,
    pyproject_path: Seq<char>,
    requirements: Seq<Seq<char>>,
    has_requirements_files: bool,
    has_lockfile: bool,
    workflow_has_audit: bool,
    workflows_path: Seq<char>,
    primary_path: Seq<char>,
) -> bool {
    &&& f.pyproject_present == doc is Some
    &&& f.pyproject_path@ == pyproject_path
    &&& views(f.requirements@) == requirements
    &&& f.has_requirements_files == has_requirements_files
    &&& f.has_lockfile == has_lockfile
    &&& f.workflow_has_audit == workflow_has_audit
    &&& f.workflows_path@ == workflows_path
    &&& f.primary_path@ == primary_path
    &&& crate::structured::opt_text(f.pyproject_license) == match doc {
        Some(d) => pyproject_license_spec(d),
        None => None,
    }
    &&& views(f.pyproject_dependencies@) == match doc {
        Some(d) => pyproject_deps_spec(d),
        None => Seq::empty(),
    }
}

/// The Python dependency check: the requirements specs and, where the
/// project has a `pyproject.toml`, what its parse declares; the parser's
/// message where that file is no TOML.
pub fn analyze_python_project(
    pyproject: &Option<String>,
    pyproject_path: &str,
    requirements: &Vec<String>,
    has_requirements_files: bool,
    has_lockfile: bool,
    workflow_has_audit: bool,
    workflows_path: &str,
    primary_path: &str,
) -> (r: Result<Vec<DoctorFinding>, String>)
    ensures
        match pyproject {
            None => r matches Ok(fs) && exists|f: PythonDepsFacts|
                #[trigger] python_facts_match(
                    f,
                    None,
                    pyproject_path@,
                    views(requirements@),
                    has_requirements_files,
                    has_lockfile,
                    workflow_has_audit,
                    workflows_path@,
                    primary_path@,
                ) && views_of(fs@) == python_deps_findings_spec(f),
            Some(text) => match toml_parse_of(text@) {
                Some(doc) => r matches Ok(fs) && exists|f: PythonDepsFacts|
                    #[trigger] python_facts_match(
                        f,
                        Some(doc),
                        pyproject_path@,
                        views(requirements@),
                        has_requirements_files,
                        has_lockfile,
                        workflow_has_audit,
                        workflows_path@,
                        primary_path@,
                    ) && views_of(fs@) == python_deps_findings_spec(f),
                None => r is Err,
            },
        },
{
    match pyproject {
        None => {
            let facts = python_facts_with(
                false,
                None,
                Vec::new(),
                pyproject_path,
                requirements,
                has_requirements_files,
                has_lockfile,
                workflow_has_audit,
                workflows_path,
                primary_path,
            );
            let fs = analyze_python_deps(&facts);
            assert(views(facts.pyproject_dependencies@) =~= Seq::<Seq<char>>::empty());
            assert(python_facts_match(
                facts,
                None,
                pyproject_path@,
                views(requirements@),
                has_requirements_files,
                has_lockfile,
                workflow_has_audit,
                workflows_path@,
                primary_path@,
            ));
            Ok(fs)
        },
        Some(text) => match parse_toml(text.as_str()) {
            Ok(d) => {
                let license = pyproject_license(&d);
                let deps = pyproject_dependencies(&d);
                let facts = python_facts_with(
                    true,
                    license,
                    deps,
                    pyproject_path,
                    requirements,
                    has_requirements_files,
                    has_lockfile,
                    workflow_has_audit,
                    workflows_path,
                    primary_path,
                );
                let fs = analyze_python_deps(&facts);
                assert(python_facts_match(
                    facts,
                    Some(d),
                    pyproject_path@,
                    views(requirements@),
                    has_requirements_files,
                    has_lockfile,
                    workflow_has_audit,
                    workflows_path@,
                    primary_path@,
                ));
                Ok(fs)
            },
            Err(e) => Err(e),
        },
    }
}

fn python_facts_with(
    present: bool,
    license: Option<String>,
    deps: Vec<String>,
    pyproject_path: &str,
    requirements: &Vec<String>,
    has_requirements_files: bool,
    has_lockfile: bool,
    workflow_has_audit: bool,
    workflows_path: &str,
    primary_path: &str,
) -> (f: PythonDepsFacts)
    ensures
        f.pyproject_present == present,
        crate::structured::opt_text(f.pyproject_license) == crate::structured::opt_text(license),
        views(f.pyproject_dependencies@) == views(deps@),
        f.pyproject_path@ == pyproject_path@,
        views(f.requirements@) == views(requirements@),
        f.has_requirements_files == has_requirements_files,
        f.has_lockfile == has_lockfile,
        f.workflow_has_audit == workflow_has_audit,
        f.workflows_path@ == workflows_path@,
        f.primary_path@ == primary_path@,
{
    PythonDepsFacts {
        pyproject_present: present,
        pyproject_path: pyproject_path.to_owned(),
        has_requirements_files,
        requirements: crate::security::clone_strings(requirements),
        pyproject_license: license,
        pyproject_dependencies: deps,
        has_lockfile,
        workflow_has_audit,
        workflows_path: workflows_path.to_owned(),
        primary_path: primary_path.to_owned(),
    }
}

// ---------------------------------------------------------------------------
// Workflow files
// ---------------------------------------------------------------------------

/// The `uses` strings of a value and everything below it, mapping entries
/// in order: an entry keyed `uses` with a string value gives that string,
/// then its value is searched.
pub open spec fn uses_in(v: DocValue) -> Seq<Seq<char>>
    decreases v, 1nat, 0int,
{
    match v {
        DocValue::Mapping(es) => uses_in_entries(v, es@.len() as int),
        DocValue::List(xs) => uses_in_items(v, xs@.len() as int),
        _ => Seq::empty(),
    }
}

pub open spec fn uses_in_entries(v: DocValue, n: int) -> Seq<Seq<char>>
    decreases v, 0nat, n,
{
    match v {
        DocValue::Mapping(es) => if n <= 0 || n > es@.len() {
            Seq::empty()
        } else {
            let e = es@[n - 1];
            proof {
                assert(decreases_to!(v => es));
                assert(decreases_to!(es => es@));
                assert(decreases_to!(es@ => es@[n - 1]));
            }
            uses_in_entries(v, n - 1) + (if crate::structured::key_is(e.0, "uses"@) && e.1 is Str {
                seq![e.1->Str_0@]
            } else {
                Seq::empty()
            }) + uses_in(e.1)
        },
        _ => Seq::empty(),
    }
}

pub open spec fn uses_in_items(v: DocValue, n: int) -> Seq<Seq<char>>
    decreases v, 0nat, n,
{
    match v {
        DocValue::List(xs) => if n <= 0 || n > xs@.len() {
            Seq::empty()
        } else {
            proof {
                assert(decreases_to!(v => xs));
                assert(decreases_to!(xs => xs@));
                assert(decreases_to!(xs@ => xs@[n - 1]));
            }
            uses_in_items(v, n - 1) + uses_in(xs@[n - 1])
        },
        _ => Seq::empty(),
    }
}

fn collect_uses(v: &DocValue, out: &mut Vec<String>)
    ensures
        views(final(out)@) == views(old(out)@) + uses_in(*v),
    decreases v,
{
    let ghost start = views(out@);
    match v {
        DocValue::Mapping(es) => {
            let mut i: usize = 0;
            assert(views(out@) =~= start + uses_in_entries(*v, 0));
            while i < es.len()
                invariant
                    i <= es.len(),
                    *v == DocValue::Mapping(*es),
                    views(out@) == start + uses_in_entries(*v, i as int),
                decreases es.len() - i,
            {
                let ghost before = views(out@);
                let e = &es[i];
                if crate::structured::is_key(&e.0, "uses") {
                    if let DocValue::Str(u) = &e.1 {
                        out.push(u.clone());
                        assert(views(out@) =~= before + seq![u@]);
                    } else {
                        assert(views(out@) =~= before + Seq::<Seq<char>>::empty());
                    }
                } else {
                    assert(views(out@) =~= before + Seq::<Seq<char>>::empty());
                }
                proof {
                    assert(decreases_to!(*v => *es));
                    assert(decreases_to!(*es => es@));
                    assert(decreases_to!(es@ => es@[i as int]));
                }
                collect_uses(&e.1, out);
                i += 1;
            }
            assert(views(out@) == start + uses_in(*v));
        },
        DocValue::List(xs) => {
            let mut i: usize = 0;
            assert(views(out@) =~= start + uses_in_items(*v, 0));
            while i < xs.len()
                invariant
                    i <= xs.len(),
                    *v == DocValue::List(*xs),
                    views(out@) == start + uses_in_items(*v, i as int),
                decreases xs.len() - i,
            {
                proof {
                    assert(decreases_to!(*v => *xs));
                    assert(decreases_to!(*xs => xs@));
                    assert(decreases_to!(xs@ => xs@[i as int]));
                }
                collect_uses(&xs[i], out);
                i += 1;
            }
        },
        _ => {
            assert(views(out@) =~= start + Seq::<Seq<char>>::empty());
        },
    }
}

/// A job entry: a string id whose body is a mapping, and whether that
/// body sets `timeout-minutes`.
pub open spec fn job_entry(e: (DocValue, DocValue)) -> Option<(Seq<char>, bool)> {
    match (key_text(e.0), e.1) {
        (Some(id), DocValue::Mapping(t)) => Some((id, entry_for(t@, "timeout-minutes"@) is Some)),
        _ => None,
    }
}

pub open spec fn job_entries(es: Seq<(DocValue, DocValue)>) -> Seq<(Seq<char>, bool)>
    decreases es.len(),
{
    if es.len() == 0 {
        Seq::empty()
    } else {
        job_entries(es.drop_last()) + match job_entry(es.last()) {
            Some(j) => seq![j],
            None => Seq::empty(),
        }
    }
}

pub open spec fn job_views(jobs: Seq<WorkflowJob>) -> Seq<(Seq<char>, bool)> {
    jobs.map_values(|j: WorkflowJob| (j.id@, j.has_timeout))
}

/// The document holds what a workflow file that parsed as a mapping gives.
pub open spec fn workflow_doc_matches(w: WorkflowDocument, path: Seq<char>, doc: DocValue) -> bool {
    &&& w.path@ == path
    &&& w.has_permissions == (member(doc, "permissions"@) is Some)
    &&& w.has_concurrency == (member(doc, "concurrency"@) is Some)
    &&& job_views(w.jobs@) == job_entries(entries_of(member(doc, "jobs"@)))
    &&& views(w.uses@) == uses_in(doc)
}

fn workflow_jobs(jobs: Option<&DocValue>) -> (r: Vec<WorkflowJob>)
    ensures
        job_views(r@) == job_entries(
            entries_of(
                match jobs {
                    Some(x) => Some(*x),
                    None => None,
                },
            ),
        ),
{
    let mut r: Vec<WorkflowJob> = Vec::new();
    let es = match jobs {
        Some(DocValue::Mapping(es)) => es,
        _ => {
            assert(job_views(r@) =~= Seq::<(Seq<char>, bool)>::empty());
            return r;
        },
    };
    let mut i: usize = 0;
    while i < es.len()
        invariant
            i <= es.len(),
            job_views(r@) == job_entries(es@.take(i as int)),
        decreases es.len() - i,
    {
        assert(es@.take(i + 1).drop_last() =~= es@.take(i as int));
        assert(es@.take(i + 1).last() == es@[i as int]);
        let ghost before = job_views(r@);
        match (key_string(&es[i].0), &es[i].1) {
            (Some(id), DocValue::Mapping(t)) => {
                let has_timeout = has_entry(t, "timeout-minutes");
                r.push(WorkflowJob { id, has_timeout });
                assert(job_views(r@) =~= before + seq![(r@.last().id@, has_timeout)]);
            },
            _ => {
                assert(job_views(r@) =~= before + Seq::<(Seq<char>, bool)>::empty());
            },
        }
        i += 1;
    }
    assert(es@.take(es.len() as int) =~= es@);
    r
}

/// A workflow file as the hygiene checks read it: `None` where its text is
/// no YAML or not a mapping.
pub fn workflow_document(path: &str, text: &str) -> (r: Option<WorkflowDocument>)
    ensures
        match yaml_parse_of(text@) {
            Some(doc) => if doc is Mapping {
                r matches Some(w) && workflow_doc_matches(w, path@, doc)
            } else {
                r is None
            },
            None => r is None,
        },
{
    let doc = match parse_yaml(text) {
        Ok(d) => d,
        Err(_) => {
            return None;
        },
    };
    if !(match &doc {
        DocValue::Mapping(_) => true,
        _ => false,
    }) {
        return None;
    }
    let mut uses: Vec<String> = Vec::new();
    collect_uses(&doc, &mut uses);
    assert(views(uses@) =~= uses_in(doc));
    Some(WorkflowDocument {
        path: path.to_owned(),
        has_permissions: member_of(&doc, "permissions").is_some(),
        has_concurrency: member_of(&doc, "concurrency").is_some(),
        jobs: workflow_jobs(member_of(&doc, "jobs")),
        uses,
    })
}

/// The documents of the files, in order, those that are no YAML mapping
/// left out.
pub open spec fn workflow_docs_match(ds: Seq<WorkflowDocument>, files: Seq<(String, String)>) -> bool
    decreases files.len(),
{
    if files.len() == 0 {
        ds.len() == 0
    } else {
        let f = files.last();
        match yaml_parse_of(f.1@) {
            Some(doc) => if doc is Mapping {
                ds.len() > 0 && workflow_doc_matches(ds.last(), f.0@, doc) && workflow_docs_match(
                    ds.drop_last(),
                    files.drop_last(),
                )
            } else {
                workflow_docs_match(ds, files.drop_last())
            },
            None => workflow_docs_match(ds, files.drop_last()),
        }
    }
}

/// The hygiene findings of workflow files given as path and text; a file
/// whose text is no YAML mapping is skipped.
pub fn workflow_hygiene_of_files(files: &Vec<(String, String)>) -> (r: Vec<DoctorFinding>)
    ensures
        exists|ds: Seq<WorkflowDocument>|
            #[trigger] workflow_docs_match(ds, files@) && views_of(r@) == hygiene_findings_spec(ds),
{
    let mut docs: Vec<WorkflowDocument> = Vec::new();
    let mut i: usize = 0;
    while i < files.len()
        invariant
            i <= files.len(),
            workflow_docs_match(docs@, files@.take(i as int)),
        decreases files.len() - i,
    {
        assert(files@.take(i + 1).drop_last() =~= files@.take(i as int));
        assert(files@.take(i + 1).last() == files@[i as int]);
        let ghost before = docs@;
        match workflow_document(files[i].0.as_str(), files[i].1.as_str()) {
            Some(w) => {
                docs.push(w);
                assert(docs@.drop_last() =~= before);
            },
            None => {},
        }
        i += 1;
    }
    assert(files@.take(files.len() as int) =~= files@);
    let r = workflow_hygiene_findings(&docs);
    assert(workflow_docs_match(docs@, files@));
    r
}

// ---------------------------------------------------------------------------
// cargo-deny diagnostics
// ---------------------------------------------------------------------------

/// A string member's text, or the empty text.
pub open spec fn text_or_empty(o: Option<DocValue>) -> Seq<char> {
    match str_of(o) {
        Some(t) => t,
        None => Seq::empty(),
    }
}

/// The `fields` object of a diagnostic line; an empty object otherwise.
pub open spec fn deny_fields_object(doc: DocValue) -> DocValue {
    match member(doc, "fields"@) {
        Some(DocValue::Mapping(es)) => DocValue::Mapping(es),
        _ => DocValue::Other,
    }
}

/// The advisory object's `id`, `package` and `informational` strings.
pub open spec fn deny_advisory_spec(fields: DocValue) -> Option<(Option<Seq<char>>, Option<Seq<char>>, Option<Seq<char>>)> {
    match member(fields, "advisory"@) {
        Some(a) => if a is Mapping {
            Some((str_of(member(a, "id"@)), str_of(member(a, "package"@)), str_of(member(a, "informational"@))))
        } else {
            None
        },
        None => None,
    }
}

/// `graphs[0].Krate.version`.
pub open spec fn deny_krate_version(fields: DocValue) -> Option<Seq<char>> {
    let graphs = items_of(member(fields, "graphs"@));
    if graphs.len() == 0 {
        None
    } else {
        match member(graphs[0], "Krate"@) {
            Some(k) => str_of(member(k, "version"@)),
            None => None,
        }
    }
}

pub open spec fn cvss_view(c: Option<CvssScore>) -> Option<(CvssBand, Seq<char>)> {
    match c {
        Some(x) => Some((x.band, x.text@)),
        None => None,
    }
}

/// The fields hold what a parsed diagnostic line gives, with `cvss` as the
/// advisory's score.
pub open spec fn deny_fields_match(f: CargoDenyFields, doc: DocValue, cvss: Option<CvssScore>) -> bool {
    let fields = deny_fields_object(doc);
    &&& f.level@ == text_or_empty(member(fields, "level"@))
    &&& f.severity@ == text_or_empty(member(fields, "severity"@))
    &&& f.code@ == text_or_empty(member(fields, "code"@))
    &&& f.message@ == text_or_empty(member(fields, "message"@))
    &&& crate::structured::opt_text(f.krate_version) == deny_krate_version(fields)
    &&& match (f.advisory, deny_advisory_spec(fields)) {
        (None, None) => true,
        (Some(a), Some((id, package, informational))) => crate::structured::opt_text(a.id) == id
            && crate::structured::opt_text(a.package) == package && crate::structured::opt_text(
            a.informational,
        ) == informational && cvss_view(a.cvss) == cvss_view(cvss),
        _ => false,
    }
}

fn text_member(v: &DocValue, key: &str) -> (r: String)
    ensures
        r@ == text_or_empty(member(*v, key@)),
{
    match member_of(v, key) {
        Some(DocValue::Str(s)) => s.clone(),
        _ => String::new(),
    }
}

fn str_member(v: &DocValue, key: &str) -> (r: Option<String>)
    ensures
        crate::structured::opt_text(r) == str_of(member(*v, key@)),
{
    match member_of(v, key) {
        Some(DocValue::Str(s)) => Some(s.clone()),
        _ => None,
    }
}

/// The fields of a parsed cargo-deny diagnostic, with `cvss` as the
/// advisory's score (read apart, being a floating-point number).
pub fn deny_fields(doc: &DocValue, cvss: Option<CvssScore>) -> (r: CargoDenyFields)
    ensures
        deny_fields_match(r, *doc, cvss),
{
    let empty = DocValue::Other;
    let fields: &DocValue = match member_of(doc, "fields") {
        Some(DocValue::Mapping(es)) => member_of(doc, "fields").unwrap(),
        _ => &empty,
    };
    assert(*fields == deny_fields_object(*doc) || (deny_fields_object(*doc) is Other && *fields is Other));
    let advisory = match member_of(fields, "advisory") {
        Some(a) => match a {
            DocValue::Mapping(_) => Some(CargoDenyAdvisory {
                id: str_member(a, "id"),
                package: str_member(a, "package"),
                informational: str_member(a, "informational"),
                cvss,
            }),
            _ => None,
        },
        None => None,
    };
    let krate_version = match member_of(fields, "graphs") {
        Some(DocValue::List(graphs)) => if graphs.len() == 0 {
            None
        } else {
            match member_of(&graphs[0], "Krate") {
                Some(k) => str_member(k, "version"),
                None => None,
            }
        },
        _ => None,
    };
    CargoDenyFields {
        level: text_member(fields, "level"),
        severity: text_member(fields, "severity"),
        code: text_member(fields, "code"),
        message: text_member(fields, "message"),
        advisory,
        krate_version,
    }
}

/// One line of cargo-deny's JSON output: its fields, or the parser's
/// message.
pub fn parse_deny_line(line: &str, cvss: Option<CvssScore>) -> (r: Result<CargoDenyFields, String>)
    ensures
        match json_parse_of(line@) {
            Some(doc) => r matches Ok(f) && deny_fields_match(f, doc, cvss),
            None => r is Err,
        },
{
    match parse_json(line) {
        Ok(doc) => Ok(deny_fields(&doc, cvss)),
        Err(e) => Err(e),
    }
}

// ---------------------------------------------------------------------------
// Release fields
// ---------------------------------------------------------------------------

/// `package.version` or `workspace.package.version` is a string.
pub open spec fn cargo_has_version(doc: DocValue) -> bool {
    str_of(at_path(doc, seq!["package"@, "version"@])) is Some || str_of(
        at_path(doc, seq!["workspace"@, "package"@, "version"@]),
    ) is Some
}

pub fn cargo_version_declared(doc: &DocValue) -> (b: bool)
    ensures
        b == cargo_has_version(*doc),
{
    has_string_at(doc, &two("package", "version")) || has_string_at(
        doc,
        &three("workspace", "package", "version"),
    )
}

/// A `package.json` is private when `private` is `true`.
pub open spec fn node_is_private(doc: DocValue) -> bool {
    member(doc, "private"@) matches Some(DocValue::Bool(b)) && b
}

pub fn node_private(doc: &DocValue) -> (b: bool)
    ensures
        b == node_is_private(*doc),
{
    match member_of(doc, "private") {
        Some(DocValue::Bool(b)) => *b,
        _ => false,
    }
}

/// `version` is a string field of a `package.json`.
pub fn node_version_declared(doc: &DocValue) -> (b: bool)
    ensures
        b == (str_of(member(*doc, "version"@)) is Some),
{
    match member_of(doc, "version") {
        Some(DocValue::Str(_)) => true,
        _ => false,
    }
}

/// The list holds the string `text`.
pub open spec fn lists_string(xs: Seq<DocValue>, text: Seq<char>) -> bool {
    exists|i: int| 0 <= i < xs.len() && crate::structured::key_is(#[trigger] xs[i], text)
}

/// A pyproject declares a version: `project.version` or
/// `tool.poetry.version` as a string, `version` among `project.dynamic`,
/// or a `tool.setuptools_scm` or `tool.hatch.version` table.
pub open spec fn pyproject_has_version(doc: DocValue) -> bool {
    ||| str_of(at_path(doc, seq!["project"@, "version"@])) is Some
    ||| str_of(at_path(doc, seq!["tool"@, "poetry"@, "version"@])) is Some
    ||| lists_string(items_of(at_path(doc, seq!["project"@, "dynamic"@])), "version"@)
    ||| at_path(doc, seq!["tool"@, "setuptools_scm"@]) matches Some(DocValue::Mapping(_))
    ||| at_path(doc, seq!["tool"@, "hatch"@, "version"@]) matches Some(DocValue::Mapping(_))
}

fn is_mapping(o: Option<&DocValue>) -> (b: bool)
    ensures
        b == (match o {
            Some(x) => *x is Mapping,
            None => false,
        }),
{
    match o {
        Some(DocValue::Mapping(_)) => true,
        _ => false,
    }
}

pub fn pyproject_version_declared(doc: &DocValue) -> (b: bool)
    ensures
        b == pyproject_has_version(*doc),
{
    if has_string_at(doc, &two("project", "version")) || has_string_at(
        doc,
        &three("tool", "poetry", "version"),
    ) {
        return true;
    }
    let dynamic = match path_of(doc, &two("project", "dynamic")) {
        Some(DocValue::List(xs)) => {
            let mut found = false;
            let mut i: usize = 0;
            while i < xs.len()
                invariant
                    i <= xs.len(),
                    found == exists|k: int| 0 <= k < i && crate::structured::key_is(#[trigger] xs@[k], "version"@),
                decreases xs.len() - i,
            {
                if crate::structured::is_key(&xs[i], "version") {
                    found = true;
                }
                i += 1;
            }
            found
        },
        _ => false,
    };
    dynamic || is_mapping(path_of(doc, &two("tool", "setuptools_scm"))) || is_mapping(
        path_of(doc, &three("tool", "hatch", "version")),
    )
}

// ---------------------------------------------------------------------------
// Manifest metadata
// ---------------------------------------------------------------------------

/// Where a manifest keeps its metadata: `[package]` in `Cargo.toml`, the
/// top level of `package.json`, `[project]` in `pyproject.toml`.
pub open spec fn metadata_prefix(kind: ProjectKind) -> Seq<Seq<char>> {
    match kind {
        ProjectKind::Rust => seq!["package"@],
        ProjectKind::Python => seq!["project"@],
        _ => Seq::empty(),
    }
}

pub open spec fn meta_str(doc: DocValue, kind: ProjectKind, field: Seq<char>) -> Option<Seq<char>> {
    str_of(at_path(doc, metadata_prefix(kind).push(field)))
}

pub open spec fn meta_list(doc: DocValue, kind: ProjectKind, field: Seq<char>) -> Seq<Seq<char>> {
    strings_in(items_of(at_path(doc, metadata_prefix(kind).push(field))))
}

/// The string keys of a mapping's entries, in order.
pub open spec fn key_texts(es: Seq<(DocValue, DocValue)>) -> Seq<Seq<char>>
    decreases es.len(),
{
    if es.len() == 0 {
        Seq::empty()
    } else {
        key_texts(es.drop_last()) + match key_text(es.last().0) {
            Some(k) => seq![k],
            None => Seq::empty(),
        }
    }
}

/// The declared dependencies: the names of `[dependencies]` or
/// `dependencies`, or the specs of `project.dependencies`.
pub open spec fn meta_dependencies(doc: DocValue, kind: ProjectKind) -> Seq<Seq<char>> {
    match kind {
        ProjectKind::Rust => key_texts(entries_of(at_path(doc, seq!["dependencies"@]))),
        ProjectKind::Node => key_texts(entries_of(at_path(doc, seq!["dependencies"@]))),
        _ => strings_in(items_of(at_path(doc, seq!["project"@, "dependencies"@]))),
    }
}

/// The metadata hold what the parsed manifest of a project of `kind` gives.
pub open spec fn metadata_matches(m: ManifestMetadata, kind: ProjectKind, doc: DocValue) -> bool {
    &&& crate::structured::opt_text(m.description) == meta_str(doc, kind, "description"@)
    &&& crate::structured::opt_text(m.license) == meta_str(doc, kind, "license"@)
    &&& crate::structured::opt_text(m.repository) == meta_str(doc, kind, "repository"@)
    &&& crate::structured::opt_text(m.homepage) == meta_str(doc, kind, "homepage"@)
    &&& crate::structured::opt_text(m.version) == meta_str(doc, kind, "version"@)
    &&& views(m.keywords@) == meta_list(doc, kind, "keywords"@)
    &&& views(m.categories@) == meta_list(doc, kind, "categories"@)
    &&& views(m.dependencies@) == meta_dependencies(doc, kind)
}

fn meta_path(kind: ProjectKind, field: &'static str) -> (r: Vec<&'static str>)
    ensures
        r@.map_values(|s: &str| s@) == metadata_prefix(kind).push(field@),
{
    let mut v: Vec<&'static str> = Vec::new();
    match kind {
        ProjectKind::Rust => v.push("package"),
        ProjectKind::Python => v.push("project"),
        _ => {},
    }
    v.push(field);
    assert(v@.map_values(|s: &str| s@) =~= metadata_prefix(kind).push(field@));
    v
}

fn key_names(o: Option<&DocValue>) -> (r: Vec<String>)
    ensures
        views(r@) == key_texts(
            entries_of(
                match o {
                    Some(x) => Some(*x),
                    None => None,
                },
            ),
        ),
{
    let mut r: Vec<String> = Vec::new();
    let es = match o {
        Some(DocValue::Mapping(es)) => es,
        _ => {
            assert(views(r@) =~= Seq::<Seq<char>>::empty());
            return r;
        },
    };
    let mut i: usize = 0;
    while i < es.len()
        invariant
            i <= es.len(),
            views(r@) == key_texts(es@.take(i as int)),
        decreases es.len() - i,
    {
        assert(es@.take(i + 1).drop_last() =~= es@.take(i as int));
        assert(es@.take(i + 1).last() == es@[i as int]);
        let ghost before = views(r@);
        match key_string(&es[i].0) {
            Some(k) => {
                r.push(k);
                assert(views(r@) =~= before + seq![r@.last()@]);
            },
            None => {
                assert(views(r@) =~= before + Seq::<Seq<char>>::empty());
            },
        }
        i += 1;
    }
    assert(es@.take(es.len() as int) =~= es@);
    r
}

fn meta_strings(doc: &DocValue, kind: ProjectKind, field: &'static str) -> (r: Vec<String>)
    ensures
        views(r@) == meta_list(*doc, kind, field@),
{
    let mut out: Vec<String> = Vec::new();
    push_strings(path_of(doc, &meta_path(kind, field)), &mut out);
    assert(views(out@) =~= meta_list(*doc, kind, field@));
    out
}

/// The metadata of a parsed manifest of a project of `kind`.
pub fn manifest_metadata_of(kind: ProjectKind, doc: &DocValue) -> (m: ManifestMetadata)
    ensures
        metadata_matches(m, kind, *doc),
{
    let dependencies = match kind {
        ProjectKind::Rust | ProjectKind::Node => key_names(path_of(doc, &one("dependencies"))),
        _ => {
            let mut out: Vec<String> = Vec::new();
            push_strings(path_of(doc, &two("project", "dependencies")), &mut out);
            assert(views(out@) =~= meta_dependencies(*doc, kind));
            out
        },
    };
    ManifestMetadata {
        description: str_value(path_of(doc, &meta_path(kind, "description"))),
        license: str_value(path_of(doc, &meta_path(kind, "license"))),
        repository: str_value(path_of(doc, &meta_path(kind, "repository"))),
        homepage: str_value(path_of(doc, &meta_path(kind, "homepage"))),
        version: str_value(path_of(doc, &meta_path(kind, "version"))),
        keywords: meta_strings(doc, kind, "keywords"),
        categories: meta_strings(doc, kind, "categories"),
        dependencies,
    }
}

fn one(a: &'static str) -> (r: Vec<&'static str>)
    ensures
        r@.map_values(|s: &str| s@) == seq![a@],
{
    let mut v: Vec<&'static str> = Vec::new();
    v.push(a);
    assert(v@.map_values(|s: &str| s@) =~= seq![a@]);
    v
}

// ---------------------------------------------------------------------------
// Engine reports: pip-audit and audit-ci
// ---------------------------------------------------------------------------

pub type PipVulnView = (Seq<char>, Seq<Seq<char>>);

pub type PipPackageView = (Seq<char>, Seq<PipVulnView>);

pub open spec fn pip_vuln_view(v: PipVuln) -> PipVulnView {
    (v.id@, views(v.fix_versions@))
}

pub open spec fn pip_package_view(p: PipPackage) -> PipPackageView {
    (p.name@, p.vulns@.map_values(|v: PipVuln| pip_vuln_view(v)))
}

pub open spec fn pip_package_views(ps: Seq<PipPackage>) -> Seq<PipPackageView> {
    ps.map_values(|p: PipPackage| pip_package_view(p))
}

/// A string member's text, or `fallback`.
pub open spec fn text_or(o: Option<DocValue>, fallback: Seq<char>) -> Seq<char> {
    match str_of(o) {
        Some(t) => t,
        None => fallback,
    }
}

/// A vulnerability record: its `id` (`unknown-vuln` when absent) and the
/// strings of its `fix_versions`.
pub open spec fn pip_vuln_spec(v: DocValue) -> PipVulnView {
    (text_or(member(v, "id"@), "unknown-vuln"@), strings_in(items_of(member(v, "fix_versions"@))))
}

/// A package record: its `name` (`package` when absent) and its `vulns`.
pub open spec fn pip_package_spec(p: DocValue) -> PipPackageView {
    (
        text_or(member(p, "name"@), "package"@),
        items_of(member(p, "vulns"@)).map_values(|v: DocValue| pip_vuln_spec(v)),
    )
}

/// The package records of a pip-audit report: the `dependencies` list, or
/// the report itself where it is a list.
pub open spec fn pip_records(doc: DocValue) -> Seq<DocValue> {
    match member(doc, "dependencies"@) {
        Some(DocValue::List(xs)) => xs@,
        _ => match doc {
            DocValue::List(xs) => xs@,
            _ => Seq::empty(),
        },
    }
}

pub open spec fn pip_packages_spec(doc: DocValue) -> Seq<PipPackageView> {
    pip_records(doc).map_values(|p: DocValue| pip_package_spec(p))
}

fn text_member_or(v: &DocValue, key: &str, fallback: &str) -> (r: String)
    ensures
        r@ == text_or(member(*v, key@), fallback@),
{
    match member_of(v, key) {
        Some(DocValue::Str(s)) => s.clone(),
        _ => fallback.to_owned(),
    }
}

fn pip_vuln_of(v: &DocValue) -> (r: PipVuln)
    ensures
        pip_vuln_view(r) == pip_vuln_spec(*v),
{
    let mut fixes: Vec<String> = Vec::new();
    push_strings(member_of(v, "fix_versions"), &mut fixes);
    assert(views(fixes@) =~= strings_in(items_of(member(*v, "fix_versions"@))));
    PipVuln { id: text_member_or(v, "id", "unknown-vuln"), fix_versions: fixes }
}

fn pip_package_of(p: &DocValue) -> (r: PipPackage)
    ensures
        pip_package_view(r) == pip_package_spec(*p),
{
    let mut vulns: Vec<PipVuln> = Vec::new();
    let ghost items = items_of(member(*p, "vulns"@));
    match member_of(p, "vulns") {
        Some(DocValue::List(xs)) => {
            let mut i: usize = 0;
            while i < xs.len()
                invariant
                    i <= xs.len(),
                    items == xs@,
                    vulns@.map_values(|v: PipVuln| pip_vuln_view(v)) == xs@.take(i as int).map_values(
                        |v: DocValue| pip_vuln_spec(v),
                    ),
                decreases xs.len() - i,
            {
                let v = pip_vuln_of(&xs[i]);
                let ghost prev = vulns@;
                vulns.push(v);
                assert(vulns@.map_values(|v: PipVuln| pip_vuln_view(v)) =~= prev.map_values(
                    |v: PipVuln| pip_vuln_view(v),
                ).push(pip_vuln_view(v)));
                assert(xs@.take(i + 1).map_values(|v: DocValue| pip_vuln_spec(v)) =~= xs@.take(
                    i as int,
                ).map_values(|v: DocValue| pip_vuln_spec(v)).push(pip_vuln_spec(xs@[i as int])));
                assert(vulns@.map_values(|v: PipVuln| pip_vuln_view(v)) =~= xs@.take(i + 1).map_values(
                    |v: DocValue| pip_vuln_spec(v),
                ));
                i += 1;
            }
            assert(xs@.take(xs.len() as int) =~= xs@);
        },
        _ => {},
    }
    assert(vulns@.map_values(|v: PipVuln| pip_vuln_view(v)) =~= items.map_values(
        |v: DocValue| pip_vuln_spec(v),
    ));
    PipPackage { name: text_member_or(p, "name", "package"), vulns }
}

/// The packages of a parsed pip-audit report.
pub fn pip_packages_from_doc(doc: &DocValue) -> (r: Vec<PipPackage>)
    ensures
        pip_package_views(r@) == pip_packages_spec(*doc),
{
    let records: &Vec<DocValue> = match member_of(doc, "dependencies") {
        Some(DocValue::List(xs)) => xs,
        _ => match doc {
            DocValue::List(xs) => xs,
            _ => {
                let r: Vec<PipPackage> = Vec::new();
                assert(pip_package_views(r@) =~= pip_packages_spec(*doc));
                return r;
            },
        },
    };
    assert(records@ == pip_records(*doc));
    let mut r: Vec<PipPackage> = Vec::new();
    let mut i: usize = 0;
    while i < records.len()
        invariant
            i <= records.len(),
            pip_package_views(r@) == records@.take(i as int).map_values(|p: DocValue| pip_package_spec(p)),
        decreases records.len() - i,
    {
        let p = pip_package_of(&records[i]);
        let ghost prev = r@;
        r.push(p);
        assert(pip_package_views(r@) =~= pip_package_views(prev).push(pip_package_view(p)));
        assert(records@.take(i + 1).map_values(|p: DocValue| pip_package_spec(p)) =~= records@.take(
            i as int,
        ).map_values(|p: DocValue| pip_package_spec(p)).push(pip_package_spec(records@[i as int])));
        assert(pip_package_views(r@) =~= records@.take(i + 1).map_values(
            |p: DocValue| pip_package_spec(p),
        ));
        i += 1;
    }
    assert(records@.take(records.len() as int) =~= records@);
    r
}

/// pip-audit's combined output read as its first JSON value: the packages,
/// or the parser's message.
pub fn read_pip_audit(combined: &str) -> (r: Result<Vec<PipPackage>, String>)
    ensures
        match json_first_value_of(combined@) {
            Some(d) => r matches Ok(ps) && pip_package_views(ps@) == pip_packages_spec(d),
            None => r is Err,
        },
{
    match crate::structured::parse_json_first_value(combined) {
        Ok(d) => Ok(pip_packages_from_doc(&d)),
        Err(e) => Err(e),
    }
}

/// A count under `key` of an object: its unsigned value, else zero.
pub open spec fn count_at(o: Option<DocValue>, key: Seq<char>) -> u64 {
    match o {
        Some(v) => match member(v, key) {
            Some(DocValue::Number(Some(n))) => n,
            _ => 0,
        },
        None => 0,
    }
}

/// The counts of an audit-ci report: `metadata.vulnerabilities.critical`,
/// `high`, `moderate`, `low` and `metadata.dependencies.total`, zero where
/// absent.
pub open spec fn audit_ci_counts_spec(doc: DocValue) -> AuditCiCounts {
    let meta = member(doc, "metadata"@);
    let vulns = match meta {
        Some(m) => member(m, "vulnerabilities"@),
        None => None,
    };
    let deps = match meta {
        Some(m) => member(m, "dependencies"@),
        None => None,
    };
    AuditCiCounts {
        critical: count_at(vulns, "critical"@),
        high: count_at(vulns, "high"@),
        moderate: count_at(vulns, "moderate"@),
        low: count_at(vulns, "low"@),
        total_dependencies: count_at(deps, "total"@),
    }
}

fn count_of(o: Option<&DocValue>, key: &str) -> (n: u64)
    ensures
        n == count_at(
            match o {
                Some(x) => Some(*x),
                None => None,
            },
            key@,
        ),
{
    match o {
        Some(v) => match member_of(v, key) {
            Some(DocValue::Number(Some(n))) => *n,
            _ => 0,
        },
        None => 0,
    }
}

pub fn audit_ci_counts(doc: &DocValue) -> (r: AuditCiCounts)
    ensures
        r == audit_ci_counts_spec(*doc),
{
    let meta = member_of(doc, "metadata");
    let (vulns, deps) = match meta {
        Some(m) => (member_of(m, "vulnerabilities"), member_of(m, "dependencies")),
        None => (None, None),
    };
    AuditCiCounts {
        critical: count_of(vulns, "critical"),
        high: count_of(vulns, "high"),
        moderate: count_of(vulns, "moderate"),
        low: count_of(vulns, "low"),
        total_dependencies: count_of(deps, "total"),
    }
}

/// audit-ci's standard output, trimmed and parsed: its counts, or the
/// parser's message.
pub fn read_audit_ci(stdout: &str) -> (r: Result<AuditCiCounts, String>)
    ensures
        match json_parse_of(crate::text::trim_seq(stdout@)) {
            Some(d) => r == Ok::<AuditCiCounts, String>(audit_ci_counts_spec(d)),
            None => r is Err,
        },
{
    let trimmed = crate::text::trim(stdout);
    match parse_json(trimmed.as_str()) {
        Ok(d) => Ok(audit_ci_counts(&d)),
        Err(e) => Err(e),
    }
}

} // verus!
