//! The dependency doctor's own checks for Rust, Node and Python manifests:
//! lockfiles, licenses, policies, and risky version or source specs.
use vstd::prelude::*;
use crate::doctor::{
    full_finding, full_view, listed, listed_string, plain_finding, plain_view, push_when, view_of,
    views_of, finding_if, DoctorDomain, DoctorEcosystem, DoctorFinding, DoctorSeverity, FindingView,
};
use crate::text::{str_eq, trim, trim_seq, views};

verus! {

// ---------------------------------------------------------------------------
// Rust
// ---------------------------------------------------------------------------

/// How a `Cargo.toml` dependency is written: a bare version string, or a
/// table with an optional version string and `git`, `path`, `registry` keys.
#[derive(Debug, Clone)]
pub enum CargoDepSpec {
    Version(String),
    Table { version: Option<String>, git: bool, path: bool, registry: bool },
}

/// One dependency of the manifest, by name (names are unique, in order).
#[derive(Debug, Clone)]
pub struct CargoDependency {
    pub name: String,
    pub spec: CargoDepSpec,
}

pub open spec fn is_star(v: Seq<char>) -> bool {
    trim_seq(v) == "*"@
}

pub open spec fn cargo_wildcard(d: CargoDependency) -> bool {
    match d.spec {
        CargoDepSpec::Version(v) => is_star(v@),
        CargoDepSpec::Table { version, .. } => version matches Some(v) && is_star(v@),
    }
}

pub open spec fn cargo_git(d: CargoDependency) -> bool {
    d.spec matches CargoDepSpec::Table { git, .. } && git
}

pub open spec fn cargo_path(d: CargoDependency) -> bool {
    d.spec matches CargoDepSpec::Table { path, .. } && path
}

pub open spec fn cargo_registry(d: CargoDependency) -> bool {
    d.spec matches CargoDepSpec::Table { registry, .. } && registry
}

/// Names of the dependencies of the given kind (0 wildcard, 1 git,
/// 2 path, 3 registry), in order.
pub open spec fn cargo_kind(d: CargoDependency, kind: int) -> bool {
    if kind == 0 {
        cargo_wildcard(d)
    } else if kind == 1 {
        cargo_git(d)
    } else if kind == 2 {
        cargo_path(d)
    } else {
        cargo_registry(d)
    }
}

pub open spec fn cargo_names(deps: Seq<CargoDependency>, kind: int) -> Seq<Seq<char>>
    decreases deps.len(),
{
    if deps.len() == 0 {
        Seq::empty()
    } else {
        cargo_names(deps.drop_last(), kind) + if cargo_kind(deps.last(), kind) {
            seq![deps.last().name@]
        } else {
            Seq::empty()
        }
    }
}

/// Everything the Rust dependency check reads from the repository.
pub struct RustDepsFacts {
    /// `Cargo.toml` is a file at the root.
    pub manifest_present: bool,
    pub manifest_path: String,
    pub policy_path: String,
    pub dependencies: Vec<CargoDependency>,
    pub has_lockfile: bool,
    pub has_policy: bool,
    /// `package.license` or `workspace.package.license` is a string.
    pub has_license: bool,
}

pub open spec fn rust_deps_findings_spec(f: RustDepsFacts) -> Seq<FindingView> {
    let d = DoctorDomain::Deps;
    let e = DoctorEcosystem::Rust;
    let m = f.manifest_path@;
    let deps = f.dependencies@;
    let engine = "cargo-deny semantics"@;
    if !f.manifest_present {
        seq![
            plain_view(
                d,
                e,
                DoctorSeverity::Info,
                "deps.rust.not-detected"@,
                "No Cargo.toml was detected at the repository root."@,
                "Run `ossify doctor deps --ecosystem rust` from the Rust project root."@,
            ),
        ]
    } else {
        finding_if(
            deps.len() > 0 && !f.has_lockfile,
            full_view(
                d,
                e,
                DoctorSeverity::Warning,
                "deps.rust.lockfile.missing"@,
                "Cargo dependencies exist but Cargo.lock is missing."@,
                m,
                "Commit Cargo.lock for binaries and applications, and keep the resolved graph visible to maintainers."@,
                seq!["Cargo.lock"@],
                "Generate and commit Cargo.lock."@,
                engine,
            ),
        ) + finding_if(
            !f.has_license,
            full_view(
                d,
                e,
                DoctorSeverity::Warning,
                "deps.rust.license-missing"@,
                "Cargo package metadata does not declare a license expression."@,
                m,
                "Set `package.license` so consumers and policy tooling can reason about the published crate."@,
                seq!["package.license"@],
                "Add a valid SPDX license in Cargo.toml."@,
                engine,
            ),
        ) + finding_if(
            !f.has_policy,
            full_view(
                d,
                e,
                DoctorSeverity::Info,
                "deps.rust.policy-missing"@,
                "No `deny.toml` policy file was found for cargo-deny-style checks."@,
                f.policy_path@,
                "A visible dependency policy makes advisories, licenses, bans, and source exceptions auditable."@,
                seq!["deny.toml"@],
                "Add a deny.toml policy with explicit allowlists and ignores."@,
                engine,
            ),
        ) + finding_if(
            cargo_names(deps, 0).len() > 0,
            full_view(
                d,
                e,
                DoctorSeverity::Warning,
                "deps.rust.version.wildcard"@,
                listed("Wildcard Cargo dependency versions were found: "@, cargo_names(deps, 0)),
                m,
                "Prefer explicit version ranges so upgrades stay reviewable and repeatable."@,
                cargo_names(deps, 0),
                "Replace `*` version requirements with explicit semver ranges."@,
                engine,
            ),
        ) + finding_if(
            cargo_names(deps, 1).len() > 0,
            full_view(
                d,
                e,
                DoctorSeverity::Warning,
                "deps.rust.source.direct-source"@,
                listed("Git-sourced Cargo dependencies were found: "@, cargo_names(deps, 1)),
                m,
                "Git dependencies can be necessary, but they deserve explicit justification and review because they bypass crates.io release hygiene."@,
                cargo_names(deps, 1),
                "Prefer crates.io releases where possible, or document why the git dependency is required."@,
                engine,
            ),
        ) + finding_if(
            cargo_names(deps, 2).len() > 0,
            full_view(
                d,
                e,
                DoctorSeverity::Info,
                "deps.rust.source.path"@,
                listed("Local path Cargo dependencies were found: "@, cargo_names(deps, 2)),
                m,
                "Path dependencies are fine in a monorepo, but they are still worth surfacing as part of the dependency trust boundary."@,
                cargo_names(deps, 2),
                "Keep local path dependencies intentional and documented."@,
                engine,
            ),
        ) + finding_if(
            cargo_names(deps, 3).len() > 0,
            full_view(
                d,
                e,
                DoctorSeverity::Info,
                "deps.rust.source.registry"@,
                listed("Non-default Cargo registries were referenced: "@, cargo_names(deps, 3)),
                m,
                "Alternative registries should stay visible so maintainers can review provenance and access assumptions."@,
                cargo_names(deps, 3),
                "Document the alternative registry and why it is trusted."@,
                engine,
            ),
        )
    }
}

fn is_star_exec(v: &str) -> (b: bool)
    ensures
        b == is_star(v@),
{
    str_eq(trim(v).as_str(), "*")
}

fn cargo_kind_exec(d: &CargoDependency, kind: usize) -> (b: bool)
    ensures
        b == cargo_kind(*d, kind as int),
{
    match &d.spec {
        CargoDepSpec::Version(v) => kind == 0 && is_star_exec(v.as_str()),
        CargoDepSpec::Table { version, git, path, registry } => {
            if kind == 0 {
                match version {
                    Some(v) => is_star_exec(v.as_str()),
                    None => false,
                }
            } else if kind == 1 {
                *git
            } else if kind == 2 {
                *path
            } else {
                *registry
            }
        },
    }
}

fn cargo_names_exec(deps: &Vec<CargoDependency>, kind: usize) -> (r: Vec<String>)
    ensures
        views(r@) == cargo_names(deps@, kind as int),
{
    let mut r: Vec<String> = Vec::new();
    let mut i: usize = 0;
    while i < deps.len()
        invariant
            i <= deps.len(),
            views(r@) == cargo_names(deps@.take(i as int), kind as int),
        decreases deps.len() - i,
    {
        assert(deps@.take(i + 1).drop_last() =~= deps@.take(i as int));
        let ghost before = views(r@);
        if cargo_kind_exec(&deps[i], kind) {
            r.push(deps[i].name.clone());
            assert(views(r@) =~= before + seq![deps@[i as int].name@]);
        } else {
            assert(views(r@) =~= before + Seq::<Seq<char>>::empty());
        }
        i += 1;
    }
    assert(deps@.take(deps.len() as int) =~= deps@);
    r
}

#[verifier::rlimit(40)]
pub fn analyze_rust_deps(facts: &RustDepsFacts) -> (r: Vec<DoctorFinding>)
    ensures
        views_of(r@) == rust_deps_findings_spec(*facts),
{
    let d = DoctorDomain::Deps;
    let e = DoctorEcosystem::Rust;
    let engine = "cargo-deny semantics";
    let m = facts.manifest_path.as_str();
    let mut out: Vec<DoctorFinding> = Vec::new();
    if !facts.manifest_present {
        out.push(plain_finding(
            d,
            e,
            DoctorSeverity::Info,
            "deps.rust.not-detected",
            "No Cargo.toml was detected at the repository root.",
            "Run `ossify doctor deps --ecosystem rust` from the Rust project root.",
        ));
        assert(views_of(out@) =~= rust_deps_findings_spec(*facts));
        return out;
    }
    assert(views_of(out@) =~= Seq::<FindingView>::empty());
    push_when(
        &mut out,
        facts.dependencies.len() > 0 && !facts.has_lockfile,
        full_finding(
            d,
            e,
            DoctorSeverity::Warning,
            "deps.rust.lockfile.missing",
            "Cargo dependencies exist but Cargo.lock is missing.",
            m,
            "Commit Cargo.lock for binaries and applications, and keep the resolved graph visible to maintainers.",
            crate::doctor::one_item("Cargo.lock"),
            "Generate and commit Cargo.lock.",
            engine,
        ),
    );
    push_when(
        &mut out,
        !facts.has_license,
        full_finding(
            d,
            e,
            DoctorSeverity::Warning,
            "deps.rust.license-missing",
            "Cargo package metadata does not declare a license expression.",
            m,
            "Set `package.license` so consumers and policy tooling can reason about the published crate.",
            crate::doctor::one_item("package.license"),
            "Add a valid SPDX license in Cargo.toml.",
            engine,
        ),
    );
    push_when(
        &mut out,
        !facts.has_policy,
        full_finding(
            d,
            e,
            DoctorSeverity::Info,
            "deps.rust.policy-missing",
            "No `deny.toml` policy file was found for cargo-deny-style checks.",
            facts.policy_path.as_str(),
            "A visible dependency policy makes advisories, licenses, bans, and source exceptions auditable.",
            crate::doctor::one_item("deny.toml"),
            "Add a deny.toml policy with explicit allowlists and ignores.",
            engine,
        ),
    );
    let wildcard = cargo_names_exec(&facts.dependencies, 0);
    let git = cargo_names_exec(&facts.dependencies, 1);
    let local = cargo_names_exec(&facts.dependencies, 2);
    let registry = cargo_names_exec(&facts.dependencies, 3);
    push_when(
        &mut out,
        wildcard.len() > 0,
        full_finding(
            d,
            e,
            DoctorSeverity::Warning,
            "deps.rust.version.wildcard",
            listed_string("Wildcard Cargo dependency versions were found: ", &wildcard).as_str(),
            m,
            "Prefer explicit version ranges so upgrades stay reviewable and repeatable.",
            wildcard,
            "Replace `*` version requirements with explicit semver ranges.",
            engine,
        ),
    );
    push_when(
        &mut out,
        git.len() > 0,
        full_finding(
            d,
            e,
            DoctorSeverity::Warning,
            "deps.rust.source.direct-source",
            listed_string("Git-sourced Cargo dependencies were found: ", &git).as_str(),
            m,
            "Git dependencies can be necessary, but they deserve explicit justification and review because they bypass crates.io release hygiene.",
            git,
            "Prefer crates.io releases where possible, or document why the git dependency is required.",
            engine,
        ),
    );
    push_when(
        &mut out,
        local.len() > 0,
        full_finding(
            d,
            e,
            DoctorSeverity::Info,
            "deps.rust.source.path",
            listed_string("Local path Cargo dependencies were found: ", &local).as_str(),
            m,
            "Path dependencies are fine in a monorepo, but they are still worth surfacing as part of the dependency trust boundary.",
            local,
            "Keep local path dependencies intentional and documented.",
            engine,
        ),
    );
    push_when(
        &mut out,
        registry.len() > 0,
        full_finding(
            d,
            e,
            DoctorSeverity::Info,
            "deps.rust.source.registry",
            listed_string("Non-default Cargo registries were referenced: ", &registry).as_str(),
            m,
            "Alternative registries should stay visible so maintainers can review provenance and access assumptions.",
            registry,
            "Document the alternative registry and why it is trusted.",
            engine,
        ),
    );
    out
}

} // verus!

verus! {

// ---------------------------------------------------------------------------
// Node
// ---------------------------------------------------------------------------

/// A `package.json` dependency: its name and version spec string.
#[derive(Debug, Clone)]
pub struct NodeDependency {
    pub name: String,
    pub version: String,
}

pub open spec fn node_normalized(v: Seq<char>) -> Seq<char> {
    crate::text::ascii_lowercase(trim_seq(v))
}

pub open spec fn starts(s: Seq<char>, p: Seq<char>) -> bool {
    crate::text::starts_with(s, p)
}

/// 0: wildcard or `latest`; 1: git or URL source; 2: local file or link.
pub open spec fn node_class(v: Seq<char>) -> int {
    let n = node_normalized(v);
    if n == "*"@ || n == "latest"@ {
        0
    } else if starts(n, "git+"@) || starts(n, "github:"@) || starts(n, "http://"@) || starts(
        n,
        "https://"@,
    ) {
        1
    } else if starts(n, "file:"@) || starts(n, "link:"@) {
        2
    } else {
        3
    }
}

pub open spec fn node_names(deps: Seq<NodeDependency>, class: int) -> Seq<Seq<char>>
    decreases deps.len(),
{
    if deps.len() == 0 {
        Seq::empty()
    } else {
        node_names(deps.drop_last(), class) + if node_class(deps.last().version@) == class {
            seq![deps.last().name@]
        } else {
            Seq::empty()
        }
    }
}

fn node_class_exec(v: &str) -> (c: usize)
    ensures
        c == node_class(v@),
{
    let n = crate::text::to_ascii_lowercase(trim(v).as_str());
    let s = n.as_str();
    if str_eq(s, "*") || str_eq(s, "latest") {
        0
    } else if crate::text::str_starts_with(s, "git+") || crate::text::str_starts_with(s, "github:")
        || crate::text::str_starts_with(s, "http://") || crate::text::str_starts_with(
        s,
        "https://",
    ) {
        1
    } else if crate::text::str_starts_with(s, "file:") || crate::text::str_starts_with(s, "link:") {
        2
    } else {
        3
    }
}

fn node_names_exec(deps: &Vec<NodeDependency>, class: usize) -> (r: Vec<String>)
    ensures
        views(r@) == node_names(deps@, class as int),
{
    let mut r: Vec<String> = Vec::new();
    let mut i: usize = 0;
    while i < deps.len()
        invariant
            i <= deps.len(),
            views(r@) == node_names(deps@.take(i as int), class as int),
        decreases deps.len() - i,
    {
        assert(deps@.take(i + 1).drop_last() =~= deps@.take(i as int));
        let ghost before = views(r@);
        if node_class_exec(deps[i].version.as_str()) == class {
            r.push(deps[i].name.clone());
            assert(views(r@) =~= before + seq![deps@[i as int].name@]);
        } else {
            assert(views(r@) =~= before + Seq::<Seq<char>>::empty());
        }
        i += 1;
    }
    assert(deps@.take(deps.len() as int) =~= deps@);
    r
}

/// Everything the Node dependency check reads from the repository.
pub struct NodeDepsFacts {
    /// `package.json` is a file at the root.
    pub manifest_present: bool,
    pub manifest_path: String,
    pub policy_path: String,
    /// The string-valued specs of all dependency sections, by name.
    pub dependencies: Vec<NodeDependency>,
    pub has_lockfile: bool,
    pub has_policy: bool,
    /// `license` is a string field of the manifest.
    pub has_license: bool,
}

pub open spec fn node_deps_findings_spec(f: NodeDepsFacts) -> Seq<FindingView> {
    let d = DoctorDomain::Deps;
    let e = DoctorEcosystem::Node;
    let m = f.manifest_path@;
    let deps = f.dependencies@;
    let engine = "audit-ci semantics"@;
    if !f.manifest_present {
        seq![
            plain_view(
                d,
                e,
                DoctorSeverity::Info,
                "deps.node.not-detected"@,
                "No package.json was detected at the repository root."@,
                "Run `ossify doctor deps --ecosystem node` from the Node project root."@,
            ),
        ]
    } else {
        finding_if(
            deps.len() > 0 && !f.has_lockfile,
            full_view(
                d,
                e,
                DoctorSeverity::Warning,
                "deps.node.lockfile.missing"@,
                "package.json declares dependencies but no lockfile was found."@,
                m,
                "Keep the resolved npm graph visible with a checked-in lockfile so reviews and CI are reproducible."@,
                seq!["package-lock.json | pnpm-lock.yaml | yarn.lock"@],
                "Commit the lockfile used by your package manager."@,
                engine,
            ),
        ) + finding_if(
            !f.has_license,
            full_view(
                d,
                e,
                DoctorSeverity::Warning,
                "deps.node.license-missing"@,
                "package.json does not declare a license field."@,
                m,
                "A visible license helps downstream consumers and dependency policy checks reason about the package surface."@,
                seq!["license"@],
                "Add a license field to package.json."@,
                engine,
            ),
        ) + finding_if(
            !f.has_policy,
            full_view(
                d,
                e,
                DoctorSeverity::Info,
                "deps.node.policy-missing"@,
                "No visible audit-ci policy file was found."@,
                f.policy_path@,
                "A repository-owned audit policy makes dependency ignores and gating thresholds reviewable."@,
                seq!["audit-ci.jsonc"@],
                "Add an audit-ci policy file or document how npm audit is gated."@,
                engine,
            ),
        ) + finding_if(
            node_names(deps, 0).len() > 0,
            full_view(
                d,
                e,
                DoctorSeverity::Warning,
                "deps.node.version.wildcard"@,
                listed("Wildcard or `latest` npm dependency specs were found: "@, node_names(deps, 0)),
                m,
                "Prefer explicit semver ranges over `*` or `latest` so upgrades stay reviewable."@,
                node_names(deps, 0),
                "Replace `*` or `latest` with explicit semver ranges."@,
                engine,
            ),
        ) + finding_if(
            node_names(deps, 1).len() > 0,
            full_view(
                d,
                e,
                DoctorSeverity::Warning,
                "deps.node.source.direct-source"@,
                listed("Direct git or URL npm dependencies were found: "@, node_names(deps, 1)),
                m,
                "Direct-source npm dependencies deserve explicit maintainer review because they bypass the usual registry release path."@,
                node_names(deps, 1),
                "Prefer published registry packages, or document why the direct source is required."@,
                engine,
            ),
        ) + finding_if(
            node_names(deps, 2).len() > 0,
            full_view(
                d,
                e,
                DoctorSeverity::Info,
                "deps.node.source.local"@,
                listed("Local npm dependency specs were found: "@, node_names(deps, 2)),
                m,
                "Local workspace or file dependencies are legitimate, but they still change the trust boundary and should stay visible."@,
                node_names(deps, 2),
                "Keep local dependency links intentional and documented."@,
                engine,
            ),
        )
    }
}

#[verifier::rlimit(40)]
pub fn analyze_node_deps(facts: &NodeDepsFacts) -> (r: Vec<DoctorFinding>)
    ensures
        views_of(r@) == node_deps_findings_spec(*facts),
{
    let d = DoctorDomain::Deps;
    let e = DoctorEcosystem::Node;
    let engine = "audit-ci semantics";
    let m = facts.manifest_path.as_str();
    let mut out: Vec<DoctorFinding> = Vec::new();
    if !facts.manifest_present {
        out.push(plain_finding(
            d,
            e,
            DoctorSeverity::Info,
            "deps.node.not-detected",
            "No package.json was detected at the repository root.",
            "Run `ossify doctor deps --ecosystem node` from the Node project root.",
        ));
        assert(views_of(out@) =~= node_deps_findings_spec(*facts));
        return out;
    }
    assert(views_of(out@) =~= Seq::<FindingView>::empty());
    push_when(
        &mut out,
        facts.dependencies.len() > 0 && !facts.has_lockfile,
        full_finding(
            d,
            e,
            DoctorSeverity::Warning,
            "deps.node.lockfile.missing",
            "package.json declares dependencies but no lockfile was found.",
            m,
            "Keep the resolved npm graph visible with a checked-in lockfile so reviews and CI are reproducible.",
            crate::doctor::one_item("package-lock.json | pnpm-lock.yaml | yarn.lock"),
            "Commit the lockfile used by your package manager.",
            engine,
        ),
    );
    push_when(
        &mut out,
        !facts.has_license,
        full_finding(
            d,
            e,
            DoctorSeverity::Warning,
            "deps.node.license-missing",
            "package.json does not declare a license field.",
            m,
            "A visible license helps downstream consumers and dependency policy checks reason about the package surface.",
            crate::doctor::one_item("license"),
            "Add a license field to package.json.",
            engine,
        ),
    );
    push_when(
        &mut out,
        !facts.has_policy,
        full_finding(
            d,
            e,
            DoctorSeverity::Info,
            "deps.node.policy-missing",
            "No visible audit-ci policy file was found.",
            facts.policy_path.as_str(),
            "A repository-owned audit policy makes dependency ignores and gating thresholds reviewable.",
            crate::doctor::one_item("audit-ci.jsonc"),
            "Add an audit-ci policy file or document how npm audit is gated.",
            engine,
        ),
    );
    let wildcard = node_names_exec(&facts.dependencies, 0);
    let direct = node_names_exec(&facts.dependencies, 1);
    let local = node_names_exec(&facts.dependencies, 2);
    push_when(
        &mut out,
        wildcard.len() > 0,
        full_finding(
            d,
            e,
            DoctorSeverity::Warning,
            "deps.node.version.wildcard",
            listed_string("Wildcard or `latest` npm dependency specs were found: ", &wildcard).as_str(),
            m,
            "Prefer explicit semver ranges over `*` or `latest` so upgrades stay reviewable.",
            wildcard,
            "Replace `*` or `latest` with explicit semver ranges.",
            engine,
        ),
    );
    push_when(
        &mut out,
        direct.len() > 0,
        full_finding(
            d,
            e,
            DoctorSeverity::Warning,
            "deps.node.source.direct-source",
            listed_string("Direct git or URL npm dependencies were found: ", &direct).as_str(),
            m,
            "Direct-source npm dependencies deserve explicit maintainer review because they bypass the usual registry release path.",
            direct,
            "Prefer published registry packages, or document why the direct source is required.",
            engine,
        ),
    );
    push_when(
        &mut out,
        local.len() > 0,
        full_finding(
            d,
            e,
            DoctorSeverity::Info,
            "deps.node.source.local",
            listed_string("Local npm dependency specs were found: ", &local).as_str(),
            m,
            "Local workspace or file dependencies are legitimate, but they still change the trust boundary and should stay visible.",
            local,
            "Keep local dependency links intentional and documented.",
            engine,
        ),
    );
    out
}

} // verus!

verus! {

// ---------------------------------------------------------------------------
// Python
// ---------------------------------------------------------------------------

/// A requirements line with an inline ` #` comment cut off, trimmed.
pub open spec fn requirement_line(raw: Seq<char>) -> Seq<char> {
    let l = trim_seq(raw);
    match crate::text::find_seq(l, " #"@) {
        Some(i) => trim_seq(l.subrange(0, i)),
        None => l,
    }
}

pub open spec fn is_include_line(l: Seq<char>) -> bool {
    starts(l, "-r "@) || starts(l, "--requirement "@) || starts(l, "-c "@) || starts(
        l,
        "--constraint "@,
    )
}

/// The requirements of a requirements file, read line by line; `current`
/// holds a requirement continued with a trailing backslash.  Blank lines,
/// comments and nested `-r`/`-c` includes are skipped.
pub open spec fn requirements_scan(ls: Seq<Seq<char>>, current: Seq<char>) -> Seq<Seq<char>>
    decreases ls.len(),
{
    if ls.len() == 0 {
        if current.len() > 0 {
            seq![current]
        } else {
            Seq::empty()
        }
    } else {
        let line = requirement_line(ls[0]);
        if line.len() == 0 || starts(line, "#"@) {
            requirements_scan(ls.drop_first(), current)
        } else if crate::text::ends_with(line, "\\"@) {
            requirements_scan(
                ls.drop_first(),
                current + crate::text::trim_end_seq(crate::text::trim_end_char(line, '\\')),
            )
        } else {
            let full = if current.len() > 0 {
                current + line
            } else {
                line
            };
            if is_include_line(full) {
                requirements_scan(ls.drop_first(), Seq::empty())
            } else {
                seq![full] + requirements_scan(ls.drop_first(), Seq::empty())
            }
        }
    }
}

fn requirement_line_exec(raw: &str) -> (r: String)
    ensures
        r@ == requirement_line(raw@),
{
    let l = trim(raw);
    match crate::text::find_str(l.as_str(), " #") {
        Some(i) => trim(crate::text::prefix_until(l.as_str(), i).as_str()),
        None => l,
    }
}

/// Requirement specs of a requirements file's text.
pub fn parse_requirements(contents: &str) -> (r: Vec<String>)
    ensures
        views(r@) == requirements_scan(crate::text::lines_of(contents@), Seq::empty()),
{
    let ls = crate::text::lines(contents);
    let mut out: Vec<String> = Vec::new();
    let mut current = String::new();
    let mut i: usize = 0;
    assert(views(ls@).subrange(0, ls@.len() as int) =~= views(ls@));
    while i < ls.len()
        invariant
            i <= ls.len(),
            views(ls@) == crate::text::lines_of(contents@),
            views(out@) + requirements_scan(views(ls@).subrange(i as int, ls@.len() as int), current@)
                == requirements_scan(crate::text::lines_of(contents@), Seq::empty()),
        decreases ls.len() - i,
    {
        let ghost rest = views(ls@).subrange(i as int, ls@.len() as int);
        assert(rest[0] == ls@[i as int]@);
        assert(rest.drop_first() =~= views(ls@).subrange(i + 1, ls@.len() as int));
        let line = requirement_line_exec(ls[i].as_str());
        let l = line.as_str();
        if l.unicode_len() == 0 || crate::text::str_starts_with(l, "#") {
            i += 1;
            continue;
        }
        if crate::text::str_ends_with(l, "\\") {
            let stripped = crate::text::trim_end(crate::text::trim_end_matches_char(l, '\\').as_str());
            current.append(stripped.as_str());
            i += 1;
            continue;
        }
        let full = if current.unicode_len() > 0 {
            let mut c = current.clone();
            c.append(l);
            c
        } else {
            line.clone()
        };
        current = String::new();
        let f = full.as_str();
        if crate::text::str_starts_with(f, "-r ") || crate::text::str_starts_with(f, "--requirement ")
            || crate::text::str_starts_with(f, "-c ") || crate::text::str_starts_with(
            f,
            "--constraint ",
        ) {
            i += 1;
            continue;
        }
        let ghost before = views(out@);
        out.push(full);
        assert(views(out@) =~= before.push(full@));
        assert(before + (seq![full@] + requirements_scan(rest.drop_first(), Seq::empty())) =~= views(
            out@,
        ) + requirements_scan(rest.drop_first(), Seq::empty()));
        i += 1;
    }
    assert(views(ls@).subrange(i as int, ls@.len() as int) =~= Seq::<Seq<char>>::empty());
    if current.unicode_len() > 0 {
        let ghost before = views(out@);
        out.push(current);
        assert(views(out@) =~= before + seq![current@]);
    } else {
        assert(views(out@) + Seq::<Seq<char>>::empty() =~= views(out@));
    }
    out
}

} // verus!

verus! {

/// 0: editable install; 1: URL or VCS source; 2: not pinned with `==`;
/// 3: pinned.
pub open spec fn python_class(r: Seq<char>) -> int {
    let n = crate::text::ascii_lowercase(trim_seq(r));
    if starts(n, "-e "@) || starts(n, "--editable"@) {
        0
    } else if starts(n, "git+"@) || starts(n, "http://"@) || starts(n, "https://"@) {
        1
    } else if !crate::text::contains(n, "=="@) {
        2
    } else {
        3
    }
}

pub open spec fn python_specs(reqs: Seq<Seq<char>>, class: int) -> Seq<Seq<char>>
    decreases reqs.len(),
{
    if reqs.len() == 0 {
        Seq::empty()
    } else {
        python_specs(reqs.drop_last(), class) + if python_class(reqs.last()) == class {
            seq![reqs.last()]
        } else {
            Seq::empty()
        }
    }
}

fn python_class_exec(r: &str) -> (c: usize)
    ensures
        c == python_class(r@),
{
    let n = crate::text::to_ascii_lowercase(trim(r).as_str());
    let s = n.as_str();
    if crate::text::str_starts_with(s, "-e ") || crate::text::str_starts_with(s, "--editable") {
        0
    } else if crate::text::str_starts_with(s, "git+") || crate::text::str_starts_with(s, "http://")
        || crate::text::str_starts_with(s, "https://") {
        1
    } else if !crate::text::str_contains(s, "==") {
        2
    } else {
        3
    }
}

fn python_specs_exec(reqs: &Vec<String>, class: usize) -> (r: Vec<String>)
    ensures
        views(r@) == python_specs(views(reqs@), class as int),
{
    let mut r: Vec<String> = Vec::new();
    let mut i: usize = 0;
    while i < reqs.len()
        invariant
            i <= reqs.len(),
            views(r@) == python_specs(views(reqs@).take(i as int), class as int),
        decreases reqs.len() - i,
    {
        assert(views(reqs@).take(i + 1).drop_last() =~= views(reqs@).take(i as int));
        assert(views(reqs@).take(i + 1).last() == reqs@[i as int]@);
        let ghost before = views(r@);
        if python_class_exec(reqs[i].as_str()) == class {
            r.push(reqs[i].clone());
            assert(views(r@) =~= before + seq![reqs@[i as int]@]);
        } else {
            assert(views(r@) =~= before + Seq::<Seq<char>>::empty());
        }
        i += 1;
    }
    assert(views(reqs@).take(reqs.len() as int) =~= views(reqs@));
    r
}

/// Everything the Python dependency check reads from the repository.
pub struct PythonDepsFacts {
    /// `pyproject.toml` is a file at the root.
    pub pyproject_present: bool,
    pub pyproject_path: String,
    /// Requirements files were found at the root.
    pub has_requirements_files: bool,
    /// The specs of all requirements files, in file order.
    pub requirements: Vec<String>,
    /// The project's license value, when `pyproject.toml` declares one.
    pub pyproject_license: Option<String>,
    pub pyproject_dependencies: Vec<String>,
    pub has_lockfile: bool,
    /// Some workflow mentions `pip-audit`.
    pub workflow_has_audit: bool,
    pub workflows_path: String,
    /// The first existing of `pyproject.toml` and the requirements files.
    pub primary_path: String,
}

pub open spec fn python_deps_findings_spec(f: PythonDepsFacts) -> Seq<FindingView> {
    let e = DoctorEcosystem::Python;
    let all = views(f.requirements@) + views(f.pyproject_dependencies@);
    let engine = "pip-audit semantics"@;
    let p = f.primary_path@;
    if !f.pyproject_present && !f.has_requirements_files {
        seq![
            plain_view(
                DoctorDomain::Deps,
                e,
                DoctorSeverity::Info,
                "deps.python.not-detected"@,
                "No pyproject.toml or requirements files were detected at the repository root."@,
                "Run `ossify doctor deps --ecosystem python` from the Python project root."@,
            ),
        ]
    } else {
        finding_if(
            all.len() > 0 && !f.has_lockfile,
            full_view(
                DoctorDomain::Deps,
                e,
                DoctorSeverity::Warning,
                "deps.python.lockfile.missing"@,
                "Python dependencies are declared but no lockfile was found."@,
                f.pyproject_path@,
                "Visible lockfiles make Python environments and audits more reproducible across machines and CI."@,
                seq!["uv.lock | poetry.lock | Pipfile.lock | pdm.lock"@],
                "Commit the lockfile used by your Python workflow."@,
                engine,
            ),
        ) + finding_if(
            f.pyproject_present && f.pyproject_license.is_none(),
            full_view(
                DoctorDomain::Deps,
                e,
                DoctorSeverity::Warning,
                "deps.python.license-missing"@,
                "pyproject.toml does not declare a visible license signal."@,
                f.pyproject_path@,
                "Set a visible project license so consumers and policy tooling can reason about the package surface."@,
                seq!["project.license"@],
                "Declare the project license in pyproject.toml."@,
                engine,
            ),
        ) + finding_if(
            !f.workflow_has_audit,
            full_view(
                DoctorDomain::Deps,
                e,
                DoctorSeverity::Info,
                "deps.python.policy-missing"@,
                "No visible pip-audit-style dependency gate was found in the repository workflows."@,
                f.workflows_path@,
                "A visible dependency audit step makes Python advisory handling easier to review over time."@,
                seq!["pip-audit"@],
                "Add a pip-audit step or document the equivalent dependency gate."@,
                engine,
            ),
        ) + finding_if(
            python_specs(all, 2).len() > 0,
            full_view(
                DoctorDomain::Deps,
                e,
                DoctorSeverity::Info,
                "deps.python.version.unpinned"@,
                "Python dependency specs without exact pins were found: "@
                    + crate::doctor::join_preview_spec(python_specs(all, 2)) + "."@,
                p,
                "Exact pins are not always required, but surfacing looser Python dependency specs makes the supply surface more reviewable."@,
                python_specs(all, 2),
                "Consider lockfiles or exact pins where reproducibility matters."@,
                engine,
            ),
        ) + finding_if(
            python_specs(all, 1).len() > 0,
            full_view(
                DoctorDomain::Deps,
                e,
                DoctorSeverity::Warning,
                "deps.python.source.direct-source"@,
                "Direct URL or VCS Python dependencies were found: "@
                    + crate::doctor::join_preview_spec(python_specs(all, 1)) + "."@,
                p,
                "Direct-source Python dependencies deserve explicit review because they bypass the normal release path on package indexes."@,
                python_specs(all, 1),
                "Prefer released packages where possible, or document why the direct source is required."@,
                engine,
            ),
        ) + finding_if(
            python_specs(all, 0).len() > 0,
            full_view(
                DoctorDomain::Deps,
                e,
                DoctorSeverity::Info,
                "deps.python.source.editable"@,
                "Editable Python dependency installs were found: "@
                    + crate::doctor::join_preview_spec(python_specs(all, 0)) + "."@,
                p,
                "Editable installs are common in dev workflows, but they still widen the effective dependency boundary and should stay visible."@,
                python_specs(all, 0),
                "Keep editable dependency usage intentional and documented."@,
                engine,
            ),
        )
    }
}

fn previewed(prefix: &str, values: &Vec<String>) -> (r: String)
    ensures
        r@ == prefix@ + crate::doctor::join_preview_spec(views(values@)) + "."@,
{
    let mut s = crate::text::concat_str(prefix, crate::doctor::join_preview(values).as_str());
    s.append(".");
    s
}

#[verifier::rlimit(60)]
pub fn analyze_python_deps(facts: &PythonDepsFacts) -> (r: Vec<DoctorFinding>)
    ensures
        views_of(r@) == python_deps_findings_spec(*facts),
{
    let e = DoctorEcosystem::Python;
    let engine = "pip-audit semantics";
    let mut out: Vec<DoctorFinding> = Vec::new();
    if !facts.pyproject_present && !facts.has_requirements_files {
        out.push(plain_finding(
            DoctorDomain::Deps,
            e,
            DoctorSeverity::Info,
            "deps.python.not-detected",
            "No pyproject.toml or requirements files were detected at the repository root.",
            "Run `ossify doctor deps --ecosystem python` from the Python project root.",
        ));
        assert(views_of(out@) =~= python_deps_findings_spec(*facts));
        return out;
    }
    let mut all: Vec<String> = Vec::new();
    let mut i: usize = 0;
    while i < facts.requirements.len()
        invariant
            i <= facts.requirements.len(),
            views(all@) == views(facts.requirements@).take(i as int),
        decreases facts.requirements.len() - i,
    {
        let ghost before = views(all@);
        all.push(facts.requirements[i].clone());
        assert(views(all@) =~= before.push(facts.requirements@[i as int]@));
        assert(views(all@) =~= views(facts.requirements@).take(i + 1));
        i += 1;
    }
    let mut j: usize = 0;
    while j < facts.pyproject_dependencies.len()
        invariant
            j <= facts.pyproject_dependencies.len(),
            views(all@) == views(facts.requirements@) + views(facts.pyproject_dependencies@).take(
                j as int,
            ),
        decreases facts.pyproject_dependencies.len() - j,
    {
        let ghost before = views(all@);
        all.push(facts.pyproject_dependencies[j].clone());
        assert(views(all@) =~= before.push(facts.pyproject_dependencies@[j as int]@));
        assert(views(all@) =~= views(facts.requirements@) + views(facts.pyproject_dependencies@).take(
            j + 1,
        ));
        j += 1;
    }
    assert(views(facts.pyproject_dependencies@).take(facts.pyproject_dependencies.len() as int)
        =~= views(facts.pyproject_dependencies@));
    assert(views(facts.requirements@).take(facts.requirements.len() as int) =~= views(
        facts.requirements@,
    ));
    let pyproject = facts.pyproject_path.as_str();
    let primary = facts.primary_path.as_str();
    assert(views_of(out@) =~= Seq::<FindingView>::empty());
    push_when(
        &mut out,
        all.len() > 0 && !facts.has_lockfile,
        full_finding(
            DoctorDomain::Deps,
            e,
            DoctorSeverity::Warning,
            "deps.python.lockfile.missing",
            "Python dependencies are declared but no lockfile was found.",
            pyproject,
            "Visible lockfiles make Python environments and audits more reproducible across machines and CI.",
            crate::doctor::one_item("uv.lock | poetry.lock | Pipfile.lock | pdm.lock"),
            "Commit the lockfile used by your Python workflow.",
            engine,
        ),
    );
    push_when(
        &mut out,
        facts.pyproject_present && facts.pyproject_license.is_none(),
        full_finding(
            DoctorDomain::Deps,
            e,
            DoctorSeverity::Warning,
            "deps.python.license-missing",
            "pyproject.toml does not declare a visible license signal.",
            pyproject,
            "Set a visible project license so consumers and policy tooling can reason about the package surface.",
            crate::doctor::one_item("project.license"),
            "Declare the project license in pyproject.toml.",
            engine,
        ),
    );
    push_when(
        &mut out,
        !facts.workflow_has_audit,
        full_finding(
            DoctorDomain::Deps,
            e,
            DoctorSeverity::Info,
            "deps.python.policy-missing",
            "No visible pip-audit-style dependency gate was found in the repository workflows.",
            facts.workflows_path.as_str(),
            "A visible dependency audit step makes Python advisory handling easier to review over time.",
            crate::doctor::one_item("pip-audit"),
            "Add a pip-audit step or document the equivalent dependency gate.",
            engine,
        ),
    );
    let unpinned = python_specs_exec(&all, 2);
    let direct = python_specs_exec(&all, 1);
    let editable = python_specs_exec(&all, 0);
    push_when(
        &mut out,
        unpinned.len() > 0,
        full_finding(
            DoctorDomain::Deps,
            e,
            DoctorSeverity::Info,
            "deps.python.version.unpinned",
            previewed("Python dependency specs without exact pins were found: ", &unpinned).as_str(),
            primary,
            "Exact pins are not always required, but surfacing looser Python dependency specs makes the supply surface more reviewable.",
            unpinned,
            "Consider lockfiles or exact pins where reproducibility matters.",
            engine,
        ),
    );
    push_when(
        &mut out,
        direct.len() > 0,
        full_finding(
            DoctorDomain::Deps,
            e,
            DoctorSeverity::Warning,
            "deps.python.source.direct-source",
            previewed("Direct URL or VCS Python dependencies were found: ", &direct).as_str(),
            primary,
            "Direct-source Python dependencies deserve explicit review because they bypass the normal release path on package indexes.",
            direct,
            "Prefer released packages where possible, or document why the direct source is required.",
            engine,
        ),
    );
    push_when(
        &mut out,
        editable.len() > 0,
        full_finding(
            DoctorDomain::Deps,
            e,
            DoctorSeverity::Info,
            "deps.python.source.editable",
            previewed("Editable Python dependency installs were found: ", &editable).as_str(),
            primary,
            "Editable installs are common in dev workflows, but they still widen the effective dependency boundary and should stay visible.",
            editable,
            "Keep editable dependency usage intentional and documented.",
            engine,
        ),
    );
    out
}

/// A requirements file: a name that, lowercased, starts with
/// `requirements` and ends in `.txt` or `.in`.
pub open spec fn is_requirements_name(name: Seq<char>) -> bool {
    let n = crate::text::ascii_lowercase(name);
    crate::text::starts_with(n, "requirements"@) && (crate::text::ends_with(n, ".txt"@)
        || crate::text::ends_with(n, ".in"@))
}

pub fn is_requirements_file_name(name: &str) -> (b: bool)
    ensures
        b == is_requirements_name(name@),
{
    let n = crate::text::to_ascii_lowercase(name);
    crate::text::str_starts_with(n.as_str(), "requirements") && (crate::text::str_ends_with(
        n.as_str(),
        ".txt",
    ) || crate::text::str_ends_with(n.as_str(), ".in"))
}

/// The lockfiles of the Node package managers.
pub open spec fn node_lockfile_names() -> Seq<Seq<char>> {
    seq!["package-lock.json"@, "npm-shrinkwrap.json"@, "pnpm-lock.yaml"@, "yarn.lock"@]
}

pub fn node_lockfiles() -> (r: Vec<&'static str>)
    ensures
        crate::project::str_views(r@) == node_lockfile_names(),
{
    let mut v: Vec<&'static str> = Vec::new();
    v.push("package-lock.json");
    v.push("npm-shrinkwrap.json");
    v.push("pnpm-lock.yaml");
    v.push("yarn.lock");
    assert(crate::project::str_views(v@) =~= node_lockfile_names());
    v
}

/// The audit-ci policy files.
pub open spec fn node_policy_names() -> Seq<Seq<char>> {
    seq!["audit-ci.json"@, "audit-ci.jsonc"@, ".audit-ci.json"@, ".audit-ci.jsonc"@]
}

pub fn node_policy_files() -> (r: Vec<&'static str>)
    ensures
        crate::project::str_views(r@) == node_policy_names(),
{
    let mut v: Vec<&'static str> = Vec::new();
    v.push("audit-ci.json");
    v.push("audit-ci.jsonc");
    v.push(".audit-ci.json");
    v.push(".audit-ci.jsonc");
    assert(crate::project::str_views(v@) =~= node_policy_names());
    v
}

/// The lockfiles of the Python package managers.
pub open spec fn python_lockfile_names() -> Seq<Seq<char>> {
    seq!["uv.lock"@, "poetry.lock"@, "Pipfile.lock"@, "pdm.lock"@, "requirements.lock"@]
}

pub fn python_lockfiles() -> (r: Vec<&'static str>)
    ensures
        crate::project::str_views(r@) == python_lockfile_names(),
{
    let mut v: Vec<&'static str> = Vec::new();
    v.push("uv.lock");
    v.push("poetry.lock");
    v.push("Pipfile.lock");
    v.push("pdm.lock");
    v.push("requirements.lock");
    assert(crate::project::str_views(v@) =~= python_lockfile_names());
    v
}

/// The commands that run pip-audit in a workflow.
pub open spec fn pip_audit_needles() -> Seq<Seq<char>> {
    seq!["pip-audit"@, "python -m pip_audit"@, "python -m pip-audit"@]
}

pub fn pip_audit_commands() -> (r: Vec<&'static str>)
    ensures
        crate::project::str_views(r@) == pip_audit_needles(),
{
    let mut v: Vec<&'static str> = Vec::new();
    v.push("pip-audit");
    v.push("python -m pip_audit");
    v.push("python -m pip-audit");
    assert(crate::project::str_views(v@) =~= pip_audit_needles());
    v
}

/// Some workflow runs pip-audit.
pub fn workflows_run_pip_audit(workflows: &Vec<String>) -> (b: bool)
    ensures
        b == crate::release::mentions_spec(views(workflows@), pip_audit_needles()),
{
    crate::release::workflow_mentions(workflows, &pip_audit_commands())
}

} // verus!
