//! The release doctor's own checks for Rust, Node and Python projects:
//! versions, changelogs, release automation, distribution and tags.
use vstd::prelude::*;
use crate::doctor::{
    full_finding, full_view, plain_finding, plain_view, push_when, views_of, finding_if,
    DoctorDomain, DoctorEcosystem, DoctorFinding, DoctorSeverity, FindingView,
};
use crate::text::{ascii_lowercase, contains, str_contains, to_ascii_lowercase, trim_seq, views};

verus! {

/// Some workflow text mentions some needle, both compared in ASCII
/// lowercase.
pub open spec fn mentions_spec(workflows: Seq<Seq<char>>, needles: Seq<Seq<char>>) -> bool {
    exists|i: int, j: int|
        0 <= i < workflows.len() && 0 <= j < needles.len() && contains(
            ascii_lowercase(#[trigger] workflows[i]),
            ascii_lowercase(#[trigger] needles[j]),
        )
}

/// Whether the workflow files (their texts) mention any of `needles`.
pub fn workflow_mentions(workflows: &Vec<String>, needles: &Vec<&str>) -> (b: bool)
    ensures
        b == mentions_spec(views(workflows@), crate::project::str_views(needles@)),
{
    let mut lowered: Vec<String> = Vec::new();
    let mut k: usize = 0;
    while k < needles.len()
        invariant
            k <= needles.len(),
            lowered@.len() == k,
            forall|j: int| 0 <= j < k ==> (#[trigger] lowered@[j])@ == ascii_lowercase(needles@[j]@),
        decreases needles.len() - k,
    {
        lowered.push(to_ascii_lowercase(needles[k]));
        k += 1;
    }
    let mut i: usize = 0;
    while i < workflows.len()
        invariant
            i <= workflows.len(),
            lowered@.len() == needles@.len(),
            forall|j: int| 0 <= j < needles@.len() ==> (#[trigger] lowered@[j])@ == ascii_lowercase(
                needles@[j]@,
            ),
            forall|a: int, j: int|
                0 <= a < i && 0 <= j < needles@.len() ==> !contains(
                    ascii_lowercase(#[trigger] views(workflows@)[a]),
                    ascii_lowercase(#[trigger] crate::project::str_views(needles@)[j]),
                ),
        decreases workflows.len() - i,
    {
        let contents = to_ascii_lowercase(workflows[i].as_str());
        assert(views(workflows@)[i as int] == workflows@[i as int]@);
        let mut j: usize = 0;
        while j < lowered.len()
            invariant
                i < workflows.len(),
                j <= lowered.len() == needles@.len(),
                contents@ == ascii_lowercase(workflows@[i as int]@),
                views(workflows@)[i as int] == workflows@[i as int]@,
                forall|q: int| 0 <= q < needles@.len() ==> (#[trigger] lowered@[q])@
                    == ascii_lowercase(needles@[q]@),
                forall|q: int|
                    0 <= q < j ==> !contains(
                        contents@,
                        ascii_lowercase(#[trigger] crate::project::str_views(needles@)[q]),
                    ),
            decreases lowered.len() - j,
        {
            assert(crate::project::str_views(needles@)[j as int] == needles@[j as int]@);
            if str_contains(contents.as_str(), lowered[j].as_str()) {
                return true;
            }
            j += 1;
        }
        i += 1;
    }
    false
}

/// Lines of `git tag --list` output that hold a tag.
pub open spec fn nonblank_count(ls: Seq<Seq<char>>) -> nat
    decreases ls.len(),
{
    if ls.len() == 0 {
        0
    } else {
        nonblank_count(ls.drop_last()) + if trim_seq(ls.last()).len() > 0 {
            1nat
        } else {
            0nat
        }
    }
}

pub fn visible_tag_count(output: &str) -> (n: usize)
    ensures
        n == nonblank_count(crate::text::lines_of(output@)),
{
    let ls = crate::text::lines(output);
    let mut n: usize = 0;
    let mut i: usize = 0;
    while i < ls.len()
        invariant
            i <= ls.len(),
            views(ls@) == crate::text::lines_of(output@),
            n <= i,
            n == nonblank_count(views(ls@).take(i as int)),
        decreases ls.len() - i,
    {
        assert(views(ls@).take(i + 1).drop_last() =~= views(ls@).take(i as int));
        assert(views(ls@).take(i + 1).last() == ls@[i as int]@);
        if crate::text::trim(ls[i].as_str()).unicode_len() > 0 {
            n += 1;
        }
        i += 1;
    }
    assert(views(ls@).take(ls.len() as int) =~= views(ls@));
    n
}

/// Paths the release findings point at.
pub struct ReleasePaths {
    pub manifest: String,
    pub changelog: String,
    pub workflows: String,
    pub git: String,
}

// ---------------------------------------------------------------------------
// Rust
// ---------------------------------------------------------------------------

pub struct RustReleaseFacts {
    pub manifest_present: bool,
    pub manifest_text: String,
    /// `package.version` or `workspace.package.version` is a string.
    pub has_version: bool,
    pub has_changelog: bool,
    /// The texts of the workflow files.
    pub workflows: Vec<String>,
    pub tag_count: usize,
    pub paths: ReleasePaths,
}

pub open spec fn rust_release_needles() -> Seq<Seq<char>> {
    seq![
        "cargo publish"@,
        "release-plz"@,
        "cargo-dist"@,
        "git-cliff"@,
        "softprops/action-gh-release"@,
        "gh release"@,
    ]
}

pub open spec fn rust_dist_needles() -> Seq<Seq<char>> {
    seq!["cargo-dist"@, "dist build"@, "dist plan"@]
}

pub open spec fn rust_release_findings_spec(f: RustReleaseFacts) -> Seq<FindingView> {
    let d = DoctorDomain::Release;
    let e = DoctorEcosystem::Rust;
    let w = views(f.workflows@);
    let has_flow = mentions_spec(w, rust_release_needles());
    let has_dist = contains(f.manifest_text@, "workspace.metadata.dist"@) || contains(
        f.manifest_text@,
        "package.metadata.dist"@,
    ) || mentions_spec(w, rust_dist_needles());
    if !f.manifest_present {
        seq![
            plain_view(
                d,
                e,
                DoctorSeverity::Info,
                "release.rust.not-detected"@,
                "No Cargo.toml was detected at the repository root."@,
                "Run `ossify doctor release --ecosystem rust` from the Rust project root."@,
            ),
        ]
    } else {
        finding_if(
            !f.has_version,
            full_view(
                d,
                e,
                DoctorSeverity::Error,
                "release.rust.version.missing"@,
                "Cargo package metadata does not expose a visible release version."@,
                f.paths.manifest@,
                "A release-oriented crate should expose a version field so changelogs, tags, and publishing flows can stay coherent."@,
                seq!["package.version"@],
                "Add a version field to Cargo.toml."@,
                "release-plz semantics"@,
            ),
        ) + finding_if(
            !f.has_changelog,
            full_view(
                d,
                e,
                DoctorSeverity::Warning,
                "release.rust.changelog.missing"@,
                "No CHANGELOG.md was found for Rust release notes."@,
                f.paths.changelog@,
                "A visible changelog makes upgrades and release cadence easier to trust before reading commits."@,
                seq!["CHANGELOG.md"@],
                "Add and maintain CHANGELOG.md."@,
                "git-cliff semantics"@,
            ),
        ) + finding_if(
            !has_flow,
            full_view(
                d,
                e,
                DoctorSeverity::Error,
                "release.rust.workflow.missing"@,
                "No Rust release automation signal was detected in GitHub workflows."@,
                f.paths.workflows@,
                "Release automation keeps version bumps, changelog generation, and publishing more repeatable for maintainers."@,
                seq!["release workflow"@],
                "Add a release workflow using release-plz, cargo publish, or an equivalent shipping flow."@,
                "release-plz semantics"@,
            ),
        ) + finding_if(
            !has_dist,
            full_view(
                d,
                e,
                DoctorSeverity::Info,
                "release.rust.distribution.missing"@,
                "No visible cargo-dist-style distribution signal was detected."@,
                f.paths.manifest@,
                "If the project ships binaries, visible packaging or installer automation makes the distribution path easier to trust."@,
                seq!["cargo-dist"@],
                "Add cargo-dist or document how release artifacts and installers are produced."@,
                "cargo-dist semantics"@,
            ),
        ) + finding_if(
            f.tag_count == 0,
            full_view(
                d,
                e,
                DoctorSeverity::Info,
                "release.rust.tag-signal.missing"@,
                "No visible Git tag signal was detected in the repository history."@,
                f.paths.git@,
                "Tags are not mandatory, but they make release history far easier to browse and verify."@,
                seq!["git tags"@],
                "Publish version tags for real releases."@,
                "release-plz semantics"@,
            ),
        )
    }
}

#[verifier::rlimit(40)]
pub fn analyze_rust_release(facts: &RustReleaseFacts) -> (r: Vec<DoctorFinding>)
    ensures
        views_of(r@) == rust_release_findings_spec(*facts),
{
    let d = DoctorDomain::Release;
    let e = DoctorEcosystem::Rust;
    let mut out: Vec<DoctorFinding> = Vec::new();
    if !facts.manifest_present {
        out.push(plain_finding(
            d,
            e,
            DoctorSeverity::Info,
            "release.rust.not-detected",
            "No Cargo.toml was detected at the repository root.",
            "Run `ossify doctor release --ecosystem rust` from the Rust project root.",
        ));
        assert(views_of(out@) =~= rust_release_findings_spec(*facts));
        return out;
    }
    let flow_needles: Vec<&str> = vec![
        "cargo publish",
        "release-plz",
        "cargo-dist",
        "git-cliff",
        "softprops/action-gh-release",
        "gh release",
    ];
    assert(crate::project::str_views(flow_needles@) =~= rust_release_needles());
    let has_flow = workflow_mentions(&facts.workflows, &flow_needles);
    let dist_needles: Vec<&str> = vec!["cargo-dist", "dist build", "dist plan"];
    assert(crate::project::str_views(dist_needles@) =~= rust_dist_needles());
    let has_dist = str_contains(facts.manifest_text.as_str(), "workspace.metadata.dist")
        || str_contains(facts.manifest_text.as_str(), "package.metadata.dist") || workflow_mentions(
        &facts.workflows,
        &dist_needles,
    );
    assert(views_of(out@) =~= Seq::<FindingView>::empty());
    push_when(
        &mut out,
        !facts.has_version,
        full_finding(
            d,
            e,
            DoctorSeverity::Error,
            "release.rust.version.missing",
            "Cargo package metadata does not expose a visible release version.",
            facts.paths.manifest.as_str(),
            "A release-oriented crate should expose a version field so changelogs, tags, and publishing flows can stay coherent.",
            crate::doctor::one_item("package.version"),
            "Add a version field to Cargo.toml.",
            "release-plz semantics",
        ),
    );
    push_when(
        &mut out,
        !facts.has_changelog,
        full_finding(
            d,
            e,
            DoctorSeverity::Warning,
            "release.rust.changelog.missing",
            "No CHANGELOG.md was found for Rust release notes.",
            facts.paths.changelog.as_str(),
            "A visible changelog makes upgrades and release cadence easier to trust before reading commits.",
            crate::doctor::one_item("CHANGELOG.md"),
            "Add and maintain CHANGELOG.md.",
            "git-cliff semantics",
        ),
    );
    push_when(
        &mut out,
        !has_flow,
        full_finding(
            d,
            e,
            DoctorSeverity::Error,
            "release.rust.workflow.missing",
            "No Rust release automation signal was detected in GitHub workflows.",
            facts.paths.workflows.as_str(),
            "Release automation keeps version bumps, changelog generation, and publishing more repeatable for maintainers.",
            crate::doctor::one_item("release workflow"),
            "Add a release workflow using release-plz, cargo publish, or an equivalent shipping flow.",
            "release-plz semantics",
        ),
    );
    push_when(
        &mut out,
        !has_dist,
        full_finding(
            d,
            e,
            DoctorSeverity::Info,
            "release.rust.distribution.missing",
            "No visible cargo-dist-style distribution signal was detected.",
            facts.paths.manifest.as_str(),
            "If the project ships binaries, visible packaging or installer automation makes the distribution path easier to trust.",
            crate::doctor::one_item("cargo-dist"),
            "Add cargo-dist or document how release artifacts and installers are produced.",
            "cargo-dist semantics",
        ),
    );
    push_when(
        &mut out,
        facts.tag_count == 0,
        full_finding(
            d,
            e,
            DoctorSeverity::Info,
            "release.rust.tag-signal.missing",
            "No visible Git tag signal was detected in the repository history.",
            facts.paths.git.as_str(),
            "Tags are not mandatory, but they make release history far easier to browse and verify.",
            crate::doctor::one_item("git tags"),
            "Publish version tags for real releases.",
            "release-plz semantics",
        ),
    );
    out
}

} // verus!

verus! {

// ---------------------------------------------------------------------------
// Node
// ---------------------------------------------------------------------------

pub struct NodeReleaseFacts {
    pub manifest_present: bool,
    /// `private` is `true` in the manifest.
    pub is_private: bool,
    /// `version` is a string field of the manifest.
    pub has_version: bool,
    pub has_changelog: bool,
    pub workflows: Vec<String>,
    pub tag_count: usize,
    pub paths: ReleasePaths,
}

pub open spec fn node_release_needles() -> Seq<Seq<char>> {
    seq![
        "npm publish"@,
        "pnpm publish"@,
        "yarn npm publish"@,
        "release-please"@,
        "changesets"@,
        "semantic-release"@,
    ]
}

pub open spec fn node_release_findings_spec(f: NodeReleaseFacts) -> Seq<FindingView> {
    let d = DoctorDomain::Release;
    let e = DoctorEcosystem::Node;
    let has_flow = mentions_spec(views(f.workflows@), node_release_needles());
    let engine = "release-please semantics"@;
    if !f.manifest_present {
        seq![
            plain_view(
                d,
                e,
                DoctorSeverity::Info,
                "release.node.not-detected"@,
                "No package.json was detected at the repository root."@,
                "Run `ossify doctor release --ecosystem node` from the Node project root."@,
            ),
        ]
    } else {
        finding_if(
            !f.is_private && !f.has_version,
            full_view(
                d,
                e,
                DoctorSeverity::Error,
                "release.node.version.missing"@,
                "package.json does not expose a version for a publishable package."@,
                f.paths.manifest@,
                "Versioning needs to be explicit if the package is meant to be published or consumed as a release surface."@,
                seq!["version"@],
                "Add a version field to package.json."@,
                engine,
            ),
        ) + finding_if(
            !f.has_changelog,
            full_view(
                d,
                e,
                DoctorSeverity::Warning,
                "release.node.changelog.missing"@,
                "No CHANGELOG.md was found for Node release notes."@,
                f.paths.changelog@,
                "A changelog helps consumers evaluate upgrades without diffing commits or package metadata by hand."@,
                seq!["CHANGELOG.md"@],
                "Add and maintain CHANGELOG.md."@,
                engine,
            ),
        ) + finding_if(
            !f.is_private && !has_flow,
            full_view(
                d,
                e,
                DoctorSeverity::Error,
                "release.node.workflow.missing"@,
                "No Node release automation signal was detected in GitHub workflows."@,
                f.paths.workflows@,
                "A publishable Node package should expose how versioning and release publication are handled."@,
                seq!["release workflow"@],
                "Add release automation with release-please, changesets, semantic-release, or a documented npm publish flow."@,
                engine,
            ),
        ) + finding_if(
            !f.is_private && f.tag_count == 0,
            full_view(
                d,
                e,
                DoctorSeverity::Info,
                "release.node.tag-signal.missing"@,
                "No visible Git tag signal was detected for Node releases."@,
                f.paths.git@,
                "Tags are not mandatory, but they make release history and rollback points much easier to inspect."@,
                seq!["git tags"@],
                "Tag published or announced releases."@,
                engine,
            ),
        )
    }
}

#[verifier::rlimit(40)]
pub fn analyze_node_release(facts: &NodeReleaseFacts) -> (r: Vec<DoctorFinding>)
    ensures
        views_of(r@) == node_release_findings_spec(*facts),
{
    let d = DoctorDomain::Release;
    let e = DoctorEcosystem::Node;
    let engine = "release-please semantics";
    let mut out: Vec<DoctorFinding> = Vec::new();
    if !facts.manifest_present {
        out.push(plain_finding(
            d,
            e,
            DoctorSeverity::Info,
            "release.node.not-detected",
            "No package.json was detected at the repository root.",
            "Run `ossify doctor release --ecosystem node` from the Node project root.",
        ));
        assert(views_of(out@) =~= node_release_findings_spec(*facts));
        return out;
    }
    let needles: Vec<&str> = vec![
        "npm publish",
        "pnpm publish",
        "yarn npm publish",
        "release-please",
        "changesets",
        "semantic-release",
    ];
    assert(crate::project::str_views(needles@) =~= node_release_needles());
    let has_flow = workflow_mentions(&facts.workflows, &needles);
    assert(views_of(out@) =~= Seq::<FindingView>::empty());
    push_when(
        &mut out,
        !facts.is_private && !facts.has_version,
        full_finding(
            d,
            e,
            DoctorSeverity::Error,
            "release.node.version.missing",
            "package.json does not expose a version for a publishable package.",
            facts.paths.manifest.as_str(),
            "Versioning needs to be explicit if the package is meant to be published or consumed as a release surface.",
            crate::doctor::one_item("version"),
            "Add a version field to package.json.",
            engine,
        ),
    );
    push_when(
        &mut out,
        !facts.has_changelog,
        full_finding(
            d,
            e,
            DoctorSeverity::Warning,
            "release.node.changelog.missing",
            "No CHANGELOG.md was found for Node release notes.",
            facts.paths.changelog.as_str(),
            "A changelog helps consumers evaluate upgrades without diffing commits or package metadata by hand.",
            crate::doctor::one_item("CHANGELOG.md"),
            "Add and maintain CHANGELOG.md.",
            engine,
        ),
    );
    push_when(
        &mut out,
        !facts.is_private && !has_flow,
        full_finding(
            d,
            e,
            DoctorSeverity::Error,
            "release.node.workflow.missing",
            "No Node release automation signal was detected in GitHub workflows.",
            facts.paths.workflows.as_str(),
            "A publishable Node package should expose how versioning and release publication are handled.",
            crate::doctor::one_item("release workflow"),
            "Add release automation with release-please, changesets, semantic-release, or a documented npm publish flow.",
            engine,
        ),
    );
    push_when(
        &mut out,
        !facts.is_private && facts.tag_count == 0,
        full_finding(
            d,
            e,
            DoctorSeverity::Info,
            "release.node.tag-signal.missing",
            "No visible Git tag signal was detected for Node releases.",
            facts.paths.git.as_str(),
            "Tags are not mandatory, but they make release history and rollback points much easier to inspect.",
            crate::doctor::one_item("git tags"),
            "Tag published or announced releases.",
            engine,
        ),
    );
    out
}

// ---------------------------------------------------------------------------
// Python
// ---------------------------------------------------------------------------

pub struct PythonReleaseFacts {
    pub pyproject_present: bool,
    pub has_requirements_files: bool,
    /// A version, or a visible dynamic versioning setup, in `pyproject.toml`.
    pub has_version: bool,
    pub has_changelog: bool,
    pub workflows: Vec<String>,
    pub tag_count: usize,
    pub paths: ReleasePaths,
}

pub open spec fn python_release_needles() -> Seq<Seq<char>> {
    seq![
        "pypi"@,
        "twine upload"@,
        "python -m build"@,
        "release-please"@,
        "python-semantic-release"@,
    ]
}

pub open spec fn python_release_findings_spec(f: PythonReleaseFacts) -> Seq<FindingView> {
    let d = DoctorDomain::Release;
    let e = DoctorEcosystem::Python;
    let has_flow = mentions_spec(views(f.workflows@), python_release_needles());
    let engine = "release-please semantics"@;
    if !f.pyproject_present && !f.has_requirements_files {
        seq![
            plain_view(
                d,
                e,
                DoctorSeverity::Info,
                "release.python.not-detected"@,
                "No pyproject.toml or requirements files were detected at the repository root."@,
                "Run `ossify doctor release --ecosystem python` from the Python project root."@,
            ),
        ]
    } else {
        finding_if(
            !f.has_version,
            full_view(
                d,
                e,
                DoctorSeverity::Error,
                "release.python.version.missing"@,
                "No visible Python release version signal was detected in pyproject.toml."@,
                f.paths.manifest@,
                "Release-oriented Python projects should expose either a version or a visible dynamic versioning strategy."@,
                seq!["project.version | tool.poetry.version"@],
                "Add a version field or make the dynamic versioning strategy explicit in the repo."@,
                engine,
            ),
        ) + finding_if(
            !f.has_changelog,
            full_view(
                d,
                e,
                DoctorSeverity::Warning,
                "release.python.changelog.missing"@,
                "No CHANGELOG.md was found for Python release notes."@,
                f.paths.changelog@,
                "A visible changelog makes it much easier to audit package evolution before upgrading or publishing."@,
                seq!["CHANGELOG.md"@],
                "Add and maintain CHANGELOG.md."@,
                engine,
            ),
        ) + finding_if(
            !has_flow,
            full_view(
                d,
                e,
                DoctorSeverity::Error,
                "release.python.workflow.missing"@,
                "No Python release automation signal was detected in GitHub workflows."@,
                f.paths.workflows@,
                "Release automation makes Python build and publication behavior visible and repeatable for maintainers."@,
                seq!["release workflow"@],
                "Add release automation for build and publication, or document the release process clearly."@,
                engine,
            ),
        ) + finding_if(
            f.tag_count == 0,
            full_view(
                d,
                e,
                DoctorSeverity::Info,
                "release.python.tag-signal.missing"@,
                "No visible Git tag signal was detected for Python releases."@,
                f.paths.git@,
                "Tags help maintainers and consumers map published versions back to repository history."@,
                seq!["git tags"@],
                "Tag published or announced releases."@,
                engine,
            ),
        )
    }
}

#[verifier::rlimit(40)]
pub fn analyze_python_release(facts: &PythonReleaseFacts) -> (r: Vec<DoctorFinding>)
    ensures
        views_of(r@) == python_release_findings_spec(*facts),
{
    let d = DoctorDomain::Release;
    let e = DoctorEcosystem::Python;
    let engine = "release-please semantics";
    let mut out: Vec<DoctorFinding> = Vec::new();
    if !facts.pyproject_present && !facts.has_requirements_files {
        out.push(plain_finding(
            d,
            e,
            DoctorSeverity::Info,
            "release.python.not-detected",
            "No pyproject.toml or requirements files were detected at the repository root.",
            "Run `ossify doctor release --ecosystem python` from the Python project root.",
        ));
        assert(views_of(out@) =~= python_release_findings_spec(*facts));
        return out;
    }
    let needles: Vec<&str> = vec![
        "pypi",
        "twine upload",
        "python -m build",
        "release-please",
        "python-semantic-release",
    ];
    assert(crate::project::str_views(needles@) =~= python_release_needles());
    let has_flow = workflow_mentions(&facts.workflows, &needles);
    assert(views_of(out@) =~= Seq::<FindingView>::empty());
    push_when(
        &mut out,
        !facts.has_version,
        full_finding(
            d,
            e,
            DoctorSeverity::Error,
            "release.python.version.missing",
            "No visible Python release version signal was detected in pyproject.toml.",
            facts.paths.manifest.as_str(),
            "Release-oriented Python projects should expose either a version or a visible dynamic versioning strategy.",
            crate::doctor::one_item("project.version | tool.poetry.version"),
            "Add a version field or make the dynamic versioning strategy explicit in the repo.",
            engine,
        ),
    );
    push_when(
        &mut out,
        !facts.has_changelog,
        full_finding(
            d,
            e,
            DoctorSeverity::Warning,
            "release.python.changelog.missing",
            "No CHANGELOG.md was found for Python release notes.",
            facts.paths.changelog.as_str(),
            "A visible changelog makes it much easier to audit package evolution before upgrading or publishing.",
            crate::doctor::one_item("CHANGELOG.md"),
            "Add and maintain CHANGELOG.md.",
            engine,
        ),
    );
    push_when(
        &mut out,
        !has_flow,
        full_finding(
            d,
            e,
            DoctorSeverity::Error,
            "release.python.workflow.missing",
            "No Python release automation signal was detected in GitHub workflows.",
            facts.paths.workflows.as_str(),
            "Release automation makes Python build and publication behavior visible and repeatable for maintainers.",
            crate::doctor::one_item("release workflow"),
            "Add release automation for build and publication, or document the release process clearly.",
            engine,
        ),
    );
    push_when(
        &mut out,
        facts.tag_count == 0,
        full_finding(
            d,
            e,
            DoctorSeverity::Info,
            "release.python.tag-signal.missing",
            "No visible Git tag signal was detected for Python releases.",
            facts.paths.git.as_str(),
            "Tags help maintainers and consumers map published versions back to repository history.",
            crate::doctor::one_item("git tags"),
            "Tag published or announced releases.",
            engine,
        ),
    );
    out
}

} // verus!
