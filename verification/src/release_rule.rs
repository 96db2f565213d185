//! The release workflow rule of the audit: a dedicated release workflow,
//! its trigger, what it publishes, and, for applications, a deployment
//! configuration.
use vstd::prelude::*;
use crate::audit::{
    contains_any, contains_any_spec, dedupe_spec, dedupe_strings, status_from_coverage,
    weight_total, weighted_coverage, weighted_coverage_spec, AuditFinding, CheckStatus,
    FindingSeverity,
};
use crate::docs::file_name_seq;
use crate::project::{str_views, ProjectKind, RepoProfile};
use crate::readme::{afv, assessment_matches, audit_views, opt_item, AssessmentView, AuditFindingView, RepoDocument, RuleAssessment};
use crate::text::{
    contains, rfind_char, str_contains, str_lowercase, suffix_from, to_lowercase, views,
};

verus! {

broadcast use crate::audit::lemma_weighted_coverage_bounded;

/// A workflow file: its path and how it is shown.
#[derive(Debug, Clone)]
pub struct WorkflowFile {
    pub path: String,
    pub display: String,
}

/// What the release rule reads of a repository.
#[derive(Debug, Clone)]
pub struct ReleaseInputs {
    pub workflow_files: Vec<WorkflowFile>,
    /// Every workflow file's text, joined by newlines.
    pub workflow_text: String,
    /// The first deployment configuration of an application, if any.
    pub deployment: Option<RepoDocument>,
    pub kind: ProjectKind,
    pub profile: RepoProfile,
    /// The stack's publish commands.
    pub release_keywords: Vec<String>,
    /// Where workflows belong.
    pub workflows_dir: String,
}

/// The deployment configurations an application may have, in the order
/// they are looked for.
pub open spec fn deployment_config_names() -> Seq<Seq<char>> {
    seq![
        "netlify.toml"@,
        "vercel.json"@,
        "firebase.json"@,
        "amplify.yml"@,
        "render.yaml"@,
        "render.yml"@,
        "fly.toml"@,
        "Dockerfile"@,
        "docker-compose.yml"@,
        "docker-compose.yaml"@,
    ]
}

/// The deployment configurations to look for: none unless the project is an
/// application.
pub fn deployment_config_candidates(profile: RepoProfile) -> (r: Vec<&'static str>)
    ensures
        str_views(r@) == (if profile == RepoProfile::App {
            deployment_config_names()
        } else {
            Seq::empty()
        }),
{
    let r: Vec<&'static str> = if profile == RepoProfile::App {
        vec![
            "netlify.toml",
            "vercel.json",
            "firebase.json",
            "amplify.yml",
            "render.yaml",
            "render.yml",
            "fly.toml",
            "Dockerfile",
            "docker-compose.yml",
            "docker-compose.yaml",
        ]
    } else {
        Vec::new()
    };
    assert(str_views(r@) =~= (if profile == RepoProfile::App {
        deployment_config_names()
    } else {
        Seq::empty()
    }));
    r
}

/// A workflow whose file name mentions a release.
pub open spec fn is_release_file(f: WorkflowFile) -> bool {
    contains(str_lowercase(file_name_seq(f.path@)), "release"@)
}

/// The first release workflow.
pub open spec fn release_file_index(fs: Seq<WorkflowFile>) -> Option<int>
    decreases fs.len(),
{
    if fs.len() == 0 {
        None
    } else {
        match release_file_index(fs.drop_last()) {
            Some(i) => Some(i),
            None => if is_release_file(fs.last()) {
                Some(fs.len() - 1)
            } else {
                None
            },
        }
    }
}

pub proof fn lemma_release_file_index(fs: Seq<WorkflowFile>)
    ensures
        release_file_index(fs) matches Some(i) ==> 0 <= i < fs.len(),
    decreases fs.len(),
{
    if fs.len() > 0 {
        lemma_release_file_index(fs.drop_last());
    }
}

pub open spec fn packaging_phrases(k: ProjectKind) -> Seq<Seq<char>> {
    match k {
        ProjectKind::Rust => seq![
            "cargo build --release"@,
            "cargo build --release --target"@,
            "package release archive"@,
            "archive_name:"@,
            "binary_name:"@,
            "tar -czf"@,
            "compress-archive"@,
            "target/${{ matrix.target }}/release/"@,
        ],
        ProjectKind::Node => seq![
            "npm pack"@,
            "pnpm pack"@,
            "yarn pack"@,
            "pkg "@,
            "nexe "@,
            "tar -czf"@,
            "compress-archive"@,
        ],
        ProjectKind::Python => seq![
            "python -m build"@,
            "pyinstaller"@,
            "zipapp"@,
            "tar -czf"@,
            "compress-archive"@,
        ],
        ProjectKind::Go => seq!["goreleaser"@, "go build"@, "tar -czf"@, "compress-archive"@],
        ProjectKind::Unknown => seq!["package"@, "archive"@, "upload-artifact"@, "release binary"@],
    }
}

/// A command-line project whose workflows package release binaries.
pub open spec fn packaging_step_spec(normalized: Seq<char>, kind: ProjectKind, profile: RepoProfile) -> bool {
    profile == RepoProfile::Cli && contains_any_spec(normalized, packaging_phrases(kind))
}

pub open spec fn deployment_build_phrases() -> Seq<Seq<char>> {
    seq![
        "[build]"@,
        "command ="@,
        "publish ="@,
        "\"buildcommand\""@,
        "\"outputdirectory\""@,
        "\"rewrites\""@,
        "bun run build"@,
        "npm run build"@,
        "pnpm build"@,
        "yarn build"@,
        "vite build"@,
        "dist"@,
    ]
}

/// What the release rule sees.
#[derive(Debug, Clone, Copy)]
pub struct ReleaseSignals {
    pub release_file: Option<usize>,
    pub trigger: bool,
    pub action: bool,
    pub publish: bool,
    pub deployment_surface: bool,
    pub deployment_build: bool,
    pub gh_release: bool,
    pub tags: bool,
}

pub open spec fn release_signals_spec(inp: ReleaseInputs) -> (Option<int>, ReleaseSignalsView) {
    let n = str_lowercase(inp.workflow_text@);
    let deployment_text = match inp.deployment {
        Some(d) => str_lowercase(d.contents@),
        None => str_lowercase(Seq::empty()),
    };
    let surface = inp.deployment.is_some();
    (
        release_file_index(inp.workflow_files@),
        ReleaseSignalsView {
            trigger: contains(n, "tags:"@) || contains(n, "workflow_dispatch"@) || contains(
                n,
                "softprops/action-gh-release"@,
            ),
            action: contains(n, "softprops/action-gh-release"@) || contains(n, "gh release"@)
                || contains(n, "upload-artifact"@),
            publish: contains_any_spec(n, views(inp.release_keywords@)) || packaging_step_spec(
                n,
                inp.kind,
                inp.profile,
            ),
            deployment_surface: surface,
            deployment_build: surface && contains_any_spec(deployment_text, deployment_build_phrases()),
            gh_release: contains(n, "softprops/action-gh-release"@),
            tags: contains(n, "tags:"@),
        },
    )
}

/// The release signals as plain values.
pub struct ReleaseSignalsView {
    pub trigger: bool,
    pub action: bool,
    pub publish: bool,
    pub deployment_surface: bool,
    pub deployment_build: bool,
    pub gh_release: bool,
    pub tags: bool,
}

pub open spec fn signals_match(s: ReleaseSignals, inp: ReleaseInputs) -> bool {
    let (idx, v) = release_signals_spec(inp);
    &&& crate::rust_deps::opt_int(s.release_file) == idx
    &&& s.trigger == v.trigger
    &&& s.action == v.action
    &&& s.publish == v.publish
    &&& s.deployment_surface == v.deployment_surface
    &&& s.deployment_build == v.deployment_build
    &&& s.gh_release == v.gh_release
    &&& s.tags == v.tags
}

pub open spec fn release_parts(s: ReleaseSignals, app: bool) -> Seq<(u8, bool)> {
    if app {
        seq![
            (20u8, s.release_file.is_some()),
            (15u8, s.trigger),
            (15u8, s.action),
            (10u8, s.publish),
            (20u8, s.deployment_surface),
            (20u8, s.deployment_build),
        ]
    } else {
        seq![
            (30u8, s.release_file.is_some()),
            (25u8, s.trigger),
            (25u8, s.action),
            (20u8, s.publish),
        ]
    }
}

pub open spec fn file_display(inp: ReleaseInputs, s: ReleaseSignals) -> Seq<Seq<char>> {
    match s.release_file {
        Some(i) => seq![inp.workflow_files@[i as int].display@],
        None => Seq::empty(),
    }
}

pub open spec fn file_path(inp: ReleaseInputs, s: ReleaseSignals) -> Option<Seq<char>> {
    match s.release_file {
        Some(i) => Some(inp.workflow_files@[i as int].path@),
        None => None,
    }
}

pub open spec fn deployment_path(inp: ReleaseInputs) -> Option<Seq<char>> {
    match inp.deployment {
        Some(d) => Some(d.path@),
        None => None,
    }
}

pub open spec fn or_else(a: Option<Seq<char>>, b: Option<Seq<char>>) -> Option<Seq<char>> {
    match a {
        Some(x) => Some(x),
        None => b,
    }
}

/// The evidence before repeats are dropped.
pub open spec fn release_evidence(inp: ReleaseInputs, s: ReleaseSignals) -> Seq<Seq<char>> {
    file_display(inp, s) + match inp.deployment {
        Some(d) => seq![d.display@],
        None => Seq::empty(),
    } + opt_item(s.gh_release, "action-gh-release"@) + opt_item(s.tags, "tag-trigger"@) + opt_item(
        s.action,
        "release-action"@,
    ) + opt_item(s.publish, "publish-step"@) + opt_item(s.deployment_build, "deployment-build"@)
}

pub open spec fn release_findings(inp: ReleaseInputs, s: ReleaseSignals) -> Seq<AuditFindingView> {
    let app = inp.profile == RepoProfile::App;
    let ev = release_evidence(inp, s);
    let loc = or_else(file_path(inp, s), deployment_path(inp));
    (if s.release_file.is_none() {
        if s.deployment_surface && app {
            seq![
                afv(
                    "release_workflow.file"@,
                    FindingSeverity::Info,
                    "A deployment config exists, but there is no dedicated release workflow in GitHub Actions."@,
                    "Keep the deployment config, and add a release workflow later if you want shipping to be visible and reproducible from the repository itself."@,
                    match inp.deployment {
                        Some(d) => seq![d.display@],
                        None => Seq::empty(),
                    },
                    deployment_path(inp),
                ),
            ]
        } else {
            seq![
                afv(
                    "release_workflow.file"@,
                    FindingSeverity::Info,
                    "No dedicated release workflow file was detected."@,
                    "Add a release workflow if you want shipping and packaging to be repeatable."@,
                    Seq::empty(),
                    Some(inp.workflows_dir@),
                ),
            ]
        }
    } else {
        Seq::empty()
    }) + opt_item(
        !(s.trigger || s.deployment_surface && app),
        afv(
            "release_workflow.trigger"@,
            FindingSeverity::Warning,
            "Release automation has no clear tag or manual trigger."@,
            "Trigger releases from tags or workflow_dispatch so shipping is deliberate and reproducible."@,
            ev,
            file_path(inp, s),
        ),
    ) + opt_item(
        !(s.action || s.deployment_surface),
        afv(
            "release_workflow.artifacts"@,
            FindingSeverity::Warning,
            "The workflow does not clearly publish a release or artifacts."@,
            "Use a release action or upload artifacts so releases produce something consumable."@,
            ev,
            loc,
        ),
    ) + opt_item(
        !(s.publish || s.deployment_build),
        afv(
            "release_workflow.publish"@,
            FindingSeverity::Info,
            "No stack-specific publish or packaging step was detected."@,
            "Add a publish or packaging step that matches the detected ecosystem when you are ready to ship releases."@,
            ev,
            loc,
        ),
    )
}

pub open spec fn release_message(status: CheckStatus, deployed_app: bool, app: bool) -> Seq<char> {
    match status {
        CheckStatus::Strong => if deployed_app {
            "Delivery automation is present and looks ready to ship the app."@
        } else {
            "Release automation is present and looks publish-oriented."@
        },
        CheckStatus::Partial => if deployed_app {
            "Deployment config exists, but the shipping path is only partially automated from the repository."@
        } else {
            "Some release automation exists, but the publish path is incomplete."@
        },
        CheckStatus::Missing => if app {
            "No release workflow or deployment config was detected."@
        } else {
            "No release workflow was detected."@
        },
    }
}

/// The release rule's verdict for the signals seen in a repository.
pub open spec fn release_assessment_spec(inp: ReleaseInputs, s: ReleaseSignals) -> AssessmentView {
    let app = inp.profile == RepoProfile::App;
    let coverage = weighted_coverage_spec(release_parts(s, app));
    AssessmentView {
        coverage,
        confidence: 860,
        message: release_message(status_from_coverage(coverage), s.deployment_surface && app, app),
        evidence: dedupe_spec(release_evidence(inp, s)),
        findings: release_findings(inp, s),
        location: or_else(or_else(file_path(inp, s), deployment_path(inp)), Some(inp.workflows_dir@)),
    }
}

fn strs(v: Vec<&str>) -> (r: Vec<&str>)
    ensures
        r@ == v@,
{
    v
}

fn contains_any_string(contents: &str, patterns: &Vec<String>) -> (b: bool)
    ensures
        b == contains_any_spec(contents@, views(patterns@)),
{
    let mut i: usize = 0;
    while i < patterns.len()
        invariant
            i <= patterns.len(),
            forall|k: int| 0 <= k < i ==> !contains(contents@, #[trigger] views(patterns@)[k]),
        decreases patterns.len() - i,
    {
        if str_contains(contents, patterns[i].as_str()) {
            assert(views(patterns@)[i as int] == patterns@[i as int]@);
            return true;
        }
        i += 1;
    }
    false
}

fn packaging_step(normalized: &str, kind: ProjectKind, profile: RepoProfile) -> (b: bool)
    ensures
        b == packaging_step_spec(normalized@, kind, profile),
{
    if profile != RepoProfile::Cli {
        return false;
    }
    let phrases: Vec<&str> = match kind {
        ProjectKind::Rust => vec![
            "cargo build --release",
            "cargo build --release --target",
            "package release archive",
            "archive_name:",
            "binary_name:",
            "tar -czf",
            "compress-archive",
            "target/${{ matrix.target }}/release/",
        ],
        ProjectKind::Node => vec![
            "npm pack",
            "pnpm pack",
            "yarn pack",
            "pkg ",
            "nexe ",
            "tar -czf",
            "compress-archive",
        ],
        ProjectKind::Python => vec![
            "python -m build",
            "pyinstaller",
            "zipapp",
            "tar -czf",
            "compress-archive",
        ],
        ProjectKind::Go => vec!["goreleaser", "go build", "tar -czf", "compress-archive"],
        ProjectKind::Unknown => vec!["package", "archive", "upload-artifact", "release binary"],
    };
    assert(str_views(phrases@) =~= packaging_phrases(kind));
    contains_any(normalized, &phrases)
}

fn find_release_file(fs: &Vec<WorkflowFile>) -> (r: Option<usize>)
    ensures
        crate::rust_deps::opt_int(r) == release_file_index(fs@),
{
    let mut found: Option<usize> = None;
    let mut i: usize = 0;
    while i < fs.len()
        invariant
            i <= fs.len(),
            crate::rust_deps::opt_int(found) == release_file_index(fs@.take(i as int)),
        decreases fs.len() - i,
    {
        assert(fs@.take(i + 1).drop_last() =~= fs@.take(i as int));
        if found.is_none() {
            let p = fs[i].path.as_str();
            let _n = p.unicode_len();
            let name = match rfind_char(p, '/') {
                Some(k) => suffix_from(p, k + 1),
                None => p.to_owned(),
            };
            if str_contains(to_lowercase(name.as_str()).as_str(), "release") {
                found = Some(i);
            }
        }
        i += 1;
    }
    assert(fs@.take(fs.len() as int) =~= fs@);
    found
}

/// What the release rule sees in a repository.
pub fn release_signals(inp: &ReleaseInputs) -> (s: ReleaseSignals)
    ensures
        signals_match(s, *inp),
{
    let n = to_lowercase(inp.workflow_text.as_str());
    let n = n.as_str();
    let deployment_text = match &inp.deployment {
        Some(d) => to_lowercase(d.contents.as_str()),
        None => to_lowercase(""),
    };
    let surface = inp.deployment.is_some();
    let build_phrases = strs(
        vec![
            "[build]",
            "command =",
            "publish =",
            "\"buildcommand\"",
            "\"outputdirectory\"",
            "\"rewrites\"",
            "bun run build",
            "npm run build",
            "pnpm build",
            "yarn build",
            "vite build",
            "dist",
        ],
    );
    assert(str_views(build_phrases@) =~= deployment_build_phrases());
    proof {
        assert(""@ =~= Seq::<char>::empty()) by {
            reveal_strlit("");
        }
    }
    ReleaseSignals {
        release_file: find_release_file(&inp.workflow_files),
        trigger: str_contains(n, "tags:") || str_contains(n, "workflow_dispatch") || str_contains(
            n,
            "softprops/action-gh-release",
        ),
        action: str_contains(n, "softprops/action-gh-release") || str_contains(n, "gh release")
            || str_contains(n, "upload-artifact"),
        publish: contains_any_string(n, &inp.release_keywords) || packaging_step(
            n,
            inp.kind,
            inp.profile,
        ),
        deployment_surface: surface,
        deployment_build: surface && contains_any(deployment_text.as_str(), &build_phrases),
        gh_release: str_contains(n, "softprops/action-gh-release"),
        tags: str_contains(n, "tags:"),
    }
}

fn push_label(v: &mut Vec<String>, c: bool, x: &str)
    ensures
        views(final(v)@) == views(old(v)@) + opt_item(c, x@),
{
    if c {
        v.push(x.to_owned());
    }
    assert(views(v@) =~= views(old(v)@) + opt_item(c, x@));
}

fn copy_strings(v: &Vec<String>) -> (r: Vec<String>)
    ensures
        views(r@) == views(v@),
{
    let mut r: Vec<String> = Vec::new();
    let mut i: usize = 0;
    while i < v.len()
        invariant
            i <= v.len(),
            views(r@) == views(v@).take(i as int),
        decreases v.len() - i,
    {
        let ghost before = views(r@);
        r.push(v[i].clone());
        assert(views(r@) =~= before.push(v@[i as int]@));
        assert(views(v@).take(i + 1) =~= views(v@).take(i as int).push(v@[i as int]@));
        i += 1;
    }
    assert(views(v@).take(v.len() as int) =~= views(v@));
    r
}

fn opt_clone(o: &Option<String>) -> (r: Option<String>)
    ensures
        crate::doctor::opt_seq(r) == crate::doctor::opt_seq(*o),
{
    match o {
        Some(s) => Some(s.clone()),
        None => None,
    }
}

fn push_finding_if(
    out: &mut Vec<AuditFinding>,
    c: bool,
    id: &str,
    severity: FindingSeverity,
    message: &str,
    help: &str,
    evidence: &Vec<String>,
    loc: &Option<String>,
)
    ensures
        audit_views(final(out)@) == audit_views(old(out)@) + opt_item(
            c,
            afv(id@, severity, message@, help@, views(evidence@), crate::doctor::opt_seq(*loc)),
        ),
{
    if c {
        out.push(crate::audit::finding(id, severity, message, help, copy_strings(evidence), opt_clone(loc)));
    }
    assert(audit_views(out@) =~= audit_views(old(out)@) + opt_item(
        c,
        afv(id@, severity, message@, help@, views(evidence@), crate::doctor::opt_seq(*loc)),
    ));
}

fn release_evidence_exec(inp: &ReleaseInputs, s: ReleaseSignals) -> (ev: Vec<String>)
    requires
        s.release_file matches Some(i) ==> i < inp.workflow_files@.len(),
    ensures
        views(ev@) == release_evidence(*inp, s),
{
    let mut ev: Vec<String> = Vec::new();
    match s.release_file {
        Some(i) => ev.push(inp.workflow_files[i].display.clone()),
        None => {},
    }
    match &inp.deployment {
        Some(d) => ev.push(d.display.clone()),
        None => {},
    }
    let ghost mid = views(ev@);
    assert(mid =~= file_display(*inp, s) + match inp.deployment {
        Some(d) => seq![d.display@],
        None => Seq::empty(),
    });
    push_label(&mut ev, s.gh_release, "action-gh-release");
    push_label(&mut ev, s.tags, "tag-trigger");
    push_label(&mut ev, s.action, "release-action");
    push_label(&mut ev, s.publish, "publish-step");
    push_label(&mut ev, s.deployment_build, "deployment-build");
    assert(views(ev@) =~= release_evidence(*inp, s));
    ev
}

#[verifier::rlimit(40)]
fn release_findings_exec(inp: &ReleaseInputs, s: ReleaseSignals, ev: &Vec<String>) -> (out: Vec<
    AuditFinding,
>)
    requires
        s.release_file matches Some(i) ==> i < inp.workflow_files@.len(),
        views(ev@) == release_evidence(*inp, s),
        s.deployment_surface == inp.deployment.is_some(),
    ensures
        audit_views(out@) == release_findings(*inp, s),
{
    let app = inp.profile == RepoProfile::App;
    let file_loc: Option<String> = match s.release_file {
        Some(i) => Some(inp.workflow_files[i].path.clone()),
        None => None,
    };
    let deploy_loc: Option<String> = match &inp.deployment {
        Some(d) => Some(d.path.clone()),
        None => None,
    };
    let loc: Option<String> = match &file_loc {
        Some(p) => Some(p.clone()),
        None => opt_clone(&deploy_loc),
    };
    let mut out: Vec<AuditFinding> = Vec::new();
    if s.release_file.is_none() {
        if s.deployment_surface && app {
            let mut shown: Vec<String> = Vec::new();
            match &inp.deployment {
                Some(d) => shown.push(d.display.clone()),
                None => {},
            }
            push_finding_if(
                &mut out,
                true,
                "release_workflow.file",
                FindingSeverity::Info,
                "A deployment config exists, but there is no dedicated release workflow in GitHub Actions.",
                "Keep the deployment config, and add a release workflow later if you want shipping to be visible and reproducible from the repository itself.",
                &shown,
                &deploy_loc,
            );
            assert(views(shown@) =~= (match inp.deployment {
                Some(d) => seq![d.display@],
                None => Seq::<Seq<char>>::empty(),
            }));
        } else {
            let none: Vec<String> = Vec::new();
            assert(views(none@) =~= Seq::<Seq<char>>::empty());
            push_finding_if(
                &mut out,
                true,
                "release_workflow.file",
                FindingSeverity::Info,
                "No dedicated release workflow file was detected.",
                "Add a release workflow if you want shipping and packaging to be repeatable.",
                &none,
                &Some(inp.workflows_dir.clone()),
            );
        }
    }
    let ghost first = audit_views(out@);
    push_finding_if(
        &mut out,
        !(s.trigger || s.deployment_surface && app),
        "release_workflow.trigger",
        FindingSeverity::Warning,
        "Release automation has no clear tag or manual trigger.",
        "Trigger releases from tags or workflow_dispatch so shipping is deliberate and reproducible.",
        ev,
        &file_loc,
    );
    push_finding_if(
        &mut out,
        !(s.action || s.deployment_surface),
        "release_workflow.artifacts",
        FindingSeverity::Warning,
        "The workflow does not clearly publish a release or artifacts.",
        "Use a release action or upload artifacts so releases produce something consumable.",
        ev,
        &loc,
    );
    push_finding_if(
        &mut out,
        !(s.publish || s.deployment_build),
        "release_workflow.publish",
        FindingSeverity::Info,
        "No stack-specific publish or packaging step was detected.",
        "Add a publish or packaging step that matches the detected ecosystem when you are ready to ship releases.",
        ev,
        &loc,
    );
    assert(audit_views(out@) =~= release_findings(*inp, s));
    out
}

fn release_coverage(s: ReleaseSignals, app: bool) -> (c: u8)
    ensures
        c == weighted_coverage_spec(release_parts(s, app)),
{
    let parts: Vec<(u8, bool)> = if app {
        vec![
            (20, s.release_file.is_some()),
            (15, s.trigger),
            (15, s.action),
            (10, s.publish),
            (20, s.deployment_surface),
            (20, s.deployment_build),
        ]
    } else {
        vec![
            (30, s.release_file.is_some()),
            (25, s.trigger),
            (25, s.action),
            (20, s.publish),
        ]
    };
    assert(parts@ =~= release_parts(s, app));
    proof {
        reveal_with_fuel(weight_total, 7);
    }
    weighted_coverage(&parts)
}

fn release_message_exec(status: CheckStatus, deployed_app: bool, app: bool) -> (m: String)
    ensures
        m@ == release_message(status, deployed_app, app),
{
    match status {
        CheckStatus::Strong => if deployed_app {
            "Delivery automation is present and looks ready to ship the app.".to_owned()
        } else {
            "Release automation is present and looks publish-oriented.".to_owned()
        },
        CheckStatus::Partial => if deployed_app {
            "Deployment config exists, but the shipping path is only partially automated from the repository.".to_owned()
        } else {
            "Some release automation exists, but the publish path is incomplete.".to_owned()
        },
        CheckStatus::Missing => if app {
            "No release workflow or deployment config was detected.".to_owned()
        } else {
            "No release workflow was detected.".to_owned()
        },
    }
}

/// The release workflow rule's verdict for a repository.
pub fn assess_release_workflow(inp: &ReleaseInputs) -> (r: RuleAssessment)
    ensures
        r.status == crate::audit::status_from_coverage(r.coverage),
        r.coverage <= 100,
        exists|s: ReleaseSignals|
            signals_match(s, *inp) && #[trigger] assessment_matches(r, release_assessment_spec(*inp, s)),
{
    proof {
        lemma_release_file_index(inp.workflow_files@);
    }
    let s = release_signals(inp);
    let app = inp.profile == RepoProfile::App;
    let ev = release_evidence_exec(inp, s);
    let findings = release_findings_exec(inp, s, &ev);
    let coverage = release_coverage(s, app);
    let status = CheckStatus::from_coverage(coverage);
    let message = release_message_exec(status, s.deployment_surface && app, app);
    let location: Option<String> = match s.release_file {
        Some(i) => Some(inp.workflow_files[i].path.clone()),
        None => match &inp.deployment {
            Some(d) => Some(d.path.clone()),
            None => Some(inp.workflows_dir.clone()),
        },
    };
    let r = RuleAssessment {
        status,
        coverage,
        confidence_permille: 860,
        message,
        evidence: dedupe_strings(ev),
        findings,
        location,
    };
    assert(assessment_matches(r, release_assessment_spec(*inp, s)));
    r
}

} // verus!
