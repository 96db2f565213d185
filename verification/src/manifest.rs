//! The manifest metadata rule of the audit: name, description, license,
//! repository, homepage, version and discovery keywords of the project's
//! manifest.
use vstd::prelude::*;
use crate::audit::{coverage_ratio, status_from_coverage, AuditFinding, CheckStatus, FindingSeverity};
use crate::docs::file_name_seq;
use crate::doctor::opt_seq;
use crate::project::{binary_name_spec, ProjectContext};
use crate::readme::{
    afv, assessment_matches, audit_views, opt_item, AssessmentView, AuditFindingView, RuleAssessment,
};
use crate::text::{
    ascii_lowercase, concat_str, decimal, decimal_string, rfind_char, str_eq, suffix_from,
    to_ascii_lowercase, utf8_byte_len, utf8_bytes, views,
};

verus! {

/// What the manifest declares about the project.
#[derive(Debug, Clone)]
pub struct ManifestMetadata {
    pub description: Option<String>,
    pub license: Option<String>,
    pub repository: Option<String>,
    pub homepage: Option<String>,
    pub version: Option<String>,
    pub keywords: Vec<String>,
    pub categories: Vec<String>,
    pub dependencies: Vec<String>,
}

/// A project name that identifies it: its binary name is not empty and it
/// is not the fallback name `project`.
pub open spec fn coherent_name(p: ProjectContext) -> bool {
    binary_name_spec(p.name@).len() > 0 && p.name@ != "project"@
}

/// The manifest is a `requirements.txt` (in any ASCII case).
pub open spec fn is_requirements_manifest(p: ProjectContext) -> bool {
    match p.manifest_path {
        Some(path) => ascii_lowercase(file_name_seq(path@)) == "requirements.txt"@,
        None => false,
    }
}

pub open spec fn has_description(m: ManifestMetadata) -> bool {
    match m.description {
        Some(d) => utf8_bytes(d@) > 20,
        None => false,
    }
}

pub open spec fn has_discovery(m: ManifestMetadata) -> bool {
    m.keywords@.len() > 0 || m.categories@.len() > 0
}

pub open spec fn metadata_evidence(p: ProjectContext, m: ManifestMetadata) -> Seq<Seq<char>> {
    opt_item(coherent_name(p), "name"@) + opt_item(has_description(m), "description"@) + opt_item(
        m.license.is_some(),
        "license metadata"@,
    ) + opt_item(m.repository.is_some(), "repository"@) + opt_item(
        m.homepage.is_some(),
        "homepage"@,
    ) + opt_item(m.version.is_some(), "version"@) + opt_item(
        has_discovery(m),
        "keywords/categories"@,
    )
}

pub open spec fn description_evidence(m: ManifestMetadata) -> Seq<Seq<char>> {
    match m.description {
        Some(d) => seq![d@],
        None => Seq::empty(),
    }
}

pub open spec fn metadata_findings(
    p: ProjectContext,
    m: ManifestMetadata,
    loc: Option<Seq<char>>,
) -> Seq<AuditFindingView> {
    opt_item(
        !coherent_name(p),
        afv(
            "manifest_metadata.name"@,
            FindingSeverity::Warning,
            "The manifest name is missing or too generic."@,
            "Use a stable, project-specific package name so the repository identity is obvious."@,
            Seq::empty(),
            loc,
        ),
    ) + opt_item(
        !has_description(m),
        afv(
            "manifest_metadata.description"@,
            FindingSeverity::Warning,
            "The manifest is missing a meaningful description."@,
            "Add a one-sentence description that explains the public value of the project."@,
            description_evidence(m),
            loc,
        ),
    ) + opt_item(
        m.license.is_none(),
        afv(
            "manifest_metadata.license"@,
            FindingSeverity::Info,
            "The manifest does not declare license metadata."@,
            "Mirror the repository license inside the manifest so package registries stay informative."@,
            Seq::empty(),
            loc,
        ),
    ) + opt_item(
        m.repository.is_none(),
        afv(
            "manifest_metadata.repository"@,
            FindingSeverity::Warning,
            "The manifest does not point back to the source repository."@,
            "Add a repository URL so package pages link back to issues, docs, and source."@,
            Seq::empty(),
            loc,
        ),
    ) + opt_item(
        m.homepage.is_none(),
        afv(
            "manifest_metadata.homepage"@,
            FindingSeverity::Info,
            "The manifest is missing a homepage or docs URL."@,
            "Add a homepage when you have canonical docs, a website, or richer project context."@,
            Seq::empty(),
            loc,
        ),
    ) + opt_item(
        m.version.is_none(),
        afv(
            "manifest_metadata.version"@,
            FindingSeverity::Warning,
            "The manifest does not expose a version yet."@,
            "Set an explicit version so releases and changelogs have a stable anchor."@,
            Seq::empty(),
            loc,
        ),
    ) + opt_item(
        !has_discovery(m),
        afv(
            "manifest_metadata.discovery"@,
            FindingSeverity::Info,
            "The manifest has no keywords or categories for discovery."@,
            "Add a few relevant keywords or categories to improve package discoverability."@,
            Seq::empty(),
            loc,
        ),
    )
}

pub open spec fn metadata_message(status: CheckStatus, matched: nat) -> Seq<char> {
    match status {
        CheckStatus::Strong => "Manifest metadata looks discoverable and distribution-ready."@,
        CheckStatus::Partial => "Manifest metadata covers "@ + decimal(matched)
            + "/7 expected discovery signals."@,
        CheckStatus::Missing => "The manifest exists, but it lacks most discovery metadata."@,
    }
}

/// The manifest metadata rule's verdict.  A `requirements.txt` can only
/// carry dependencies, so it gets a fixed low coverage; any other manifest
/// is graded by the share of the seven metadata signals it declares.
pub open spec fn manifest_assessment_spec(p: ProjectContext, m: ManifestMetadata) -> AssessmentView {
    let loc = opt_seq(p.manifest_path);
    if is_requirements_manifest(p) {
        let deps = m.dependencies@.len();
        AssessmentView {
            coverage: if deps == 0 {
                15
            } else {
                25
            },
            confidence: 780,
            message: if deps == 0 {
                "A lightweight Python dependency manifest exists, but it carries very little project metadata."@
            } else {
                "requirements.txt captures Python dependencies, but richer repository metadata still lives outside the manifest surface."@
            },
            evidence: opt_item(coherent_name(p), "name"@) + opt_item(
                deps > 0,
                decimal(deps) + " dependencies"@,
            ),
            findings: seq![
                afv(
                    "manifest_metadata.lightweight_manifest"@,
                    FindingSeverity::Info,
                    "A lightweight Python dependency manifest was detected, but it cannot carry richer project metadata."@,
                    "Keep requirements.txt for runtime dependencies, and add pyproject.toml later if you want version, description, repository, or packaging metadata to be explicit."@,
                    seq!["requirements.txt"@],
                    loc,
                ),
            ],
            location: loc,
        }
    } else {
        let ev = metadata_evidence(p, m);
        let coverage = ((ev.len() * 100) / 7) as u8;
        AssessmentView {
            coverage,
            confidence: 820,
            message: metadata_message(status_from_coverage(coverage), ev.len()),
            evidence: ev,
            findings: metadata_findings(p, m, loc),
            location: loc,
        }
    }
}

fn clone_opt(o: &Option<String>) -> (r: Option<String>)
    ensures
        opt_seq(r) == opt_seq(*o),
{
    match o {
        Some(s) => Some(s.clone()),
        None => None,
    }
}

fn requirements_manifest(p: &ProjectContext) -> (b: bool)
    ensures
        b == is_requirements_manifest(*p),
{
    match &p.manifest_path {
        Some(path) => {
            let _n = path.as_str().unicode_len();
            let name = match rfind_char(path.as_str(), '/') {
                Some(i) => suffix_from(path.as_str(), i + 1),
                None => path.clone(),
            };
            str_eq(to_ascii_lowercase(name.as_str()).as_str(), "requirements.txt")
        },
        None => false,
    }
}

fn push_label(v: &mut Vec<String>, c: bool, x: &str)
    ensures
        views(final(v)@) == views(old(v)@) + opt_item(c, x@),
{
    if c {
        v.push(x.to_owned());
    }
    assert(views(v@) =~= views(old(v)@) + opt_item(c, x@));
}

fn push_finding_if(
    out: &mut Vec<AuditFinding>,
    c: bool,
    id: &str,
    severity: FindingSeverity,
    message: &str,
    help: &str,
    evidence: Vec<String>,
    loc: &Option<String>,
)
    ensures
        audit_views(final(out)@) == audit_views(old(out)@) + opt_item(
            c,
            afv(id@, severity, message@, help@, views(evidence@), opt_seq(*loc)),
        ),
{
    if c {
        out.push(crate::audit::finding(id, severity, message, help, evidence, clone_opt(loc)));
    }
    assert(audit_views(out@) =~= audit_views(old(out)@) + opt_item(
        c,
        afv(id@, severity, message@, help@, views(evidence@), opt_seq(*loc)),
    ));
}

fn none_evidence() -> (r: Vec<String>)
    ensures
        views(r@) == Seq::<Seq<char>>::empty(),
{
    let r: Vec<String> = Vec::new();
    assert(views(r@) =~= Seq::<Seq<char>>::empty());
    r
}

fn lightweight_assessment(p: &ProjectContext, m: &ManifestMetadata, coherent: bool) -> (r:
    RuleAssessment)
    requires
        coherent == coherent_name(*p),
        is_requirements_manifest(*p),
    ensures
        assessment_matches(r, manifest_assessment_spec(*p, *m)),
{
    let deps = m.dependencies.len();
    let mut evidence: Vec<String> = Vec::new();
    push_label(&mut evidence, coherent, "name");
    let ghost before = views(evidence@);
    if deps > 0 {
        evidence.push(concat_str(decimal_string(deps as u64).as_str(), " dependencies"));
    }
    assert(views(evidence@) =~= before + opt_item(deps > 0, decimal(deps as nat) + " dependencies"@));
    let mut shown: Vec<String> = Vec::new();
    shown.push("requirements.txt".to_owned());
    assert(views(shown@) =~= seq!["requirements.txt"@]);
    let mut findings: Vec<AuditFinding> = Vec::new();
    findings.push(
        crate::audit::finding(
            "manifest_metadata.lightweight_manifest",
            FindingSeverity::Info,
            "A lightweight Python dependency manifest was detected, but it cannot carry richer project metadata.",
            "Keep requirements.txt for runtime dependencies, and add pyproject.toml later if you want version, description, repository, or packaging metadata to be explicit.",
            shown,
            clone_opt(&p.manifest_path),
        ),
    );
    assert(audit_views(findings@) =~= manifest_assessment_spec(*p, *m).findings);
    let coverage: u8 = if deps == 0 {
        15
    } else {
        25
    };
    RuleAssessment {
        status: CheckStatus::from_coverage(coverage),
        coverage,
        confidence_permille: 780,
        message: if deps == 0 {
            "A lightweight Python dependency manifest exists, but it carries very little project metadata.".to_owned()
        } else {
            "requirements.txt captures Python dependencies, but richer repository metadata still lives outside the manifest surface.".to_owned()
        },
        evidence,
        findings,
        location: clone_opt(&p.manifest_path),
    }
}

fn metadata_evidence_exec(
    p: &ProjectContext,
    m: &ManifestMetadata,
    coherent: bool,
    described: bool,
    discovery: bool,
) -> (evidence: Vec<String>)
    requires
        coherent == coherent_name(*p),
        described == has_description(*m),
        discovery == has_discovery(*m),
    ensures
        views(evidence@) == metadata_evidence(*p, *m),
{
    let mut evidence: Vec<String> = Vec::new();
    push_label(&mut evidence, coherent, "name");
    push_label(&mut evidence, described, "description");
    push_label(&mut evidence, m.license.is_some(), "license metadata");
    push_label(&mut evidence, m.repository.is_some(), "repository");
    push_label(&mut evidence, m.homepage.is_some(), "homepage");
    push_label(&mut evidence, m.version.is_some(), "version");
    push_label(&mut evidence, discovery, "keywords/categories");
    assert(views(evidence@) =~= metadata_evidence(*p, *m));
    evidence
}

#[verifier::rlimit(40)]
fn metadata_findings_exec(
    p: &ProjectContext,
    m: &ManifestMetadata,
    coherent: bool,
    described: bool,
    discovery: bool,
) -> (findings: Vec<AuditFinding>)
    requires
        coherent == coherent_name(*p),
        described == has_description(*m),
        discovery == has_discovery(*m),
    ensures
        audit_views(findings@) == metadata_findings(*p, *m, opt_seq(p.manifest_path)),
{
    let loc = &p.manifest_path;
    let mut findings: Vec<AuditFinding> = Vec::new();
    push_finding_if(
        &mut findings,
        !coherent,
        "manifest_metadata.name",
        FindingSeverity::Warning,
        "The manifest name is missing or too generic.",
        "Use a stable, project-specific package name so the repository identity is obvious.",
        none_evidence(),
        loc,
    );
    let description_shown: Vec<String> = match &m.description {
        Some(d) => {
            let mut v: Vec<String> = Vec::new();
            v.push(d.clone());
            v
        },
        None => Vec::new(),
    };
    assert(views(description_shown@) =~= description_evidence(*m));
    push_finding_if(
        &mut findings,
        !described,
        "manifest_metadata.description",
        FindingSeverity::Warning,
        "The manifest is missing a meaningful description.",
        "Add a one-sentence description that explains the public value of the project.",
        description_shown,
        loc,
    );
    push_finding_if(
        &mut findings,
        m.license.is_none(),
        "manifest_metadata.license",
        FindingSeverity::Info,
        "The manifest does not declare license metadata.",
        "Mirror the repository license inside the manifest so package registries stay informative.",
        none_evidence(),
        loc,
    );
    push_finding_if(
        &mut findings,
        m.repository.is_none(),
        "manifest_metadata.repository",
        FindingSeverity::Warning,
        "The manifest does not point back to the source repository.",
        "Add a repository URL so package pages link back to issues, docs, and source.",
        none_evidence(),
        loc,
    );
    push_finding_if(
        &mut findings,
        m.homepage.is_none(),
        "manifest_metadata.homepage",
        FindingSeverity::Info,
        "The manifest is missing a homepage or docs URL.",
        "Add a homepage when you have canonical docs, a website, or richer project context.",
        none_evidence(),
        loc,
    );
    push_finding_if(
        &mut findings,
        m.version.is_none(),
        "manifest_metadata.version",
        FindingSeverity::Warning,
        "The manifest does not expose a version yet.",
        "Set an explicit version so releases and changelogs have a stable anchor.",
        none_evidence(),
        loc,
    );
    push_finding_if(
        &mut findings,
        !discovery,
        "manifest_metadata.discovery",
        FindingSeverity::Info,
        "The manifest has no keywords or categories for discovery.",
        "Add a few relevant keywords or categories to improve package discoverability.",
        none_evidence(),
        loc,
    );
    assert(audit_views(findings@) =~= metadata_findings(*p, *m, opt_seq(p.manifest_path)));
    findings
}

/// The manifest metadata rule's verdict for the detected project and what
/// its manifest declares.
pub fn assess_manifest_metadata(p: &ProjectContext, m: &ManifestMetadata) -> (r: RuleAssessment)
    ensures
        r.status == crate::audit::status_from_coverage(r.coverage),
        r.coverage <= 100,
        assessment_matches(r, manifest_assessment_spec(*p, *m)),
{
    let coherent = !p.binary_name().as_str().is_empty() && !str_eq(p.name.as_str(), "project");
    if requirements_manifest(p) {
        return lightweight_assessment(p, m, coherent);
    }
    let described = match &m.description {
        Some(d) => utf8_byte_len(d.as_str()) > 20,
        None => false,
    };
    let discovery = m.keywords.len() > 0 || m.categories.len() > 0;
    let evidence = metadata_evidence_exec(p, m, coherent, described, discovery);
    let findings = metadata_findings_exec(p, m, coherent, described, discovery);
    let matched = evidence.len();
    let coverage = coverage_ratio(matched, 7);
    let status = CheckStatus::from_coverage(coverage);
    let message = match status {
        CheckStatus::Strong => "Manifest metadata looks discoverable and distribution-ready.".to_owned(),
        CheckStatus::Partial => {
            let mut s = concat_str("Manifest metadata covers ", decimal_string(matched as u64).as_str());
            s.append("/7 expected discovery signals.");
            s
        },
        CheckStatus::Missing => "The manifest exists, but it lacks most discovery metadata.".to_owned(),
    };
    RuleAssessment {
        status,
        coverage,
        confidence_permille: 820,
        message,
        evidence,
        findings,
        location: clone_opt(&p.manifest_path),
    }
}

} // verus!
