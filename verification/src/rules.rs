//! The document rules of the audit: license, contributor documents,
//! issue and pull request templates, code owners, changelog and funding.
use vstd::prelude::*;
use crate::audit::{
    count_matches, dedupe_spec, dedupe_strings, markdown_code_block_count, contains_any, contains_any_spec, coverage_ratio, looks_placeholder, normalize, placeholder_phrases,
    status_from_coverage, weight_total, weighted_coverage, weighted_coverage_spec, AuditFinding,
    CheckStatus, FindingSeverity,
};
use crate::project::{
    kind_ci_keywords, kind_display_name, profile_display_name, str_views, ProjectContext, ProjectKind,
    RepoProfile,
};
use crate::readme::{
    afv, assessment_matches, audit_views, opt_item, AssessmentView, AuditFindingView, RepoDocument,
    RuleAssessment,
};
use crate::security::{clone_strings, push_finding_if, push_label};
use crate::text::{
    chars_of, concat_str, contains, ends_with, starts_with, str_ends_with, str_eq, str_starts_with, join_seq, lines, lines_of, str_contains, str_lowercase, to_lowercase,
    trim, trim_seq, trim_start, trim_start_seq, utf8_byte_len, utf8_bytes, views,
};

verus! {

broadcast use crate::audit::lemma_weighted_coverage_bounded;

// ---------------------------------------------------------------------------
// Shared shapes
// ---------------------------------------------------------------------------

/// The verdict for a missing file: no coverage, one finding, no location.
pub open spec fn missing_view(
    confidence: u16,
    message: Seq<char>,
    id: Seq<char>,
    severity: FindingSeverity,
    finding_message: Seq<char>,
    help: Seq<char>,
) -> AssessmentView {
    AssessmentView {
        coverage: 0,
        confidence,
        message,
        evidence: Seq::empty(),
        findings: seq![afv(id, severity, finding_message, help, Seq::empty(), None)],
        location: None,
    }
}

pub fn missing_rule(
    confidence: u16,
    message: &str,
    id: &str,
    severity: FindingSeverity,
    finding_message: &str,
    help: &str,
) -> (r: RuleAssessment)
    ensures
        assessment_matches(r, missing_view(confidence, message@, id@, severity, finding_message@, help@)),
{
    let none: Vec<String> = Vec::new();
    assert(views(none@) =~= Seq::<Seq<char>>::empty());
    let mut findings: Vec<AuditFinding> = Vec::new();
    findings.push(crate::audit::finding(id, severity, finding_message, help, none, None));
    assert(audit_views(findings@) =~= seq![
        afv(id@, severity, finding_message@, help@, Seq::empty(), None),
    ]);
    let evidence: Vec<String> = Vec::new();
    assert(views(evidence@) =~= Seq::<Seq<char>>::empty());
    RuleAssessment {
        status: CheckStatus::from_coverage(0),
        coverage: 0,
        confidence_permille: confidence,
        message: message.to_owned(),
        evidence,
        findings,
        location: None,
    }
}

/// The patterns of `ps` that occur in `text`, in order.
pub open spec fn found_in(text: Seq<char>, ps: Seq<Seq<char>>) -> Seq<Seq<char>>
    decreases ps.len(),
{
    if ps.len() == 0 {
        Seq::empty()
    } else {
        found_in(text, ps.drop_last()) + opt_item(contains(text, ps.last()), ps.last())
    }
}

pub fn keep_found(text: &str, patterns: &Vec<&str>) -> (r: Vec<String>)
    ensures
        views(r@) == found_in(text@, str_views(patterns@)),
{
    let mut r: Vec<String> = Vec::new();
    let mut i: usize = 0;
    while i < patterns.len()
        invariant
            i <= patterns.len(),
            views(r@) == found_in(text@, str_views(patterns@).take(i as int)),
        decreases patterns.len() - i,
    {
        assert(str_views(patterns@).take(i + 1).drop_last() =~= str_views(patterns@).take(i as int));
        assert(str_views(patterns@)[i as int] == patterns@[i as int]@);
        let hit = str_contains(text, patterns[i]);
        push_label(&mut r, hit, patterns[i]);
        i += 1;
    }
    assert(str_views(patterns@).take(patterns.len() as int) =~= str_views(patterns@));
    r
}

fn weighted(parts: Vec<(u8, bool)>) -> (c: u8)
    requires
        weight_total(parts@) <= 100,
    ensures
        c == weighted_coverage_spec(parts@),
{
    weighted_coverage(&parts)
}

// ---------------------------------------------------------------------------
// License
// ---------------------------------------------------------------------------

pub open spec fn license_phrases() -> Seq<Seq<char>> {
    seq![
        "mit license"@,
        "apache license"@,
        "gnu general public license"@,
        "mozilla public license"@,
        "bsd license"@,
    ]
}

pub open spec fn manifest_line(license: Option<String>) -> Seq<Seq<char>> {
    match license {
        Some(l) => seq!["manifest: "@ + l@],
        None => Seq::empty(),
    }
}

/// The license rule: a recognized license text of some length is strong,
/// any other license file partial; a license named only in the manifest
/// counts a little, and no license is an error.
pub open spec fn license_view(
    doc: Option<RepoDocument>,
    manifest_license: Option<String>,
    manifest_path: Option<String>,
) -> AssessmentView {
    match doc {
        Some(d) => {
            let c = str_lowercase(d.contents@);
            let recognized = contains_any_spec(c, license_phrases());
            let strong = recognized && utf8_bytes(c) >= 240;
            AssessmentView {
                coverage: if strong {
                    100
                } else {
                    65
                },
                confidence: 930,
                message: if strong {
                    "A recognized license file is present."@
                } else {
                    "A license file exists, but the contents do not look fully recognized yet."@
                },
                evidence: seq![d.display@] + manifest_line(manifest_license),
                findings: opt_item(
                    !recognized,
                    afv(
                        "license.unrecognized"@,
                        FindingSeverity::Warning,
                        "A license file exists, but the text does not look like a recognized license yet."@,
                        "Use a standard SPDX-compatible license text so adopters can evaluate usage rights quickly."@,
                        seq![d.display@],
                        Some(d.path@),
                    ),
                ),
                location: Some(d.path@),
            }
        },
        None => match manifest_license {
            Some(l) => AssessmentView {
                coverage: 35,
                confidence: 720,
                message: "License metadata exists in the manifest, but there is no dedicated LICENSE file."@,
                evidence: seq!["manifest: "@ + l@],
                findings: seq![
                    afv(
                        "license.file"@,
                        FindingSeverity::Error,
                        "The repository does not ship a dedicated LICENSE file."@,
                        "Add a root LICENSE file even if the manifest already declares the license identifier."@,
                        Seq::empty(),
                        crate::doctor::opt_seq(manifest_path),
                    ),
                ],
                location: crate::doctor::opt_seq(manifest_path),
            },
            None => missing_view(
                990,
                "No repository-wide license file was found."@,
                "license.missing"@,
                FindingSeverity::Error,
                "No repository-wide license file was found."@,
                "Ship a root LICENSE file so adopters and companies can evaluate usage rights immediately."@,
            ),
        },
    }
}

/// The license rule's verdict for the first of `LICENSE`, `LICENSE.md` and
/// `COPYING` that exists, and the license the manifest declares.
pub fn assess_license(
    doc: &Option<RepoDocument>,
    manifest_license: &Option<String>,
    manifest_path: &Option<String>,
) -> (r: RuleAssessment)
    ensures
        r.status == crate::audit::status_from_coverage(r.coverage),
        r.coverage <= 100,
        assessment_matches(r, license_view(*doc, *manifest_license, *manifest_path)),
{
    match doc {
        Some(d) => {
            let c = normalize(d.contents.as_str());
            let phrases: Vec<&str> = vec![
                "mit license",
                "apache license",
                "gnu general public license",
                "mozilla public license",
                "bsd license",
            ];
            assert(str_views(phrases@) =~= license_phrases());
            let recognized = contains_any(c.as_str(), &phrases);
            let strong = recognized && utf8_byte_len(c.as_str()) >= 240;
            let mut evidence: Vec<String> = Vec::new();
            evidence.push(d.display.clone());
            match manifest_license {
                Some(l) => {
                    evidence.push(concat_str("manifest: ", l.as_str()));
                },
                None => {},
            }
            assert(views(evidence@) =~= seq![d.display@] + manifest_line(*manifest_license));
            let mut shown: Vec<String> = Vec::new();
            shown.push(d.display.clone());
            assert(views(shown@) =~= seq![d.display@]);
            let mut findings: Vec<AuditFinding> = Vec::new();
            push_finding_if(
                &mut findings,
                !recognized,
                "license.unrecognized",
                FindingSeverity::Warning,
                "A license file exists, but the text does not look like a recognized license yet.",
                "Use a standard SPDX-compatible license text so adopters can evaluate usage rights quickly.",
                &shown,
                d.path.as_str(),
            );
            let coverage: u8 = if strong {
                100
            } else {
                65
            };
            RuleAssessment {
                status: CheckStatus::from_coverage(coverage),
                coverage,
                confidence_permille: 930,
                message: if strong {
                    "A recognized license file is present.".to_owned()
                } else {
                    "A license file exists, but the contents do not look fully recognized yet.".to_owned()
                },
                evidence,
                findings,
                location: Some(d.path.clone()),
            }
        },
        None => match manifest_license {
            Some(l) => {
                let mut evidence: Vec<String> = Vec::new();
                evidence.push(concat_str("manifest: ", l.as_str()));
                assert(views(evidence@) =~= seq!["manifest: "@ + l@]);
                let none: Vec<String> = Vec::new();
                assert(views(none@) =~= Seq::<Seq<char>>::empty());
                let mut findings: Vec<AuditFinding> = Vec::new();
                findings.push(
                    crate::audit::finding(
                        "license.file",
                        FindingSeverity::Error,
                        "The repository does not ship a dedicated LICENSE file.",
                        "Add a root LICENSE file even if the manifest already declares the license identifier.",
                        none,
                        manifest_path.clone(),
                    ),
                );
                assert(audit_views(findings@) =~= license_view(
                    *doc,
                    *manifest_license,
                    *manifest_path,
                ).findings);
                RuleAssessment {
                    status: CheckStatus::from_coverage(35),
                    coverage: 35,
                    confidence_permille: 720,
                    message: "License metadata exists in the manifest, but there is no dedicated LICENSE file.".to_owned(),
                    evidence,
                    findings,
                    location: manifest_path.clone(),
                }
            },
            None => missing_rule(
                990,
                "No repository-wide license file was found.",
                "license.missing",
                FindingSeverity::Error,
                "No repository-wide license file was found.",
                "Ship a root LICENSE file so adopters and companies can evaluate usage rights immediately.",
            ),
        },
    }
}

// ---------------------------------------------------------------------------
// Contributor documents
// ---------------------------------------------------------------------------

pub open spec fn min_nat(a: nat, b: nat) -> nat {
    if a < b {
        a
    } else {
        b
    }
}

pub open spec fn quality_parts(depth: bool, topics: bool, not_placeholder: bool) -> Seq<(u8, bool)> {
    seq![(35u8, true), (25u8, depth), (25u8, topics), (15u8, not_placeholder)]
}

/// A contributor document (such as `CONTRIBUTING.md`): long enough, on
/// enough of the expected topics, and no scaffold copy.
pub open spec fn quality_view(
    doc: Option<RepoDocument>,
    candidates: Seq<Seq<char>>,
    min_strong_len: nat,
    keywords: Seq<Seq<char>>,
) -> AssessmentView {
    match doc {
        Some(d) => {
            let c = str_lowercase(d.contents@);
            let ev = found_in(c, keywords);
            let depth = utf8_bytes(c) >= min_strong_len;
            let topics = ev.len() >= min_nat(keywords.len(), 3);
            let placeholder = contains_any_spec(c, placeholder_phrases());
            let coverage = weighted_coverage_spec(quality_parts(depth, topics, !placeholder));
            let name = d.display@;
            AssessmentView {
                coverage,
                confidence: 850,
                message: if status_from_coverage(coverage) == CheckStatus::Strong {
                    name + " looks specific enough to guide contributors."@
                } else if placeholder {
                    name + " exists, but it still looks like scaffold copy."@
                } else {
                    name + " exists, but it could be more specific or complete."@
                },
                evidence: ev,
                findings: opt_item(
                    !depth,
                    afv(
                        name + ".depth"@,
                        FindingSeverity::Warning,
                        name + " exists, but it is still short on project-specific detail."@,
                        "Expand it with maintainership expectations, response times, or verification steps that match this repository."@,
                        Seq::empty(),
                        Some(d.path@),
                    ),
                ) + opt_item(
                    !topics,
                    afv(
                        name + ".coverage"@,
                        FindingSeverity::Warning,
                        name + " does not yet cover enough of the expected topics."@,
                        "Make sure it explicitly covers topics such as "@ + join_seq(keywords, ", "@) + "."@,
                        ev,
                        Some(d.path@),
                    ),
                ) + opt_item(
                    placeholder,
                    afv(
                        name + ".placeholder"@,
                        FindingSeverity::Warning,
                        name + " still looks like scaffold copy."@,
                        "Replace starter language with project-specific expectations and reporting details."@,
                        Seq::empty(),
                        Some(d.path@),
                    ),
                ),
                location: Some(d.path@),
            }
        },
        None => missing_view(
            990,
            "The file is missing."@,
            "document.missing"@,
            FindingSeverity::Error,
            "The file is missing."@,
            "Add "@ + join_seq(candidates, " or "@) + " with project-specific guidance."@,
        ),
    }
}

fn join_strs(parts: &Vec<&str>, sep: &str) -> (r: String)
    ensures
        r@ == join_seq(str_views(parts@), sep@),
{
    let mut owned: Vec<String> = Vec::new();
    let mut i: usize = 0;
    while i < parts.len()
        invariant
            i <= parts.len(),
            views(owned@) == str_views(parts@).take(i as int),
        decreases parts.len() - i,
    {
        let ghost before = views(owned@);
        owned.push(parts[i].to_owned());
        assert(views(owned@) =~= before.push(parts@[i as int]@));
        assert(str_views(parts@).take(i + 1) =~= str_views(parts@).take(i as int).push(
            parts@[i as int]@,
        ));
        i += 1;
    }
    assert(str_views(parts@).take(parts.len() as int) =~= str_views(parts@));
    crate::text::join_strings(&owned, sep)
}

fn named_finding_if(
    out: &mut Vec<AuditFinding>,
    c: bool,
    name: &str,
    id_suffix: &str,
    message_suffix: &str,
    help: &str,
    evidence: &Vec<String>,
    path: &str,
)
    ensures
        audit_views(final(out)@) == audit_views(old(out)@) + opt_item(
            c,
            afv(
                name@ + id_suffix@,
                FindingSeverity::Warning,
                name@ + message_suffix@,
                help@,
                views(evidence@),
                Some(path@),
            ),
        ),
{
    let id = concat_str(name, id_suffix);
    let message = concat_str(name, message_suffix);
    push_finding_if(out, c, id.as_str(), FindingSeverity::Warning, message.as_str(), help, evidence, path);
}

/// The verdict for the first of the candidate documents that exists.
pub fn assess_quality_document(
    doc: &Option<RepoDocument>,
    candidates: &Vec<&str>,
    min_strong_len: usize,
    keywords: &Vec<&str>,
) -> (r: RuleAssessment)
    ensures
        r.status == crate::audit::status_from_coverage(r.coverage),
        r.coverage <= 100,
        assessment_matches(
            r,
            quality_view(*doc, str_views(candidates@), min_strong_len as nat, str_views(keywords@)),
        ),
{
    match doc {
        Some(d) => {
            let c = normalize(d.contents.as_str());
            let evidence = keep_found(c.as_str(), keywords);
            let depth = utf8_byte_len(c.as_str()) >= min_strong_len as u128;
            let needed: usize = if keywords.len() < 3 {
                keywords.len()
            } else {
                3
            };
            let topics = evidence.len() >= needed;
            let placeholder = looks_placeholder(c.as_str());
            proof {
                reveal_with_fuel(weight_total, 5);
            }
            let parts: Vec<(u8, bool)> = vec![(35, true), (25, depth), (25, topics), (15, !placeholder)];
            assert(parts@ =~= quality_parts(depth, topics, !placeholder));
            let coverage = weighted(parts);
            let name = d.display.as_str();
            let p = d.path.as_str();
            let none: Vec<String> = Vec::new();
            assert(views(none@) =~= Seq::<Seq<char>>::empty());
            let mut findings: Vec<AuditFinding> = Vec::new();
            named_finding_if(
                &mut findings,
                !depth,
                name,
                ".depth",
                " exists, but it is still short on project-specific detail.",
                "Expand it with maintainership expectations, response times, or verification steps that match this repository.",
                &none,
                p,
            );
            let mut help = concat_str("Make sure it explicitly covers topics such as ", join_strs(keywords, ", ").as_str());
            help.append(".");
            named_finding_if(
                &mut findings,
                !topics,
                name,
                ".coverage",
                " does not yet cover enough of the expected topics.",
                help.as_str(),
                &evidence,
                p,
            );
            named_finding_if(
                &mut findings,
                placeholder,
                name,
                ".placeholder",
                " still looks like scaffold copy.",
                "Replace starter language with project-specific expectations and reporting details.",
                &none,
                p,
            );
            let status = CheckStatus::from_coverage(coverage);
            let message = match status {
                CheckStatus::Strong => concat_str(name, " looks specific enough to guide contributors."),
                _ => if placeholder {
                    concat_str(name, " exists, but it still looks like scaffold copy.")
                } else {
                    concat_str(name, " exists, but it could be more specific or complete.")
                },
            };
            let ghost view = quality_view(*doc, str_views(candidates@), min_strong_len as nat, str_views(keywords@));
            assert(audit_views(findings@) =~= view.findings);
            RuleAssessment {
                status,
                coverage,
                confidence_permille: 850,
                message,
                evidence,
                findings,
                location: Some(d.path.clone()),
            }
        },
        None => {
            let mut help = concat_str("Add ", join_strs(candidates, " or ").as_str());
            help.append(" with project-specific guidance.");
            missing_rule(
                990,
                "The file is missing.",
                "document.missing",
                FindingSeverity::Error,
                "The file is missing.",
                help.as_str(),
            )
        },
    }
}

// ---------------------------------------------------------------------------
// Issue templates
// ---------------------------------------------------------------------------

pub open spec fn any_contains(names: Seq<Seq<char>>, p: Seq<char>) -> bool {
    exists|i: int| 0 <= i < names.len() && contains(#[trigger] names[i], p)
}

pub open spec fn lowered(names: Seq<Seq<char>>) -> Seq<Seq<char>> {
    names.map_values(|n: Seq<char>| str_lowercase(n))
}

/// Issue templates: one for bugs and one for feature requests.
pub open spec fn issue_templates_view(dir: Option<String>, file_names: Seq<Seq<char>>) -> AssessmentView {
    match dir {
        None => missing_view(
            990,
            "No issue templates directory was found."@,
            "issue_templates.missing"@,
            FindingSeverity::Warning,
            "No issue templates directory was found."@,
            "Add bug and feature issue templates so incoming reports arrive with more context."@,
        ),
        Some(dp) => {
            let names = lowered(file_names);
            let bug = any_contains(names, "bug"@);
            let feature = any_contains(names, "feature"@) || any_contains(names, "enhancement"@);
            let hits: nat = (if bug {
                1nat
            } else {
                0nat
            }) + (if feature {
                1nat
            } else {
                0nat
            });
            let coverage = ((hits * 100) / 2) as u8;
            AssessmentView {
                coverage,
                confidence: 950,
                message: if status_from_coverage(coverage) == CheckStatus::Strong {
                    "Separate bug and feature issue templates are present."@
                } else {
                    "Issue templates exist, but the coverage is still narrow."@
                },
                evidence: names,
                findings: opt_item(
                    !bug,
                    afv(
                        "issue_templates.bug"@,
                        FindingSeverity::Warning,
                        "There is no dedicated bug issue template."@,
                        "Add a bug report template that asks for reproduction steps, expected behavior, and environment details."@,
                        names,
                        Some(dp@),
                    ),
                ) + opt_item(
                    !feature,
                    afv(
                        "issue_templates.feature"@,
                        FindingSeverity::Info,
                        "There is no dedicated feature request template."@,
                        "Add a feature template so product requests arrive with clearer goals and tradeoffs."@,
                        names,
                        Some(dp@),
                    ),
                ),
                location: Some(dp@),
            }
        },
    }
}

fn any_name_contains(names: &Vec<String>, p: &str) -> (b: bool)
    ensures
        b == any_contains(views(names@), p@),
{
    let mut i: usize = 0;
    while i < names.len()
        invariant
            i <= names.len(),
            forall|k: int| 0 <= k < i ==> !contains(#[trigger] views(names@)[k], p@),
        decreases names.len() - i,
    {
        if str_contains(names[i].as_str(), p) {
            assert(contains(views(names@)[i as int], p@));
            return true;
        }
        i += 1;
    }
    false
}

/// The issue templates rule: `dir` is the templates directory when it
/// exists, `file_names` the names of the files in it.
pub fn assess_issue_templates(dir: &Option<String>, file_names: &Vec<String>) -> (r: RuleAssessment)
    ensures
        r.status == crate::audit::status_from_coverage(r.coverage),
        r.coverage <= 100,
        assessment_matches(r, issue_templates_view(*dir, views(file_names@))),
{
    match dir {
        None => missing_rule(
            990,
            "No issue templates directory was found.",
            "issue_templates.missing",
            FindingSeverity::Warning,
            "No issue templates directory was found.",
            "Add bug and feature issue templates so incoming reports arrive with more context.",
        ),
        Some(dp) => {
            let mut names: Vec<String> = Vec::new();
            let mut i: usize = 0;
            while i < file_names.len()
                invariant
                    i <= file_names.len(),
                    views(names@) == lowered(views(file_names@)).take(i as int),
                decreases file_names.len() - i,
            {
                let ghost before = views(names@);
                names.push(to_lowercase(file_names[i].as_str()));
                assert(views(names@) =~= before.push(str_lowercase(file_names@[i as int]@)));
                assert(lowered(views(file_names@)).take(i + 1) =~= lowered(views(file_names@)).take(
                    i as int,
                ).push(str_lowercase(file_names@[i as int]@)));
                i += 1;
            }
            assert(lowered(views(file_names@)).take(file_names.len() as int) =~= lowered(
                views(file_names@),
            ));
            let bug = any_name_contains(&names, "bug");
            let feature = any_name_contains(&names, "feature") || any_name_contains(&names, "enhancement");
            let hits: usize = (if bug {
                1
            } else {
                0
            }) + (if feature {
                1
            } else {
                0
            });
            let coverage = coverage_ratio(hits, 2);
            let p = dp.as_str();
            let mut findings: Vec<AuditFinding> = Vec::new();
            push_finding_if(
                &mut findings,
                !bug,
                "issue_templates.bug",
                FindingSeverity::Warning,
                "There is no dedicated bug issue template.",
                "Add a bug report template that asks for reproduction steps, expected behavior, and environment details.",
                &names,
                p,
            );
            push_finding_if(
                &mut findings,
                !feature,
                "issue_templates.feature",
                FindingSeverity::Info,
                "There is no dedicated feature request template.",
                "Add a feature template so product requests arrive with clearer goals and tradeoffs.",
                &names,
                p,
            );
            assert(audit_views(findings@) =~= issue_templates_view(*dir, views(file_names@)).findings);
            let status = CheckStatus::from_coverage(coverage);
            RuleAssessment {
                status,
                coverage,
                confidence_permille: 950,
                message: match status {
                    CheckStatus::Strong => "Separate bug and feature issue templates are present.".to_owned(),
                    _ => "Issue templates exist, but the coverage is still narrow.".to_owned(),
                },
                evidence: names,
                findings,
                location: Some(dp.clone()),
            }
        },
    }
}

// ---------------------------------------------------------------------------
// Pull request template
// ---------------------------------------------------------------------------

pub open spec fn pr_keywords() -> Seq<Seq<char>> {
    seq!["what changed"@, "why it matters"@, "validation"@, "checklist"@]
}

pub open spec fn pr_parts(prompts: bool, depth: bool) -> Seq<(u8, bool)> {
    seq![(30u8, true), (40u8, prompts), (30u8, depth)]
}

/// The pull request template asks for what changed, why, and how it was
/// validated, at some length.
pub open spec fn pr_template_view(doc: Option<RepoDocument>) -> AssessmentView {
    match doc {
        Some(d) => {
            let c = str_lowercase(d.contents@);
            let ev = found_in(c, pr_keywords());
            let prompts = ev.len() >= 3;
            let depth = utf8_bytes(c) >= 120;
            let coverage = weighted_coverage_spec(pr_parts(prompts, depth));
            AssessmentView {
                coverage,
                confidence: 910,
                message: if status_from_coverage(coverage) == CheckStatus::Strong {
                    "Pull request template sets clear review expectations."@
                } else {
                    "Pull request template exists, but it could ask for richer context or testing details."@
                },
                evidence: ev,
                findings: opt_item(
                    !prompts,
                    afv(
                        "pull_request_template.prompts"@,
                        FindingSeverity::Warning,
                        "The pull request template does not ask for enough review context."@,
                        "Prompt for what changed, why it matters, and how the change was validated."@,
                        ev,
                        Some(d.path@),
                    ),
                ) + opt_item(
                    !depth,
                    afv(
                        "pull_request_template.depth"@,
                        FindingSeverity::Info,
                        "The pull request template is still very short."@,
                        "Include a small checklist or validation section so contributors confirm impact and testing."@,
                        Seq::empty(),
                        Some(d.path@),
                    ),
                ),
                location: Some(d.path@),
            }
        },
        None => missing_view(
            990,
            "No pull request template was found."@,
            "pull_request_template.missing"@,
            FindingSeverity::Info,
            "No pull request template was found."@,
            "Add a pull request template so contributors consistently explain impact and verification."@,
        ),
    }
}

/// The pull request template rule for `.github/PULL_REQUEST_TEMPLATE.md`.
pub fn assess_pull_request_template(doc: &Option<RepoDocument>) -> (r: RuleAssessment)
    ensures
        r.status == crate::audit::status_from_coverage(r.coverage),
        r.coverage <= 100,
        assessment_matches(r, pr_template_view(*doc)),
{
    match doc {
        Some(d) => {
            let c = normalize(d.contents.as_str());
            let keywords: Vec<&str> = vec!["what changed", "why it matters", "validation", "checklist"];
            assert(str_views(keywords@) =~= pr_keywords());
            let evidence = keep_found(c.as_str(), &keywords);
            let prompts = evidence.len() >= 3;
            let depth = utf8_byte_len(c.as_str()) >= 120;
            proof {
                reveal_with_fuel(weight_total, 4);
            }
            let parts: Vec<(u8, bool)> = vec![(30, true), (40, prompts), (30, depth)];
            assert(parts@ =~= pr_parts(prompts, depth));
            let coverage = weighted(parts);
            let none: Vec<String> = Vec::new();
            assert(views(none@) =~= Seq::<Seq<char>>::empty());
            let p = d.path.as_str();
            let mut findings: Vec<AuditFinding> = Vec::new();
            push_finding_if(
                &mut findings,
                !prompts,
                "pull_request_template.prompts",
                FindingSeverity::Warning,
                "The pull request template does not ask for enough review context.",
                "Prompt for what changed, why it matters, and how the change was validated.",
                &evidence,
                p,
            );
            push_finding_if(
                &mut findings,
                !depth,
                "pull_request_template.depth",
                FindingSeverity::Info,
                "The pull request template is still very short.",
                "Include a small checklist or validation section so contributors confirm impact and testing.",
                &none,
                p,
            );
            assert(audit_views(findings@) =~= pr_template_view(*doc).findings);
            let status = CheckStatus::from_coverage(coverage);
            RuleAssessment {
                status,
                coverage,
                confidence_permille: 910,
                message: match status {
                    CheckStatus::Strong => "Pull request template sets clear review expectations.".to_owned(),
                    _ => "Pull request template exists, but it could ask for richer context or testing details.".to_owned(),
                },
                evidence,
                findings,
                location: Some(d.path.clone()),
            }
        },
        None => missing_rule(
            990,
            "No pull request template was found.",
            "pull_request_template.missing",
            FindingSeverity::Info,
            "No pull request template was found.",
            "Add a pull request template so contributors consistently explain impact and verification.",
        ),
    }
}

// ---------------------------------------------------------------------------
// Code owners
// ---------------------------------------------------------------------------

/// The trimmed lines that are neither blank nor comments.
pub open spec fn owner_lines(ls: Seq<Seq<char>>) -> Seq<Seq<char>>
    decreases ls.len(),
{
    if ls.len() == 0 {
        Seq::empty()
    } else {
        let t = trim_seq(ls.last());
        owner_lines(ls.drop_last()) + opt_item(t.len() > 0 && t[0] != '#', t)
    }
}

pub open spec fn starts_with_star(line: Seq<char>) -> bool {
    let t = trim_start_seq(line);
    t.len() > 0 && t[0] == '*'
}

pub open spec fn first_three(s: Seq<Seq<char>>) -> Seq<Seq<char>> {
    if s.len() > 3 {
        s.take(3)
    } else {
        s
    }
}

pub open spec fn owners_parts(owner: bool, wildcard: bool) -> Seq<(u8, bool)> {
    seq![(40u8, true), (40u8, owner), (20u8, wildcard)]
}

/// CODEOWNERS names an owner and has a catch-all rule.
pub open spec fn codeowners_view(doc: Option<RepoDocument>) -> AssessmentView {
    match doc {
        Some(d) => {
            let ls = lines_of(d.contents@);
            let owner = contains(str_lowercase(d.contents@), "@"@);
            let wildcard = exists|i: int| 0 <= i < ls.len() && starts_with_star(#[trigger] ls[i]);
            let ev = first_three(owner_lines(ls));
            let coverage = weighted_coverage_spec(owners_parts(owner, wildcard));
            AssessmentView {
                coverage,
                confidence: 920,
                message: if status_from_coverage(coverage) == CheckStatus::Strong {
                    "CODEOWNERS declares review ownership."@
                } else {
                    "CODEOWNERS exists, but it does not clearly assign code owners yet."@
                },
                evidence: ev,
                findings: opt_item(
                    !owner,
                    afv(
                        "codeowners.owner"@,
                        FindingSeverity::Warning,
                        "CODEOWNERS does not clearly assign a code owner or team."@,
                        "Add at least one GitHub handle or team so contributors know who reviews which area."@,
                        ev,
                        Some(d.path@),
                    ),
                ) + opt_item(
                    !wildcard,
                    afv(
                        "codeowners.coverage"@,
                        FindingSeverity::Info,
                        "CODEOWNERS has no catch-all ownership rule."@,
                        "Consider adding a wildcard entry so the default repository surface always has an owner."@,
                        ev,
                        Some(d.path@),
                    ),
                ),
                location: Some(d.path@),
            }
        },
        None => missing_view(
            990,
            "No CODEOWNERS file was found."@,
            "codeowners.missing"@,
            FindingSeverity::Info,
            "No CODEOWNERS file was found."@,
            "Add CODEOWNERS if you want repository ownership and review routing to be explicit."@,
        ),
    }
}

fn first_char_is(s: &str, c: char) -> (b: bool)
    ensures
        b == (s@.len() > 0 && s@[0] == c),
{
    let v = chars_of(s);
    v.len() > 0 && v[0] == c
}

/// The code owners rule for the first of `.github/CODEOWNERS` and
/// `CODEOWNERS` that exists.
pub fn assess_codeowners(doc: &Option<RepoDocument>) -> (r: RuleAssessment)
    ensures
        r.status == crate::audit::status_from_coverage(r.coverage),
        r.coverage <= 100,
        assessment_matches(r, codeowners_view(*doc)),
{
    match doc {
        Some(d) => {
            let ls = lines(d.contents.as_str());
            let owner = str_contains(normalize(d.contents.as_str()).as_str(), "@");
            let mut wildcard = false;
            let mut kept: Vec<String> = Vec::new();
            let mut i: usize = 0;
            while i < ls.len()
                invariant
                    i <= ls.len(),
                    views(ls@) == lines_of(d.contents@),
                    wildcard == exists|k: int| 0 <= k < i && starts_with_star(#[trigger] views(ls@)[k]),
                    views(kept@) == owner_lines(views(ls@).take(i as int)),
                decreases ls.len() - i,
            {
                assert(views(ls@).take(i + 1).drop_last() =~= views(ls@).take(i as int));
                assert(views(ls@)[i as int] == ls@[i as int]@);
                if first_char_is(trim_start(ls[i].as_str()).as_str(), '*') {
                    wildcard = true;
                }
                let t = trim(ls[i].as_str());
                let keep = !first_char_is(t.as_str(), '#') && t.as_str().unicode_len() > 0;
                let ghost before = views(kept@);
                let ghost tv = t@;
                if keep {
                    kept.push(t);
                }
                assert(views(kept@) =~= before + opt_item(tv.len() > 0 && tv[0] != '#', tv));
                i += 1;
            }
            assert(views(ls@).take(ls.len() as int) =~= views(ls@));
            let mut evidence: Vec<String> = Vec::new();
            let mut j: usize = 0;
            while j < kept.len() && j < 3
                invariant
                    j <= kept.len(),
                    j <= 3,
                    views(evidence@) == views(kept@).take(j as int),
                decreases kept.len() - j,
            {
                let ghost before = views(evidence@);
                evidence.push(kept[j].clone());
                assert(views(evidence@) =~= before.push(kept@[j as int]@));
                assert(views(kept@).take(j + 1) =~= views(kept@).take(j as int).push(kept@[j as int]@));
                j += 1;
            }
            assert(views(evidence@) =~= first_three(views(kept@)));
            proof {
                reveal_with_fuel(weight_total, 4);
            }
            let parts: Vec<(u8, bool)> = vec![(40, true), (40, owner), (20, wildcard)];
            assert(parts@ =~= owners_parts(owner, wildcard));
            let coverage = weighted(parts);
            let p = d.path.as_str();
            let mut findings: Vec<AuditFinding> = Vec::new();
            push_finding_if(
                &mut findings,
                !owner,
                "codeowners.owner",
                FindingSeverity::Warning,
                "CODEOWNERS does not clearly assign a code owner or team.",
                "Add at least one GitHub handle or team so contributors know who reviews which area.",
                &evidence,
                p,
            );
            push_finding_if(
                &mut findings,
                !wildcard,
                "codeowners.coverage",
                FindingSeverity::Info,
                "CODEOWNERS has no catch-all ownership rule.",
                "Consider adding a wildcard entry so the default repository surface always has an owner.",
                &evidence,
                p,
            );
            assert(audit_views(findings@) =~= codeowners_view(*doc).findings);
            let status = CheckStatus::from_coverage(coverage);
            RuleAssessment {
                status,
                coverage,
                confidence_permille: 920,
                message: match status {
                    CheckStatus::Strong => "CODEOWNERS declares review ownership.".to_owned(),
                    _ => "CODEOWNERS exists, but it does not clearly assign code owners yet.".to_owned(),
                },
                evidence,
                findings,
                location: Some(d.path.clone()),
            }
        },
        None => missing_rule(
            990,
            "No CODEOWNERS file was found.",
            "codeowners.missing",
            FindingSeverity::Info,
            "No CODEOWNERS file was found.",
            "Add CODEOWNERS if you want repository ownership and review routing to be explicit.",
        ),
    }
}

// ---------------------------------------------------------------------------
// Changelog
// ---------------------------------------------------------------------------

pub open spec fn changelog_phrases() -> Seq<Seq<char>> {
    seq!["## unreleased"@, "## ["@, "## 0."@, "## 1."@, "keep a changelog"@]
}

pub open spec fn changelog_parts(versions: bool, depth: bool) -> Seq<(u8, bool)> {
    seq![(40u8, true), (35u8, versions), (25u8, depth)]
}

/// The changelog shows release structure and has some entries.
pub open spec fn changelog_view(doc: Option<RepoDocument>) -> AssessmentView {
    match doc {
        Some(d) => {
            let c = str_lowercase(d.contents@);
            let versions = contains_any_spec(c, changelog_phrases());
            let depth = utf8_bytes(c) >= 80;
            let coverage = weighted_coverage_spec(changelog_parts(versions, depth));
            AssessmentView {
                coverage,
                confidence: 900,
                message: if status_from_coverage(coverage) == CheckStatus::Strong {
                    "Changelog looks ready to track releases."@
                } else {
                    "Changelog exists, but it still lacks clear release structure."@
                },
                evidence: seq![d.display@],
                findings: opt_item(
                    !versions,
                    afv(
                        "changelog.structure"@,
                        FindingSeverity::Warning,
                        "The changelog does not yet show a clear release structure."@,
                        "Use version headings or an Unreleased section so releases are easier to evaluate before upgrading."@,
                        Seq::empty(),
                        Some(d.path@),
                    ),
                ) + opt_item(
                    !depth,
                    afv(
                        "changelog.depth"@,
                        FindingSeverity::Info,
                        "The changelog is present but still very short."@,
                        "Add at least an Unreleased section or the first release notes entry."@,
                        Seq::empty(),
                        Some(d.path@),
                    ),
                ),
                location: Some(d.path@),
            }
        },
        None => missing_view(
            990,
            "No changelog was found."@,
            "changelog.missing"@,
            FindingSeverity::Info,
            "No changelog was found."@,
            "Add CHANGELOG.md if you want release history to be easy to evaluate before upgrading."@,
        ),
    }
}

/// The changelog rule for `CHANGELOG.md`.
pub fn assess_changelog(doc: &Option<RepoDocument>) -> (r: RuleAssessment)
    ensures
        r.status == crate::audit::status_from_coverage(r.coverage),
        r.coverage <= 100,
        assessment_matches(r, changelog_view(*doc)),
{
    match doc {
        Some(d) => {
            let c = normalize(d.contents.as_str());
            let phrases: Vec<&str> = vec!["## unreleased", "## [", "## 0.", "## 1.", "keep a changelog"];
            assert(str_views(phrases@) =~= changelog_phrases());
            let versions = contains_any(c.as_str(), &phrases);
            let depth = utf8_byte_len(c.as_str()) >= 80;
            proof {
                reveal_with_fuel(weight_total, 4);
            }
            let parts: Vec<(u8, bool)> = vec![(40, true), (35, versions), (25, depth)];
            assert(parts@ =~= changelog_parts(versions, depth));
            let coverage = weighted(parts);
            let none: Vec<String> = Vec::new();
            assert(views(none@) =~= Seq::<Seq<char>>::empty());
            let p = d.path.as_str();
            let mut findings: Vec<AuditFinding> = Vec::new();
            push_finding_if(
                &mut findings,
                !versions,
                "changelog.structure",
                FindingSeverity::Warning,
                "The changelog does not yet show a clear release structure.",
                "Use version headings or an Unreleased section so releases are easier to evaluate before upgrading.",
                &none,
                p,
            );
            push_finding_if(
                &mut findings,
                !depth,
                "changelog.depth",
                FindingSeverity::Info,
                "The changelog is present but still very short.",
                "Add at least an Unreleased section or the first release notes entry.",
                &none,
                p,
            );
            assert(audit_views(findings@) =~= changelog_view(*doc).findings);
            let mut evidence: Vec<String> = Vec::new();
            evidence.push(d.display.clone());
            assert(views(evidence@) =~= seq![d.display@]);
            let status = CheckStatus::from_coverage(coverage);
            RuleAssessment {
                status,
                coverage,
                confidence_permille: 900,
                message: match status {
                    CheckStatus::Strong => "Changelog looks ready to track releases.".to_owned(),
                    _ => "Changelog exists, but it still lacks clear release structure.".to_owned(),
                },
                evidence,
                findings,
                location: Some(d.path.clone()),
            }
        },
        None => missing_rule(
            990,
            "No changelog was found.",
            "changelog.missing",
            FindingSeverity::Info,
            "No changelog was found.",
            "Add CHANGELOG.md if you want release history to be easy to evaluate before upgrading.",
        ),
    }
}

// ---------------------------------------------------------------------------
// Funding
// ---------------------------------------------------------------------------

pub open spec fn funding_phrases() -> Seq<Seq<char>> {
    seq![
        "github.com/sponsors/"@,
        "github sponsors"@,
        "open collective"@,
        "opencollective.com"@,
        "ko-fi.com"@,
        "patreon.com"@,
        "buy me a coffee"@,
        "support this project"@,
        "support the project"@,
        "support the maintainers"@,
        "sponsor this project"@,
        "sponsor the project"@,
        "donate"@,
        "donation"@,
    ]
}

/// The text searched for sponsorship intent: the README, and the supporting
/// document on a line of its own when there is one besides the README.
pub open spec fn funding_text(readme: Seq<char>, supporting: Option<String>) -> Seq<char> {
    str_lowercase(readme) + match supporting {
        Some(t) => seq!['\n'] + str_lowercase(t@),
        None => Seq::empty(),
    }
}

/// Does the README (or the supporting document) ask for sponsorship?
pub fn funding_intent_detected(readme_text: &str, supporting_text: &Option<String>) -> (b: bool)
    ensures
        b == contains_any_spec(funding_text(readme_text@, *supporting_text), funding_phrases()),
{
    let mut text = normalize(readme_text);
    match supporting_text {
        Some(t) => {
            crate::text::push_char(&mut text, '\n');
            text.append(normalize(t.as_str()).as_str());
        },
        None => {},
    }
    assert(text@ =~= funding_text(readme_text@, *supporting_text));
    let phrases: Vec<&str> = vec![
        "github.com/sponsors/",
        "github sponsors",
        "open collective",
        "opencollective.com",
        "ko-fi.com",
        "patreon.com",
        "buy me a coffee",
        "support this project",
        "support the project",
        "support the maintainers",
        "sponsor this project",
        "sponsor the project",
        "donate",
        "donation",
    ];
    assert(str_views(phrases@) =~= funding_phrases());
    contains_any(text.as_str(), &phrases)
}

pub open spec fn funding_providers() -> Seq<Seq<char>> {
    seq!["github:"@, "open_collective:"@, "patreon:"@, "ko_fi:"@, "custom:"@]
}

/// The funding rule: a `FUNDING.yml` with providers is strong; without one,
/// funding only counts as missing where the repository asks for support.
pub open spec fn funding_view(doc: Option<RepoDocument>, intent: bool, maintainer_surface: bool) -> AssessmentView {
    match doc {
        Some(d) => {
            let providers = found_in(str_lowercase(d.contents@), funding_providers());
            let strong = providers.len() > 0;
            AssessmentView {
                coverage: if strong {
                    100
                } else {
                    55
                },
                confidence: 900,
                message: if strong {
                    "Funding channels are declared for maintainers."@
                } else {
                    "Funding file exists, but provider metadata is incomplete."@
                },
                evidence: providers,
                findings: opt_item(
                    !strong,
                    afv(
                        "funding.providers"@,
                        FindingSeverity::Info,
                        "FUNDING.yml exists, but provider entries are incomplete."@,
                        "Add a supported provider such as github, custom, Open Collective, or Patreon if maintainers accept sponsorship."@,
                        Seq::empty(),
                        Some(d.path@),
                    ),
                ),
                location: Some(d.path@),
            }
        },
        None => if !intent {
            AssessmentView {
                coverage: 100,
                confidence: 880,
                message: if maintainer_surface {
                    "Funding looks optional here; no sponsorship intent was detected in the repo surface."@
                } else {
                    "Funding posture is not meaningful yet because the repository has no public maintainer surface."@
                },
                evidence: Seq::empty(),
                findings: Seq::empty(),
                location: None,
            }
        } else {
            missing_view(
                990,
                "No FUNDING.yml file was found."@,
                "funding.missing"@,
                FindingSeverity::Info,
                "No FUNDING.yml file was found."@,
                "The repo appears to signal sponsorship intent; add FUNDING.yml so support is easy to discover."@,
            )
        },
    }
}

/// The funding rule for the first of `.github/FUNDING.yml` and
/// `FUNDING.yml` that exists; `intent` is whether the repository asks for
/// sponsorship, `maintainer_surface` whether it has a README, a manifest,
/// a workflow or a maintainer document.
pub fn assess_funding(doc: &Option<RepoDocument>, intent: bool, maintainer_surface: bool) -> (r:
    RuleAssessment)
    ensures
        r.status == crate::audit::status_from_coverage(r.coverage),
        r.coverage <= 100,
        assessment_matches(r, funding_view(*doc, intent, maintainer_surface)),
{
    match doc {
        Some(d) => {
            let keywords: Vec<&str> = vec!["github:", "open_collective:", "patreon:", "ko_fi:", "custom:"];
            assert(str_views(keywords@) =~= funding_providers());
            let providers = keep_found(normalize(d.contents.as_str()).as_str(), &keywords);
            let strong = providers.len() > 0;
            let none: Vec<String> = Vec::new();
            assert(views(none@) =~= Seq::<Seq<char>>::empty());
            let mut findings: Vec<AuditFinding> = Vec::new();
            push_finding_if(
                &mut findings,
                !strong,
                "funding.providers",
                FindingSeverity::Info,
                "FUNDING.yml exists, but provider entries are incomplete.",
                "Add a supported provider such as github, custom, Open Collective, or Patreon if maintainers accept sponsorship.",
                &none,
                d.path.as_str(),
            );
            let coverage: u8 = if strong {
                100
            } else {
                55
            };
            RuleAssessment {
                status: CheckStatus::from_coverage(coverage),
                coverage,
                confidence_permille: 900,
                message: if strong {
                    "Funding channels are declared for maintainers.".to_owned()
                } else {
                    "Funding file exists, but provider metadata is incomplete.".to_owned()
                },
                evidence: providers,
                findings,
                location: Some(d.path.clone()),
            }
        },
        None => if !intent {
            let evidence: Vec<String> = Vec::new();
            assert(views(evidence@) =~= Seq::<Seq<char>>::empty());
            let findings: Vec<AuditFinding> = Vec::new();
            assert(audit_views(findings@) =~= Seq::<AuditFindingView>::empty());
            RuleAssessment {
                status: CheckStatus::from_coverage(100),
                coverage: 100,
                confidence_permille: 880,
                message: if maintainer_surface {
                    "Funding looks optional here; no sponsorship intent was detected in the repo surface.".to_owned()
                } else {
                    "Funding posture is not meaningful yet because the repository has no public maintainer surface.".to_owned()
                },
                evidence,
                findings,
                location: None,
            }
        } else {
            missing_rule(
                990,
                "No FUNDING.yml file was found.",
                "funding.missing",
                FindingSeverity::Info,
                "No FUNDING.yml file was found.",
                "The repo appears to signal sponsorship intent; add FUNDING.yml so support is easy to discover.",
            )
        },
    }
}

// ---------------------------------------------------------------------------
// Dependabot
// ---------------------------------------------------------------------------

pub open spec fn dependabot_parts(eco: bool, actions: bool, schedule: bool) -> Seq<(u8, bool)> {
    seq![(35u8, true), (30u8, eco), (20u8, actions), (15u8, schedule)]
}

pub open spec fn ecosystem_or_unknown(e: Option<Seq<char>>) -> Seq<char> {
    match e {
        Some(x) => x,
        None => "unknown"@,
    }
}

/// Dependabot covers the project's package ecosystem and GitHub Actions on
/// a schedule.
pub open spec fn dependabot_view(config: Option<RepoDocument>, ecosystem: Option<Seq<char>>) -> AssessmentView {
    match config {
        None => missing_view(
            990,
            "Dependabot is not configured."@,
            "dependabot.missing"@,
            FindingSeverity::Info,
            "Dependabot is not configured."@,
            "Add .github/dependabot.yml to keep dependencies and GitHub Actions updates visible."@,
        ),
        Some(d) => {
            let eco = ecosystem_or_unknown(ecosystem);
            let c = str_lowercase(d.contents@);
            let has_eco = contains(c, "package-ecosystem: "@ + eco);
            let actions = contains(c, "package-ecosystem: github-actions"@);
            let schedule = contains(c, "schedule:"@);
            let coverage = weighted_coverage_spec(dependabot_parts(has_eco, actions, schedule));
            AssessmentView {
                coverage,
                confidence: 920,
                message: if status_from_coverage(coverage) == CheckStatus::Strong {
                    "Dependabot covers both the stack ecosystem and GitHub Actions."@
                } else {
                    "Dependabot exists, but it does not yet cover the full maintenance surface."@
                },
                evidence: seq!["ecosystem: "@ + eco] + opt_item(actions, "github-actions"@) + opt_item(
                    schedule,
                    "schedule"@,
                ),
                findings: opt_item(
                    !has_eco,
                    afv(
                        "dependabot.ecosystem"@,
                        FindingSeverity::Warning,
                        "Dependabot does not cover the primary package ecosystem yet."@,
                        "Add an update block for the `"@ + eco + "` ecosystem."@,
                        Seq::empty(),
                        Some(d.path@),
                    ),
                ) + opt_item(
                    !actions,
                    afv(
                        "dependabot.actions"@,
                        FindingSeverity::Info,
                        "Dependabot does not cover GitHub Actions updates."@,
                        "Add a github-actions update block so workflow dependencies also stay fresh."@,
                        Seq::empty(),
                        Some(d.path@),
                    ),
                ) + opt_item(
                    !schedule,
                    afv(
                        "dependabot.schedule"@,
                        FindingSeverity::Info,
                        "Dependabot has no obvious update schedule."@,
                        "Add a schedule so dependency updates happen predictably."@,
                        Seq::empty(),
                        Some(d.path@),
                    ),
                ),
                location: Some(d.path@),
            }
        },
    }
}

/// The Dependabot rule for `.github/dependabot.yml`; `ecosystem` is the
/// Dependabot name of the project's package ecosystem, if it has one.
pub fn assess_dependabot(config: &Option<RepoDocument>, ecosystem: Option<&str>) -> (r: RuleAssessment)
    ensures
        r.status == crate::audit::status_from_coverage(r.coverage),
        r.coverage <= 100,
        assessment_matches(
            r,
            dependabot_view(
                *config,
                match ecosystem {
                    Some(e) => Some(e@),
                    None => None,
                },
            ),
        ),
{
    match config {
        None => missing_rule(
            990,
            "Dependabot is not configured.",
            "dependabot.missing",
            FindingSeverity::Info,
            "Dependabot is not configured.",
            "Add .github/dependabot.yml to keep dependencies and GitHub Actions updates visible.",
        ),
        Some(d) => {
            let eco = match ecosystem {
                Some(e) => e,
                None => "unknown",
            };
            let c = normalize(d.contents.as_str());
            let has_eco = str_contains(c.as_str(), concat_str("package-ecosystem: ", eco).as_str());
            let actions = str_contains(c.as_str(), "package-ecosystem: github-actions");
            let schedule = str_contains(c.as_str(), "schedule:");
            proof {
                reveal_with_fuel(weight_total, 5);
            }
            let parts: Vec<(u8, bool)> = vec![(35, true), (30, has_eco), (20, actions), (15, schedule)];
            assert(parts@ =~= dependabot_parts(has_eco, actions, schedule));
            let coverage = weighted(parts);
            let mut evidence: Vec<String> = Vec::new();
            evidence.push(concat_str("ecosystem: ", eco));
            push_label(&mut evidence, actions, "github-actions");
            push_label(&mut evidence, schedule, "schedule");
            let none: Vec<String> = Vec::new();
            assert(views(none@) =~= Seq::<Seq<char>>::empty());
            let mut eco_help = concat_str("Add an update block for the `", eco);
            eco_help.append("` ecosystem.");
            let p = d.path.as_str();
            let mut findings: Vec<AuditFinding> = Vec::new();
            push_finding_if(
                &mut findings,
                !has_eco,
                "dependabot.ecosystem",
                FindingSeverity::Warning,
                "Dependabot does not cover the primary package ecosystem yet.",
                eco_help.as_str(),
                &none,
                p,
            );
            push_finding_if(
                &mut findings,
                !actions,
                "dependabot.actions",
                FindingSeverity::Info,
                "Dependabot does not cover GitHub Actions updates.",
                "Add a github-actions update block so workflow dependencies also stay fresh.",
                &none,
                p,
            );
            push_finding_if(
                &mut findings,
                !schedule,
                "dependabot.schedule",
                FindingSeverity::Info,
                "Dependabot has no obvious update schedule.",
                "Add a schedule so dependency updates happen predictably.",
                &none,
                p,
            );
            let ghost view = dependabot_view(
                *config,
                match ecosystem {
                    Some(e) => Some(e@),
                    None => None,
                },
            );
            assert(views(evidence@) =~= view.evidence);
            assert(audit_views(findings@) =~= view.findings);
            let status = CheckStatus::from_coverage(coverage);
            RuleAssessment {
                status,
                coverage,
                confidence_permille: 920,
                message: match status {
                    CheckStatus::Strong => "Dependabot covers both the stack ecosystem and GitHub Actions.".to_owned(),
                    _ => "Dependabot exists, but it does not yet cover the full maintenance surface.".to_owned(),
                },
                evidence,
                findings,
                location: Some(d.path.clone()),
            }
        },
    }
}

// ---------------------------------------------------------------------------
// Stack keywords
// ---------------------------------------------------------------------------

/// The words that show, in workflow text, that a stack's tests, lints,
/// builds and format checks run.
#[derive(Debug, Clone)]
pub struct StackKeywords {
    pub test: Vec<String>,
    pub lint: Vec<String>,
    pub build: Vec<String>,
    pub format: Vec<String>,
}

/// Does one of `patterns` occur in `text`?
pub fn contains_any_of(text: &str, patterns: &Vec<String>) -> (b: bool)
    ensures
        b == contains_any_spec(text@, views(patterns@)),
{
    let mut i: usize = 0;
    while i < patterns.len()
        invariant
            i <= patterns.len(),
            forall|k: int| 0 <= k < i ==> !contains(text@, #[trigger] views(patterns@)[k]),
        decreases patterns.len() - i,
    {
        if str_contains(text, patterns[i].as_str()) {
            assert(contains(text@, views(patterns@)[i as int]));
            return true;
        }
        i += 1;
    }
    false
}

// ---------------------------------------------------------------------------
// CI workflow
// ---------------------------------------------------------------------------

pub open spec fn ci_parts(push: bool, pr: bool, test: bool, build: bool, lint: bool) -> Seq<(u8, bool)> {
    seq![(15u8, true), (15u8, push), (15u8, pr), (25u8, test), (15u8, build), (15u8, lint)]
}

/// CI runs on push and pull request and exercises the stack's tests, build
/// and lints.
pub open spec fn ci_view(
    workflow_count: nat,
    workflow_text: Seq<char>,
    dir: Seq<char>,
    kind: ProjectKind,
    kw: StackKeywords,
) -> AssessmentView {
    if workflow_count == 0 {
        missing_view(
            990,
            "No GitHub Actions workflow was found for CI."@,
            "ci_workflow.missing"@,
            FindingSeverity::Error,
            "No GitHub Actions workflow was found for CI."@,
            "Add a CI workflow that runs on push and pull request with stack-specific verification steps."@,
        )
    } else {
        let c = str_lowercase(workflow_text);
        let push = contains(c, "push:"@) || contains(c, "[push"@);
        let pr = contains(c, "pull_request"@) || contains(c, "[pull_request"@);
        let test = contains_any_spec(c, views(kw.test@));
        let lint = contains_any_spec(c, views(kw.lint@));
        let build = contains_any_spec(c, views(kw.build@));
        let ev = found_in(c, kind_ci_keywords(kind)) + opt_item(push, "push"@) + opt_item(
            pr,
            "pull_request"@,
        );
        let coverage = weighted_coverage_spec(ci_parts(push, pr, test, build, lint));
        AssessmentView {
            coverage,
            confidence: 880,
            message: if status_from_coverage(coverage) == CheckStatus::Strong {
                "CI covers stack-specific verification paths."@
            } else {
                "Workflow files exist, but CI does not clearly cover the expected verification steps yet."@
            },
            evidence: ev,
            findings: opt_item(
                !push,
                afv(
                    "ci_workflow.push"@,
                    FindingSeverity::Info,
                    "The CI workflow does not clearly run on push."@,
                    "Add a push trigger so the default branch stays continuously verified."@,
                    ev,
                    Some(dir),
                ),
            ) + opt_item(
                !pr,
                afv(
                    "ci_workflow.pull_request"@,
                    FindingSeverity::Warning,
                    "The CI workflow does not clearly run on pull requests."@,
                    "Add a pull_request trigger so external contributions are checked before merge."@,
                    ev,
                    Some(dir),
                ),
            ) + opt_item(
                !test,
                afv(
                    "ci_workflow.tests"@,
                    FindingSeverity::Warning,
                    "CI does not clearly execute the project test path."@,
                    "Run the test command that matches the detected stack inside CI."@,
                    ev,
                    Some(dir),
                ),
            ) + opt_item(
                !build,
                afv(
                    "ci_workflow.build"@,
                    FindingSeverity::Info,
                    "CI does not clearly exercise a build or packaging step."@,
                    "Add a build or package verification step so release regressions surface early."@,
                    ev,
                    Some(dir),
                ),
            ) + opt_item(
                !lint,
                afv(
                    "ci_workflow.lint"@,
                    FindingSeverity::Info,
                    "CI does not clearly execute lint or format verification."@,
                    "Run linting or formatting checks in CI so style drift is visible in pull requests."@,
                    ev,
                    Some(dir),
                ),
            ),
            location: Some(dir),
        }
    }
}

fn ci_findings(
    push: bool,
    pr: bool,
    test: bool,
    build: bool,
    lint: bool,
    evidence: &Vec<String>,
    p: &str,
) -> (r: Vec<AuditFinding>)
    ensures
        audit_views(r@) == opt_item(
            !push,
            afv(
                "ci_workflow.push"@,
                FindingSeverity::Info,
                "The CI workflow does not clearly run on push."@,
                "Add a push trigger so the default branch stays continuously verified."@,
                views(evidence@),
                Some(p@),
            ),
        ) + opt_item(
            !pr,
            afv(
                "ci_workflow.pull_request"@,
                FindingSeverity::Warning,
                "The CI workflow does not clearly run on pull requests."@,
                "Add a pull_request trigger so external contributions are checked before merge."@,
                views(evidence@),
                Some(p@),
            ),
        ) + opt_item(
            !test,
            afv(
                "ci_workflow.tests"@,
                FindingSeverity::Warning,
                "CI does not clearly execute the project test path."@,
                "Run the test command that matches the detected stack inside CI."@,
                views(evidence@),
                Some(p@),
            ),
        ) + opt_item(
            !build,
            afv(
                "ci_workflow.build"@,
                FindingSeverity::Info,
                "CI does not clearly exercise a build or packaging step."@,
                "Add a build or package verification step so release regressions surface early."@,
                views(evidence@),
                Some(p@),
            ),
        ) + opt_item(
            !lint,
            afv(
                "ci_workflow.lint"@,
                FindingSeverity::Info,
                "CI does not clearly execute lint or format verification."@,
                "Run linting or formatting checks in CI so style drift is visible in pull requests."@,
                views(evidence@),
                Some(p@),
            ),
        ),
{
    let mut findings: Vec<AuditFinding> = Vec::new();
    assert(audit_views(findings@) =~= Seq::<AuditFindingView>::empty());
    push_finding_if(
        &mut findings,
        !push,
        "ci_workflow.push",
        FindingSeverity::Info,
        "The CI workflow does not clearly run on push.",
        "Add a push trigger so the default branch stays continuously verified.",
        evidence,
        p,
    );
    push_finding_if(
        &mut findings,
        !pr,
        "ci_workflow.pull_request",
        FindingSeverity::Warning,
        "The CI workflow does not clearly run on pull requests.",
        "Add a pull_request trigger so external contributions are checked before merge.",
        evidence,
        p,
    );
    push_finding_if(
        &mut findings,
        !test,
        "ci_workflow.tests",
        FindingSeverity::Warning,
        "CI does not clearly execute the project test path.",
        "Run the test command that matches the detected stack inside CI.",
        evidence,
        p,
    );
    push_finding_if(
        &mut findings,
        !build,
        "ci_workflow.build",
        FindingSeverity::Info,
        "CI does not clearly exercise a build or packaging step.",
        "Add a build or package verification step so release regressions surface early.",
        evidence,
        p,
    );
    push_finding_if(
        &mut findings,
        !lint,
        "ci_workflow.lint",
        FindingSeverity::Info,
        "CI does not clearly execute lint or format verification.",
        "Run linting or formatting checks in CI so style drift is visible in pull requests.",
        evidence,
        p,
    );
    findings
}

/// The CI rule over the text of all workflow files; `dir` is the
/// repository's `.github/workflows` directory.
pub fn assess_ci_workflow(
    workflow_count: usize,
    workflow_text: &str,
    dir: &str,
    kind: ProjectKind,
    keywords: &StackKeywords,
) -> (r: RuleAssessment)
    ensures
        r.status == crate::audit::status_from_coverage(r.coverage),
        r.coverage <= 100,
        assessment_matches(r, ci_view(workflow_count as nat, workflow_text@, dir@, kind, *keywords)),
{
    if workflow_count == 0 {
        return missing_rule(
            990,
            "No GitHub Actions workflow was found for CI.",
            "ci_workflow.missing",
            FindingSeverity::Error,
            "No GitHub Actions workflow was found for CI.",
            "Add a CI workflow that runs on push and pull request with stack-specific verification steps.",
        );
    }
    let c = normalize(workflow_text);
    let cs = c.as_str();
    let push = str_contains(cs, "push:") || str_contains(cs, "[push");
    let pr = str_contains(cs, "pull_request") || str_contains(cs, "[pull_request");
    let test = contains_any_of(cs, &keywords.test);
    let lint = contains_any_of(cs, &keywords.lint);
    let build = contains_any_of(cs, &keywords.build);
    let ci = kind.ci_keywords();
    let mut evidence = keep_found(cs, &ci);
    push_label(&mut evidence, push, "push");
    push_label(&mut evidence, pr, "pull_request");
    proof {
        reveal_with_fuel(weight_total, 7);
    }
    let parts: Vec<(u8, bool)> = vec![(15, true), (15, push), (15, pr), (25, test), (15, build), (15, lint)];
    assert(parts@ =~= ci_parts(push, pr, test, build, lint));
    let coverage = weighted(parts);
    let findings = ci_findings(push, pr, test, build, lint, &evidence, dir);
    let status = CheckStatus::from_coverage(coverage);
    RuleAssessment {
        status,
        coverage,
        confidence_permille: 880,
        message: match status {
            CheckStatus::Strong => "CI covers stack-specific verification paths.".to_owned(),
            _ => "Workflow files exist, but CI does not clearly cover the expected verification steps yet.".to_owned(),
        },
        evidence,
        findings,
        location: Some(dir.to_owned()),
    }
}

// ---------------------------------------------------------------------------
// Lint and format
// ---------------------------------------------------------------------------

pub open spec fn lint_location(manifest_path: Option<String>, dir: Seq<char>) -> Option<Seq<char>> {
    match manifest_path {
        Some(m) => Some(m@),
        None => Some(dir),
    }
}

/// Lint and format paths are visible, in CI or in the manifest.
/// `lint_mentioned` and `format_mentioned` tell whether the manifest's
/// scripts or dependencies name a linter or formatter.
pub open spec fn lint_format_view(
    workflow_text: Seq<char>,
    kw: StackKeywords,
    lint_mentioned: bool,
    format_mentioned: bool,
    manifest_path: Option<String>,
    dir: Seq<char>,
) -> AssessmentView {
    let c = str_lowercase(workflow_text);
    let lint = contains_any_spec(c, views(kw.lint@)) || lint_mentioned;
    let format = contains_any_spec(c, views(kw.format@)) || format_mentioned;
    let ev = opt_item(lint, "lint"@) + opt_item(format, "format"@);
    let loc = lint_location(manifest_path, dir);
    AssessmentView {
        coverage: if lint && format {
            100
        } else if lint || format {
            55
        } else {
            0
        },
        confidence: 700,
        message: if lint && format {
            "Linting and formatting signals are both visible."@
        } else if lint || format {
            "Only part of the lint/format path is currently visible."@
        } else {
            "No lint or formatting path was detected."@
        },
        evidence: ev,
        findings: opt_item(
            !lint,
            afv(
                "lint_and_format.lint"@,
                FindingSeverity::Info,
                "No clear lint path was detected."@,
                "Expose a lint command or dependency so code quality checks are easier to discover."@,
                ev,
                loc,
            ),
        ) + opt_item(
            !format,
            afv(
                "lint_and_format.format"@,
                FindingSeverity::Info,
                "No clear format verification path was detected."@,
                "Expose a formatting command or check so contributors can match repository conventions."@,
                ev,
                loc,
            ),
        ),
        location: loc,
    }
}

fn push_finding_at(
    out: &mut Vec<AuditFinding>,
    c: bool,
    id: &str,
    severity: FindingSeverity,
    message: &str,
    help: &str,
    evidence: &Vec<String>,
    location: &Option<String>,
)
    ensures
        audit_views(final(out)@) == audit_views(old(out)@) + opt_item(
            c,
            afv(id@, severity, message@, help@, views(evidence@), crate::doctor::opt_seq(*location)),
        ),
{
    if c {
        let f = crate::audit::finding(id, severity, message, help, clone_strings(evidence), location.clone());
        out.push(f);
    }
    assert(audit_views(out@) =~= audit_views(old(out)@) + opt_item(
        c,
        afv(id@, severity, message@, help@, views(evidence@), crate::doctor::opt_seq(*location)),
    ));
}

/// The lint and format rule.
pub fn assess_lint_and_format(
    workflow_text: &str,
    keywords: &StackKeywords,
    lint_mentioned: bool,
    format_mentioned: bool,
    manifest_path: &Option<String>,
    dir: &str,
) -> (r: RuleAssessment)
    ensures
        r.status == crate::audit::status_from_coverage(r.coverage),
        r.coverage <= 100,
        assessment_matches(
            r,
            lint_format_view(workflow_text@, *keywords, lint_mentioned, format_mentioned, *manifest_path, dir@),
        ),
{
    let c = normalize(workflow_text);
    let lint = contains_any_of(c.as_str(), &keywords.lint) || lint_mentioned;
    let format = contains_any_of(c.as_str(), &keywords.format) || format_mentioned;
    let mut evidence: Vec<String> = Vec::new();
    push_label(&mut evidence, lint, "lint");
    push_label(&mut evidence, format, "format");
    let location = match manifest_path {
        Some(m) => Some(m.clone()),
        None => Some(dir.to_owned()),
    };
    let mut findings: Vec<AuditFinding> = Vec::new();
    push_finding_at(
        &mut findings,
        !lint,
        "lint_and_format.lint",
        FindingSeverity::Info,
        "No clear lint path was detected.",
        "Expose a lint command or dependency so code quality checks are easier to discover.",
        &evidence,
        &location,
    );
    push_finding_at(
        &mut findings,
        !format,
        "lint_and_format.format",
        FindingSeverity::Info,
        "No clear format verification path was detected.",
        "Expose a formatting command or check so contributors can match repository conventions.",
        &evidence,
        &location,
    );
    let ghost view = lint_format_view(
        workflow_text@,
        *keywords,
        lint_mentioned,
        format_mentioned,
        *manifest_path,
        dir@,
    );
    assert(views(evidence@) =~= view.evidence);
    assert(audit_views(findings@) =~= view.findings);
    let coverage: u8 = if lint && format {
        100
    } else if lint || format {
        55
    } else {
        0
    };
    RuleAssessment {
        status: CheckStatus::from_coverage(coverage),
        coverage,
        confidence_permille: 700,
        message: if lint && format {
            "Linting and formatting signals are both visible.".to_owned()
        } else if lint || format {
            "Only part of the lint/format path is currently visible.".to_owned()
        } else {
            "No lint or formatting path was detected.".to_owned()
        },
        evidence,
        findings,
        location,
    }
}

// ---------------------------------------------------------------------------
// Tests
// ---------------------------------------------------------------------------

/// Is the file at `rel` (relative to the root, written with `/`) a test for
/// a project of kind `kind`?  `cfg_test` tells whether a Rust source holds
/// an inline test module.
pub open spec fn is_test_file_spec(rel: Seq<char>, kind: ProjectKind, cfg_test: bool) -> bool {
    let name = str_lowercase(crate::audit::file_name_of(rel));
    let low = str_lowercase(rel);
    match kind {
        ProjectKind::Rust => rel == "tests"@ || starts_with(rel, "tests/"@) || ends_with(name, "_test.rs"@)
            || (ends_with(rel, ".rs"@) && cfg_test),
        ProjectKind::Node => contains(low, "__tests__/"@) || contains(name, ".test."@) || contains(
            name,
            ".spec."@,
        ),
        ProjectKind::Python => (starts_with(low, "tests/"@) && name != "__init__.py"@) || (starts_with(
            name,
            "test_"@,
        ) && ends_with(name, ".py"@)),
        ProjectKind::Go => ends_with(name, "_test.go"@),
        ProjectKind::Unknown => (starts_with(low, "tests/"@) && name != "__init__.py"@) || contains(
            name,
            ".test."@,
        ) || contains(name, ".spec."@) || ends_with(name, "_test.go"@) || starts_with(name, "test_"@),
    }
}

fn file_name_string(rel: &str) -> (r: String)
    ensures
        r@ == crate::audit::file_name_of(rel@),
{
    let _n = rel.unicode_len();
    match crate::text::rfind_char(rel, '/') {
        Some(i) => crate::text::suffix_from(rel, i + 1),
        None => rel.to_owned(),
    }
}

pub fn is_test_file(rel: &str, kind: ProjectKind, cfg_test: bool) -> (b: bool)
    ensures
        b == is_test_file_spec(rel@, kind, cfg_test),
{
    let name = to_lowercase(file_name_string(rel).as_str());
    let n = name.as_str();
    let low = to_lowercase(rel);
    let l = low.as_str();
    match kind {
        ProjectKind::Rust => str_eq(rel, "tests") || str_starts_with(rel, "tests/") || str_ends_with(
            n,
            "_test.rs",
        ) || (str_ends_with(rel, ".rs") && cfg_test),
        ProjectKind::Node => str_contains(l, "__tests__/") || str_contains(n, ".test.") || str_contains(
            n,
            ".spec.",
        ),
        ProjectKind::Python => (str_starts_with(l, "tests/") && !str_eq(n, "__init__.py")) || (
        str_starts_with(n, "test_") && str_ends_with(n, ".py")),
        ProjectKind::Go => str_ends_with(n, "_test.go"),
        ProjectKind::Unknown => (str_starts_with(l, "tests/") && !str_eq(n, "__init__.py")) || str_contains(
            n,
            ".test.",
        ) || str_contains(n, ".spec.") || str_ends_with(n, "_test.go") || str_starts_with(n, "test_"),
    }
}

/// A file of the repository, relative to the root and written with `/`,
/// and whether it holds an inline `#[cfg(test)]` module.
#[derive(Debug, Clone)]
pub struct TestCandidate {
    pub relative: String,
    pub cfg_test: bool,
}

pub open spec fn test_files_spec(cs: Seq<TestCandidate>, kind: ProjectKind) -> Seq<Seq<char>>
    decreases cs.len(),
{
    if cs.len() == 0 {
        Seq::empty()
    } else {
        test_files_spec(cs.drop_last(), kind) + opt_item(
            is_test_file_spec(cs.last().relative@, kind, cs.last().cfg_test),
            cs.last().relative@,
        )
    }
}

/// The test files among `files`, in order.
pub fn test_files(files: &Vec<TestCandidate>, kind: ProjectKind) -> (r: Vec<String>)
    ensures
        views(r@) == test_files_spec(files@, kind),
{
    let mut r: Vec<String> = Vec::new();
    let mut i: usize = 0;
    while i < files.len()
        invariant
            i <= files.len(),
            views(r@) == test_files_spec(files@.take(i as int), kind),
        decreases files.len() - i,
    {
        assert(files@.take(i + 1).drop_last() =~= files@.take(i as int));
        let f = &files[i];
        let hit = is_test_file(f.relative.as_str(), kind, f.cfg_test);
        push_label(&mut r, hit, f.relative.as_str());
        i += 1;
    }
    assert(files@.take(files.len() as int) =~= files@);
    r
}

pub open spec fn first_four(s: Seq<Seq<char>>) -> Seq<Seq<char>> {
    if s.len() > 4 {
        s.take(4)
    } else {
        s
    }
}

/// Detected tests are strong; a test command named in CI or the manifest
/// without test files is a warning, nothing at all an error.
/// `test_script_mentioned` tells whether the manifest's scripts run tests.
pub open spec fn tests_view(
    detected: Seq<Seq<char>>,
    workflow_text: Seq<char>,
    test_keywords: Seq<Seq<char>>,
    test_script_mentioned: bool,
) -> AssessmentView {
    if detected.len() > 0 {
        AssessmentView {
            coverage: 100,
            confidence: 900,
            message: "Tests were detected in the repository."@,
            evidence: first_four(detected),
            findings: Seq::empty(),
            location: None,
        }
    } else {
        let mentions = contains_any_spec(str_lowercase(workflow_text), test_keywords)
            || test_script_mentioned;
        AssessmentView {
            coverage: if mentions {
                45
            } else {
                0
            },
            confidence: 780,
            message: if mentions {
                "The repo references a test path, but no test files were detected yet."@
            } else {
                "No test files or clear test entrypoints were detected."@
            },
            evidence: Seq::empty(),
            findings: seq![
                afv(
                    "tests.missing-files"@,
                    if mentions {
                        FindingSeverity::Warning
                    } else {
                        FindingSeverity::Error
                    },
                    if mentions {
                        "The repo references tests, but no concrete test files were detected."@
                    } else {
                        "No test files or clear test entrypoints were detected."@
                    },
                    "Add executable tests or surface their location more clearly in the repository layout."@,
                    Seq::empty(),
                    None,
                ),
            ],
            location: None,
        }
    }
}

/// The tests rule over the detected test files.
pub fn assess_tests(
    detected: &Vec<String>,
    workflow_text: &str,
    keywords: &StackKeywords,
    test_script_mentioned: bool,
) -> (r: RuleAssessment)
    ensures
        r.status == crate::audit::status_from_coverage(r.coverage),
        r.coverage <= 100,
        assessment_matches(
            r,
            tests_view(views(detected@), workflow_text@, views(keywords.test@), test_script_mentioned),
        ),
{
    if detected.len() > 0 {
        let mut evidence: Vec<String> = Vec::new();
        let mut j: usize = 0;
        while j < detected.len() && j < 4
            invariant
                j <= detected.len(),
                j <= 4,
                views(evidence@) == views(detected@).take(j as int),
            decreases detected.len() - j,
        {
            let ghost before = views(evidence@);
            evidence.push(detected[j].clone());
            assert(views(evidence@) =~= before.push(detected@[j as int]@));
            assert(views(detected@).take(j + 1) =~= views(detected@).take(j as int).push(
                detected@[j as int]@,
            ));
            j += 1;
        }
        assert(views(evidence@) =~= first_four(views(detected@)));
        let findings: Vec<AuditFinding> = Vec::new();
        assert(audit_views(findings@) =~= Seq::<AuditFindingView>::empty());
        return RuleAssessment {
            status: CheckStatus::Strong,
            coverage: crate::audit::default_coverage(CheckStatus::Strong),
            confidence_permille: 900,
            message: "Tests were detected in the repository.".to_owned(),
            evidence,
            findings,
            location: None,
        };
    }
    let mentions = contains_any_of(normalize(workflow_text).as_str(), &keywords.test)
        || test_script_mentioned;
    let none: Vec<String> = Vec::new();
    assert(views(none@) =~= Seq::<Seq<char>>::empty());
    let mut findings: Vec<AuditFinding> = Vec::new();
    findings.push(
        crate::audit::finding(
            "tests.missing-files",
            if mentions {
                FindingSeverity::Warning
            } else {
                FindingSeverity::Error
            },
            if mentions {
                "The repo references tests, but no concrete test files were detected."
            } else {
                "No test files or clear test entrypoints were detected."
            },
            "Add executable tests or surface their location more clearly in the repository layout.",
            none,
            None,
        ),
    );
    assert(audit_views(findings@) =~= tests_view(
        views(detected@),
        workflow_text@,
        views(keywords.test@),
        test_script_mentioned,
    ).findings);
    let evidence: Vec<String> = Vec::new();
    assert(views(evidence@) =~= Seq::<Seq<char>>::empty());
    let coverage: u8 = if mentions {
        45
    } else {
        0
    };
    RuleAssessment {
        status: CheckStatus::from_coverage(coverage),
        coverage,
        confidence_permille: 780,
        message: if mentions {
            "The repo references a test path, but no test files were detected yet.".to_owned()
        } else {
            "No test files or clear test entrypoints were detected.".to_owned()
        },
        evidence,
        findings,
        location: None,
    }
}

// ---------------------------------------------------------------------------
// Project manifest
// ---------------------------------------------------------------------------

/// A file or directory of the repository and how it is shown.
#[derive(Debug, Clone)]
pub struct FileRef {
    pub path: String,
    pub display: String,
}

/// A standalone project in a subdirectory: its root, how the root is shown,
/// the root's directory name, and the project detected there.
#[derive(Debug, Clone)]
pub struct NestedProjectRef {
    pub root: String,
    pub display: String,
    pub name: Option<String>,
    pub project: ProjectContext,
}

pub open spec fn summary_spec(p: ProjectContext) -> Seq<char> {
    match p.manifest_path {
        Some(m) => kind_display_name(p.kind) + " via "@ + m@,
        None => kind_display_name(p.kind),
    }
}

pub open spec fn nested_label(n: NestedProjectRef) -> Seq<char> {
    (match n.name {
        Some(x) => x@,
        None => "nested project"@,
    }) + " ("@ + summary_spec(n.project) + ")"@
}

/// A root manifest of a supported stack is strong, an unrecognized one
/// half; without one, a nested standalone project softens the error.
pub open spec fn project_manifest_view(
    kind: ProjectKind,
    profile: RepoProfile,
    manifest: Option<FileRef>,
    nested: Option<NestedProjectRef>,
) -> AssessmentView {
    match manifest {
        Some(m) => if kind != ProjectKind::Unknown {
            AssessmentView {
                coverage: 100,
                confidence: 980,
                message: "Detected a "@ + kind_display_name(kind) + " manifest for a "@ + profile_display_name(
                    profile,
                ) + " repo."@,
                evidence: seq![m.display@],
                findings: Seq::empty(),
                location: Some(m.path@),
            }
        } else {
            AssessmentView {
                coverage: 50,
                confidence: 700,
                message: "Found a manifest, but the project type is still ambiguous."@,
                evidence: seq![m.display@],
                findings: seq![
                    afv(
                        "project_manifest.unsupported"@,
                        FindingSeverity::Warning,
                        "The manifest exists, but ossify could not infer a supported stack confidently."@,
                        "Keep a supported manifest in the repository root or add clearer stack markers."@,
                        seq![m.display@],
                        Some(m.path@),
                    ),
                ],
                location: Some(m.path@),
            }
        },
        None => match nested {
            Some(n) => {
                let ev = seq!["nested project: "@ + n.display@];
                AssessmentView {
                    coverage: 25,
                    confidence: 780,
                    message: "No supported root manifest was found, but a nested standalone project was detected."@,
                    evidence: ev,
                    findings: seq![
                        afv(
                            "project_manifest.nested_project"@,
                            FindingSeverity::Warning,
                            "No root manifest was detected, but `"@ + nested_label(n)
                                + "` looks like the real runnable project."@,
                            "If `"@ + n.display@
                                + "` is the real project, audit that path directly or add a root README that explains the workspace layout and why the code lives in a nested project."@,
                            ev,
                            Some(n.root@),
                        ),
                    ],
                    location: Some(n.root@),
                }
            },
            None => missing_view(
                990,
                "No supported manifest was found in the repository root."@,
                "project_manifest.missing"@,
                FindingSeverity::Error,
                "No root manifest was detected."@,
                "Add Cargo.toml, package.json, pyproject.toml, or go.mod at the repository root."@,
            ),
        },
    }
}

fn one_string(s: String) -> (r: Vec<String>)
    ensures
        views(r@) == seq![s@],
{
    let ghost v = s@;
    let mut r: Vec<String> = Vec::new();
    r.push(s);
    assert(views(r@) =~= seq![v]);
    r
}

/// The project manifest rule: `manifest` is the root manifest, if any,
/// `nested` the first nested standalone project.
pub fn assess_project_manifest(
    kind: ProjectKind,
    profile: RepoProfile,
    manifest: &Option<FileRef>,
    nested: &Option<NestedProjectRef>,
) -> (r: RuleAssessment)
    ensures
        r.status == crate::audit::status_from_coverage(r.coverage),
        r.coverage <= 100,
        assessment_matches(r, project_manifest_view(kind, profile, *manifest, *nested)),
{
    let ghost view = project_manifest_view(kind, profile, *manifest, *nested);
    match manifest {
        Some(m) => {
            let known = match kind {
                ProjectKind::Unknown => false,
                _ => true,
            };
            if known {
                let mut message = concat_str("Detected a ", kind.display_name());
                message.append(" manifest for a ");
                message.append(profile.display_name());
                message.append(" repo.");
                let findings: Vec<AuditFinding> = Vec::new();
                assert(audit_views(findings@) =~= Seq::<AuditFindingView>::empty());
                RuleAssessment {
                    status: CheckStatus::Strong,
                    coverage: crate::audit::default_coverage(CheckStatus::Strong),
                    confidence_permille: 980,
                    message,
                    evidence: one_string(m.display.clone()),
                    findings,
                    location: Some(m.path.clone()),
                }
            } else {
                let mut findings: Vec<AuditFinding> = Vec::new();
                findings.push(
                    crate::audit::finding(
                        "project_manifest.unsupported",
                        FindingSeverity::Warning,
                        "The manifest exists, but ossify could not infer a supported stack confidently.",
                        "Keep a supported manifest in the repository root or add clearer stack markers.",
                        one_string(m.display.clone()),
                        Some(m.path.clone()),
                    ),
                );
                assert(audit_views(findings@) =~= view.findings);
                RuleAssessment {
                    status: CheckStatus::from_coverage(50),
                    coverage: 50,
                    confidence_permille: 700,
                    message: "Found a manifest, but the project type is still ambiguous.".to_owned(),
                    evidence: one_string(m.display.clone()),
                    findings,
                    location: Some(m.path.clone()),
                }
            }
        },
        None => match nested {
            Some(n) => {
                let mut label = match &n.name {
                    Some(x) => x.clone(),
                    None => "nested project".to_owned(),
                };
                label.append(" (");
                label.append(n.project.summary().as_str());
                label.append(")");
                let mut message = concat_str("No root manifest was detected, but `", label.as_str());
                message.append("` looks like the real runnable project.");
                let mut help = concat_str("If `", n.display.as_str());
                help.append(
                    "` is the real project, audit that path directly or add a root README that explains the workspace layout and why the code lives in a nested project.",
                );
                let ev = concat_str("nested project: ", n.display.as_str());
                let mut findings: Vec<AuditFinding> = Vec::new();
                findings.push(
                    crate::audit::finding(
                        "project_manifest.nested_project",
                        FindingSeverity::Warning,
                        message.as_str(),
                        help.as_str(),
                        one_string(ev.clone()),
                        Some(n.root.clone()),
                    ),
                );
                assert(audit_views(findings@) =~= view.findings);
                RuleAssessment {
                    status: CheckStatus::from_coverage(25),
                    coverage: 25,
                    confidence_permille: 780,
                    message: "No supported root manifest was found, but a nested standalone project was detected.".to_owned(),
                    evidence: one_string(ev),
                    findings,
                    location: Some(n.root.clone()),
                }
            },
            None => missing_rule(
                990,
                "No supported manifest was found in the repository root.",
                "project_manifest.missing",
                FindingSeverity::Error,
                "No root manifest was detected.",
                "Add Cargo.toml, package.json, pyproject.toml, or go.mod at the repository root.",
            ),
        },
    }
}

// ---------------------------------------------------------------------------
// Examples
// ---------------------------------------------------------------------------

/// The extension of a file name, as `Path::extension` reads it.
pub open spec fn extension_of(name: Seq<char>) -> Option<Seq<char>> {
    match crate::text::last_index_of(name, '.') {
        Some(i) => if i > 0 {
            Some(name.subrange(i + 1, name.len() as int))
        } else {
            None
        },
        None => None,
    }
}

pub open spec fn runnable_extension(e: Seq<char>) -> bool {
    e == "py"@ || e == "sh"@ || e == "ps1"@ || e == "ipynb"@ || e == "js"@ || e == "ts"@
}

pub open spec fn runnable_count_spec(names: Seq<Seq<char>>) -> nat
    decreases names.len(),
{
    if names.len() == 0 {
        0
    } else {
        runnable_count_spec(names.drop_last()) + match extension_of(names.last()) {
            Some(e) => if runnable_extension(e) {
                1nat
            } else {
                0nat
            },
            None => 0nat,
        }
    }
}

fn is_runnable_name(name: &str) -> (b: bool)
    ensures
        b == (match extension_of(name@) {
            Some(e) => runnable_extension(e),
            None => false,
        }),
{
    let _n = name.unicode_len();
    match crate::text::rfind_char(name, '.') {
        Some(i) => if i > 0 {
            let e = crate::text::suffix_from(name, i + 1);
            let es = e.as_str();
            str_eq(es, "py") || str_eq(es, "sh") || str_eq(es, "ps1") || str_eq(es, "ipynb") || str_eq(
                es,
                "js",
            ) || str_eq(es, "ts")
        } else {
            false
        },
        None => false,
    }
}

/// The number of runnable scripts (Python, shell, PowerShell, notebooks,
/// JavaScript, TypeScript) among the file names of a directory.
pub fn runnable_script_count(file_names: &Vec<String>) -> (n: usize)
    ensures
        n == runnable_count_spec(views(file_names@)),
{
    let mut n: usize = 0;
    let mut i: usize = 0;
    while i < file_names.len()
        invariant
            i <= file_names.len(),
            n <= i,
            n == runnable_count_spec(views(file_names@).take(i as int)),
        decreases file_names.len() - i,
    {
        assert(views(file_names@).take(i + 1).drop_last() =~= views(file_names@).take(i as int));
        assert(views(file_names@).take(i + 1).last() == file_names@[i as int]@);
        if is_runnable_name(file_names[i].as_str()) {
            n += 1;
        }
        i += 1;
    }
    assert(views(file_names@).take(file_names.len() as int) =~= views(file_names@));
    n
}

/// What the examples rule reads: the README, the first file under
/// `examples/` and under `docs/`, the number of runnable scripts under
/// `scripts/`, and the preferred supporting document.
#[derive(Debug, Clone)]
pub struct ExamplesInputs {
    pub readme_path: Option<String>,
    pub readme_text: String,
    pub examples_file: Option<FileRef>,
    pub docs_file: Option<FileRef>,
    pub scripts_count: usize,
    pub supporting_doc: Option<RepoDocument>,
}

pub open spec fn example_headings() -> Seq<Seq<char>> {
    seq!["## examples"@, "## example"@]
}

pub open spec fn script_pipeline_phrases() -> Seq<Seq<char>> {
    seq!["python scripts/"@, "scripts/"@, "pipeline d'ex"@, "pipeline d\u{2019}ex"@, "execution"@, "run:"@]
}

pub open spec fn usage_headings() -> Seq<Seq<char>> {
    seq!["## usage"@, "## quick start"@]
}

pub open spec fn supporting_text(inp: ExamplesInputs) -> Seq<char> {
    match inp.supporting_doc {
        Some(d) => d.contents@,
        None => Seq::empty(),
    }
}

pub open spec fn readme_example_spec(inp: ExamplesInputs) -> bool {
    contains_any_spec(str_lowercase(inp.readme_text@), example_headings()) && count_matches(
        inp.readme_text@,
        "```"@,
    ) >= 2
}

pub open spec fn doc_scripts_spec(inp: ExamplesInputs) -> bool {
    let t = supporting_text(inp);
    inp.scripts_count >= 2 && count_matches(t, "```"@) >= 2 && contains_any_spec(
        str_lowercase(t),
        script_pipeline_phrases(),
    )
}

pub open spec fn examples_evidence(inp: ExamplesInputs) -> Seq<Seq<char>> {
    (match inp.examples_file {
        Some(f) => seq![f.display@],
        None => Seq::empty(),
    }) + (match inp.docs_file {
        Some(f) => seq![f.display@],
        None => Seq::empty(),
    }) + opt_item(
        inp.scripts_count >= 2,
        "scripts/ ("@ + crate::text::decimal(inp.scripts_count as nat) + " files)"@,
    ) + (match inp.supporting_doc {
        Some(d) => seq![d.display@],
        None => Seq::empty(),
    }) + opt_item(readme_example_spec(inp), "README examples section"@) + opt_item(
        doc_scripts_spec(inp),
        "documented script pipeline"@,
    )
}

pub open spec fn examples_location(inp: ExamplesInputs) -> Option<Seq<char>> {
    match inp.examples_file {
        Some(f) => Some(f.path@),
        None => match inp.docs_file {
            Some(f) => Some(f.path@),
            None => match inp.supporting_doc {
                Some(d) => Some(d.path@),
                None => crate::doctor::opt_seq(inp.readme_path),
            },
        },
    }
}

pub open spec fn examples_parts(assets: bool, docs: bool, usage: bool) -> Seq<(u8, bool)> {
    seq![(35u8, assets), (30u8, docs), (35u8, usage)]
}

pub open spec fn examples_coverage(inp: ExamplesInputs) -> u8 {
    if inp.examples_file.is_some() || readme_example_spec(inp) || doc_scripts_spec(inp) {
        100
    } else {
        weighted_coverage_spec(
            examples_parts(
                inp.scripts_count >= 2 || inp.docs_file.is_some() || inp.supporting_doc.is_some(),
                inp.docs_file.is_some(),
                contains_any_spec(str_lowercase(inp.readme_text@), usage_headings()),
            ),
        )
    }
}

/// A newcomer finds a concrete example: an `examples/` directory, a worked
/// README example or a documented script pipeline.
pub open spec fn examples_view(inp: ExamplesInputs) -> AssessmentView {
    let ev = examples_evidence(inp);
    let loc = examples_location(inp);
    let coverage = examples_coverage(inp);
    let status = status_from_coverage(coverage);
    let usage = readme_example_spec(inp) || doc_scripts_spec(inp);
    AssessmentView {
        coverage,
        confidence: 730,
        message: if status == CheckStatus::Strong {
            "The repository offers at least one concrete example path for adopters."@
        } else if status == CheckStatus::Partial {
            "There is some usage guidance, but no clearly reusable example path yet."@
        } else {
            "No examples directory or concrete usage example was detected."@
        },
        evidence: dedupe_spec(ev),
        findings: opt_item(
            inp.examples_file.is_none() && !usage,
            afv(
                "examples.path"@,
                FindingSeverity::Warning,
                "The repository has no clearly reusable example path yet."@,
                "Add an examples/ directory, a worked README example, or a documented script pipeline that a newcomer can copy."@,
                ev,
                loc,
            ),
        ) + opt_item(
            inp.scripts_count == 0 && !readme_example_spec(inp),
            afv(
                "examples.runnable"@,
                FindingSeverity::Info,
                "No runnable scripts or notebooks were detected for onboarding."@,
                "Consider shipping a tiny runnable example, notebook, or script that exercises the core project flow."@,
                Seq::empty(),
                loc,
            ),
        ),
        location: loc,
    }
}

fn push_opt_display(v: &mut Vec<String>, f: &Option<FileRef>)
    ensures
        views(final(v)@) == views(old(v)@) + match *f {
            Some(x) => seq![x.display@],
            None => Seq::empty(),
        },
{
    match f {
        Some(x) => {
            v.push(x.display.clone());
        },
        None => {},
    }
    assert(views(v@) =~= views(old(v)@) + match *f {
        Some(x) => seq![x.display@],
        None => Seq::<Seq<char>>::empty(),
    });
}

fn examples_signals(inp: &ExamplesInputs) -> (r: (bool, bool))
    ensures
        r.0 == readme_example_spec(*inp),
        r.1 == doc_scripts_spec(*inp),
{
    let readme_norm = normalize(inp.readme_text.as_str());
    let headings: Vec<&str> = vec!["## examples", "## example"];
    assert(str_views(headings@) =~= example_headings());
    let readme_example = contains_any(readme_norm.as_str(), &headings) && markdown_code_block_count(
        inp.readme_text.as_str(),
    ) >= 2;
    let text = match &inp.supporting_doc {
        Some(d) => d.contents.clone(),
        None => String::new(),
    };
    let phrases: Vec<&str> = vec![
        "python scripts/",
        "scripts/",
        "pipeline d'ex",
        "pipeline d\u{2019}ex",
        "execution",
        "run:",
    ];
    assert(str_views(phrases@) =~= script_pipeline_phrases());
    let doc_scripts = inp.scripts_count >= 2 && markdown_code_block_count(text.as_str()) >= 2
        && contains_any(normalize(text.as_str()).as_str(), &phrases);
    (readme_example, doc_scripts)
}

/// The examples rule.
pub fn assess_examples(inp: &ExamplesInputs) -> (r: RuleAssessment)
    ensures
        r.status == crate::audit::status_from_coverage(r.coverage),
        r.coverage <= 100,
        assessment_matches(r, examples_view(*inp)),
{
    let (readme_example, doc_scripts) = examples_signals(inp);
    let mut evidence: Vec<String> = Vec::new();
    push_opt_display(&mut evidence, &inp.examples_file);
    push_opt_display(&mut evidence, &inp.docs_file);
    if inp.scripts_count >= 2 {
        let mut s = concat_str("scripts/ (", crate::text::decimal_string(inp.scripts_count as u64).as_str());
        s.append(" files)");
        evidence.push(s);
    }
    match &inp.supporting_doc {
        Some(d) => {
            evidence.push(d.display.clone());
        },
        None => {},
    }
    push_label(&mut evidence, readme_example, "README examples section");
    push_label(&mut evidence, doc_scripts, "documented script pipeline");
    assert(views(evidence@) =~= examples_evidence(*inp));
    let has_examples = inp.examples_file.is_some();
    let usage = readme_example || doc_scripts;
    let coverage = if has_examples || usage {
        100u8
    } else {
        let assets = inp.scripts_count >= 2 || inp.docs_file.is_some() || inp.supporting_doc.is_some();
        let usage_headings_v: Vec<&str> = vec!["## usage", "## quick start"];
        assert(str_views(usage_headings_v@) =~= usage_headings());
        let usage_heading = contains_any(normalize(inp.readme_text.as_str()).as_str(), &usage_headings_v);
        proof {
            reveal_with_fuel(weight_total, 4);
        }
        let parts: Vec<(u8, bool)> = vec![(35, assets), (30, inp.docs_file.is_some()), (35, usage_heading)];
        assert(parts@ =~= examples_parts(assets, inp.docs_file.is_some(), usage_heading));
        weighted(parts)
    };
    let location: Option<String> = match &inp.examples_file {
        Some(f) => Some(f.path.clone()),
        None => match &inp.docs_file {
            Some(f) => Some(f.path.clone()),
            None => match &inp.supporting_doc {
                Some(d) => Some(d.path.clone()),
                None => inp.readme_path.clone(),
            },
        },
    };
    assert(crate::doctor::opt_seq(location) == examples_location(*inp));
    let none: Vec<String> = Vec::new();
    assert(views(none@) =~= Seq::<Seq<char>>::empty());
    let mut findings: Vec<AuditFinding> = Vec::new();
    push_finding_at(
        &mut findings,
        !has_examples && !usage,
        "examples.path",
        FindingSeverity::Warning,
        "The repository has no clearly reusable example path yet.",
        "Add an examples/ directory, a worked README example, or a documented script pipeline that a newcomer can copy.",
        &evidence,
        &location,
    );
    push_finding_at(
        &mut findings,
        inp.scripts_count == 0 && !readme_example,
        "examples.runnable",
        FindingSeverity::Info,
        "No runnable scripts or notebooks were detected for onboarding.",
        "Consider shipping a tiny runnable example, notebook, or script that exercises the core project flow.",
        &none,
        &location,
    );
    assert(audit_views(findings@) =~= examples_view(*inp).findings);
    let status = CheckStatus::from_coverage(coverage);
    let message = match status {
        CheckStatus::Strong => "The repository offers at least one concrete example path for adopters.".to_owned(),
        CheckStatus::Partial => "There is some usage guidance, but no clearly reusable example path yet.".to_owned(),
        CheckStatus::Missing => "No examples directory or concrete usage example was detected.".to_owned(),
    };
    RuleAssessment {
        status,
        coverage,
        confidence_permille: 730,
        message,
        evidence: dedupe_strings(evidence),
        findings,
        location,
    }
}

// ---------------------------------------------------------------------------
// Supporting document
// ---------------------------------------------------------------------------

/// Among files (relative path, size in bytes), the largest supporting
/// document; of equally large ones the last.
pub open spec fn largest_supporting_doc(files: Seq<(Seq<char>, nat)>) -> Option<int>
    decreases files.len(),
{
    if files.len() == 0 {
        None
    } else {
        let prev = largest_supporting_doc(files.drop_last());
        let last = files.last();
        if !crate::audit::supporting_doc_spec(last.0) {
            prev
        } else {
            match prev {
                None => Some(files.len() - 1),
                Some(i) => if last.1 >= files[i].1 {
                    Some(files.len() - 1)
                } else {
                    Some(i)
                },
            }
        }
    }
}

pub open spec fn sized_views(files: Seq<(String, usize)>) -> Seq<(Seq<char>, nat)> {
    files.map_values(|f: (String, usize)| (f.0@, f.1 as nat))
}

/// The index of the supporting document to read when no preferred one
/// exists: the largest Markdown file under `docs/` that is not a standard
/// community file.
pub fn pick_supporting_doc(files: &Vec<(String, usize)>) -> (r: Option<usize>)
    ensures
        match r {
            Some(i) => largest_supporting_doc(sized_views(files@)) == Some(i as int),
            None => largest_supporting_doc(sized_views(files@)).is_none(),
        },
{
    let mut best: Option<usize> = None;
    let mut i: usize = 0;
    while i < files.len()
        invariant
            i <= files.len(),
            match best {
                Some(b) => largest_supporting_doc(sized_views(files@).take(i as int)) == Some(b as int) && b < i,
                None => largest_supporting_doc(sized_views(files@).take(i as int)).is_none(),
            },
        decreases files.len() - i,
    {
        assert(sized_views(files@).take(i + 1).drop_last() =~= sized_views(files@).take(i as int));
        assert(sized_views(files@).take(i + 1).last() == (files@[i as int].0@, files@[i as int].1 as nat));
        if crate::audit::is_supporting_doc_candidate(files[i].0.as_str()) {
            best = match best {
                None => Some(i),
                Some(b) => if files[i].1 >= files[b].1 {
                    Some(i)
                } else {
                    Some(b)
                },
            };
        }
        i += 1;
    }
    assert(sized_views(files@).take(files.len() as int) =~= sized_views(files@));
    best
}

// ---------------------------------------------------------------------------
// The two quality documents and the lint and format signals
// ---------------------------------------------------------------------------

pub open spec fn contributing_view(doc: Option<RepoDocument>) -> AssessmentView {
    quality_view(
        doc,
        seq!["CONTRIBUTING.md"@],
        200,
        seq!["pull request"@, "issue"@, "test"@, "branch"@],
    )
}

/// The contributing-guide rule: `CONTRIBUTING.md`, strong from 200 bytes
/// with the pull request, issue, test and branch keywords.
pub fn assess_contributing_guide(doc: &Option<RepoDocument>) -> (r: RuleAssessment)
    ensures
        r.status == status_from_coverage(r.coverage),
        r.coverage <= 100,
        assessment_matches(r, contributing_view(*doc)),
{
    let candidates: Vec<&str> = vec!["CONTRIBUTING.md"];
    let keywords: Vec<&str> = vec!["pull request", "issue", "test", "branch"];
    assert(str_views(candidates@) =~= seq!["CONTRIBUTING.md"@]);
    assert(str_views(keywords@) =~= seq!["pull request"@, "issue"@, "test"@, "branch"@]);
    assess_quality_document(doc, &candidates, 200, &keywords)
}

pub open spec fn code_of_conduct_view(doc: Option<RepoDocument>) -> AssessmentView {
    quality_view(
        doc,
        seq!["CODE_OF_CONDUCT.md"@],
        160,
        seq!["expected behavior"@, "unacceptable behavior"@, "report"@],
    )
}

/// The code-of-conduct rule: `CODE_OF_CONDUCT.md`, strong from 160 bytes
/// with the expected-behaviour, unacceptable-behaviour and reporting
/// keywords.
pub fn assess_code_of_conduct(doc: &Option<RepoDocument>) -> (r: RuleAssessment)
    ensures
        r.status == status_from_coverage(r.coverage),
        r.coverage <= 100,
        assessment_matches(r, code_of_conduct_view(*doc)),
{
    let candidates: Vec<&str> = vec!["CODE_OF_CONDUCT.md"];
    let keywords: Vec<&str> = vec!["expected behavior", "unacceptable behavior", "report"];
    assert(str_views(candidates@) =~= seq!["CODE_OF_CONDUCT.md"@]);
    assert(str_views(keywords@) =~= seq!["expected behavior"@, "unacceptable behavior"@, "report"@]);
    assess_quality_document(doc, &candidates, 160, &keywords)
}

/// What in a manifest shows a lint step: a `lint` script, or eslint, ruff
/// or golangci-lint among its dependencies.
pub open spec fn lint_needles() -> Seq<Seq<char>> {
    seq!["\"lint\""@, "eslint"@, "ruff"@, "golangci-lint"@]
}

/// What in a manifest shows a format step: a `format` script, or prettier
/// or black among its dependencies.
pub open spec fn format_needles() -> Seq<Seq<char>> {
    seq!["\"format\""@, "prettier"@, "black"@]
}

pub fn lint_mentioned(manifest_text: &str) -> (b: bool)
    ensures
        b == contains_any_spec(manifest_text@, lint_needles()),
{
    let needles: Vec<&str> = vec!["\"lint\"", "eslint", "ruff", "golangci-lint"];
    assert(str_views(needles@) =~= lint_needles());
    contains_any(manifest_text, &needles)
}

pub fn format_mentioned(manifest_text: &str) -> (b: bool)
    ensures
        b == contains_any_spec(manifest_text@, format_needles()),
{
    let needles: Vec<&str> = vec!["\"format\"", "prettier", "black"];
    assert(str_views(needles@) =~= format_needles());
    contains_any(manifest_text, &needles)
}

/// A manifest names a test script.
pub fn test_script_mentioned(manifest_text: &str) -> (b: bool)
    ensures
        b == contains(manifest_text@, "\"test\""@),
{
    str_contains(manifest_text, "\"test\"")
}

} // verus!
