//! The workflow doctor's own hygiene checks on GitHub Actions files:
//! explicit permissions, concurrency guards, job timeouts and pinned actions.
use vstd::prelude::*;
use crate::doctor::{
    actionlint_message_spec, doctor_finding_with_detail, format_actionlint_message, workflow_score,
    workflow_score_spec,
    ActionlintError, WorkflowDoctorReport, finding_if, is_mutable_action_ref, is_mutable_action_ref_spec, is_official_github_action_ref,
    listed, listed_string, push_when, view_of, views_of, DoctorDomain, DoctorFinding,
    DoctorSeverity, FindingView,
};
use crate::order::{listing_order, sort_listed};
use crate::text::{
    concat_str, distinct_sorted_strings, join_seq, sorted_distinct, sorted_seq, sorted_strings, starts_with,
    views,
};

verus! {

/// A job of a workflow file: its id and whether it sets `timeout-minutes`.
#[derive(Debug, Clone)]
pub struct WorkflowJob {
    pub id: String,
    pub has_timeout: bool,
}

/// What the hygiene checks read from one workflow file that parsed as a
/// YAML mapping.
#[derive(Debug, Clone)]
pub struct WorkflowDocument {
    pub path: String,
    pub has_permissions: bool,
    pub has_concurrency: bool,
    /// The jobs whose id is a string and whose body is a mapping, in order.
    pub jobs: Vec<WorkflowJob>,
    /// Every string value of a `uses` key anywhere in the document.
    pub uses: Vec<String>,
}

pub open spec fn jobs_without_timeout(jobs: Seq<WorkflowJob>) -> Seq<Seq<char>>
    decreases jobs.len(),
{
    if jobs.len() == 0 {
        Seq::empty()
    } else {
        jobs_without_timeout(jobs.drop_last()) + if !jobs.last().has_timeout {
            seq![jobs.last().id@]
        } else {
            Seq::empty()
        }
    }
}

/// A third-party action reference that is not pinned to a commit SHA.
pub open spec fn flagged_ref(u: Seq<char>) -> bool {
    is_mutable_action_ref_spec(u) && !starts_with(u, "actions/"@)
}

pub open spec fn flagged_refs(uses: Seq<Seq<char>>) -> Seq<Seq<char>>
    decreases uses.len(),
{
    if uses.len() == 0 {
        Seq::empty()
    } else {
        flagged_refs(uses.drop_last()) + if flagged_ref(uses.last()) {
            seq![uses.last()]
        } else {
            Seq::empty()
        }
    }
}

pub open spec fn hygiene_view(
    severity: DoctorSeverity,
    code: Seq<char>,
    message: Seq<char>,
    path: Seq<char>,
    help: Seq<char>,
    evidence: Seq<Seq<char>>,
    fix_hint: Seq<char>,
) -> FindingView {
    FindingView {
        domain: DoctorDomain::Workflow,
        ecosystem: None,
        severity,
        code,
        message,
        file: Some(path),
        help: Some(help),
        evidence,
        fix_hint: Some(fix_hint),
        engine: Some("ossify workflow policy"@),
    }
}

/// The hygiene findings of one workflow file, in order: permissions,
/// concurrency, timeouts (job ids sorted), and unpinned third-party
/// actions (distinct references, sorted).
pub open spec fn document_findings_spec(d: WorkflowDocument) -> Seq<FindingView> {
    let p = d.path@;
    let timeouts = sorted_seq(jobs_without_timeout(d.jobs@));
    let refs = sorted_distinct(flagged_refs(views(d.uses@)));
    finding_if(
        !d.has_permissions,
        hygiene_view(
            DoctorSeverity::Warning,
            "workflow.permissions.missing"@,
            "Workflow does not declare explicit GITHUB_TOKEN permissions."@,
            p,
            "Add a top-level `permissions:` block with the narrowest access your jobs need, usually `contents: read` for CI."@,
            Seq::empty(),
            "Declare explicit top-level permissions and keep them narrow."@,
        ),
    ) + finding_if(
        !d.has_concurrency,
        hygiene_view(
            DoctorSeverity::Info,
            "workflow.concurrency.missing"@,
            "Workflow has no concurrency guard, so superseded runs can continue burning minutes."@,
            p,
            "Add `concurrency` when duplicate runs should cancel in progress, especially for CI and release-related workflows."@,
            Seq::empty(),
            "Add concurrency cancellation for superseded runs."@,
        ),
    ) + finding_if(
        timeouts.len() > 0,
        hygiene_view(
            DoctorSeverity::Info,
            "workflow.timeout.missing"@,
            "missing `timeout-minutes` on jobs: "@ + join_seq(timeouts, ", "@),
            p,
            "Add `timeout-minutes:` to long-running jobs so failures fail fast instead of hanging."@,
            timeouts,
            "Add timeout-minutes to every job in the workflow."@,
        ),
    ) + finding_if(
        refs.len() > 0,
        hygiene_view(
            DoctorSeverity::Info,
            "workflow.actions.unpinned"@,
            listed("Workflow uses mutable action refs instead of full commit SHAs: "@, refs),
            p,
            "Pin action refs to full commit SHAs for stronger supply-chain reproducibility, then optionally document the friendly tag in comments."@,
            refs,
            "Pin third-party GitHub Actions to immutable SHAs."@,
        ),
    )
}

pub open spec fn hygiene_findings_spec(docs: Seq<WorkflowDocument>) -> Seq<FindingView>
    decreases docs.len(),
{
    if docs.len() == 0 {
        Seq::empty()
    } else {
        hygiene_findings_spec(docs.drop_last()) + document_findings_spec(docs.last())
    }
}

fn hygiene_finding(
    severity: DoctorSeverity,
    code: &str,
    message: &str,
    path: &str,
    help: &str,
    evidence: Vec<String>,
    fix_hint: &str,
) -> (f: DoctorFinding)
    ensures
        view_of(f) == hygiene_view(severity, code@, message@, path@, help@, views(evidence@), fix_hint@),
{
    crate::doctor::doctor_finding_with_detail(
        DoctorDomain::Workflow,
        None,
        severity,
        code,
        message,
        Some(path.to_owned()),
        Some(help.to_owned()),
        evidence,
        Some(fix_hint.to_owned()),
        Some("ossify workflow policy".to_owned()),
    )
}

fn timeout_missing(jobs: &Vec<WorkflowJob>) -> (r: Vec<String>)
    ensures
        views(r@) == jobs_without_timeout(jobs@),
{
    let mut r: Vec<String> = Vec::new();
    let mut i: usize = 0;
    while i < jobs.len()
        invariant
            i <= jobs.len(),
            views(r@) == jobs_without_timeout(jobs@.take(i as int)),
        decreases jobs.len() - i,
    {
        assert(jobs@.take(i + 1).drop_last() =~= jobs@.take(i as int));
        let ghost before = views(r@);
        if !jobs[i].has_timeout {
            r.push(jobs[i].id.clone());
            assert(views(r@) =~= before + seq![jobs@[i as int].id@]);
        } else {
            assert(views(r@) =~= before + Seq::<Seq<char>>::empty());
        }
        i += 1;
    }
    assert(jobs@.take(jobs.len() as int) =~= jobs@);
    r
}

fn flagged(uses: &Vec<String>) -> (r: Vec<String>)
    ensures
        views(r@) == flagged_refs(views(uses@)),
{
    let mut r: Vec<String> = Vec::new();
    let mut i: usize = 0;
    while i < uses.len()
        invariant
            i <= uses.len(),
            views(r@) == flagged_refs(views(uses@).take(i as int)),
        decreases uses.len() - i,
    {
        assert(views(uses@).take(i + 1).drop_last() =~= views(uses@).take(i as int));
        assert(views(uses@).take(i + 1).last() == uses@[i as int]@);
        let ghost before = views(r@);
        let u = uses[i].as_str();
        if is_mutable_action_ref(u) && !is_official_github_action_ref(u) {
            r.push(uses[i].clone());
            assert(views(r@) =~= before + seq![uses@[i as int]@]);
        } else {
            assert(views(r@) =~= before + Seq::<Seq<char>>::empty());
        }
        i += 1;
    }
    assert(views(uses@).take(uses.len() as int) =~= views(uses@));
    r
}

#[verifier::rlimit(40)]
fn document_findings(doc: &WorkflowDocument, out: &mut Vec<DoctorFinding>)
    ensures
        views_of(final(out)@) == views_of(old(out)@) + document_findings_spec(*doc),
{
    let ghost start = views_of(out@);
    let p = doc.path.as_str();
    push_when(
        out,
        !doc.has_permissions,
        hygiene_finding(
            DoctorSeverity::Warning,
            "workflow.permissions.missing",
            "Workflow does not declare explicit GITHUB_TOKEN permissions.",
            p,
            "Add a top-level `permissions:` block with the narrowest access your jobs need, usually `contents: read` for CI.",
            crate::doctor::no_evidence(),
            "Declare explicit top-level permissions and keep them narrow.",
        ),
    );
    push_when(
        out,
        !doc.has_concurrency,
        hygiene_finding(
            DoctorSeverity::Info,
            "workflow.concurrency.missing",
            "Workflow has no concurrency guard, so superseded runs can continue burning minutes.",
            p,
            "Add `concurrency` when duplicate runs should cancel in progress, especially for CI and release-related workflows.",
            crate::doctor::no_evidence(),
            "Add concurrency cancellation for superseded runs.",
        ),
    );
    let timeouts = sorted_strings(timeout_missing(&doc.jobs));
    let mut message = crate::text::concat_str(
        "missing `timeout-minutes` on jobs: ",
        crate::text::join_strings(&timeouts, ", ").as_str(),
    );
    let has_timeouts = timeouts.len() > 0;
    push_when(
        out,
        has_timeouts,
        hygiene_finding(
            DoctorSeverity::Info,
            "workflow.timeout.missing",
            message.as_str(),
            p,
            "Add `timeout-minutes:` to long-running jobs so failures fail fast instead of hanging.",
            timeouts,
            "Add timeout-minutes to every job in the workflow.",
        ),
    );
    let refs = distinct_sorted_strings(flagged(&doc.uses));
    let has_refs = refs.len() > 0;
    let refs_message = listed_string(
        "Workflow uses mutable action refs instead of full commit SHAs: ",
        &refs,
    );
    push_when(
        out,
        has_refs,
        hygiene_finding(
            DoctorSeverity::Info,
            "workflow.actions.unpinned",
            refs_message.as_str(),
            p,
            "Pin action refs to full commit SHAs for stronger supply-chain reproducibility, then optionally document the friendly tag in comments.",
            refs,
            "Pin third-party GitHub Actions to immutable SHAs.",
        ),
    );
    assert(views_of(out@) =~= start + document_findings_spec(*doc));
}

/// The hygiene findings of every workflow file, file by file.
pub fn workflow_hygiene_findings(documents: &Vec<WorkflowDocument>) -> (r: Vec<DoctorFinding>)
    ensures
        views_of(r@) == hygiene_findings_spec(documents@),
{
    let mut out: Vec<DoctorFinding> = Vec::new();
    let mut i: usize = 0;
    assert(views_of(out@) =~= hygiene_findings_spec(documents@.take(0)));
    while i < documents.len()
        invariant
            i <= documents.len(),
            views_of(out@) == hygiene_findings_spec(documents@.take(i as int)),
        decreases documents.len() - i,
    {
        assert(documents@.take(i + 1).drop_last() =~= documents@.take(i as int));
        document_findings(&documents[i], &mut out);
        i += 1;
    }
    assert(documents@.take(documents.len() as int) =~= documents@);
    out
}

// ---------------------------------------------------------------------------
// The workflow report
// ---------------------------------------------------------------------------

/// The finding for one actionlint diagnostic; `resolved` is its file's path
/// under the repository, used when the diagnostic names a file.
pub open spec fn actionlint_view(e: ActionlintError, resolved: Seq<char>) -> FindingView {
    FindingView {
        domain: DoctorDomain::Workflow,
        ecosystem: None,
        severity: DoctorSeverity::Error,
        code: "workflow."@ + (match e.kind {
            Some(k) => k@,
            None => "lint"@,
        }),
        message: actionlint_message_spec(e),
        file: if e.filepath@.len() > 0 {
            Some(resolved)
        } else {
            None
        },
        help: None,
        evidence: Seq::empty(),
        fix_hint: None,
        engine: Some("actionlint"@),
    }
}

/// The findings for the first `n` actionlint diagnostics.
pub open spec fn actionlint_views(es: Seq<ActionlintError>, resolved: Seq<String>, n: int) -> Seq<
    FindingView,
>
    decreases n,
{
    if n <= 0 {
        Seq::empty()
    } else {
        actionlint_views(es, resolved, n - 1) + seq![actionlint_view(es[n - 1], resolved[n - 1]@)]
    }
}

/// The finding for one actionlint diagnostic.
pub fn actionlint_finding(entry: &ActionlintError, resolved: &str) -> (f: DoctorFinding)
    ensures
        view_of(f) == actionlint_view(*entry, resolved@),
{
    let code = match &entry.kind {
        Some(k) => concat_str("workflow.", k.as_str()),
        None => "workflow.lint".to_owned(),
    };
    proof {
        reveal_strlit("workflow.lint");
        reveal_strlit("workflow.");
        reveal_strlit("lint");
        assert("workflow.lint"@ =~= "workflow."@ + "lint"@);
    }
    let file = if entry.filepath.as_str().is_empty() {
        None
    } else {
        Some(resolved.to_owned())
    };
    let f = doctor_finding_with_detail(
        DoctorDomain::Workflow,
        None,
        DoctorSeverity::Error,
        code.as_str(),
        format_actionlint_message(entry).as_str(),
        file,
        None,
        Vec::new(),
        None,
        Some("actionlint".to_owned()),
    );
    assert(views(f.evidence@) =~= Seq::<Seq<char>>::empty());
    f
}

/// The workflow report.  With no workflow file nothing runs and the score
/// is 100.  Otherwise the actionlint diagnostics and the hygiene findings
/// are listed by severity, file and code, and scored.  `resolved[i]` is the
/// repository path of diagnostic `i`'s file.
pub fn workflow_report(
    target: String,
    workflow_files: usize,
    entries: &Vec<ActionlintError>,
    resolved: &Vec<String>,
    documents: &Vec<WorkflowDocument>,
) -> (r: WorkflowDoctorReport)
    requires
        resolved@.len() == entries@.len(),
    ensures
        r.target@ == target@,
        r.workflow_files == workflow_files,
        r.engine@ == "actionlint"@,
        r.engine_available,
        workflow_files == 0 ==> r.score == Some(100u8) && r.findings@.len() == 0,
        workflow_files > 0 ==> r.score == Some(workflow_score_spec(r.findings@) as u8),
        workflow_files > 0 ==> exists|fs: Seq<DoctorFinding>|
            #[trigger] views_of(fs) == actionlint_views(entries@, resolved@, entries@.len() as int)
                + hygiene_findings_spec(documents@) && r.findings@ == listing_order(fs, false),
{
    if workflow_files == 0 {
        return WorkflowDoctorReport {
            target,
            score: Some(100),
            workflow_files: 0,
            engine: "actionlint".to_owned(),
            engine_available: true,
            findings: Vec::new(),
        };
    }
    let mut findings: Vec<DoctorFinding> = Vec::new();
    let mut i: usize = 0;
    while i < entries.len()
        invariant
            i <= entries.len(),
            resolved@.len() == entries@.len(),
            views_of(findings@) == actionlint_views(entries@, resolved@, i as int),
        decreases entries.len() - i,
    {
        let f = actionlint_finding(&entries[i], resolved[i].as_str());
        findings.push(f);
        assert(views_of(findings@) =~= actionlint_views(entries@, resolved@, i + 1));
        i += 1;
    }
    let mut hygiene = workflow_hygiene_findings(documents);
    let ghost a = findings@;
    let ghost b = hygiene@;
    findings.append(&mut hygiene);
    assert(findings@ =~= a + b);
    assert(views_of(findings@) =~= views_of(a) + views_of(b));
    let ghost unsorted = findings@;
    let sorted = sort_listed(findings, false);
    let score = workflow_score(&sorted);
    assert(views_of(unsorted) == actionlint_views(entries@, resolved@, entries@.len() as int)
        + hygiene_findings_spec(documents@) && sorted@ == listing_order(unsorted, false));
    WorkflowDoctorReport {
        target,
        score: Some(score),
        workflow_files,
        engine: "actionlint".to_owned(),
        engine_available: true,
        findings: sorted,
    }
}

} // verus!
