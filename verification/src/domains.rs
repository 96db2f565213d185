//! Putting the dependency and release doctors together: one scan per
//! ecosystem, its score and cap, and the domain verdict across ecosystems.
use vstd::prelude::*;
use crate::doctor::{
    count_severity, count_with_severity, deps_engine_name, deps_scoring_for_ecosystem,
    deps_summary, deps_summary_spec, domain_label, ecosystem_label, fallback_severity,
    managed_engine_fallback_finding, fallback_finding_spec, release_engine_name, release_score, release_score_cap,
    release_summary, release_summary_spec, score_after, aggregate_engine_source,
    aggregate_source_spec, release_penalty_total, has_severity, min_nat, view_of, views_of,
    average_scores, score_sum, DoctorDomain, DoctorDomainScore, DoctorEcosystem, DoctorFinding,
    DoctorSeverity, EcosystemDoctorScore, EngineSource, FindingView, DepsDoctorReport,
    ReleaseDoctorReport,
};
use crate::engines::{ManagedEngineError, ManagedEngineStatus};
use crate::doctor::{
    deps_scoring_matches, docs_domain_matches, opt_seq,
    workflow_domain_matches, DepsScoring, DocsDoctorReport, WorkflowDoctorReport,
};
use crate::order::{listing_order, sort_doctor_findings};
use crate::rust_deps::{feature_counts_fit, features_spec, penalty_fits, RustDepsScoringProfile};
use crate::text::{concat_str, decimal, decimal_string};

verus! {

/// What one ecosystem's scan found and which engine produced it.
#[derive(Debug, Clone)]
pub struct EcosystemScan {
    pub ecosystem: DoctorEcosystem,
    pub findings: Vec<DoctorFinding>,
    pub engine: String,
    pub engine_source: EngineSource,
    pub engine_status: ManagedEngineStatus,
    pub engine_detail: Option<String>,
}

/// A dependency scan: the managed engine's findings before the heuristic
/// ones when the engine ran; otherwise the heuristic ones and a fallback
/// finding that says why the engine did not run.
pub fn deps_scan(
    ecosystem: DoctorEcosystem,
    heuristic: Vec<DoctorFinding>,
    managed: Result<Vec<DoctorFinding>, ManagedEngineError>,
) -> (s: EcosystemScan)
    ensures
        s.ecosystem == ecosystem,
        s.engine@ == deps_engine_name(ecosystem),
        match managed {
            Ok(engine_findings) => {
                &&& s.findings@ == engine_findings@ + heuristic@
                &&& s.engine_source == EngineSource::ManagedTool
                &&& s.engine_status == ManagedEngineStatus::Managed
                &&& s.engine_detail.is_none()
            },
            Err(error) => {
                &&& s.findings@.len() == heuristic@.len() + 1
                &&& s.findings@.take(heuristic@.len() as int) == heuristic@
                &&& fallback_finding_spec(
                    s.findings@.last(),
                    DoctorDomain::Deps,
                    ecosystem,
                    error,
                    Some("ossify kept the absorbed policy fallback active for this ecosystem."@),
                )
                &&& s.engine_source == EngineSource::AbsorbedPolicy
                &&& s.engine_status == error.status
                &&& s.engine_detail matches Some(d) && d@ == error.message@
            },
        },
{
    let engine = crate::doctor::ecosystem_deps_engine(ecosystem).to_owned();
    match managed {
        Ok(engine_findings) => {
            let mut findings = engine_findings;
            let mut h = heuristic;
            findings.append(&mut h);
            EcosystemScan {
                ecosystem,
                findings,
                engine,
                engine_source: EngineSource::ManagedTool,
                engine_status: ManagedEngineStatus::Managed,
                engine_detail: None,
            }
        },
        Err(error) => {
            let mut findings = heuristic;
            let f = managed_engine_fallback_finding(
                DoctorDomain::Deps,
                ecosystem,
                &error,
                Some("ossify kept the absorbed policy fallback active for this ecosystem.".to_owned()),
            );
            let ghost before = findings@;
            findings.push(f);
            assert(findings@.take(before.len() as int) =~= before);
            EcosystemScan {
                ecosystem,
                findings,
                engine,
                engine_source: EngineSource::AbsorbedPolicy,
                engine_status: error.status,
                engine_detail: Some(error.message),
            }
        },
    }
}

/// A release scan: the heuristic findings, plus a fallback finding when
/// the managed release tools could not run.
pub fn release_scan(
    ecosystem: DoctorEcosystem,
    heuristic: Vec<DoctorFinding>,
    managed: Result<(), ManagedEngineError>,
) -> (s: EcosystemScan)
    ensures
        s.ecosystem == ecosystem,
        s.engine@ == release_engine_name(ecosystem),
        match managed {
            Ok(()) => {
                &&& s.findings@ == heuristic@
                &&& s.engine_source == EngineSource::ManagedTool
                &&& s.engine_status == ManagedEngineStatus::Managed
                &&& s.engine_detail.is_none()
            },
            Err(error) => {
                &&& s.findings@.len() == heuristic@.len() + 1
                &&& s.findings@.take(heuristic@.len() as int) == heuristic@
                &&& fallback_finding_spec(
                    s.findings@.last(),
                    DoctorDomain::Release,
                    ecosystem,
                    error,
                    Some("ossify kept the absorbed release heuristics active for this ecosystem."@),
                )
                &&& s.engine_source == EngineSource::AbsorbedPolicy
                &&& s.engine_status == error.status
                &&& s.engine_detail matches Some(d) && d@ == error.message@
            },
        },
{
    let engine = crate::doctor::ecosystem_release_engine(ecosystem).to_owned();
    match managed {
        Ok(()) => EcosystemScan {
            ecosystem,
            findings: heuristic,
            engine,
            engine_source: EngineSource::ManagedTool,
            engine_status: ManagedEngineStatus::Managed,
            engine_detail: None,
        },
        Err(error) => {
            let mut findings = heuristic;
            let f = managed_engine_fallback_finding(
                DoctorDomain::Release,
                ecosystem,
                &error,
                Some("ossify kept the absorbed release heuristics active for this ecosystem.".to_owned()),
            );
            let ghost before = findings@;
            findings.push(f);
            assert(findings@.take(before.len() as int) =~= before);
            EcosystemScan {
                ecosystem,
                findings,
                engine,
                engine_source: EngineSource::AbsorbedPolicy,
                engine_status: error.status,
                engine_detail: Some(error.message),
            }
        },
    }
}

// ---------------------------------------------------------------------------
// Combining ecosystem scores
// ---------------------------------------------------------------------------

/// The lowest cap among the ecosystems, if any has one.
pub open spec fn min_cap(es: Seq<EcosystemDoctorScore>) -> Option<u8>
    decreases es.len(),
{
    if es.len() == 0 {
        None
    } else {
        match (min_cap(es.drop_last()), es.last().cap) {
            (None, c) => c,
            (Some(a), None) => Some(a),
            (Some(a), Some(b)) => if b < a {
                Some(b)
            } else {
                Some(a)
            },
        }
    }
}

/// The ordering key of a cap: no cap counts as 255.
pub open spec fn cap_key(c: Option<u8>) -> u8 {
    match c {
        Some(x) => x,
        None => 255,
    }
}

/// Among the ecosystems with a cap reason, the first with the lowest cap:
/// its index.
pub open spec fn first_min_reason(es: Seq<EcosystemDoctorScore>, code: bool) -> Option<int>
    decreases es.len(),
{
    if es.len() == 0 {
        None
    } else {
        let prev = first_min_reason(es.drop_last(), code);
        let present = if code {
            es.last().cap_code.is_some()
        } else {
            es.last().cap_reason.is_some()
        };
        if !present {
            prev
        } else {
            match prev {
                None => Some(es.len() - 1),
                Some(i) => if cap_key(es.last().cap) < cap_key(es[i].cap) {
                    Some(es.len() - 1)
                } else {
                    Some(i)
                },
            }
        }
    }
}

pub proof fn lemma_first_min_reason_in_range(es: Seq<EcosystemDoctorScore>, code: bool)
    ensures
        first_min_reason(es, code) matches Some(i) ==> 0 <= i < es.len() && (if code {
            es[i].cap_code.is_some()
        } else {
            es[i].cap_reason.is_some()
        }),
    decreases es.len(),
{
    if es.len() > 0 {
        lemma_first_min_reason_in_range(es.drop_last(), code);
        if let Some(i) = first_min_reason(es.drop_last(), code) {
            assert(es[i] == es.drop_last()[i]);
        }
    }
}

/// The domain score: the average of the ecosystem scores, held to the
/// lowest cap.
pub open spec fn domain_score_spec(es: Seq<EcosystemDoctorScore>) -> Option<u8> {
    let avg = if es.len() == 0 {
        None
    } else {
        Some((score_sum(es) / es.len()) as u8)
    };
    match min_cap(es) {
        None => avg,
        Some(c) => match avg {
            Some(a) => Some(if a < c {
                a
            } else {
                c
            }),
            None => Some(c),
        },
    }
}

fn min_cap_exec(es: &Vec<EcosystemDoctorScore>) -> (r: Option<u8>)
    ensures
        r == min_cap(es@),
{
    let mut best: Option<u8> = None;
    let mut i: usize = 0;
    while i < es.len()
        invariant
            i <= es.len(),
            best == min_cap(es@.take(i as int)),
        decreases es.len() - i,
    {
        assert(es@.take(i + 1).drop_last() =~= es@.take(i as int));
        best = match (best, es[i].cap) {
            (None, c) => c,
            (Some(a), None) => Some(a),
            (Some(a), Some(b)) => if b < a {
                Some(b)
            } else {
                Some(a)
            },
        };
        i += 1;
    }
    assert(es@.take(es.len() as int) =~= es@);
    best
}

pub(crate) fn first_min_reason_exec(es: &Vec<EcosystemDoctorScore>, code: bool) -> (r: Option<usize>)
    ensures
        crate::rust_deps::opt_int(r) == first_min_reason(es@, code),
{
    let mut best: Option<usize> = None;
    let mut i: usize = 0;
    while i < es.len()
        invariant
            i <= es.len(),
            crate::rust_deps::opt_int(best) == first_min_reason(es@.take(i as int), code),
            best matches Some(b) ==> b < i,
        decreases es.len() - i,
    {
        assert(es@.take(i + 1).drop_last() =~= es@.take(i as int));
        let present = if code {
            es[i].cap_code.is_some()
        } else {
            es[i].cap_reason.is_some()
        };
        if present {
            best = match best {
                None => Some(i),
                Some(b) => {
                    let key_new: u8 = match es[i].cap {
                        Some(x) => x,
                        None => 255,
                    };
                    let key_old: u8 = match es[b].cap {
                        Some(x) => x,
                        None => 255,
                    };
                    assert(es@.take(i + 1)[b as int] == es@[b as int]);
                    if key_new < key_old {
                        Some(i)
                    } else {
                        Some(b)
                    }
                },
            };
        }
        i += 1;
    }
    assert(es@.take(es.len() as int) =~= es@);
    best
}

/// The cap reason (or code) of the ecosystem that sets the domain's cap.
pub open spec fn domain_cap_text(es: Seq<EcosystemDoctorScore>, code: bool) -> Option<Seq<char>> {
    match first_min_reason(es, code) {
        Some(i) => crate::doctor::opt_seq(if code {
            es[i].cap_code
        } else {
            es[i].cap_reason
        }),
        None => None,
    }
}

fn domain_cap_text_exec(es: &Vec<EcosystemDoctorScore>, code: bool) -> (r: Option<String>)
    ensures
        crate::doctor::opt_seq(r) == domain_cap_text(es@, code),
{
    proof {
        lemma_first_min_reason_in_range(es@, code);
    }
    match first_min_reason_exec(es, code) {
        Some(i) => {
            if code {
                match &es[i].cap_code {
                    Some(s) => Some(s.clone()),
                    None => None,
                }
            } else {
                match &es[i].cap_reason {
                    Some(s) => Some(s.clone()),
                    None => None,
                }
            }
        },
        None => None,
    }
}

fn ecosystems_of(es: &Vec<EcosystemDoctorScore>) -> (r: Vec<DoctorEcosystem>)
    ensures
        r@ == es@.map_values(|e: EcosystemDoctorScore| e.ecosystem),
{
    let mut r: Vec<DoctorEcosystem> = Vec::new();
    let mut i: usize = 0;
    while i < es.len()
        invariant
            i <= es.len(),
            r@ == es@.take(i as int).map_values(|e: EcosystemDoctorScore| e.ecosystem),
        decreases es.len() - i,
    {
        r.push(es[i].ecosystem);
        assert(r@ =~= es@.take(i + 1).map_values(|e: EcosystemDoctorScore| e.ecosystem));
        i += 1;
    }
    assert(es@.take(es.len() as int) =~= es@);
    r
}

/// The findings of every scan, scan by scan.
pub open spec fn all_findings(scans: Seq<EcosystemScan>) -> Seq<DoctorFinding>
    decreases scans.len(),
{
    if scans.len() == 0 {
        Seq::empty()
    } else {
        all_findings(scans.drop_last()) + scans.last().findings@
    }
}

/// What a domain report states for a list of ecosystem scores and findings.
pub open spec fn domain_matches(
    d: DoctorDomainScore,
    domain: DoctorDomain,
    es: Seq<EcosystemDoctorScore>,
    fs: Seq<DoctorFinding>,
    engine: Seq<char>,
) -> bool {
    &&& d.domain == domain
    &&& d.score == domain_score_spec(es)
    &&& d.cap == min_cap(es)
    &&& crate::doctor::opt_seq(d.cap_reason) == domain_cap_text(es, false)
    &&& crate::doctor::opt_seq(d.cap_code) == domain_cap_text(es, true)
    &&& d.engine@ == engine
    &&& d.engine_source == aggregate_source_spec(es)
    &&& d.ecosystems@ == es.map_values(|e: EcosystemDoctorScore| e.ecosystem)
    &&& d.error_count == count_severity(fs, DoctorSeverity::Error)
    &&& d.warning_count == count_severity(fs, DoctorSeverity::Warning)
    &&& d.info_count == count_severity(fs, DoctorSeverity::Info)
}

fn domain_score_exec(es: &Vec<EcosystemDoctorScore>) -> (r: Option<u8>)
    requires
        score_sum(es@) <= 0xffff,
        es@.len() <= 0xffff,
    ensures
        r == domain_score_spec(es@),
{
    let mut score = average_scores(es);
    let cap = min_cap_exec(es);
    match cap {
        Some(c) => {
            score = Some(
                match score {
                    Some(a) => if a < c {
                        a
                    } else {
                        c
                    },
                    None => c,
                },
            );
        },
        None => {},
    }
    score
}

// ---------------------------------------------------------------------------
// Ecosystem entries
// ---------------------------------------------------------------------------

/// The values an ecosystem's entry carries over from its scan.
pub open spec fn entry_from_scan(e: EcosystemDoctorScore, s: EcosystemScan) -> bool {
    &&& e.ecosystem == s.ecosystem
    &&& e.engine@ == s.engine@
    &&& e.engine_source == s.engine_source
    &&& e.engine_status == s.engine_status
    &&& opt_seq(e.engine_detail) == opt_seq(s.engine_detail)
    &&& e.finding_count == s.findings@.len()
}

/// The score, cap and cap texts of an entry.
pub open spec fn scoring_of(e: EcosystemDoctorScore) -> DepsScoring {
    DepsScoring { score: e.score, cap: e.cap, cap_reason: e.cap_reason, cap_code: e.cap_code }
}

/// The calibrated Rust scoring asks that the counts and the penalty fit
/// their integer types.
/// Does a scan's Rust scoring fit its 16-bit counters?
pub fn scan_fits(scan: &EcosystemScan, profile: &RustDepsScoringProfile) -> (b: bool)
    ensures
        b == rust_scan_fits(*scan, *profile),
{
    match scan.ecosystem {
        DoctorEcosystem::Rust => {
            if !crate::rust_deps::feature_counts_within(&scan.findings) {
                return false;
            }
            let f = crate::rust_deps::RustDepsFeatureVector::from_findings(&scan.findings);
            proof {
                crate::rust_deps::lemma_features_spec(scan.findings@, f);
            }
            crate::rust_deps::penalty_within(&f, profile)
        },
        _ => true,
    }
}

pub open spec fn rust_scan_fits(s: EcosystemScan, p: RustDepsScoringProfile) -> bool {
    s.ecosystem == DoctorEcosystem::Rust ==> {
        &&& feature_counts_fit(s.findings@)
        &&& penalty_fits(features_spec(s.findings@), p)
    }
}

fn clone_opt_string(o: &Option<String>) -> (r: Option<String>)
    ensures
        opt_seq(r) == opt_seq(*o),
{
    match o {
        Some(x) => Some(x.clone()),
        None => None,
    }
}

/// The dependency entry of one ecosystem.
pub fn deps_entry(scan: &EcosystemScan, profile: &RustDepsScoringProfile) -> (e:
    EcosystemDoctorScore)
    requires
        rust_scan_fits(*scan, *profile),
    ensures
        entry_from_scan(e, *scan),
        deps_scoring_matches(scoring_of(e), scan.ecosystem, scan.findings@, *profile),
{
    let scoring = deps_scoring_for_ecosystem(scan.ecosystem, &scan.findings, profile);
    EcosystemDoctorScore {
        ecosystem: scan.ecosystem,
        score: scoring.score,
        cap: scoring.cap,
        cap_reason: scoring.cap_reason,
        cap_code: scoring.cap_code,
        engine: scan.engine.clone(),
        engine_source: scan.engine_source,
        engine_status: scan.engine_status,
        engine_detail: clone_opt_string(&scan.engine_detail),
        finding_count: scan.findings.len(),
    }
}

/// The release cap: 59 when any release finding is an error.
pub open spec fn release_cap_spec(fs: Seq<DoctorFinding>) -> Option<u8> {
    if has_severity(fs, DoctorSeverity::Error) {
        Some(59u8)
    } else {
        None
    }
}

/// The release entry's score, cap and cap texts for one ecosystem's scan.
pub open spec fn release_entry_matches(e: EcosystemDoctorScore, s: EcosystemScan) -> bool {
    let base = score_after(release_penalty_total(s.findings@));
    &&& e.cap == release_cap_spec(s.findings@)
    &&& e.score == (match release_cap_spec(s.findings@) {
        Some(c) => min_nat(base, c as nat),
        None => base,
    })
    &&& match release_cap_spec(s.findings@) {
        Some(c) => {
            &&& e.cap_reason matches Some(r) && r@ == "release "@ + ecosystem_label(s.ecosystem)
                + " checks capped score at "@ + decimal(c as nat) + "/100"@
            &&& e.cap_code matches Some(k) && k@ == "release."@ + ecosystem_label(s.ecosystem)
                + ".cap"@
        },
        None => e.cap_reason.is_none() && e.cap_code.is_none(),
    }
}

/// The release entry of one ecosystem.
pub fn release_entry(scan: &EcosystemScan) -> (e: EcosystemDoctorScore)
    ensures
        entry_from_scan(e, *scan),
        release_entry_matches(e, *scan),
{
    let cap = release_score_cap(&scan.findings);
    let mut score = release_score(&scan.findings);
    let label = scan.ecosystem.label();
    let (cap_reason, cap_code) = match cap {
        Some(c) => {
            if c < score {
                score = c;
            }
            let mut reason = concat_str("release ", label);
            reason.append(" checks capped score at ");
            reason.append(decimal_string(c as u64).as_str());
            reason.append("/100");
            let mut code = concat_str("release.", label);
            code.append(".cap");
            (Some(reason), Some(code))
        },
        None => (None, None),
    };
    EcosystemDoctorScore {
        ecosystem: scan.ecosystem,
        score,
        cap,
        cap_reason,
        cap_code,
        engine: scan.engine.clone(),
        engine_source: scan.engine_source,
        engine_status: scan.engine_status,
        engine_detail: clone_opt_string(&scan.engine_detail),
        finding_count: scan.findings.len(),
    }
}

// ---------------------------------------------------------------------------
// Domain reports
// ---------------------------------------------------------------------------

pub proof fn lemma_score_sum_bound(es: Seq<EcosystemDoctorScore>)
    ensures
        score_sum(es) <= 255 * es.len(),
    decreases es.len(),
{
    if es.len() > 0 {
        lemma_score_sum_bound(es.drop_last());
    }
}

proof fn lemma_all_findings_step(scans: Seq<EcosystemScan>, i: int)
    requires
        0 <= i < scans.len(),
    ensures
        all_findings(scans.take(i + 1)) == all_findings(scans.take(i)) + scans[i].findings@,
{
    assert(scans.take(i + 1).drop_last() =~= scans.take(i));
}

/// The findings of every scan, scan by scan, in one list.
pub fn gather_findings(scans: Vec<EcosystemScan>) -> (r: Vec<DoctorFinding>)
    ensures
        r@ == all_findings(scans@),
{
    let ghost all = scans@;
    let mut rest = scans;
    let mut out: Vec<DoctorFinding> = Vec::new();
    let ghost mut done: int = 0;
    while rest.len() > 0
        invariant
            0 <= done <= all.len(),
            rest@ == all.skip(done),
            out@ == all_findings(all.take(done)),
        decreases rest.len(),
    {
        let mut scan = rest.remove(0);
        proof {
            assert(scan == all[done]);
            lemma_all_findings_step(all, done);
        }
        out.append(&mut scan.findings);
        proof {
            done = done + 1;
            assert(rest@ =~= all.skip(done));
        }
    }
    assert(all.take(done) =~= all);
    out
}

/// A domain's entry from its ecosystems' entries and its findings.
pub fn domain_entry(
    domain: DoctorDomain,
    es: &Vec<EcosystemDoctorScore>,
    findings: &Vec<DoctorFinding>,
    engine: &str,
    summary: String,
) -> (d: DoctorDomainScore)
    requires
        es@.len() <= 257,
    ensures
        domain_matches(d, domain, es@, findings@, engine@),
        d.summary@ == summary@,
{
    proof {
        lemma_score_sum_bound(es@);
    }
    let score = domain_score_exec(es);
    DoctorDomainScore {
        domain,
        score,
        cap: min_cap_exec(es),
        cap_reason: domain_cap_text_exec(es, false),
        cap_code: domain_cap_text_exec(es, true),
        engine: engine.to_owned(),
        engine_source: aggregate_engine_source(es),
        ecosystems: ecosystems_of(es),
        error_count: count_with_severity(findings, DoctorSeverity::Error),
        warning_count: count_with_severity(findings, DoctorSeverity::Warning),
        info_count: count_with_severity(findings, DoctorSeverity::Info),
        summary,
    }
}

/// The entry of a domain in which no ecosystem was found.
pub open spec fn empty_domain_matches(
    d: DoctorDomainScore,
    domain: DoctorDomain,
    engine: Seq<char>,
    summary: Seq<char>,
) -> bool {
    &&& d.domain == domain
    &&& d.score == Some(100u8)
    &&& d.cap.is_none()
    &&& d.cap_reason.is_none()
    &&& d.cap_code.is_none()
    &&& d.engine@ == engine
    &&& d.engine_source == EngineSource::AbsorbedPolicy
    &&& d.ecosystems@.len() == 0
    &&& d.error_count == 0
    &&& d.warning_count == 0
    &&& d.info_count == 0
    &&& d.summary@ == summary
}

fn empty_domain(domain: DoctorDomain, engine: &str, summary: &str) -> (d: DoctorDomainScore)
    ensures
        empty_domain_matches(d, domain, engine@, summary@),
{
    DoctorDomainScore {
        domain,
        score: Some(100),
        cap: None,
        cap_reason: None,
        cap_code: None,
        engine: engine.to_owned(),
        engine_source: EngineSource::AbsorbedPolicy,
        ecosystems: Vec::new(),
        error_count: 0,
        warning_count: 0,
        info_count: 0,
        summary: summary.to_owned(),
    }
}

/// Each dependency entry follows from its scan.
pub open spec fn deps_entries_match(
    es: Seq<EcosystemDoctorScore>,
    scans: Seq<EcosystemScan>,
    p: RustDepsScoringProfile,
) -> bool {
    &&& es.len() == scans.len()
    &&& forall|i: int|
        0 <= i < scans.len() ==> {
            &&& entry_from_scan(#[trigger] es[i], scans[i])
            &&& deps_scoring_matches(scoring_of(es[i]), scans[i].ecosystem, scans[i].findings@, p)
        }
}

/// Each release entry follows from its scan.
pub open spec fn release_entries_match(
    es: Seq<EcosystemDoctorScore>,
    scans: Seq<EcosystemScan>,
) -> bool {
    &&& es.len() == scans.len()
    &&& forall|i: int|
        0 <= i < scans.len() ==> {
            &&& entry_from_scan(#[trigger] es[i], scans[i])
            &&& release_entry_matches(es[i], scans[i])
        }
}

/// The dependency report for the scans of the requested or detected
/// ecosystems, in that order.
pub fn assemble_deps_report(
    target: String,
    requested: DoctorEcosystem,
    scans: Vec<EcosystemScan>,
    profile: &RustDepsScoringProfile,
) -> (r: DepsDoctorReport)
    requires
        scans@.len() <= 257,
        forall|i: int| 0 <= i < scans@.len() ==> rust_scan_fits(#[trigger] scans@[i], *profile),
    ensures
        r.target@ == target@,
        r.requested_ecosystem == requested,
        deps_entries_match(r.ecosystems@, scans@, *profile),
        r.findings@ == listing_order(all_findings(scans@), true),
        scans@.len() == 0 ==> empty_domain_matches(
            r.domain,
            DoctorDomain::Deps,
            "cargo-deny + audit-ci + pip-audit semantics"@,
            "No supported dependency ecosystems were detected."@,
        ),
        scans@.len() > 0 ==> domain_matches(
            r.domain,
            DoctorDomain::Deps,
            r.ecosystems@,
            r.findings@,
            "cargo-deny + audit-ci + pip-audit semantics"@,
        ),
        scans@.len() > 0 ==> r.domain.summary@ == deps_summary_spec(r.findings@, r.ecosystems@),
{
    let mut es: Vec<EcosystemDoctorScore> = Vec::new();
    let mut i: usize = 0;
    while i < scans.len()
        invariant
            i <= scans@.len(),
            forall|k: int| 0 <= k < scans@.len() ==> rust_scan_fits(#[trigger] scans@[k], *profile),
            deps_entries_match(es@, scans@.take(i as int), *profile),
        decreases scans.len() - i,
    {
        let e = deps_entry(&scans[i], profile);
        es.push(e);
        i += 1;
        assert forall|k: int| 0 <= k < i implies {
            &&& entry_from_scan(#[trigger] es@[k], scans@.take(i as int)[k])
            &&& deps_scoring_matches(
                scoring_of(es@[k]),
                scans@.take(i as int)[k].ecosystem,
                scans@.take(i as int)[k].findings@,
                *profile,
            )
        } by {
            assert(scans@.take(i as int)[k] == scans@[k]);
            if k < i - 1 {
                assert(scans@.take(i - 1)[k] == scans@[k]);
            }
        }
    }
    assert(scans@.take(scans@.len() as int) =~= scans@);
    if scans.len() == 0 {
        proof {
            reveal_with_fuel(all_findings, 1);
        }
        let findings: Vec<DoctorFinding> = Vec::new();
        let sorted = sort_doctor_findings(findings);
        return DepsDoctorReport {
            target,
            requested_ecosystem: requested,
            ecosystems: es,
            domain: empty_domain(
                DoctorDomain::Deps,
                "cargo-deny + audit-ci + pip-audit semantics",
                "No supported dependency ecosystems were detected.",
            ),
            findings: sorted,
        };
    }
    let gathered = gather_findings(scans);
    let findings = sort_doctor_findings(gathered);
    let summary = deps_summary(&findings, &es);
    let domain = domain_entry(
        DoctorDomain::Deps,
        &es,
        &findings,
        "cargo-deny + audit-ci + pip-audit semantics",
        summary,
    );
    DepsDoctorReport { target, requested_ecosystem: requested, ecosystems: es, domain, findings }
}

/// The release report for the scans of the requested or detected
/// ecosystems, in that order.
pub fn assemble_release_report(
    target: String,
    requested: DoctorEcosystem,
    scans: Vec<EcosystemScan>,
) -> (r: ReleaseDoctorReport)
    requires
        scans@.len() <= 257,
    ensures
        r.target@ == target@,
        r.requested_ecosystem == requested,
        release_entries_match(r.ecosystems@, scans@),
        r.findings@ == listing_order(all_findings(scans@), true),
        scans@.len() == 0 ==> empty_domain_matches(
            r.domain,
            DoctorDomain::Release,
            "release-plz + git-cliff + cargo-dist + release-please semantics"@,
            "No supported release ecosystems were detected."@,
        ),
        scans@.len() > 0 ==> domain_matches(
            r.domain,
            DoctorDomain::Release,
            r.ecosystems@,
            r.findings@,
            "release-plz + git-cliff + cargo-dist + release-please semantics"@,
        ),
        scans@.len() > 0 ==> r.domain.summary@ == release_summary_spec(r.findings@, r.ecosystems@),
{
    let mut es: Vec<EcosystemDoctorScore> = Vec::new();
    let mut i: usize = 0;
    while i < scans.len()
        invariant
            i <= scans@.len(),
            release_entries_match(es@, scans@.take(i as int)),
        decreases scans.len() - i,
    {
        let e = release_entry(&scans[i]);
        es.push(e);
        i += 1;
        assert forall|k: int| 0 <= k < i implies {
            &&& entry_from_scan(#[trigger] es@[k], scans@.take(i as int)[k])
            &&& release_entry_matches(es@[k], scans@.take(i as int)[k])
        } by {
            assert(scans@.take(i as int)[k] == scans@[k]);
            if k < i - 1 {
                assert(scans@.take(i - 1)[k] == scans@[k]);
            }
        }
    }
    assert(scans@.take(scans@.len() as int) =~= scans@);
    if scans.len() == 0 {
        let findings: Vec<DoctorFinding> = Vec::new();
        let sorted = sort_doctor_findings(findings);
        return ReleaseDoctorReport {
            target,
            requested_ecosystem: requested,
            ecosystems: es,
            domain: empty_domain(
                DoctorDomain::Release,
                "release-plz + git-cliff + cargo-dist + release-please semantics",
                "No supported release ecosystems were detected.",
            ),
            findings: sorted,
        };
    }
    let gathered = gather_findings(scans);
    let findings = sort_doctor_findings(gathered);
    let summary = release_summary(&findings, &es);
    let domain = domain_entry(
        DoctorDomain::Release,
        &es,
        &findings,
        "release-plz + git-cliff + cargo-dist + release-please semantics",
        summary,
    );
    ReleaseDoctorReport { target, requested_ecosystem: requested, ecosystems: es, domain, findings }
}

/// The order in which an audit lists its domains.
pub open spec fn domain_rank(d: DoctorDomain) -> int {
    match d {
        DoctorDomain::Docs => 0,
        DoctorDomain::Workflow => 1,
        DoctorDomain::Deps => 2,
        DoctorDomain::Release => 3,
    }
}

/// The domains an audit scores: documentation always; workflows when there
/// are workflow files or findings; dependencies and releases when an
/// ecosystem was found; in that order.
pub fn audit_domain_scores(
    docs: &DocsDoctorReport,
    workflow: &WorkflowDoctorReport,
    deps: DepsDoctorReport,
    release: ReleaseDoctorReport,
) -> (r: Vec<DoctorDomainScore>)
    ensures
        r@.len() >= 1,
        docs_domain_matches(r@[0], *docs),
        ({
            let has_workflow = workflow.workflow_files > 0 || workflow.findings@.len() > 0;
            let has_deps = deps.ecosystems@.len() > 0;
            let has_release = release.ecosystems@.len() > 0;
            let wi: int = 1;
            let di: int = if has_workflow { 2 } else { 1 };
            let ri: int = di + if has_deps { 1int } else { 0int };
            &&& r@.len() == ri + if has_release { 1int } else { 0int }
            &&& has_workflow ==> workflow_domain_matches(r@[wi], *workflow)
            &&& has_deps ==> r@[di] == deps.domain
            &&& has_release ==> r@[ri] == release.domain
        }),
        r@[0].domain == DoctorDomain::Docs,
        deps.domain.domain == DoctorDomain::Deps && release.domain.domain == DoctorDomain::Release
            ==> forall|i: int, j: int|
            0 <= i < j < r@.len() ==> domain_rank(#[trigger] r@[i].domain) < domain_rank(
                #[trigger] r@[j].domain,
            ),
{
    let mut scores: Vec<DoctorDomainScore> = Vec::new();
    scores.push(docs.domain_score());
    if workflow.workflow_files > 0 || workflow.findings.len() > 0 {
        scores.push(workflow.domain_score());
    }
    if deps.ecosystems.len() > 0 {
        scores.push(deps.domain);
    }
    if release.ecosystems.len() > 0 {
        scores.push(release.domain);
    }
    scores
}

} // verus!
