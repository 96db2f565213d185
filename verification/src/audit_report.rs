//! Checks, category scores and the audit report: how rule verdicts become
//! weighted points, category percentages, the base score and the strict
//! verdict.
use vstd::prelude::*;
use crate::audit::{
    tier_for, PlannedCheckUpgrade, readiness_tier, meets, percentage, percentage_spec, points_for, AuditDiagnostic, AuditFinding, CategoryScore,
    CheckStatus, FindingSeverity, Fixability, ReadinessTier, RuleCategory, RuleSpec,
};
use crate::config::RuleRequirement;
use crate::doctor::DoctorDomainScore;
use crate::project::ProjectContext;
use crate::readme::RuleAssessment;
use crate::text::views;

verus! {

/// A rule's verdict as scored in the audit.  `confidence_permille` is the
/// rule's confidence in thousandths, at most a thousand.
#[derive(Debug, Clone)]
pub struct AuditCheck {
    pub id: String,
    pub label: String,
    pub category: RuleCategory,
    pub weight: u16,
    pub points: u16,
    pub earned: u16,
    pub coverage: u8,
    pub status: CheckStatus,
    pub fixability: Fixability,
    pub fixable: bool,
    pub confidence_permille: u16,
    pub message: String,
    pub hint: String,
    pub detail: Option<String>,
    pub evidence: Vec<String>,
    pub findings: Vec<AuditFinding>,
    pub location: Option<String>,
    pub required_level: Option<RuleRequirement>,
    pub blocking: bool,
}

impl AuditCheck {
    /// The points the check still misses.
    pub fn gap(&self) -> (g: u16)
        ensures
            g == (if self.weight >= self.earned {
                self.weight - self.earned
            } else {
                0
            }),
    {
        if self.weight >= self.earned {
            self.weight - self.earned
        } else {
            0
        }
    }
}

pub open spec fn blocking_spec(status: CheckStatus, required: Option<RuleRequirement>) -> bool {
    match required {
        Some(r) => !meets(status, r),
        None => false,
    }
}

pub open spec fn is_fixable_spec(f: Fixability) -> bool {
    f != Fixability::Manual
}

/// A rule's verdict as a scored check: it earns its weight scaled by the
/// coverage, and blocks a strict audit when a required level is not met.
pub open spec fn check_matches(
    c: AuditCheck,
    spec: RuleSpec,
    weight: u16,
    required: Option<RuleRequirement>,
    a: RuleAssessment,
) -> bool {
    &&& c.id@ == spec.id@
    &&& c.label@ == spec.label@
    &&& c.category == spec.category
    &&& c.weight == weight
    &&& c.earned == points_for(weight, a.coverage)
    &&& c.points == c.earned
    &&& c.coverage == a.coverage
    &&& c.status == a.status
    &&& c.fixability == spec.fixability
    &&& c.fixable == is_fixable_spec(spec.fixability)
    &&& c.confidence_permille == (if a.confidence_permille > 1000 {
        1000
    } else {
        a.confidence_permille
    })
    &&& c.message@ == a.message@
    &&& c.hint@ == spec.hint@
    &&& c.detail == Some(a.message)
    &&& views(c.evidence@) == views(a.evidence@)
    &&& c.findings@ == a.findings@
    &&& c.location == a.location
    &&& c.required_level == required
    &&& c.blocking == blocking_spec(a.status, required)
}

/// A rule's verdict scored with `weight`, under the level the
/// configuration requires of it, if any.
pub fn build_check(
    spec: &RuleSpec,
    weight: u16,
    required: Option<RuleRequirement>,
    assessment: RuleAssessment,
) -> (c: AuditCheck)
    ensures
        check_matches(c, *spec, weight, required, assessment),
{
    let blocking = match required {
        Some(r) => !assessment.status.meets_requirement(r),
        None => false,
    };
    let earned = crate::audit::coverage_to_points(weight, assessment.coverage);
    let confidence = if assessment.confidence_permille > 1000 {
        1000
    } else {
        assessment.confidence_permille
    };
    let detail = Some(assessment.message.clone());
    let message = assessment.message.clone();
    AuditCheck {
        id: spec.id.to_owned(),
        label: spec.label.to_owned(),
        category: spec.category,
        weight,
        points: earned,
        earned,
        coverage: assessment.coverage,
        status: assessment.status,
        fixability: spec.fixability,
        fixable: spec.fixability.is_fixable(),
        confidence_permille: confidence,
        message,
        hint: spec.hint.to_owned(),
        detail,
        evidence: assessment.evidence,
        findings: assessment.findings,
        location: assessment.location,
        required_level: required,
        blocking,
    }
}

// ---------------------------------------------------------------------------
// Sums
// ---------------------------------------------------------------------------

pub open spec fn weight_sum(cs: Seq<AuditCheck>) -> nat
    decreases cs.len(),
{
    if cs.len() == 0 {
        0
    } else {
        weight_sum(cs.drop_last()) + cs.last().weight as nat
    }
}

pub open spec fn earned_sum(cs: Seq<AuditCheck>) -> nat
    decreases cs.len(),
{
    if cs.len() == 0 {
        0
    } else {
        earned_sum(cs.drop_last()) + cs.last().earned as nat
    }
}

pub open spec fn category_weight(cs: Seq<AuditCheck>, c: RuleCategory) -> nat
    decreases cs.len(),
{
    if cs.len() == 0 {
        0
    } else {
        category_weight(cs.drop_last(), c) + if cs.last().category == c {
            cs.last().weight as nat
        } else {
            0nat
        }
    }
}

pub open spec fn category_earned(cs: Seq<AuditCheck>, c: RuleCategory) -> nat
    decreases cs.len(),
{
    if cs.len() == 0 {
        0
    } else {
        category_earned(cs.drop_last(), c) + if cs.last().category == c {
            cs.last().earned as nat
        } else {
            0nat
        }
    }
}

pub proof fn lemma_category_le(cs: Seq<AuditCheck>, c: RuleCategory)
    ensures
        category_weight(cs, c) <= weight_sum(cs),
        category_earned(cs, c) <= earned_sum(cs),
    decreases cs.len(),
{
    if cs.len() > 0 {
        lemma_category_le(cs.drop_last(), c);
    }
}

pub proof fn lemma_sum_prefix(cs: Seq<AuditCheck>, n: int)
    requires
        0 <= n <= cs.len(),
    ensures
        weight_sum(cs.take(n)) <= weight_sum(cs),
        earned_sum(cs.take(n)) <= earned_sum(cs),
    decreases cs.len(),
{
    if n < cs.len() {
        assert(cs.drop_last().take(n) =~= cs.take(n));
        lemma_sum_prefix(cs.drop_last(), n);
    } else {
        assert(cs.take(n) =~= cs);
    }
}

/// The score of one category: the points its checks earned out of their
/// weights.
pub open spec fn category_score_spec(cs: Seq<AuditCheck>, c: RuleCategory) -> CategoryScore {
    CategoryScore {
        category: c,
        earned: category_earned(cs, c) as u16,
        total: category_weight(cs, c) as u16,
        score: percentage_spec(category_earned(cs, c) as u16, category_weight(cs, c) as u16),
    }
}

fn category_score(checks: &Vec<AuditCheck>, c: RuleCategory) -> (r: CategoryScore)
    requires
        weight_sum(checks@) <= u16::MAX,
        earned_sum(checks@) <= u16::MAX,
    ensures
        r == category_score_spec(checks@, c),
{
    let mut total: u16 = 0;
    let mut earned: u16 = 0;
    let mut i: usize = 0;
    while i < checks.len()
        invariant
            i <= checks.len(),
            weight_sum(checks@) <= u16::MAX,
            earned_sum(checks@) <= u16::MAX,
            total == category_weight(checks@.take(i as int), c),
            earned == category_earned(checks@.take(i as int), c),
        decreases checks.len() - i,
    {
        assert(checks@.take(i + 1).drop_last() =~= checks@.take(i as int));
        proof {
            lemma_sum_prefix(checks@, i + 1);
            lemma_category_le(checks@.take(i + 1), c);
        }
        if checks[i].category == c {
            total = total + checks[i].weight;
            earned = earned + checks[i].earned;
        }
        i += 1;
    }
    assert(checks@.take(checks.len() as int) =~= checks@);
    CategoryScore { category: c, earned, total, score: percentage(earned, total) }
}

pub open spec fn category_order() -> Seq<RuleCategory> {
    seq![
        RuleCategory::Identity,
        RuleCategory::Docs,
        RuleCategory::Community,
        RuleCategory::Automation,
        RuleCategory::Release,
    ]
}

/// The score of each category, in the order identity, docs, community,
/// automation, release.
pub fn category_scores(checks: &Vec<AuditCheck>) -> (r: Vec<CategoryScore>)
    requires
        weight_sum(checks@) <= u16::MAX,
        earned_sum(checks@) <= u16::MAX,
    ensures
        r@ == category_order().map_values(|c: RuleCategory| category_score_spec(checks@, c)),
{
    let mut r: Vec<CategoryScore> = Vec::new();
    r.push(category_score(checks, RuleCategory::Identity));
    r.push(category_score(checks, RuleCategory::Docs));
    r.push(category_score(checks, RuleCategory::Community));
    r.push(category_score(checks, RuleCategory::Automation));
    r.push(category_score(checks, RuleCategory::Release));
    assert(r@ =~= category_order().map_values(|c: RuleCategory| category_score_spec(checks@, c)));
    r
}

/// The base score: the points all checks earned out of all their weights.
pub fn base_score(checks: &Vec<AuditCheck>) -> (s: u8)
    requires
        weight_sum(checks@) <= u16::MAX,
        earned_sum(checks@) <= u16::MAX,
    ensures
        s == percentage_spec(earned_sum(checks@) as u16, weight_sum(checks@) as u16),
{
    let mut total: u16 = 0;
    let mut earned: u16 = 0;
    let mut i: usize = 0;
    while i < checks.len()
        invariant
            i <= checks.len(),
            weight_sum(checks@) <= u16::MAX,
            earned_sum(checks@) <= u16::MAX,
            total == weight_sum(checks@.take(i as int)),
            earned == earned_sum(checks@.take(i as int)),
        decreases checks.len() - i,
    {
        assert(checks@.take(i + 1).drop_last() =~= checks@.take(i as int));
        proof {
            lemma_sum_prefix(checks@, i + 1);
        }
        total = total + checks[i].weight;
        earned = earned + checks[i].earned;
        i += 1;
    }
    assert(checks@.take(checks.len() as int) =~= checks@);
    percentage(earned, total)
}

pub open spec fn any_blocking(cs: Seq<AuditCheck>) -> bool {
    exists|i: int| 0 <= i < cs.len() && #[trigger] cs[i].blocking
}

/// A strict audit passes when the score reaches the minimum and no check
/// blocks.
pub fn strict_passed(checks: &Vec<AuditCheck>, score: u8, minimum_score: u8) -> (b: bool)
    ensures
        b == (score >= minimum_score && !any_blocking(checks@)),
{
    if score < minimum_score {
        return false;
    }
    let mut i: usize = 0;
    while i < checks.len()
        invariant
            i <= checks.len(),
            forall|k: int| 0 <= k < i ==> !(#[trigger] checks@[k]).blocking,
        decreases checks.len() - i,
    {
        if checks[i].blocking {
            return false;
        }
        i += 1;
    }
    true
}

// ---------------------------------------------------------------------------
// The report
// ---------------------------------------------------------------------------

/// The audit of a repository.
#[derive(Debug, Clone)]
pub struct AuditReport {
    pub target: String,
    pub project: ProjectContext,
    pub readiness: ReadinessTier,
    pub score: u8,
    pub base_score: u8,
    pub minimum_score: u8,
    pub strict_passed: bool,
    pub config_source: Option<String>,
    pub category_scores: Vec<CategoryScore>,
    pub domain_scores: Vec<DoctorDomainScore>,
    pub checks: Vec<AuditCheck>,
}

pub open spec fn status_count(cs: Seq<AuditCheck>, s: CheckStatus) -> nat
    decreases cs.len(),
{
    if cs.len() == 0 {
        0
    } else {
        status_count(cs.drop_last(), s) + if cs.last().status == s {
            1nat
        } else {
            0nat
        }
    }
}

pub open spec fn finding_total(cs: Seq<AuditCheck>) -> nat
    decreases cs.len(),
{
    if cs.len() == 0 {
        0
    } else {
        finding_total(cs.drop_last()) + cs.last().findings@.len()
    }
}

proof fn lemma_status_count_le(cs: Seq<AuditCheck>, s: CheckStatus)
    ensures
        status_count(cs, s) <= cs.len(),
    decreases cs.len(),
{
    if cs.len() > 0 {
        lemma_status_count_le(cs.drop_last(), s);
    }
}

proof fn lemma_finding_total_prefix(cs: Seq<AuditCheck>, n: int)
    requires
        0 <= n <= cs.len(),
    ensures
        finding_total(cs.take(n)) <= finding_total(cs),
    decreases cs.len(),
{
    if n < cs.len() {
        assert(cs.drop_last().take(n) =~= cs.take(n));
        lemma_finding_total_prefix(cs.drop_last(), n);
    } else {
        assert(cs.take(n) =~= cs);
    }
}

/// Every check is strong, partial or missing.
pub proof fn lemma_status_counts_partition(cs: Seq<AuditCheck>)
    ensures
        status_count(cs, CheckStatus::Strong) + status_count(cs, CheckStatus::Partial) + status_count(
            cs,
            CheckStatus::Missing,
        ) == cs.len(),
    decreases cs.len(),
{
    if cs.len() > 0 {
        lemma_status_counts_partition(cs.drop_last());
    }
}

fn count_status(checks: &Vec<AuditCheck>, s: CheckStatus) -> (n: usize)
    ensures
        n == status_count(checks@, s),
{
    let mut n: usize = 0;
    let mut i: usize = 0;
    while i < checks.len()
        invariant
            i <= checks.len(),
            n == status_count(checks@.take(i as int), s),
        decreases checks.len() - i,
    {
        assert(checks@.take(i + 1).drop_last() =~= checks@.take(i as int));
        proof {
            lemma_status_count_le(checks@.take(i as int), s);
        }
        if checks[i].status == s {
            n += 1;
        }
        i += 1;
    }
    assert(checks@.take(checks.len() as int) =~= checks@);
    n
}

/// The positions, in order, of the first `n` checks that have status `s`.
pub open spec fn positions_with(cs: Seq<AuditCheck>, n: int, s: CheckStatus) -> Seq<usize>
    decreases n,
{
    if n <= 0 {
        Seq::empty()
    } else {
        positions_with(cs, n - 1, s) + if cs[n - 1].status == s {
            seq![(n - 1) as usize]
        } else {
            Seq::empty()
        }
    }
}

/// There are as many such positions as checks with that status.
pub proof fn lemma_positions_count(cs: Seq<AuditCheck>, n: int, s: CheckStatus)
    requires
        0 <= n <= cs.len(),
    ensures
        positions_with(cs, n, s).len() == status_count(cs.take(n), s),
    decreases n,
{
    if n > 0 {
        lemma_positions_count(cs, n - 1, s);
        assert(cs.take(n).drop_last() =~= cs.take(n - 1));
    } else {
        assert(cs.take(0) =~= Seq::<AuditCheck>::empty());
    }
}

fn positions_of(checks: &Vec<AuditCheck>, s: CheckStatus) -> (r: Vec<usize>)
    ensures
        r@ == positions_with(checks@, checks@.len() as int, s),
{
    let mut r: Vec<usize> = Vec::new();
    let mut i: usize = 0;
    while i < checks.len()
        invariant
            i <= checks.len(),
            r@ == positions_with(checks@, i as int, s),
        decreases checks.len() - i,
    {
        if checks[i].status == s {
            r.push(i);
        } else {
            assert(r@ =~= r@ + Seq::<usize>::empty());
        }
        i += 1;
    }
    r
}

/// The diagnostics of one check: its findings, each tagged with the rule.
pub open spec fn check_diagnostics(c: AuditCheck) -> Seq<(Seq<char>, Seq<char>, RuleCategory, FindingSeverity, Seq<char>)> {
    c.findings@.map_values(
        |f: AuditFinding| (c.id@, c.label@, c.category, f.severity, f.message@),
    )
}

pub open spec fn all_diagnostics(cs: Seq<AuditCheck>) -> Seq<(Seq<char>, Seq<char>, RuleCategory, FindingSeverity, Seq<char>)>
    decreases cs.len(),
{
    if cs.len() == 0 {
        Seq::empty()
    } else {
        all_diagnostics(cs.drop_last()) + check_diagnostics(cs.last())
    }
}

pub open spec fn diagnostic_view(d: AuditDiagnostic) -> (Seq<char>, Seq<char>, RuleCategory, FindingSeverity, Seq<char>) {
    (d.rule_id@, d.rule_label@, d.category, d.severity, d.message@)
}

impl AuditReport {
    /// The positions of the strong checks, in report order.
    pub fn strong_checks(&self) -> (r: Vec<usize>)
        ensures
            r@ == positions_with(self.checks@, self.checks@.len() as int, CheckStatus::Strong),
    {
        positions_of(&self.checks, CheckStatus::Strong)
    }

    /// The positions of the partial checks, in report order.
    pub fn partial_checks(&self) -> (r: Vec<usize>)
        ensures
            r@ == positions_with(self.checks@, self.checks@.len() as int, CheckStatus::Partial),
    {
        positions_of(&self.checks, CheckStatus::Partial)
    }

    /// The positions of the missing checks, in report order.
    pub fn missing_checks(&self) -> (r: Vec<usize>)
        ensures
            r@ == positions_with(self.checks@, self.checks@.len() as int, CheckStatus::Missing),
    {
        positions_of(&self.checks, CheckStatus::Missing)
    }

    pub fn strong_count(&self) -> (n: usize)
        ensures
            n == status_count(self.checks@, CheckStatus::Strong),
    {
        count_status(&self.checks, CheckStatus::Strong)
    }

    pub fn partial_count(&self) -> (n: usize)
        ensures
            n == status_count(self.checks@, CheckStatus::Partial),
    {
        count_status(&self.checks, CheckStatus::Partial)
    }

    pub fn missing_count(&self) -> (n: usize)
        ensures
            n == status_count(self.checks@, CheckStatus::Missing),
    {
        count_status(&self.checks, CheckStatus::Missing)
    }

    /// The number of findings over all checks.
    pub fn finding_count(&self) -> (n: usize)
        requires
            finding_total(self.checks@) <= usize::MAX,
        ensures
            n == finding_total(self.checks@),
    {
        let mut n: usize = 0;
        let mut i: usize = 0;
        while i < self.checks.len()
            invariant
                i <= self.checks.len(),
                finding_total(self.checks@) <= usize::MAX,
                n == finding_total(self.checks@.take(i as int)),
            decreases self.checks.len() - i,
        {
            assert(self.checks@.take(i + 1).drop_last() =~= self.checks@.take(i as int));
            proof {
                lemma_finding_total_prefix(self.checks@, i + 1);
            }
            n = n + self.checks[i].findings.len();
            i += 1;
        }
        assert(self.checks@.take(self.checks.len() as int) =~= self.checks@);
        n
    }

    /// Every finding of every check, in order, with the rule it belongs to.
    pub fn diagnostics(&self) -> (r: Vec<AuditDiagnostic>)
        ensures
            r@.map_values(|d: AuditDiagnostic| diagnostic_view(d)) == all_diagnostics(self.checks@),
            forall|k: int|
                0 <= k < r@.len() ==> views((#[trigger] r@[k]).evidence@) == views(
                    all_findings(self.checks@)[k].evidence@,
                ) && r@[k].help == all_findings(self.checks@)[k].help && r@[k].location
                    == all_findings(self.checks@)[k].location,
    {
        let mut r: Vec<AuditDiagnostic> = Vec::new();
        let mut i: usize = 0;
        while i < self.checks.len()
            invariant
                i <= self.checks.len(),
                r@.map_values(|d: AuditDiagnostic| diagnostic_view(d)) == all_diagnostics(
                    self.checks@.take(i as int),
                ),
                r@.len() == all_findings(self.checks@.take(i as int)).len(),
                forall|k: int|
                    0 <= k < r@.len() ==> views((#[trigger] r@[k]).evidence@) == views(
                        all_findings(self.checks@.take(i as int))[k].evidence@,
                    ) && r@[k].help == all_findings(self.checks@.take(i as int))[k].help
                        && r@[k].location == all_findings(self.checks@.take(i as int))[k].location,
            decreases self.checks.len() - i,
        {
            assert(self.checks@.take(i + 1).drop_last() =~= self.checks@.take(i as int));
            let c = &self.checks[i];
            let ghost before = r@;
            let ghost prev = all_findings(self.checks@.take(i as int));
            let mut j: usize = 0;
            while j < c.findings.len()
                invariant
                    j <= c.findings.len(),
                    r@.len() == before.len() + j,
                    r@.subrange(0, before.len() as int) == before,
                    forall|k: int|
                        0 <= k < j ==> diagnostic_view(#[trigger] r@[before.len() + k]) == (
                            c.id@,
                            c.label@,
                            c.category,
                            c.findings@[k].severity,
                            c.findings@[k].message@,
                        ) && views(r@[before.len() + k].evidence@) == views(c.findings@[k].evidence@)
                            && r@[before.len() + k].help == c.findings@[k].help && r@[before.len()
                            + k].location == c.findings@[k].location,
                decreases c.findings.len() - j,
            {
                let f = &c.findings[j];
                let ghost pre = r@;
                r.push(
                    AuditDiagnostic {
                        rule_id: c.id.clone(),
                        rule_label: c.label.clone(),
                        category: c.category,
                        severity: f.severity,
                        message: f.message.clone(),
                        help: f.help.clone(),
                        evidence: crate::security::clone_strings(&f.evidence),
                        location: f.location.clone(),
                    },
                );
                assert(r@.subrange(0, before.len() as int) =~= pre.subrange(0, before.len() as int));
                assert forall|k: int| 0 <= k < j + 1 implies diagnostic_view(
                    #[trigger] r@[before.len() + k],
                ) == (c.id@, c.label@, c.category, c.findings@[k].severity, c.findings@[k].message@)
                    && views(r@[before.len() + k].evidence@) == views(c.findings@[k].evidence@)
                    && r@[before.len() + k].help == c.findings@[k].help && r@[before.len() + k].location
                    == c.findings@[k].location by {
                    if k < j {
                        assert(r@[before.len() + k] == pre[before.len() + k]);
                    }
                }
                j += 1;
            }
            proof {
                let cur = all_findings(self.checks@.take(i + 1));
                assert(cur =~= prev + c.findings@);
                let lhs = r@.map_values(|d: AuditDiagnostic| diagnostic_view(d));
                let rhs = all_diagnostics(self.checks@.take(i + 1));
                let old_map = before.map_values(|d: AuditDiagnostic| diagnostic_view(d));
                assert(rhs =~= all_diagnostics(self.checks@.take(i as int)) + check_diagnostics(*c));
                assert(old_map.len() == before.len());
                assert forall|t: int| 0 <= t < lhs.len() implies lhs[t] == rhs[t] by {
                    if t < before.len() {
                        assert(r@[t] == r@.subrange(0, before.len() as int)[t]);
                        assert(old_map[t] == diagnostic_view(before[t]));
                    } else {
                        let k = t - before.len();
                        assert(r@[before.len() + k] == r@[t]);
                    }
                }
                assert(lhs =~= rhs);
                assert forall|k: int| 0 <= k < r@.len() implies views((#[trigger] r@[k]).evidence@)
                    == views(cur[k].evidence@) && r@[k].help == cur[k].help && r@[k].location
                    == cur[k].location by {
                    if k < before.len() {
                        assert(r@[k] == before[k]);
                    } else {
                        assert(r@[before.len() + (k - before.len())] == r@[k]);
                    }
                }
            }
            i += 1;
        }
        assert(self.checks@.take(self.checks.len() as int) =~= self.checks@);
        r
    }
}

/// The findings of all checks, in order.
pub open spec fn all_findings(cs: Seq<AuditCheck>) -> Seq<AuditFinding>
    decreases cs.len(),
{
    if cs.len() == 0 {
        Seq::empty()
    } else {
        all_findings(cs.drop_last()) + cs.last().findings@
    }
}

// ---------------------------------------------------------------------------
// Caps and estimates
// ---------------------------------------------------------------------------

/// The score held under every domain's cap.
pub open spec fn capped_spec(score: u8, ds: Seq<DoctorDomainScore>) -> u8
    decreases ds.len(),
{
    if ds.len() == 0 {
        score
    } else {
        let prev = capped_spec(score, ds.drop_last());
        match ds.last().cap {
            Some(c) => if c < prev {
                c
            } else {
                prev
            },
            None => prev,
        }
    }
}

/// The audit score held under the caps of the domain doctors.
pub fn apply_domain_caps(score: u8, domains: &Vec<DoctorDomainScore>) -> (r: u8)
    ensures
        r == capped_spec(score, domains@),
{
    let mut r = score;
    let mut i: usize = 0;
    while i < domains.len()
        invariant
            i <= domains.len(),
            r == capped_spec(score, domains@.take(i as int)),
        decreases domains.len() - i,
    {
        assert(domains@.take(i + 1).drop_last() =~= domains@.take(i as int));
        match domains[i].cap {
            Some(c) => {
                if c < r {
                    r = c;
                }
            },
            None => {},
        }
        i += 1;
    }
    assert(domains@.take(domains.len() as int) =~= domains@);
    r
}

/// The first planned upgrade for rule `id`, from position `i` on.
pub open spec fn upgrade_for(ups: Seq<PlannedCheckUpgrade>, id: Seq<char>, i: int) -> Option<int>
    decreases ups.len() - i,
{
    if i < 0 || i >= ups.len() {
        None
    } else if ups[i].rule_id@ == id {
        Some(i)
    } else {
        upgrade_for(ups, id, i + 1)
    }
}

/// A check as the fix plan expects it after its upgrade: fully covered,
/// strong, earning its whole weight, with the plan's message, evidence and
/// location and no findings.
pub open spec fn upgraded_matches(r: AuditCheck, c: AuditCheck, u: PlannedCheckUpgrade) -> bool {
    &&& r.id == c.id
    &&& r.label == c.label
    &&& r.category == c.category
    &&& r.weight == c.weight
    &&& r.points == c.weight
    &&& r.earned == c.weight
    &&& r.coverage == 100
    &&& r.status == CheckStatus::Strong
    &&& r.fixability == c.fixability
    &&& r.fixable == c.fixable
    &&& r.confidence_permille == c.confidence_permille
    &&& r.message == u.message
    &&& r.hint == c.hint
    &&& r.detail == Some(u.message)
    &&& views(r.evidence@) == views(u.evidence@)
    &&& r.findings@.len() == 0
    &&& r.location == u.location
    &&& r.required_level == c.required_level
    &&& !r.blocking
}

fn upgrade_index(ups: &Vec<PlannedCheckUpgrade>, id: &str) -> (r: Option<usize>)
    ensures
        match r {
            Some(i) => upgrade_for(ups@, id@, 0) == Some(i as int) && i < ups@.len(),
            None => upgrade_for(ups@, id@, 0).is_none(),
        },
{
    let mut i: usize = 0;
    while i < ups.len()
        invariant
            i <= ups.len(),
            upgrade_for(ups@, id@, i as int) == upgrade_for(ups@, id@, 0),
        decreases ups.len() - i,
    {
        if crate::text::str_eq(ups[i].rule_id.as_str(), id) {
            return Some(i);
        }
        i += 1;
    }
    None
}

/// The checks with each planned upgrade applied to the check of its rule;
/// a check without an upgrade stays as it is.
pub fn upgrade_checks(checks: Vec<AuditCheck>, upgrades: &Vec<PlannedCheckUpgrade>) -> (r: Vec<
    AuditCheck,
>)
    ensures
        r@.len() == checks@.len(),
        forall|k: int|
            0 <= k < r@.len() ==> match upgrade_for(upgrades@, checks@[k].id@, 0) {
                Some(u) => upgraded_matches(#[trigger] r@[k], checks@[k], upgrades@[u]),
                None => r@[k] == checks@[k],
            },
{
    let ghost orig = checks@;
    let mut rest = checks;
    let mut r: Vec<AuditCheck> = Vec::new();
    while rest.len() > 0
        invariant
            r@.len() + rest@.len() == orig.len(),
            rest@ == orig.subrange(r@.len() as int, orig.len() as int),
            forall|k: int|
                0 <= k < r@.len() ==> match upgrade_for(upgrades@, orig[k].id@, 0) {
                    Some(u) => upgraded_matches(#[trigger] r@[k], orig[k], upgrades@[u]),
                    None => r@[k] == orig[k],
                },
        decreases rest@.len(),
    {
        let ghost k0 = r@.len() as int;
        let c = rest.remove(0);
        assert(c == orig[k0]);
        assert(rest@ =~= orig.subrange(k0 + 1, orig.len() as int));
        let next = match upgrade_index(upgrades, c.id.as_str()) {
            Some(ui) => {
                let u = &upgrades[ui];
                AuditCheck {
                    id: c.id,
                    label: c.label,
                    category: c.category,
                    weight: c.weight,
                    points: c.weight,
                    earned: c.weight,
                    coverage: 100,
                    status: CheckStatus::Strong,
                    fixability: c.fixability,
                    fixable: c.fixable,
                    confidence_permille: c.confidence_permille,
                    message: u.message.clone(),
                    hint: c.hint,
                    detail: Some(u.message.clone()),
                    evidence: crate::security::clone_strings(&u.evidence),
                    findings: Vec::new(),
                    location: match &u.location {
                        Some(p) => Some(p.clone()),
                        None => None,
                    },
                    required_level: c.required_level,
                    blocking: false,
                }
            },
            None => c,
        };
        let ghost before = r@;
        r.push(next);
        assert forall|k: int| 0 <= k < r@.len() implies match upgrade_for(upgrades@, orig[k].id@, 0) {
            Some(u) => upgraded_matches(#[trigger] r@[k], orig[k], upgrades@[u]),
            None => r@[k] == orig[k],
        } by {
            if k < k0 {
                assert(r@[k] == before[k]);
            }
        }
    }
    r
}

/// The report rescored over `checks`: the base score and category scores
/// over the checks, the score as `blended` held under the domain caps, the
/// tier of that score, and the strict verdict.
pub open spec fn rescored_matches(out: AuditReport, r: AuditReport, checks: Seq<AuditCheck>, blended: u8) -> bool {
    let score = capped_spec(blended, r.domain_scores@);
    &&& out.target == r.target
    &&& out.project == r.project
    &&& out.minimum_score == r.minimum_score
    &&& out.config_source == r.config_source
    &&& out.domain_scores == r.domain_scores
    &&& out.checks@ == checks
    &&& out.base_score == percentage_spec(earned_sum(checks) as u16, weight_sum(checks) as u16)
    &&& out.score == score
    &&& out.readiness == tier_for(score)
    &&& out.category_scores@ == category_order().map_values(
        |c: RuleCategory| category_score_spec(checks, c),
    )
    &&& out.strict_passed == (score >= r.minimum_score && !any_blocking(checks))
}

/// The report over new checks.  `blended` is the base score of `checks`
/// blended with the domain scores (the caps are applied here).
pub fn rescore_report(report: AuditReport, checks: Vec<AuditCheck>, blended: u8) -> (out: AuditReport)
    requires
        weight_sum(checks@) <= u16::MAX,
        earned_sum(checks@) <= u16::MAX,
    ensures
        rescored_matches(out, report, checks@, blended),
{
    let base = base_score(&checks);
    let score = apply_domain_caps(blended, &report.domain_scores);
    let categories = category_scores(&checks);
    let strict = strict_passed(&checks, score, report.minimum_score);
    AuditReport {
        target: report.target,
        project: report.project,
        readiness: readiness_tier(score),
        score,
        base_score: base,
        minimum_score: report.minimum_score,
        strict_passed: strict,
        config_source: report.config_source,
        category_scores: categories,
        domain_scores: report.domain_scores,
        checks,
    }
}

// ---------------------------------------------------------------------------
// The whole audit report
// ---------------------------------------------------------------------------

/// One rule's verdict with how it is weighed: the rule, its weight, the
/// level the configuration requires of it, and its assessment.
#[derive(Debug, Clone)]
pub struct RuleVerdict {
    pub spec: RuleSpec,
    pub weight: u16,
    pub required: Option<RuleRequirement>,
    pub assessment: RuleAssessment,
}

pub open spec fn verdict_weight_sum(vs: Seq<RuleVerdict>) -> nat
    decreases vs.len(),
{
    if vs.len() == 0 {
        0
    } else {
        verdict_weight_sum(vs.drop_last()) + vs.last().weight as nat
    }
}

/// The report over `checks`: base score from their points, the blended
/// score held down by the domain caps, its tier, the strict verdict and the
/// category scores.
pub open spec fn report_matches(
    out: AuditReport,
    target: Seq<char>,
    project: ProjectContext,
    config_source: Option<String>,
    minimum_score: u8,
    checks: Seq<AuditCheck>,
    domains: Seq<DoctorDomainScore>,
    blended: u8,
) -> bool {
    let score = capped_spec(blended, domains);
    &&& out.target@ == target
    &&& out.project == project
    &&& out.config_source == config_source
    &&& out.minimum_score == minimum_score
    &&& out.domain_scores@ == domains
    &&& out.checks@ == checks
    &&& out.base_score == percentage_spec(earned_sum(checks) as u16, weight_sum(checks) as u16)
    &&& out.score == score
    &&& out.readiness == tier_for(score)
    &&& out.category_scores@ == category_order().map_values(
        |c: RuleCategory| category_score_spec(checks, c),
    )
    &&& out.strict_passed == (score >= minimum_score && !any_blocking(checks))
}

proof fn lemma_sums_of_built(checks: Seq<AuditCheck>, vs: Seq<RuleVerdict>)
    requires
        checks.len() == vs.len(),
        forall|k: int|
            0 <= k < vs.len() ==> check_matches(
                #[trigger] checks[k],
                vs[k].spec,
                vs[k].weight,
                vs[k].required,
                vs[k].assessment,
            ),
        forall|k: int| 0 <= k < vs.len() ==> (#[trigger] vs[k]).assessment.coverage <= 100,
    ensures
        weight_sum(checks) == verdict_weight_sum(vs),
        earned_sum(checks) <= weight_sum(checks),
    decreases vs.len(),
{
    if vs.len() > 0 {
        let (c, v) = (checks.drop_last(), vs.drop_last());
        assert forall|k: int| 0 <= k < v.len() implies check_matches(
            #[trigger] c[k],
            v[k].spec,
            v[k].weight,
            v[k].required,
            v[k].assessment,
        ) by {
            assert(c[k] == checks[k] && v[k] == vs[k]);
        }
        assert forall|k: int| 0 <= k < v.len() implies (#[trigger] v[k]).assessment.coverage <= 100 by {
            assert(v[k] == vs[k]);
        }
        lemma_sums_of_built(c, v);
        let last = vs.len() - 1;
        assert(check_matches(checks[last], vs[last].spec, vs[last].weight, vs[last].required, vs[last].assessment));
        assert(checks.last() == checks[last] && vs.last() == vs[last]);
        let w = vs[last].weight;
        let cov = vs[last].assessment.coverage;
        assert(w * cov <= w * 100) by (nonlinear_arith)
            requires
                cov <= 100,
        ;
    }
}

/// The audit report: every verdict scored into a check, in order, and the
/// report over them. `blended` is the base score blended with the domain
/// scores (floating point, computed by the caller); the caps are applied
/// here.
pub fn assemble_audit_report(
    target: String,
    project: ProjectContext,
    config_source: Option<String>,
    minimum_score: u8,
    verdicts: Vec<RuleVerdict>,
    domain_scores: Vec<DoctorDomainScore>,
    blended: u8,
) -> (out: AuditReport)
    requires
        verdict_weight_sum(verdicts@) <= u16::MAX,
        forall|k: int| 0 <= k < verdicts@.len() ==> (#[trigger] verdicts@[k]).assessment.coverage <= 100,
    ensures
        out.checks@.len() == verdicts@.len(),
        forall|k: int|
            0 <= k < verdicts@.len() ==> check_matches(
                #[trigger] out.checks@[k],
                verdicts@[k].spec,
                verdicts@[k].weight,
                verdicts@[k].required,
                verdicts@[k].assessment,
            ),
        report_matches(
            out,
            target@,
            project,
            config_source,
            minimum_score,
            out.checks@,
            domain_scores@,
            blended,
        ),
{
    let ghost vs = verdicts@;
    let mut checks: Vec<AuditCheck> = Vec::new();
    for v in iter: verdicts.into_iter()
        invariant
            iter.seq() == vs,
            checks@.len() == iter.index(),
            forall|k: int|
                0 <= k < iter.index() ==> check_matches(
                    #[trigger] checks@[k],
                    vs[k].spec,
                    vs[k].weight,
                    vs[k].required,
                    vs[k].assessment,
                ),
    {
        let c = build_check(&v.spec, v.weight, v.required, v.assessment);
        checks.push(c);
    }
    proof {
        lemma_sums_of_built(checks@, vs);
    }
    let base = base_score(&checks);
    let score = apply_domain_caps(blended, &domain_scores);
    let categories = category_scores(&checks);
    let strict = strict_passed(&checks, score, minimum_score);
    AuditReport {
        target,
        project,
        readiness: readiness_tier(score),
        score,
        base_score: base,
        minimum_score,
        strict_passed: strict,
        config_source,
        category_scores: categories,
        domain_scores,
        checks,
    }
}

} // verus!
