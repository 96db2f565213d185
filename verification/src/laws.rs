//! Properties of the library as a whole, stated over the specifications
//! that the functions' contracts use.
use vstd::prelude::*;
use crate::audit::{
    dedupe_spec, meets, percentage_spec, points_for, status_from_coverage, tier_for, CheckStatus,
    ReadinessTier,
};
use crate::config::RuleRequirement;
use crate::doctor::{
    has_code, has_severity, min_nat, score_after, workflow_score_spec, DoctorFinding,
    DoctorSeverity,
};
use crate::rust_deps::{
    best_candidate, cap_candidates, feature_count, lemma_best_candidate_min, rust_score_spec,
    total_advisories_spec, RustDepsFeatureVector, RustDepsScoringProfile,
};
use crate::domains::{domain_score_spec, min_cap};
use crate::explorer::{key_step, shown_count, ItemTag, Key, KeyKind, Navigation};
use crate::ui::UiMode;
use crate::project::ProjectContext;
use crate::panels::{
    display_width_spec, lemma_text_fold_fits, strip_ansi_spec, text_fold, unicode_columns,
    wrap_text_spec,
};
use crate::knowledge::extend_unique_spec;
use crate::doctor::{DoctorDomainScore, EcosystemDoctorScore};
use crate::audit::{rule_weight_spec, Fixability, PlannedCheckUpgrade, RuleSpec};
use crate::audit::{weight_matched, weight_total, weighted_coverage_spec};
use crate::generator::{
    all_items, check_of, item_for_check_spec, items_from_checks_spec, lemma_check_of_injective,
    CheckSelection, ScaffoldItem,
};
use crate::order::{insert_listed, listed_before, listing_order};
use crate::readme::{
    assessment_matches, readme_coverage, readme_parts, AssessmentView, ReadmeSignals, RuleAssessment,
};
use crate::security::{policy_parts, PolicySignals};
use crate::ui::{next_category_spec, next_filter, StatusFilter};
use crate::audit::RuleCategory;
use crate::styled::{lemma_wrap_fold_fits, visible_width_spec, wrap_fold, wrap_words_spec};
use crate::text::words_of;
use crate::prompt_plan::{gap_spec, lemma_ranked_by_blocking_and_gap, ranked};
use crate::dashboard::{
    first_n, gap_entries, gap_lines, gap_of, gap_rows, is_strength, lemma_entries_describe,
    lemma_sort_desc_members, lemma_sort_desc_sorted, sort_desc, strength_entries,
};
use crate::audit_report::{
    report_matches, AuditReport, RuleVerdict, check_matches, upgrade_for, upgraded_matches, capped_spec, any_blocking, blocking_spec, category_earned, category_weight, earned_sum,
    lemma_positions_count, positions_with, status_count, weight_sum, AuditCheck,
};

verus! {

/// A workflow with a syntax error never scores above 49, and one with any
/// other error never above 69; every workflow score is at most 100.
pub proof fn law_workflow_score_caps(fs: Seq<DoctorFinding>)
    ensures
        workflow_score_spec(fs) <= 100,
        has_code(fs, "workflow.syntax-check"@) ==> workflow_score_spec(fs) <= 49,
        has_severity(fs, DoctorSeverity::Error) ==> workflow_score_spec(fs) <= 69,
{
}

/// A score derived from a penalty is between 0 and 100, and a larger
/// penalty never gives a larger score.
pub proof fn law_score_after_bounded_and_monotone(a: nat, b: nat)
    ensures
        score_after(a) <= 100,
        a <= b ==> score_after(b) <= score_after(a),
{
}

/// More coverage never gives a weaker status.
pub proof fn law_status_monotone(c1: u8, c2: u8)
    requires
        c1 <= c2,
    ensures
        status_from_coverage(c1) == CheckStatus::Strong ==> status_from_coverage(c2)
            == CheckStatus::Strong,
        status_from_coverage(c2) == CheckStatus::Missing ==> status_from_coverage(c1)
            == CheckStatus::Missing,
{
}

/// A strong check meets every requirement, a missing one meets none, and a
/// partial one meets exactly the partial requirement.
pub proof fn law_requirements(r: RuleRequirement)
    ensures
        meets(CheckStatus::Strong, r),
        !meets(CheckStatus::Missing, r),
        meets(CheckStatus::Partial, r) <==> r == RuleRequirement::Partial,
{
}

/// A higher score never gives a lower readiness tier.
pub proof fn law_tier_monotone(s1: u8, s2: u8)
    requires
        s1 <= s2,
    ensures
        tier_for(s1) == ReadinessTier::LaunchReady ==> tier_for(s2) == ReadinessTier::LaunchReady,
        tier_for(s2) == ReadinessTier::Rough ==> tier_for(s1) == ReadinessTier::Rough,
{
}

/// A check never earns more points than its weight while its coverage is at
/// most 100, and full coverage earns the whole weight.
pub proof fn law_points_within_weight(weight: u16, coverage: u8)
    requires
        coverage <= 100,
    ensures
        points_for(weight, coverage) <= weight,
        coverage == 100 ==> points_for(weight, coverage) == weight,
{
    assert(weight * coverage <= weight * 100) by (nonlinear_arith)
        requires
            coverage <= 100,
    ;
}

/// Earned points never exceed 100 percent of the total.
pub proof fn law_percentage_bounded(earned: u16, total: u16)
    requires
        earned <= total,
    ensures
        percentage_spec(earned, total) <= 100,
{
    if total > 0 {
        assert(earned * 100 <= total * 100) by (nonlinear_arith)
            requires
                earned <= total,
        ;
        assert((earned * 100) / (total as int) <= 100) by (nonlinear_arith)
            requires
                earned * 100 <= total * 100,
                total > 0,
        ;
    }
}

/// Deduplicated values hold no repeat, hold exactly the values of the
/// input, and deduplicating twice changes nothing.
pub proof fn law_dedupe(s: Seq<Seq<char>>)
    ensures
        forall|i: int, j: int|
            0 <= i < j < dedupe_spec(s).len() ==> dedupe_spec(s)[i] != dedupe_spec(s)[j],
        forall|x: Seq<char>| dedupe_spec(s).contains(x) <==> s.contains(x),
    decreases s.len(),
{
    if s.len() > 0 {
        law_dedupe(s.drop_last());
        let prev = dedupe_spec(s.drop_last());
        let d = dedupe_spec(s);
        let last = s.last();
        assert(s =~= s.drop_last().push(last));
        assert forall|x: Seq<char>| d.contains(x) implies s.contains(x) by {
            let k = choose|k: int| 0 <= k < d.len() && d[k] == x;
            if k < prev.len() {
                assert(prev[k] == x);
                assert(prev.contains(x));
                assert(s.drop_last().contains(x));
                let m = choose|m: int| 0 <= m < s.drop_last().len() && s.drop_last()[m] == x;
                assert(s[m] == x);
            } else {
                assert(x == last);
                assert(s[s.len() - 1] == x);
            }
        }
        assert forall|x: Seq<char>| s.contains(x) implies d.contains(x) by {
            let k = choose|k: int| 0 <= k < s.len() && s[k] == x;
            if k < s.len() - 1 {
                assert(s.drop_last()[k] == x);
                assert(s.drop_last().contains(x));
                assert(prev.contains(x));
                let m = choose|m: int| 0 <= m < prev.len() && prev[m] == x;
                assert(d[m] == x);
            } else {
                assert(x == last);
                if prev.contains(x) {
                    assert(d == prev);
                } else {
                    assert(d[prev.len() as int] == x);
                }
            }
        }
    }
}

/// Deduplicating an already deduplicated list changes nothing.
pub proof fn law_dedupe_idempotent(s: Seq<Seq<char>>)
    ensures
        dedupe_spec(dedupe_spec(s)) == dedupe_spec(s),
{
    law_dedupe(s);
    lemma_dedupe_distinct_fixed(dedupe_spec(s));
}

/// A list without repeats is its own deduplication.
pub proof fn lemma_dedupe_distinct_fixed(s: Seq<Seq<char>>)
    requires
        forall|i: int, j: int| 0 <= i < j < s.len() ==> s[i] != s[j],
    ensures
        dedupe_spec(s) == s,
    decreases s.len(),
{
    if s.len() > 0 {
        lemma_dedupe_distinct_fixed(s.drop_last());
        law_dedupe(s.drop_last());
        if dedupe_spec(s.drop_last()).contains(s.last()) {
            let k = choose|k: int| 0 <= k < s.drop_last().len() && s.drop_last()[k] == s.last();
            assert(s[k] == s[s.len() - 1]);
        }
        assert(s.drop_last().push(s.last()) =~= s);
    }
}

/// With no advisory reported, a Rust dependency score never falls below
/// the profile's policy-only floor, and no cap applies.
pub proof fn law_policy_only_floor(f: RustDepsFeatureVector, p: RustDepsScoringProfile)
    requires
        total_advisories_spec(f) == 0,
    ensures
        best_candidate(cap_candidates(f, p)).is_none(),
        rust_score_spec(f, p) >= p.combination.policy_only_floor,
{
    assert(cap_candidates(f, p) =~= Seq::empty());
}

/// A Rust dependency score never exceeds the winning cap, and that cap is
/// the lowest cap among the reported advisory classes.
pub proof fn law_rust_score_within_cap(f: RustDepsFeatureVector, p: RustDepsScoringProfile)
    ensures
        best_candidate(cap_candidates(f, p)) matches Some(c) ==> rust_score_spec(f, p) <= c.0
            && forall|i: int|
            0 <= i < cap_candidates(f, p).len() ==> c.0 <= #[trigger] cap_candidates(f, p)[i].0,
{
    lemma_best_candidate_min(cap_candidates(f, p));
}

/// The status filter comes back to where it started after four steps.
pub proof fn law_status_filter_cycles(f: StatusFilter)
    ensures
        next_filter(next_filter(next_filter(next_filter(f)))) == f,
        next_filter(f) != f,
{
}

/// The category filter visits no filter and the five categories, then
/// comes back after six steps.
pub proof fn law_category_filter_cycles(c: Option<RuleCategory>)
    ensures
        next_category_spec(
            next_category_spec(
                next_category_spec(next_category_spec(next_category_spec(next_category_spec(c)))),
            ),
        ) == c,
{
}

/// Every scaffold item is found again from the audit rule it satisfies.
pub proof fn law_item_check_round_trip(item: ScaffoldItem)
    ensures
        item_for_check_spec(check_of(item)) == Some(item),
{
    let k: int = match item {
        ScaffoldItem::Readme => 0,
        ScaffoldItem::License => 1,
        ScaffoldItem::Contributing => 2,
        ScaffoldItem::CodeOfConduct => 3,
        ScaffoldItem::Security => 4,
        ScaffoldItem::Changelog => 5,
        ScaffoldItem::IssueTemplates => 6,
        ScaffoldItem::PullRequestTemplate => 7,
        ScaffoldItem::CiWorkflow => 8,
        ScaffoldItem::Codeowners => 9,
        ScaffoldItem::Funding => 10,
        ScaffoldItem::Dependabot => 11,
        ScaffoldItem::ReleaseWorkflow => 12,
    };
    assert(all_items()[k] == item);
    assert(check_of(all_items()[k]) == check_of(item));
    let j = choose|j: int| 0 <= j < all_items().len() && check_of(#[trigger] all_items()[j]) == check_of(item);
    lemma_check_of_injective(all_items()[j], item);
}

/// The items chosen from an audit never repeat.
pub proof fn law_items_from_checks_distinct(cs: Seq<CheckSelection>, overwrite_partials: bool)
    ensures
        forall|i: int, j: int|
            0 <= i < j < items_from_checks_spec(cs, overwrite_partials).len() ==> (#[trigger] items_from_checks_spec(
                cs,
                overwrite_partials,
            )[i]) != #[trigger] items_from_checks_spec(cs, overwrite_partials)[j],
    decreases cs.len(),
{
    if cs.len() > 0 {
        law_items_from_checks_distinct(cs.drop_last(), overwrite_partials);
        let prev = items_from_checks_spec(cs.drop_last(), overwrite_partials);
        let cur = items_from_checks_spec(cs, overwrite_partials);
        assert forall|i: int, j: int| 0 <= i < j < cur.len() implies cur[i] != cur[j] by {
            if j == prev.len() {
                assert(cur[i] == prev[i]);
                assert(prev.contains(prev[i]));
            } else {
                assert(cur[i] == prev[i] && cur[j] == prev[j]);
            }
        }
    }
}

/// A domain's score never exceeds the lowest cap among its ecosystems.
pub proof fn law_domain_score_within_cap(es: Seq<EcosystemDoctorScore>)
    ensures
        domain_score_spec(es) matches Some(s) ==> (min_cap(es) matches Some(c) ==> s <= c),
        min_cap(es).is_some() ==> domain_score_spec(es).is_some(),
{
}

/// Listing findings in order keeps every finding, each as often as before.
pub proof fn law_listing_order_permutation(s: Seq<DoctorFinding>, by_ecosystem: bool)
    ensures
        listing_order(s, by_ecosystem).to_multiset() == s.to_multiset(),
    decreases s.len(),
{
    if s.len() > 0 {
        law_listing_order_permutation(s.drop_last(), by_ecosystem);
        lemma_insert_listed_multiset(listing_order(s.drop_last(), by_ecosystem), s.last(), by_ecosystem);
        vstd::seq_lib::to_multiset_build(s.drop_last(), s.last());
        assert(s.drop_last().push(s.last()) =~= s);
        assert(listing_order(s, by_ecosystem).to_multiset() =~= s.drop_last().to_multiset().insert(
            s.last(),
        ));
    } else {
        assert(listing_order(s, by_ecosystem) =~= s);
    }
}

proof fn lemma_insert_listed_multiset(r: Seq<DoctorFinding>, x: DoctorFinding, by_ecosystem: bool)
    ensures
        insert_listed(r, x, by_ecosystem).to_multiset() == r.to_multiset().insert(x),
    decreases r.len(),
{
    if r.len() == 0 {
        vstd::seq_lib::to_multiset_insert(r, 0, x);
        assert(r.insert(0, x) =~= seq![x]);
    } else if listed_before(x, r[0], by_ecosystem) {
        vstd::seq_lib::to_multiset_insert(r, 0, x);
        assert(r.insert(0, x) =~= seq![x] + r);
    } else {
        let rest = r.drop_first();
        lemma_insert_listed_multiset(rest, x, by_ecosystem);
        let t = insert_listed(rest, x, by_ecosystem);
        vstd::seq_lib::to_multiset_insert(t, 0, r[0]);
        assert(t.insert(0, r[0]) =~= seq![r[0]] + t);
        vstd::seq_lib::to_multiset_insert(rest, 0, r[0]);
        assert(rest.insert(0, r[0]) =~= r);
        assert(rest.to_multiset().insert(x).insert(r[0]) =~= rest.to_multiset().insert(r[0]).insert(x));
    }
}

/// A README that shows every adoption signal and is not starter copy is
/// strong; starter copy never scores above 80; coverage is at most 100.
pub proof fn law_readme_coverage(s: ReadmeSignals)
    ensures
        readme_coverage(s) <= 100,
        s.is_placeholder ==> readme_coverage(s) <= 80,
        (s.has_length && s.has_install && s.has_usage && s.has_contributing && s.has_license
            && s.has_examples && s.has_code_block && s.has_stack_hint && !s.is_placeholder)
            ==> readme_coverage(s) == 100,
{
    reveal_with_fuel(weight_total, 9);
    reveal_with_fuel(weight_matched, 9);
    assert(weight_total(readme_parts(s)) == 100);
    assert(weight_matched(readme_parts(s)) <= 100);
}

/// An existing security policy always earns some coverage, and one that
/// shows every signal earns full coverage.
pub proof fn law_security_policy_coverage(s: PolicySignals)
    ensures
        weighted_coverage_spec(policy_parts(s)) >= 15,
        weighted_coverage_spec(policy_parts(s)) <= 100,
        (s.private_channel && s.reporting_terms && s.reproduction && s.impact && s.response
            && s.depth && s.not_placeholder) ==> weighted_coverage_spec(policy_parts(s)) == 100,
{
    reveal_with_fuel(weight_total, 9);
    reveal_with_fuel(weight_matched, 9);
    assert(weight_total(policy_parts(s)) == 100);
    assert(weight_matched(policy_parts(s)) >= 15);
}

/// Laying knowledge over knowledge keeps what was there, in place, and
/// adds every new term exactly once: nothing else comes in, and a list
/// without repeats stays without repeats.
pub proof fn law_extend_unique(target: Seq<Seq<char>>, incoming: Seq<Seq<char>>)
    ensures
        extend_unique_spec(target, incoming).len() >= target.len(),
        extend_unique_spec(target, incoming).take(target.len() as int) == target,
        forall|x: Seq<char>| incoming.contains(x) ==> extend_unique_spec(target, incoming).contains(x),
        forall|x: Seq<char>|
            extend_unique_spec(target, incoming).contains(x) ==> target.contains(x)
                || incoming.contains(x),
        (forall|i: int, j: int| 0 <= i < j < target.len() ==> target[i] != target[j]) ==> (forall|
            i: int,
            j: int,
        |
            0 <= i < j < extend_unique_spec(target, incoming).len() ==> extend_unique_spec(
                target,
                incoming,
            )[i] != extend_unique_spec(target, incoming)[j]),
    decreases incoming.len(),
{
    if incoming.len() > 0 {
        let rest = incoming.drop_last();
        law_extend_unique(target, rest);
        let t = extend_unique_spec(target, rest);
        let r = extend_unique_spec(target, incoming);
        assert forall|x: Seq<char>| incoming.contains(x) implies r.contains(x) by {
            let k = choose|k: int| 0 <= k < incoming.len() && incoming[k] == x;
            if k < incoming.len() - 1 {
                assert(rest[k] == x);
                assert(rest.contains(x));
                if !t.contains(incoming.last()) {
                    let m = choose|m: int| 0 <= m < t.len() && t[m] == x;
                    assert(r[m] == x);
                }
            } else {
                if !t.contains(incoming.last()) {
                    assert(r[t.len() as int] == x);
                }
            }
        }
        assert forall|x: Seq<char>| r.contains(x) implies target.contains(x) || incoming.contains(x) by {
            let m = choose|m: int| 0 <= m < r.len() && r[m] == x;
            if m < t.len() {
                assert(t[m] == x);
                assert(t.contains(x));
                if rest.contains(x) {
                    let k = choose|k: int| 0 <= k < rest.len() && rest[k] == x;
                    assert(incoming[k] == x);
                }
            } else {
                assert(incoming[incoming.len() - 1] == x);
            }
        }
        if !t.contains(incoming.last()) {
            assert(r.take(target.len() as int) =~= t.take(target.len() as int));
        }
    } else {
        assert(target.take(target.len() as int) =~= target);
    }
}

/// A selection inside a list of `len` items (0 when the list is empty).
pub open spec fn sel_in(sel: usize, len: nat) -> bool {
    if len == 0 {
        sel == 0
    } else {
        sel < len
    }
}

/// Every selection of the explorer points into what its filters leave.
pub open spec fn nav_in_range(
    n: Navigation,
    checks: Seq<ItemTag>,
    diags: Seq<ItemTag>,
    files: usize,
) -> bool {
    &&& sel_in(n.selected_check, shown_count(checks, n.status_filter, n.category_filter))
    &&& sel_in(n.selected_diagnostic, shown_count(diags, n.status_filter, n.category_filter))
    &&& sel_in(n.selected_file, files as nat)
}

/// Whatever key is pressed, held or released, the explorer's selections
/// keep pointing into the lists its filters leave; only `q` and Esc quit.
pub proof fn law_explorer_selection_in_range(
    mode: UiMode,
    checks: Seq<ItemTag>,
    diags: Seq<ItemTag>,
    files: usize,
    n: Navigation,
    key: Key,
    kind: KeyKind,
    now: u64,
)
    requires
        nav_in_range(n, checks, diags, files),
    ensures
        nav_in_range(key_step(mode, checks, diags, files, n, key, kind, now).0, checks, diags, files),
        key_step(mode, checks, diags, files, n, key, kind, now).1 ==> kind != KeyKind::Release && (
        key == Key::Char('q') || key == Key::Esc),
{
}

/// The five categories split the checks: their weights add up to the
/// total weight and their earned points to the total earned.
pub proof fn law_categories_partition_checks(cs: Seq<AuditCheck>)
    ensures
        category_weight(cs, RuleCategory::Identity) + category_weight(cs, RuleCategory::Docs)
            + category_weight(cs, RuleCategory::Community) + category_weight(cs, RuleCategory::Automation)
            + category_weight(cs, RuleCategory::Release) == weight_sum(cs),
        category_earned(cs, RuleCategory::Identity) + category_earned(cs, RuleCategory::Docs)
            + category_earned(cs, RuleCategory::Community) + category_earned(cs, RuleCategory::Automation)
            + category_earned(cs, RuleCategory::Release) == earned_sum(cs),
    decreases cs.len(),
{
    if cs.len() > 0 {
        law_categories_partition_checks(cs.drop_last());
    }
}

/// When no check earns more than its weight, no category earns more than
/// its weights either, so every category score is at most 100.
pub proof fn law_category_within_weight(cs: Seq<AuditCheck>, c: RuleCategory)
    requires
        forall|i: int| 0 <= i < cs.len() ==> (#[trigger] cs[i]).earned <= cs[i].weight,
    ensures
        category_earned(cs, c) <= category_weight(cs, c),
        category_weight(cs, c) <= u16::MAX ==> percentage_spec(
            category_earned(cs, c) as u16,
            category_weight(cs, c) as u16,
        ) <= 100,
    decreases cs.len(),
{
    if cs.len() > 0 {
        assert(cs.drop_last().len() == cs.len() - 1);
        assert forall|i: int| 0 <= i < cs.drop_last().len() implies (#[trigger] cs.drop_last()[i]).earned
            <= cs.drop_last()[i].weight by {
            assert(cs.drop_last()[i] == cs[i]);
        }
        law_category_within_weight(cs.drop_last(), c);
        assert(cs.last() == cs[cs.len() - 1]);
    }
    if category_weight(cs, c) <= u16::MAX {
        law_percentage_bounded(category_earned(cs, c) as u16, category_weight(cs, c) as u16);
    }
}

/// A check blocks exactly when the configuration requires a level that its
/// status does not reach: a strong check never blocks, and a missing check
/// blocks whenever a level is required.
pub proof fn law_blocking(status: CheckStatus, required: Option<RuleRequirement>)
    ensures
        status == CheckStatus::Strong ==> !blocking_spec(status, required),
        status == CheckStatus::Missing && required.is_some() ==> blocking_spec(status, required),
        required.is_none() ==> !blocking_spec(status, required),
{
}

/// Wrapped text never runs past the width: every line of a wrapped
/// message takes at most `width` columns on screen, escape sequences left
/// out.
pub proof fn law_wrapped_lines_fit(s: Seq<char>, width: nat)
    ensures
        forall|k: int|
            0 <= k < wrap_words_spec(s, width).len() ==> visible_width_spec(
                #[trigger] wrap_words_spec(s, width)[k],
            ) <= width,
{
    if visible_width_spec(s) > width {
        lemma_wrap_fold_fits(words_of(s), width);
        let (lines, current) = wrap_fold(words_of(s), width);
        let out = if current.len() > 0 {
            lines.push(current)
        } else {
            lines
        };
        assert(wrap_words_spec(s, width) == out);
        assert forall|k: int| 0 <= k < out.len() implies visible_width_spec(#[trigger] out[k]) <= width by {
            if k < lines.len() {
                assert(out[k] == lines[k]);
            }
        }
    }
}

/// Hard caps hold: the audit score never exceeds the blended score nor
/// the cap of any domain doctor.
pub proof fn law_domain_caps_hold(score: u8, ds: Seq<DoctorDomainScore>)
    ensures
        capped_spec(score, ds) <= score,
        forall|i: int|
            0 <= i < ds.len() && (#[trigger] ds[i]).cap.is_some() ==> capped_spec(score, ds) <= ds[i].cap.unwrap(),
    decreases ds.len(),
{
    if ds.len() > 0 {
        law_domain_caps_hold(score, ds.drop_last());
        assert forall|i: int| 0 <= i < ds.len() && (#[trigger] ds[i]).cap.is_some() implies capped_spec(
            score,
            ds,
        ) <= ds[i].cap.unwrap() by {
            if i < ds.len() - 1 {
                assert(ds.drop_last()[i] == ds[i]);
            }
        }
    }
}

/// Boxed panels never wrap a line past the width: every line that word
/// wrapping gives takes at most `width` columns, as unicode-width counts
/// them, given that the empty text takes none.
pub proof fn law_panel_lines_fit(s: Seq<char>, width: nat)
    requires
        unicode_columns(Seq::<char>::empty()) == 0,
    ensures
        forall|k: int|
            0 <= k < wrap_text_spec(s, width).len() ==> display_width_spec(
                #[trigger] wrap_text_spec(s, width)[k],
            ) <= width,
{
    assert(strip_ansi_spec(Seq::<char>::empty()) =~= Seq::<char>::empty());
    if width > 0 && display_width_spec(s) > width {
        lemma_text_fold_fits(words_of(s), width);
        let (lines, current) = text_fold(words_of(s), width);
        let out = if current.len() > 0 {
            lines.push(current)
        } else {
            lines
        };
        assert forall|k: int| 0 <= k < out.len() implies display_width_spec(#[trigger] out[k]) <= width by {
            if k < lines.len() {
                assert(out[k] == lines[k]);
            }
        }
    }
}

/// The counts of a report are the lengths of its filtered lists: as many
/// strong, partial and missing checks are counted as are listed.
pub proof fn law_counts_match_lists(cs: Seq<AuditCheck>, s: CheckStatus)
    ensures
        positions_with(cs, cs.len() as int, s).len() == status_count(cs, s),
{
    lemma_positions_count(cs, cs.len() as int, s);
    assert(cs.take(cs.len() as int) =~= cs);
}

/// Counting findings is additive: the counts of two lists of findings put
/// together are the sums of their counts, and no findings count nothing.
pub proof fn law_feature_counts_add(a: Seq<DoctorFinding>, b: Seq<DoctorFinding>, k: int)
    ensures
        feature_count(a + b, k) == feature_count(a, k) + feature_count(b, k),
        feature_count(Seq::<DoctorFinding>::empty(), k) == 0,
    decreases b.len(),
{
    if b.len() > 0 {
        law_feature_counts_add(a, b.drop_last(), k);
        assert((a + b).drop_last() =~= a + b.drop_last());
        assert((a + b).last() == b.last());
    } else {
        assert(a + b =~= a);
    }
}

proof fn lemma_earned_grows(before: Seq<AuditCheck>, after: Seq<AuditCheck>)
    requires
        after.len() == before.len(),
        forall|i: int| 0 <= i < before.len() ==> (#[trigger] after[i]).weight == before[i].weight,
        forall|i: int| 0 <= i < before.len() ==> (#[trigger] after[i]).earned >= before[i].earned,
    ensures
        weight_sum(after) == weight_sum(before),
        earned_sum(after) >= earned_sum(before),
    decreases before.len(),
{
    if before.len() > 0 {
        let (a, b) = (after.drop_last(), before.drop_last());
        assert forall|i: int| 0 <= i < b.len() implies (#[trigger] a[i]).weight == b[i].weight by {
            assert(a[i] == after[i] && b[i] == before[i]);
        }
        assert forall|i: int| 0 <= i < b.len() implies (#[trigger] a[i]).earned >= b[i].earned by {
            assert(a[i] == after[i] && b[i] == before[i]);
        }
        lemma_earned_grows(b, a);
        assert(before.last() == before[before.len() - 1]);
        assert(after.last() == after[after.len() - 1]);
    }
}

proof fn lemma_caps_monotone(s1: u8, s2: u8, ds: Seq<DoctorDomainScore>)
    requires
        s1 <= s2,
    ensures
        capped_spec(s1, ds) <= capped_spec(s2, ds),
    decreases ds.len(),
{
    if ds.len() > 0 {
        lemma_caps_monotone(s1, s2, ds.drop_last());
    }
}

/// An upgrade never lowers the audit: where planned upgrades lift checks
/// that earned no more than their weight, the base score does not fall,
/// and a blended score that does not fall is not lowered by the domain
/// caps either.
pub proof fn law_upgrades_never_lower_score(
    checks: Seq<AuditCheck>,
    upgrades: Seq<PlannedCheckUpgrade>,
    upgraded: Seq<AuditCheck>,
    ds: Seq<DoctorDomainScore>,
    blended_before: u8,
    blended_after: u8,
)
    requires
        forall|i: int| 0 <= i < checks.len() ==> (#[trigger] checks[i]).earned <= checks[i].weight,
        upgraded.len() == checks.len(),
        forall|k: int|
            0 <= k < upgraded.len() ==> match upgrade_for(upgrades, checks[k].id@, 0) {
                Some(u) => upgraded_matches(#[trigger] upgraded[k], checks[k], upgrades[u]),
                None => upgraded[k] == checks[k],
            },
        weight_sum(checks) <= u16::MAX,
        blended_before <= blended_after,
    ensures
        weight_sum(upgraded) == weight_sum(checks),
        earned_sum(upgraded) >= earned_sum(checks),
        percentage_spec(earned_sum(upgraded) as u16, weight_sum(upgraded) as u16) >= percentage_spec(
            earned_sum(checks) as u16,
            weight_sum(checks) as u16,
        ),
        capped_spec(blended_after, ds) >= capped_spec(blended_before, ds),
{
    assert forall|i: int| 0 <= i < checks.len() implies (#[trigger] upgraded[i]).weight == checks[i].weight
        && upgraded[i].earned >= checks[i].earned by {
        match upgrade_for(upgrades, checks[i].id@, 0) {
            Some(u) => {
                assert(upgraded_matches(upgraded[i], checks[i], upgrades[u]));
            },
            None => {},
        }
    }
    lemma_earned_grows(checks, upgraded);
    lemma_earned_le_weight(checks);
    lemma_earned_le_weight(upgraded);
    let w = weight_sum(checks) as int;
    let e1 = earned_sum(checks) as int;
    let e2 = earned_sum(upgraded) as int;
    if w > 0 {
        assert(e1 * 100 <= e2 * 100) by (nonlinear_arith)
            requires
                e1 <= e2,
        ;
        assert((e1 * 100) / w <= (e2 * 100) / w) by (nonlinear_arith)
            requires
                e1 * 100 <= e2 * 100,
                w > 0,
        ;
        assert((e2 * 100) / w <= 100) by (nonlinear_arith)
            requires
                e2 <= w,
                w > 0,
        ;
    }
    lemma_caps_monotone(blended_before, blended_after, ds);
}

proof fn lemma_earned_le_weight(cs: Seq<AuditCheck>)
    requires
        forall|i: int| 0 <= i < cs.len() ==> (#[trigger] cs[i]).earned <= cs[i].weight,
    ensures
        earned_sum(cs) <= weight_sum(cs),
    decreases cs.len(),
{
    if cs.len() > 0 {
        let d = cs.drop_last();
        assert forall|i: int| 0 <= i < d.len() implies (#[trigger] d[i]).earned <= d[i].weight by {
            assert(d[i] == cs[i]);
        }
        lemma_earned_le_weight(d);
        assert(cs.last() == cs[cs.len() - 1]);
    }
}

/// A scored check is consistent: built from a verdict whose status
/// follows its coverage, with a weight of at least one, its status follows
/// its coverage, it earns its weight scaled by the coverage and never more
/// than its weight, it is fixable exactly when its rule is not manual, its
/// confidence stays within a thousand, and it blocks exactly when a
/// required level is not met.
pub proof fn law_scored_check_consistent(
    c: AuditCheck,
    spec: RuleSpec,
    weight: u16,
    required: Option<RuleRequirement>,
    a: RuleAssessment,
)
    requires
        check_matches(c, spec, weight, required, a),
        a.status == status_from_coverage(a.coverage),
        weight >= 1,
    ensures
        c.status == status_from_coverage(c.coverage),
        c.weight >= 1,
        c.earned == c.points,
        c.earned == points_for(c.weight, c.coverage),
        c.coverage <= 100 ==> c.earned <= c.weight,
        c.fixable == (c.fixability != Fixability::Manual),
        c.confidence_permille <= 1000,
        c.blocking == blocking_spec(c.status, c.required_level),
{
    if c.coverage <= 100 {
        law_points_within_weight(weight, c.coverage);
    }
}

/// Every rule verdict has the status its coverage gives.
pub proof fn law_rule_status_follows_coverage(r: RuleAssessment, v: AssessmentView)
    requires
        assessment_matches(r, v),
    ensures
        r.status == status_from_coverage(r.coverage),
{
}

/// Every audited check is consistent: scored from a rule's verdict with the
/// rule's weight, its status follows its coverage, its weight is at least
/// one, it earns its weight scaled by the coverage and no more than its
/// weight, it is fixable exactly when its rule is not manual, its
/// confidence stays within a thousand, and it blocks exactly when a required
/// level is not met.
pub proof fn law_audited_check_consistent(
    c: AuditCheck,
    spec: RuleSpec,
    configured: Option<u16>,
    scaled: u16,
    required: Option<RuleRequirement>,
    a: RuleAssessment,
    v: AssessmentView,
)
    requires
        assessment_matches(a, v),
        v.coverage <= 100,
        check_matches(c, spec, rule_weight_spec(configured, scaled), required, a),
    ensures
        c.status == status_from_coverage(c.coverage),
        c.weight >= 1,
        c.earned == c.points,
        c.earned == points_for(c.weight, c.coverage),
        c.earned <= c.weight,
        c.fixable == (c.fixability != Fixability::Manual),
        c.confidence_permille <= 1000,
        c.blocking == blocking_spec(c.status, c.required_level),
{
    law_scored_check_consistent(c, spec, rule_weight_spec(configured, scaled), required, a);
}

/// The audit report is consistent as a whole: every check is scored
/// consistently from its rule's verdict (status from coverage, weight at
/// least one, points within the weight, fixability, confidence, blocking),
/// the score is the blended score held under every domain cap, the tier
/// follows the score, and a strict audit passes exactly when the score
/// reaches the minimum and no check blocks.
pub proof fn law_audit_report_consistent(
    out: AuditReport,
    verdicts: Seq<RuleVerdict>,
    target: Seq<char>,
    project: ProjectContext,
    config_source: Option<String>,
    minimum_score: u8,
    domains: Seq<DoctorDomainScore>,
    blended: u8,
)
    requires
        out.checks@.len() == verdicts.len(),
        forall|k: int|
            0 <= k < verdicts.len() ==> check_matches(
                #[trigger] out.checks@[k],
                verdicts[k].spec,
                verdicts[k].weight,
                verdicts[k].required,
                verdicts[k].assessment,
            ),
        report_matches(out, target, project, config_source, minimum_score, out.checks@, domains, blended),
        forall|k: int|
            0 <= k < verdicts.len() ==> (#[trigger] verdicts[k]).weight >= 1
                && verdicts[k].assessment.status == status_from_coverage(verdicts[k].assessment.coverage)
                && verdicts[k].assessment.coverage <= 100,
    ensures
        forall|k: int|
            0 <= k < out.checks@.len() ==> {
                let c = #[trigger] out.checks@[k];
                &&& c.status == status_from_coverage(c.coverage)
                &&& c.weight >= 1
                &&& c.earned == c.points
                &&& c.earned == points_for(c.weight, c.coverage)
                &&& c.earned <= c.weight
                &&& c.fixable == (c.fixability != Fixability::Manual)
                &&& c.confidence_permille <= 1000
                &&& c.blocking == blocking_spec(c.status, c.required_level)
            },
        out.score <= blended,
        forall|i: int|
            0 <= i < domains.len() && (#[trigger] domains[i]).cap.is_some() ==> out.score
                <= domains[i].cap.unwrap(),
        out.readiness == tier_for(out.score),
        out.strict_passed == (out.score >= out.minimum_score && forall|k: int|
            0 <= k < out.checks@.len() ==> !(#[trigger] out.checks@[k]).blocking),
{
    assert forall|k: int| 0 <= k < out.checks@.len() implies {
        let c = #[trigger] out.checks@[k];
        &&& c.status == status_from_coverage(c.coverage)
        &&& c.weight >= 1
        &&& c.earned == c.points
        &&& c.earned == points_for(c.weight, c.coverage)
        &&& c.earned <= c.weight
        &&& c.fixable == (c.fixability != Fixability::Manual)
        &&& c.confidence_permille <= 1000
        &&& c.blocking == blocking_spec(c.status, c.required_level)
    } by {
        let v = verdicts[k];
        law_scored_check_consistent(out.checks@[k], v.spec, v.weight, v.required, v.assessment);
    }
    law_domain_caps_hold(blended, domains);
}

/// The dashboard ranks what it lists.  Of the largest gaps it shows at most
/// five, each a check that is not strong, keyed by the points it misses,
/// most points first; of the strongest checks at most four, each strong and
/// not an optional funding file, keyed by coverage, most covered first.
pub proof fn law_dashboard_rankings(cs: Seq<AuditCheck>)
    ensures
        first_n(sort_desc(gap_entries(cs)), 5).len() <= 5,
        gap_lines(cs) == gap_rows(cs, first_n(sort_desc(gap_entries(cs)), 5)),
        forall|k: int|
            0 <= k < first_n(sort_desc(gap_entries(cs)), 5).len() ==> {
                let e = #[trigger] first_n(sort_desc(gap_entries(cs)), 5)[k];
                0 <= e.1 < cs.len() && cs[e.1].status != CheckStatus::Strong && e.0 == gap_of(
                    cs[e.1],
                )
            },
        forall|i: int, j: int|
            0 <= i < j < first_n(sort_desc(gap_entries(cs)), 5).len() ==> (
            #[trigger] first_n(sort_desc(gap_entries(cs)), 5)[i]).0 >= (#[trigger] first_n(
                sort_desc(gap_entries(cs)),
                5,
            )[j]).0,
        first_n(sort_desc(strength_entries(cs)), 4).len() <= 4,
        forall|k: int|
            0 <= k < first_n(sort_desc(strength_entries(cs)), 4).len() ==> {
                let e = #[trigger] first_n(sort_desc(strength_entries(cs)), 4)[k];
                0 <= e.1 < cs.len() && is_strength(cs[e.1]) && e.0 == cs[e.1].coverage
            },
        forall|i: int, j: int|
            0 <= i < j < first_n(sort_desc(strength_entries(cs)), 4).len() ==> (
            #[trigger] first_n(sort_desc(strength_entries(cs)), 4)[i]).0 >= (#[trigger] first_n(
                sort_desc(strength_entries(cs)),
                4,
            )[j]).0,
{
    lemma_entries_describe(cs);
    let ge = gap_entries(cs);
    let se = strength_entries(cs);
    lemma_sort_desc_sorted(ge);
    lemma_sort_desc_members(ge);
    lemma_sort_desc_sorted(se);
    lemma_sort_desc_members(se);
    let gt = first_n(sort_desc(ge), 5);
    let st = first_n(sort_desc(se), 4);
    assert forall|k: int| 0 <= k < gt.len() implies {
        let e = #[trigger] gt[k];
        0 <= e.1 < cs.len() && cs[e.1].status != CheckStatus::Strong && e.0 == gap_of(cs[e.1])
    } by {
        assert(gt[k] == sort_desc(ge)[k]);
        assert(ge.contains(sort_desc(ge)[k]));
        let m = choose|m: int| 0 <= m < ge.len() && ge[m] == sort_desc(ge)[k];
        assert(ge[m] == gt[k]);
    }
    assert forall|i: int, j: int| 0 <= i < j < gt.len() implies (#[trigger] gt[i]).0 >= (
    #[trigger] gt[j]).0 by {
        assert(gt[i] == sort_desc(ge)[i] && gt[j] == sort_desc(ge)[j]);
    }
    assert forall|k: int| 0 <= k < st.len() implies {
        let e = #[trigger] st[k];
        0 <= e.1 < cs.len() && is_strength(cs[e.1]) && e.0 == cs[e.1].coverage
    } by {
        assert(st[k] == sort_desc(se)[k]);
        assert(se.contains(sort_desc(se)[k]));
        let m = choose|m: int| 0 <= m < se.len() && se[m] == sort_desc(se)[k];
        assert(se[m] == st[k]);
    }
    assert forall|i: int, j: int| 0 <= i < j < st.len() implies (#[trigger] st[i]).0 >= (
    #[trigger] st[j]).0 by {
        assert(st[i] == sort_desc(se)[i] && st[j] == sort_desc(se)[j]);
    }
}

/// Appending a finding to findings keeps no earlier finding out: each one of
/// the shorter list is still there.
proof fn lemma_push_keeps(fs: Seq<DoctorFinding>, f: DoctorFinding, code: Seq<char>, sev: DoctorSeverity)
    ensures
        has_code(fs, code) ==> has_code(fs.push(f), code),
        has_severity(fs, sev) ==> has_severity(fs.push(f), sev),
{
    if has_code(fs, code) {
        let i = choose|i: int| 0 <= i < fs.len() && #[trigger] fs[i].code@ == code;
        assert(fs.push(f)[i] == fs[i]);
    }
    if has_severity(fs, sev) {
        let i = choose|i: int| 0 <= i < fs.len() && #[trigger] fs[i].severity == sev;
        assert(fs.push(f)[i] == fs[i]);
    }
}

/// 100 less a penalty, floored at zero.
pub open spec fn less_penalty(score: nat, penalty: nat) -> nat {
    if score >= penalty {
        (score - penalty) as nat
    } else {
        0
    }
}

proof fn lemma_score_after_add(total: nat, p: nat)
    ensures
        score_after(total + p) == less_penalty(score_after(total), p),
{
}

/// Every finding of a workflow costs its own penalty: without errors, no
/// findings score 100, and one more finding lowers the score by that
/// finding's penalty, down to no less than zero.
pub proof fn law_workflow_penalties_add_up(fs: Seq<DoctorFinding>, f: DoctorFinding)
    requires
        !has_code(fs.push(f), "workflow.syntax-check"@),
        !has_severity(fs.push(f), DoctorSeverity::Error),
    ensures
        workflow_score_spec(Seq::empty()) == 100,
        workflow_score_spec(fs.push(f)) == less_penalty(
            workflow_score_spec(fs),
            crate::doctor::workflow_penalty_of(f),
        ),
{
    assert(!has_code(Seq::<DoctorFinding>::empty(), "workflow.syntax-check"@));
    assert(!has_severity(Seq::<DoctorFinding>::empty(), DoctorSeverity::Error));
    lemma_push_keeps(fs, f, "workflow.syntax-check"@, DoctorSeverity::Error);
    assert(fs.push(f).drop_last() =~= fs);
    lemma_score_after_add(crate::doctor::workflow_penalty_total(fs), crate::doctor::workflow_penalty_of(f));
}

/// Every finding of the dependency domain costs its own penalty: no
/// findings score 100, and one more finding lowers the score by that
/// finding's penalty, down to no less than zero.
pub proof fn law_deps_penalties_add_up(fs: Seq<DoctorFinding>, f: DoctorFinding)
    ensures
        score_after(crate::doctor::deps_penalty_total(Seq::empty())) == 100,
        score_after(crate::doctor::deps_penalty_total(fs.push(f))) == less_penalty(
            score_after(crate::doctor::deps_penalty_total(fs)),
            crate::doctor::generic_deps_penalty_of(f),
        ),
{
    assert(fs.push(f).drop_last() =~= fs);
    lemma_score_after_add(crate::doctor::deps_penalty_total(fs), crate::doctor::generic_deps_penalty_of(f));
}

/// Every release finding costs its own penalty: no findings score 100, and
/// one more finding lowers the score by that finding's penalty, down to no
/// less than zero.
pub proof fn law_release_penalties_add_up(fs: Seq<DoctorFinding>, f: DoctorFinding)
    ensures
        score_after(crate::doctor::release_penalty_total(Seq::empty())) == 100,
        score_after(crate::doctor::release_penalty_total(fs.push(f))) == less_penalty(
            score_after(crate::doctor::release_penalty_total(fs)),
            crate::doctor::release_penalty_of(f),
        ),
{
    assert(fs.push(f).drop_last() =~= fs);
    lemma_score_after_add(crate::doctor::release_penalty_total(fs), crate::doctor::release_penalty_of(f));
}

/// The readiness tiers by score: below 60 rough, from 60 to 84 promising,
/// from 85 on launch-ready.
pub proof fn law_tier_thresholds(score: u8)
    ensures
        score < 60 ==> tier_for(score) == ReadinessTier::Rough,
        60 <= score < 85 ==> tier_for(score) == ReadinessTier::Promising,
        85 <= score ==> tier_for(score) == ReadinessTier::LaunchReady,
{
}

/// Rules to fix are ranked blocking first: in the ranking no check that
/// does not block comes before one that blocks, and among checks that block
/// alike the one that misses more points comes first.
pub proof fn law_fix_ranking_blocking_first(cs: Seq<AuditCheck>, idx: Seq<usize>)
    ensures
        forall|p: int, q: int|
            0 <= p < q < ranked(cs, idx, true).len() ==> {
                let a = cs[#[trigger] ranked(cs, idx, true)[p] as int];
                let b = cs[#[trigger] ranked(cs, idx, true)[q] as int];
                &&& (b.blocking ==> a.blocking)
                &&& (a.blocking == b.blocking ==> gap_spec(a) >= gap_spec(b))
            },
{
    lemma_ranked_by_blocking_and_gap(cs, idx);
}

/// What one workflow finding costs, when it is not an error: missing
/// permissions 8 points, an unpinned action 3, missing concurrency or a
/// missing timeout 2 each.
pub proof fn law_workflow_finding_costs(f: DoctorFinding)
    requires
        f.severity != DoctorSeverity::Error,
    ensures
        f.code@ == "workflow.permissions.missing"@ ==> workflow_score_spec(seq![f]) == 92,
        f.code@ == "workflow.actions.unpinned"@ ==> workflow_score_spec(seq![f]) == 97,
        f.code@ == "workflow.concurrency.missing"@ ==> workflow_score_spec(seq![f]) == 98,
        f.code@ == "workflow.timeout.missing"@ ==> workflow_score_spec(seq![f]) == 98,
{
    reveal_strlit("workflow.syntax-check");
    reveal_strlit("workflow.permissions.missing");
    reveal_strlit("workflow.actions.unpinned");
    reveal_strlit("workflow.concurrency.missing");
    reveal_strlit("workflow.timeout.missing");
    let fs = seq![f];
    assert(fs.drop_last() =~= Seq::<DoctorFinding>::empty());
    assert(fs.last() == f);
    assert(crate::doctor::workflow_penalty_total(fs.drop_last()) == 0);
    assert(crate::doctor::workflow_penalty_total(fs) == crate::doctor::workflow_penalty_of(f));
    assert("workflow.concurrency.missing"@[9] != "workflow.permissions.missing"@[9]);
    assert("workflow.timeout.missing"@[9] != "workflow.actions.unpinned"@[9]);
    assert(!has_severity(fs, DoctorSeverity::Error)) by {
        if has_severity(fs, DoctorSeverity::Error) {
            let i = choose|i: int| 0 <= i < fs.len() && #[trigger] fs[i].severity == DoctorSeverity::Error;
            assert(fs[i] == f);
        }
    }
    if has_code(fs, "workflow.syntax-check"@) {
        let i = choose|i: int| 0 <= i < fs.len() && #[trigger] fs[i].code@ == "workflow.syntax-check"@;
        assert(fs[i] == f);
    }
}

/// A missing lockfile costs the dependency score 10 points.
pub proof fn law_deps_lockfile_cost(f: DoctorFinding)
    requires
        f.code@ == "deps.rust.lockfile.missing"@ || f.code@ == "deps.node.lockfile.missing"@
            || f.code@ == "deps.python.lockfile.missing"@,
    ensures
        score_after(crate::doctor::deps_penalty_total(seq![f])) == 90,
{
    let fs = seq![f];
    assert(fs.drop_last() =~= Seq::<DoctorFinding>::empty());
    assert(fs.last() == f);
    assert(crate::doctor::deps_penalty_total(fs.drop_last()) == 0);
}

} // verus!
