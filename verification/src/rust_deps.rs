//! Scoring of Rust dependency findings: a feature vector counted from the
//! findings, a weighted penalty, advisory caps and the reason for the cap.
use vstd::prelude::*;
use crate::doctor::{DoctorEcosystem, DoctorFinding};
use crate::text::{decimal, decimal_string, starts_with, str_eq, str_starts_with, concat_str};

verus! {

#[derive(Debug, Clone, Copy, PartialEq, Eq, Structural)]
pub enum RustAdvisoryClass {
    Critical,
    High,
    Medium,
    Low,
    Unmaintained,
    Yanked,
    Unsound,
    Informational,
    Reported,
}

pub open spec fn class_code(c: RustAdvisoryClass) -> Seq<char> {
    match c {
        RustAdvisoryClass::Critical => "deps.rust.advisory.critical"@,
        RustAdvisoryClass::High => "deps.rust.advisory.high"@,
        RustAdvisoryClass::Medium => "deps.rust.advisory.medium"@,
        RustAdvisoryClass::Low => "deps.rust.advisory.low"@,
        RustAdvisoryClass::Unmaintained => "deps.rust.advisory.unmaintained"@,
        RustAdvisoryClass::Yanked => "deps.rust.advisory.yanked"@,
        RustAdvisoryClass::Unsound => "deps.rust.advisory.unsound"@,
        RustAdvisoryClass::Informational => "deps.rust.advisory.informational"@,
        RustAdvisoryClass::Reported => "deps.rust.advisory.reported"@,
    }
}

pub open spec fn class_label(c: RustAdvisoryClass) -> Seq<char> {
    match c {
        RustAdvisoryClass::Critical => "critical advisory"@,
        RustAdvisoryClass::High => "high-severity advisory"@,
        RustAdvisoryClass::Medium => "medium-severity advisory"@,
        RustAdvisoryClass::Low => "low-severity advisory"@,
        RustAdvisoryClass::Unmaintained => "unmaintained advisory"@,
        RustAdvisoryClass::Yanked => "yanked advisory"@,
        RustAdvisoryClass::Unsound => "unsound advisory"@,
        RustAdvisoryClass::Informational => "informational advisory"@,
        RustAdvisoryClass::Reported => "reported advisory"@,
    }
}

/// Order in which classes win a tie between equal caps.
pub open spec fn class_cap_rank(c: RustAdvisoryClass) -> nat {
    match c {
        RustAdvisoryClass::Critical => 0,
        RustAdvisoryClass::High => 1,
        RustAdvisoryClass::Unsound => 2,
        RustAdvisoryClass::Medium => 3,
        RustAdvisoryClass::Reported => 4,
        RustAdvisoryClass::Unmaintained => 5,
        RustAdvisoryClass::Yanked => 6,
        RustAdvisoryClass::Low => 7,
        RustAdvisoryClass::Informational => 8,
    }
}

impl RustAdvisoryClass {
    pub fn code(self) -> (r: &'static str)
        ensures
            r@ == class_code(self),
    {
        match self {
            RustAdvisoryClass::Critical => "deps.rust.advisory.critical",
            RustAdvisoryClass::High => "deps.rust.advisory.high",
            RustAdvisoryClass::Medium => "deps.rust.advisory.medium",
            RustAdvisoryClass::Low => "deps.rust.advisory.low",
            RustAdvisoryClass::Unmaintained => "deps.rust.advisory.unmaintained",
            RustAdvisoryClass::Yanked => "deps.rust.advisory.yanked",
            RustAdvisoryClass::Unsound => "deps.rust.advisory.unsound",
            RustAdvisoryClass::Informational => "deps.rust.advisory.informational",
            RustAdvisoryClass::Reported => "deps.rust.advisory.reported",
        }
    }

    pub fn label(self) -> (r: &'static str)
        ensures
            r@ == class_label(self),
    {
        match self {
            RustAdvisoryClass::Critical => "critical advisory",
            RustAdvisoryClass::High => "high-severity advisory",
            RustAdvisoryClass::Medium => "medium-severity advisory",
            RustAdvisoryClass::Low => "low-severity advisory",
            RustAdvisoryClass::Unmaintained => "unmaintained advisory",
            RustAdvisoryClass::Yanked => "yanked advisory",
            RustAdvisoryClass::Unsound => "unsound advisory",
            RustAdvisoryClass::Informational => "informational advisory",
            RustAdvisoryClass::Reported => "reported advisory",
        }
    }

    pub fn cap_rank(self) -> (r: u8)
        ensures
            r == class_cap_rank(self),
    {
        match self {
            RustAdvisoryClass::Critical => 0,
            RustAdvisoryClass::High => 1,
            RustAdvisoryClass::Unsound => 2,
            RustAdvisoryClass::Medium => 3,
            RustAdvisoryClass::Reported => 4,
            RustAdvisoryClass::Unmaintained => 5,
            RustAdvisoryClass::Yanked => 6,
            RustAdvisoryClass::Low => 7,
            RustAdvisoryClass::Informational => 8,
        }
    }
}

// ---------------------------------------------------------------------------
// Profile
// ---------------------------------------------------------------------------

#[derive(Debug, Clone)]
pub struct RustDepsScoringProfile {
    pub version: u8,
    pub objective: String,
    pub weights: RustDepsWeights,
    pub caps: RustDepsCaps,
    pub combination: RustDepsCombination,
}

#[derive(Debug, Clone, Copy)]
pub struct RustDepsWeights {
    pub advisory_critical: u16,
    pub advisory_high: u16,
    pub advisory_medium: u16,
    pub advisory_low: u16,
    pub advisory_unmaintained: u16,
    pub advisory_yanked: u16,
    pub advisory_unsound: u16,
    pub advisory_informational: u16,
    pub advisory_reported: u16,
    pub lockfile_missing: u16,
    pub policy_missing: u16,
    pub license_missing: u16,
    pub version_wildcard: u16,
    pub source_direct: u16,
    pub source_path: u16,
    pub source_registry: u16,
    pub license_reported: u16,
    pub source_reported: u16,
    pub bans_reported: u16,
    pub engine_signal: u16,
}

#[derive(Debug, Clone, Copy)]
pub struct RustDepsCaps {
    pub advisory_critical: u8,
    pub advisory_high: u8,
    pub advisory_medium: u8,
    pub advisory_low: u8,
    pub advisory_unmaintained: u8,
    pub advisory_yanked: u8,
    pub advisory_unsound: u8,
    pub advisory_informational: u8,
    pub advisory_reported: u8,
}

#[derive(Debug, Clone, Copy)]
pub struct RustDepsCombination {
    pub repeated_advisory_penalty: u16,
    pub low_signal_stack_penalty: u16,
    pub unmaintained_cap_step: u8,
    pub yanked_cap_step: u8,
    pub policy_only_floor: u8,
}

// ---------------------------------------------------------------------------
// Feature vector
// ---------------------------------------------------------------------------

/// How many findings of each kind a Rust dependency scan produced.
#[derive(Debug, Clone, Copy)]
pub struct RustDepsFeatureVector {
    pub advisory_critical: u16,
    pub advisory_high: u16,
    pub advisory_medium: u16,
    pub advisory_low: u16,
    pub advisory_unmaintained: u16,
    pub advisory_yanked: u16,
    pub advisory_unsound: u16,
    pub advisory_informational: u16,
    pub advisory_reported: u16,
    pub lockfile_missing: u16,
    pub policy_missing: u16,
    pub license_missing: u16,
    pub version_wildcard: u16,
    pub source_direct: u16,
    pub source_path: u16,
    pub source_registry: u16,
    pub license_reported: u16,
    pub source_reported: u16,
    pub bans_reported: u16,
    pub engine_signal: u16,
}

/// The feature (0..20) a finding code counts towards.
pub open spec fn feature_of(c: Seq<char>) -> Option<int> {
    if c == "deps.rust.advisory.critical"@ {
        Some(0)
    } else if c == "deps.rust.advisory.high"@ {
        Some(1)
    } else if c == "deps.rust.advisory.medium"@ {
        Some(2)
    } else if c == "deps.rust.advisory.low"@ {
        Some(3)
    } else if c == "deps.rust.advisory.unmaintained"@ {
        Some(4)
    } else if c == "deps.rust.advisory.yanked"@ {
        Some(5)
    } else if c == "deps.rust.advisory.unsound"@ {
        Some(6)
    } else if c == "deps.rust.advisory.informational"@ {
        Some(7)
    } else if c == "deps.rust.advisory.reported"@ {
        Some(8)
    } else if c == "deps.rust.lockfile.missing"@ {
        Some(9)
    } else if c == "deps.rust.policy-missing"@ {
        Some(10)
    } else if c == "deps.rust.license-missing"@ {
        Some(11)
    } else if c == "deps.rust.version.wildcard"@ {
        Some(12)
    } else if c == "deps.rust.source.direct-source"@ {
        Some(13)
    } else if c == "deps.rust.source.path"@ {
        Some(14)
    } else if c == "deps.rust.source.registry"@ {
        Some(15)
    } else if c == "deps.rust.license.reported"@ {
        Some(16)
    } else if c == "deps.rust.source.reported"@ {
        Some(17)
    } else if c == "deps.rust.bans.reported"@ {
        Some(18)
    } else if c == "deps.rust.engine.signal"@ {
        Some(19)
    } else {
        None
    }
}

fn feature_index(c: &str) -> (r: Option<usize>)
    ensures
        match r {
            Some(k) => feature_of(c@) == Some(k as int) && k < 20,
            None => feature_of(c@).is_none(),
        },
{
    if str_eq(c, "deps.rust.advisory.critical") {
        Some(0)
    } else if str_eq(c, "deps.rust.advisory.high") {
        Some(1)
    } else if str_eq(c, "deps.rust.advisory.medium") {
        Some(2)
    } else if str_eq(c, "deps.rust.advisory.low") {
        Some(3)
    } else if str_eq(c, "deps.rust.advisory.unmaintained") {
        Some(4)
    } else if str_eq(c, "deps.rust.advisory.yanked") {
        Some(5)
    } else if str_eq(c, "deps.rust.advisory.unsound") {
        Some(6)
    } else if str_eq(c, "deps.rust.advisory.informational") {
        Some(7)
    } else if str_eq(c, "deps.rust.advisory.reported") {
        Some(8)
    } else if str_eq(c, "deps.rust.lockfile.missing") {
        Some(9)
    } else if str_eq(c, "deps.rust.policy-missing") {
        Some(10)
    } else if str_eq(c, "deps.rust.license-missing") {
        Some(11)
    } else if str_eq(c, "deps.rust.version.wildcard") {
        Some(12)
    } else if str_eq(c, "deps.rust.source.direct-source") {
        Some(13)
    } else if str_eq(c, "deps.rust.source.path") {
        Some(14)
    } else if str_eq(c, "deps.rust.source.registry") {
        Some(15)
    } else if str_eq(c, "deps.rust.license.reported") {
        Some(16)
    } else if str_eq(c, "deps.rust.source.reported") {
        Some(17)
    } else if str_eq(c, "deps.rust.bans.reported") {
        Some(18)
    } else if str_eq(c, "deps.rust.engine.signal") {
        Some(19)
    } else {
        None
    }
}

/// The finding counts towards feature `k`: it is about Rust and has that code.
pub open spec fn counts_as(f: DoctorFinding, k: int) -> bool {
    f.ecosystem == Some(DoctorEcosystem::Rust) && feature_of(f.code@) == Some(k)
}

/// Number of findings that count towards feature `k`.
pub open spec fn feature_count(fs: Seq<DoctorFinding>, k: int) -> nat
    decreases fs.len(),
{
    if fs.len() == 0 {
        0
    } else {
        feature_count(fs.drop_last(), k) + if counts_as(fs.last(), k) {
            1nat
        } else {
            0nat
        }
    }
}

pub proof fn lemma_feature_count_prefix(fs: Seq<DoctorFinding>, n: int, k: int)
    requires
        0 <= n <= fs.len(),
    ensures
        feature_count(fs.take(n), k) <= feature_count(fs, k),
    decreases fs.len(),
{
    if n < fs.len() {
        assert(fs.drop_last().take(n) =~= fs.take(n));
        lemma_feature_count_prefix(fs.drop_last(), n, k);
    } else {
        assert(fs.take(n) =~= fs);
    }
}

/// Field `k` of a feature vector, in declaration order.
pub open spec fn feature_field(v: RustDepsFeatureVector, k: int) -> nat {
    if k == 0 {
        v.advisory_critical as nat
    } else if k == 1 {
        v.advisory_high as nat
    } else if k == 2 {
        v.advisory_medium as nat
    } else if k == 3 {
        v.advisory_low as nat
    } else if k == 4 {
        v.advisory_unmaintained as nat
    } else if k == 5 {
        v.advisory_yanked as nat
    } else if k == 6 {
        v.advisory_unsound as nat
    } else if k == 7 {
        v.advisory_informational as nat
    } else if k == 8 {
        v.advisory_reported as nat
    } else if k == 9 {
        v.lockfile_missing as nat
    } else if k == 10 {
        v.policy_missing as nat
    } else if k == 11 {
        v.license_missing as nat
    } else if k == 12 {
        v.version_wildcard as nat
    } else if k == 13 {
        v.source_direct as nat
    } else if k == 14 {
        v.source_path as nat
    } else if k == 15 {
        v.source_registry as nat
    } else if k == 16 {
        v.license_reported as nat
    } else if k == 17 {
        v.source_reported as nat
    } else if k == 18 {
        v.bans_reported as nat
    } else {
        v.engine_signal as nat
    }
}

/// Every feature count fits the 16-bit counters.
pub open spec fn feature_counts_fit(fs: Seq<DoctorFinding>) -> bool {
    forall|k: int| 0 <= k < 20 ==> #[trigger] feature_count(fs, k) <= 0xffff
}

pub open spec fn total_advisories_spec(v: RustDepsFeatureVector) -> nat {
    (v.advisory_critical + v.advisory_high + v.advisory_medium + v.advisory_low
        + v.advisory_unmaintained + v.advisory_yanked + v.advisory_unsound
        + v.advisory_informational + v.advisory_reported) as nat
}

impl RustDepsFeatureVector {
    /// Counts the Rust findings of each known code.
    pub fn from_findings(findings: &Vec<DoctorFinding>) -> (v: Self)
        requires
            feature_counts_fit(findings@),
        ensures
            forall|k: int| 0 <= k < 20 ==> #[trigger] feature_field(v, k) == feature_count(findings@, k),
    {
        let mut counts: Vec<u16> = Vec::new();
        let mut j: usize = 0;
        while j < 20
            invariant
                j <= 20,
                counts@.len() == j,
                forall|k: int| 0 <= k < j ==> counts@[k] == 0,
            decreases 20 - j,
        {
            counts.push(0);
            j += 1;
        }
        let mut i: usize = 0;
        while i < findings.len()
            invariant
                i <= findings.len(),
                counts@.len() == 20,
                feature_counts_fit(findings@),
                forall|k: int|
                    0 <= k < 20 ==> #[trigger] counts@[k] == feature_count(findings@.take(i as int), k),
            decreases findings.len() - i,
        {
            assert(findings@.take(i + 1).drop_last() =~= findings@.take(i as int));
            let f = &findings[i];
            if f.ecosystem == Some(DoctorEcosystem::Rust) {
                match feature_index(f.code.as_str()) {
                    Some(k) => {
                        proof {
                            lemma_feature_count_prefix(findings@, i + 1, k as int);
                        }
                        let c = counts[k];
                        counts.set(k, c + 1);
                    },
                    None => {},
                }
            }
            i += 1;
        }
        assert(findings@.take(findings.len() as int) =~= findings@);
        RustDepsFeatureVector {
            advisory_critical: counts[0],
            advisory_high: counts[1],
            advisory_medium: counts[2],
            advisory_low: counts[3],
            advisory_unmaintained: counts[4],
            advisory_yanked: counts[5],
            advisory_unsound: counts[6],
            advisory_informational: counts[7],
            advisory_reported: counts[8],
            lockfile_missing: counts[9],
            policy_missing: counts[10],
            license_missing: counts[11],
            version_wildcard: counts[12],
            source_direct: counts[13],
            source_path: counts[14],
            source_registry: counts[15],
            license_reported: counts[16],
            source_reported: counts[17],
            bans_reported: counts[18],
            engine_signal: counts[19],
        }
    }

    /// Sum of the nine advisory counts (a 16-bit sum).
    pub fn total_advisories(&self) -> (n: u16)
        requires
            total_advisories_spec(*self) <= 0xffff,
        ensures
            n == total_advisories_spec(*self),
    {
        self.advisory_critical + self.advisory_high + self.advisory_medium + self.advisory_low
            + self.advisory_unmaintained + self.advisory_yanked + self.advisory_unsound
            + self.advisory_informational + self.advisory_reported
    }

    /// No advisory was reported: only policy signals.
    pub fn policy_only(&self) -> (b: bool)
        requires
            total_advisories_spec(*self) <= 0xffff,
        ensures
            b == (total_advisories_spec(*self) == 0),
    {
        self.total_advisories() == 0
    }
}

} // verus!

verus! {

/// The feature vector of a list of findings.
pub open spec fn features_spec(fs: Seq<DoctorFinding>) -> RustDepsFeatureVector {
    RustDepsFeatureVector {
        advisory_critical: feature_count(fs, 0) as u16,
        advisory_high: feature_count(fs, 1) as u16,
        advisory_medium: feature_count(fs, 2) as u16,
        advisory_low: feature_count(fs, 3) as u16,
        advisory_unmaintained: feature_count(fs, 4) as u16,
        advisory_yanked: feature_count(fs, 5) as u16,
        advisory_unsound: feature_count(fs, 6) as u16,
        advisory_informational: feature_count(fs, 7) as u16,
        advisory_reported: feature_count(fs, 8) as u16,
        lockfile_missing: feature_count(fs, 9) as u16,
        policy_missing: feature_count(fs, 10) as u16,
        license_missing: feature_count(fs, 11) as u16,
        version_wildcard: feature_count(fs, 12) as u16,
        source_direct: feature_count(fs, 13) as u16,
        source_path: feature_count(fs, 14) as u16,
        source_registry: feature_count(fs, 15) as u16,
        license_reported: feature_count(fs, 16) as u16,
        source_reported: feature_count(fs, 17) as u16,
        bans_reported: feature_count(fs, 18) as u16,
        engine_signal: feature_count(fs, 19) as u16,
    }
}

pub proof fn lemma_features_spec(fs: Seq<DoctorFinding>, v: RustDepsFeatureVector)
    requires
        forall|k: int| 0 <= k < 20 ==> #[trigger] feature_field(v, k) == feature_count(fs, k),
    ensures
        v == features_spec(fs),
{
    assert(feature_field(v, 0) == feature_count(fs, 0));
    assert(feature_field(v, 1) == feature_count(fs, 1));
    assert(feature_field(v, 2) == feature_count(fs, 2));
    assert(feature_field(v, 3) == feature_count(fs, 3));
    assert(feature_field(v, 4) == feature_count(fs, 4));
    assert(feature_field(v, 5) == feature_count(fs, 5));
    assert(feature_field(v, 6) == feature_count(fs, 6));
    assert(feature_field(v, 7) == feature_count(fs, 7));
    assert(feature_field(v, 8) == feature_count(fs, 8));
    assert(feature_field(v, 9) == feature_count(fs, 9));
    assert(feature_field(v, 10) == feature_count(fs, 10));
    assert(feature_field(v, 11) == feature_count(fs, 11));
    assert(feature_field(v, 12) == feature_count(fs, 12));
    assert(feature_field(v, 13) == feature_count(fs, 13));
    assert(feature_field(v, 14) == feature_count(fs, 14));
    assert(feature_field(v, 15) == feature_count(fs, 15));
    assert(feature_field(v, 16) == feature_count(fs, 16));
    assert(feature_field(v, 17) == feature_count(fs, 17));
    assert(feature_field(v, 18) == feature_count(fs, 18));
    assert(feature_field(v, 19) == feature_count(fs, 19));
}

// ---------------------------------------------------------------------------
// Penalty
// ---------------------------------------------------------------------------

pub open spec fn weighted_sum(f: RustDepsFeatureVector, w: RustDepsWeights) -> nat {
    (f.advisory_critical * w.advisory_critical + f.advisory_high * w.advisory_high
        + f.advisory_medium * w.advisory_medium + f.advisory_low * w.advisory_low
        + f.advisory_unmaintained * w.advisory_unmaintained + f.advisory_yanked
        * w.advisory_yanked + f.advisory_unsound * w.advisory_unsound + f.advisory_informational
        * w.advisory_informational + f.advisory_reported * w.advisory_reported
        + f.lockfile_missing * w.lockfile_missing + f.policy_missing * w.policy_missing
        + f.license_missing * w.license_missing + f.version_wildcard * w.version_wildcard
        + f.source_direct * w.source_direct + f.source_path * w.source_path + f.source_registry
        * w.source_registry + f.license_reported * w.license_reported + f.source_reported
        * w.source_reported + f.bans_reported * w.bans_reported + f.engine_signal
        * w.engine_signal) as nat
}

pub open spec fn low_signal_stack(f: RustDepsFeatureVector) -> nat {
    (f.advisory_low + f.advisory_informational) as nat
}

/// The Rust dependency penalty: the weighted counts, plus a charge for each
/// advisory beyond the first and for each low-signal advisory beyond the
/// first.
pub open spec fn rust_penalty_spec(f: RustDepsFeatureVector, p: RustDepsScoringProfile) -> nat {
    let t = total_advisories_spec(f);
    let low = low_signal_stack(f);
    weighted_sum(f, p.weights) + (if t > 1 {
        ((t - 1) * p.combination.repeated_advisory_penalty) as nat
    } else {
        0nat
    }) + (if low > 1 {
        ((low - 1) * p.combination.low_signal_stack_penalty) as nat
    } else {
        0nat
    })
}

/// The penalty arithmetic stays within the 16-bit counters it runs in.
pub open spec fn penalty_fits(f: RustDepsFeatureVector, p: RustDepsScoringProfile) -> bool {
    &&& rust_penalty_spec(f, p) <= 0xffff
    &&& total_advisories_spec(f) <= 0xffff
    &&& low_signal_stack(f) <= 0xffff
}

fn mul16(a: u16, b: u16) -> (r: u64)
    ensures
        r == a * b,
        r <= 0xffff * 0xffff,
{
    assert(a * b <= 0xffff * 0xffff) by (nonlinear_arith)
        requires
            a <= 0xffff,
            b <= 0xffff,
    ;
    (a as u64) * (b as u64)
}

fn rust_deps_penalty(f: &RustDepsFeatureVector, p: &RustDepsScoringProfile) -> (r: u16)
    requires
        penalty_fits(*f, *p),
    ensures
        r == rust_penalty_spec(*f, *p),
{
    let w = &p.weights;
    let mut total: u64 = 0;
    total = total + mul16(f.advisory_critical, w.advisory_critical);
    total = total + mul16(f.advisory_high, w.advisory_high);
    total = total + mul16(f.advisory_medium, w.advisory_medium);
    total = total + mul16(f.advisory_low, w.advisory_low);
    total = total + mul16(f.advisory_unmaintained, w.advisory_unmaintained);
    total = total + mul16(f.advisory_yanked, w.advisory_yanked);
    total = total + mul16(f.advisory_unsound, w.advisory_unsound);
    total = total + mul16(f.advisory_informational, w.advisory_informational);
    total = total + mul16(f.advisory_reported, w.advisory_reported);
    total = total + mul16(f.lockfile_missing, w.lockfile_missing);
    total = total + mul16(f.policy_missing, w.policy_missing);
    total = total + mul16(f.license_missing, w.license_missing);
    total = total + mul16(f.version_wildcard, w.version_wildcard);
    total = total + mul16(f.source_direct, w.source_direct);
    total = total + mul16(f.source_path, w.source_path);
    total = total + mul16(f.source_registry, w.source_registry);
    total = total + mul16(f.license_reported, w.license_reported);
    total = total + mul16(f.source_reported, w.source_reported);
    total = total + mul16(f.bans_reported, w.bans_reported);
    total = total + mul16(f.engine_signal, w.engine_signal);
    assert(total == weighted_sum(*f, *w));
    let advisory_total = f.total_advisories();
    if advisory_total > 1 {
        total = total + mul16(advisory_total - 1, p.combination.repeated_advisory_penalty);
    }
    let low = f.advisory_low + f.advisory_informational;
    if low > 1 {
        total = total + mul16(low - 1, p.combination.low_signal_stack_penalty);
    }
    total as u16
}

// ---------------------------------------------------------------------------
// Cap
// ---------------------------------------------------------------------------

/// How far repeated advisories of one class lower its cap.
pub open spec fn cap_reduction(count: u16, step: u8) -> nat {
    let raw = if count >= 1 {
        ((count - 1) * step) as nat
    } else {
        0nat
    };
    let sat = if raw > 0xffff {
        0xffffnat
    } else {
        raw
    };
    if sat > 255 {
        255nat
    } else {
        sat
    }
}

pub open spec fn sub_floor(a: u8, b: nat) -> u8 {
    if b >= a {
        0u8
    } else {
        (a - b) as u8
    }
}

pub open spec fn candidate(present: bool, cap: u8, class: RustAdvisoryClass) -> Seq<
    (u8, RustAdvisoryClass),
> {
    if present {
        seq![(cap, class)]
    } else {
        Seq::empty()
    }
}

/// The caps that the present advisory classes impose, in a fixed order.
pub open spec fn cap_candidates(f: RustDepsFeatureVector, p: RustDepsScoringProfile) -> Seq<
    (u8, RustAdvisoryClass),
> {
    let c = p.caps;
    let k = p.combination;
    candidate(f.advisory_critical > 0, c.advisory_critical, RustAdvisoryClass::Critical)
        + candidate(f.advisory_high > 0, c.advisory_high, RustAdvisoryClass::High) + candidate(
        f.advisory_unsound > 0,
        c.advisory_unsound,
        RustAdvisoryClass::Unsound,
    ) + candidate(f.advisory_medium > 0, c.advisory_medium, RustAdvisoryClass::Medium)
        + candidate(f.advisory_reported > 0, c.advisory_reported, RustAdvisoryClass::Reported)
        + candidate(
        f.advisory_unmaintained > 0,
        sub_floor(
            c.advisory_unmaintained,
            cap_reduction(f.advisory_unmaintained, k.unmaintained_cap_step),
        ),
        RustAdvisoryClass::Unmaintained,
    ) + candidate(
        f.advisory_yanked > 0,
        sub_floor(c.advisory_yanked, cap_reduction(f.advisory_yanked, k.yanked_cap_step)),
        RustAdvisoryClass::Yanked,
    ) + candidate(f.advisory_low > 0, c.advisory_low, RustAdvisoryClass::Low) + candidate(
        f.advisory_informational > 0,
        c.advisory_informational,
        RustAdvisoryClass::Informational,
    )
}

/// `a` beats `b`: a lower cap, or the same cap and an earlier class.
pub open spec fn beats(a: (u8, RustAdvisoryClass), b: (u8, RustAdvisoryClass)) -> bool {
    a.0 < b.0 || (a.0 == b.0 && class_cap_rank(a.1) < class_cap_rank(b.1))
}

/// The winning candidate: the first one that no later one beats.
pub open spec fn best_candidate(cs: Seq<(u8, RustAdvisoryClass)>) -> Option<(u8, RustAdvisoryClass)>
    decreases cs.len(),
{
    if cs.len() == 0 {
        None
    } else {
        match best_candidate(cs.drop_last()) {
            None => Some(cs.last()),
            Some(b) => if beats(cs.last(), b) {
                Some(cs.last())
            } else {
                Some(b)
            },
        }
    }
}

pub proof fn lemma_best_candidate_min(cs: Seq<(u8, RustAdvisoryClass)>)
    ensures
        cs.len() == 0 <==> best_candidate(cs).is_none(),
        best_candidate(cs).is_some() ==> cs.contains(best_candidate(cs).unwrap()),
        best_candidate(cs).is_some() ==> forall|i: int|
            0 <= i < cs.len() ==> best_candidate(cs).unwrap().0 <= #[trigger] cs[i].0,
    decreases cs.len(),
{
    if cs.len() > 0 {
        lemma_best_candidate_min(cs.drop_last());
        let b = best_candidate(cs).unwrap();
        assert forall|i: int| 0 <= i < cs.len() implies b.0 <= #[trigger] cs[i].0 by {
            if i < cs.len() - 1 {
                assert(cs[i] == cs.drop_last()[i]);
            }
        }
        if best_candidate(cs.drop_last()).is_some() {
            let b0 = best_candidate(cs.drop_last()).unwrap();
            let j = choose|j: int| 0 <= j < cs.drop_last().len() && cs.drop_last()[j] == b0;
            assert(cs[j] == b0);
        }
        assert(cs[cs.len() - 1] == cs.last());
    }
}

fn push_candidate(
    v: &mut Vec<(u8, RustAdvisoryClass)>,
    present: bool,
    cap: u8,
    class: RustAdvisoryClass,
)
    ensures
        final(v)@ == old(v)@ + candidate(present, cap, class),
{
    if present {
        v.push((cap, class));
    } else {
        assert(old(v)@ + Seq::<(u8, RustAdvisoryClass)>::empty() =~= old(v)@);
    }
}

fn reduced_cap(cap: u8, count: u16, step: u8) -> (r: u8)
    ensures
        r == sub_floor(cap, cap_reduction(count, step)),
{
    let raw: u64 = if count >= 1 {
        mul16(count - 1, step as u16)
    } else {
        0
    };
    let sat: u64 = if raw > 0xffff {
        0xffff
    } else {
        raw
    };
    let reduction: u8 = if sat > 255 {
        255
    } else {
        sat as u8
    };
    if reduction >= cap {
        0
    } else {
        cap - reduction
    }
}

#[verifier::rlimit(40)]
fn cap_candidates_vec(f: &RustDepsFeatureVector, p: &RustDepsScoringProfile) -> (v: Vec<
    (u8, RustAdvisoryClass),
>)
    ensures
        v@ == cap_candidates(*f, *p),
{
    let c = &p.caps;
    let k = &p.combination;
    let mut v: Vec<(u8, RustAdvisoryClass)> = Vec::new();
    push_candidate(&mut v, f.advisory_critical > 0, c.advisory_critical, RustAdvisoryClass::Critical);
    assert(v@ =~= candidate(f.advisory_critical > 0, c.advisory_critical, RustAdvisoryClass::Critical));
    push_candidate(&mut v, f.advisory_high > 0, c.advisory_high, RustAdvisoryClass::High);
    push_candidate(&mut v, f.advisory_unsound > 0, c.advisory_unsound, RustAdvisoryClass::Unsound);
    push_candidate(&mut v, f.advisory_medium > 0, c.advisory_medium, RustAdvisoryClass::Medium);
    push_candidate(
        &mut v,
        f.advisory_reported > 0,
        c.advisory_reported,
        RustAdvisoryClass::Reported,
    );
    let unmaintained = reduced_cap(
        c.advisory_unmaintained,
        f.advisory_unmaintained,
        k.unmaintained_cap_step,
    );
    push_candidate(
        &mut v,
        f.advisory_unmaintained > 0,
        unmaintained,
        RustAdvisoryClass::Unmaintained,
    );
    let yanked = reduced_cap(c.advisory_yanked, f.advisory_yanked, k.yanked_cap_step);
    push_candidate(&mut v, f.advisory_yanked > 0, yanked, RustAdvisoryClass::Yanked);
    push_candidate(&mut v, f.advisory_low > 0, c.advisory_low, RustAdvisoryClass::Low);
    push_candidate(
        &mut v,
        f.advisory_informational > 0,
        c.advisory_informational,
        RustAdvisoryClass::Informational,
    );
    v
}

fn rust_deps_cap(f: &RustDepsFeatureVector, p: &RustDepsScoringProfile) -> (r: Option<
    (u8, RustAdvisoryClass),
>)
    ensures
        r == best_candidate(cap_candidates(*f, *p)),
{
    let v = cap_candidates_vec(f, p);
    let mut best: Option<(u8, RustAdvisoryClass)> = None;
    let mut i: usize = 0;
    while i < v.len()
        invariant
            i <= v.len(),
            best == best_candidate(v@.take(i as int)),
        decreases v.len() - i,
    {
        assert(v@.take(i + 1).drop_last() =~= v@.take(i as int));
        let cand = v[i];
        best = match best {
            None => Some(cand),
            Some(b) => {
                if cand.0 < b.0 || (cand.0 == b.0 && cand.1.cap_rank() < b.1.cap_rank()) {
                    Some(cand)
                } else {
                    Some(b)
                }
            },
        };
        i += 1;
    }
    assert(v@.take(v.len() as int) =~= v@);
    best
}

} // verus!

verus! {

// ---------------------------------------------------------------------------
// Cap reason
// ---------------------------------------------------------------------------

pub open spec fn opt_int(o: Option<usize>) -> Option<int> {
    match o {
        Some(i) => Some(i as int),
        None => None,
    }
}

pub open spec fn first_code_eq(fs: Seq<DoctorFinding>, c: Seq<char>) -> Option<int>
    decreases fs.len(),
{
    if fs.len() == 0 {
        None
    } else if fs[0].code@ == c {
        Some(0)
    } else {
        match first_code_eq(fs.drop_first(), c) {
            Some(i) => Some(i + 1),
            None => None,
        }
    }
}

pub open spec fn first_code_prefix(fs: Seq<DoctorFinding>, c: Seq<char>) -> Option<int>
    decreases fs.len(),
{
    if fs.len() == 0 {
        None
    } else if starts_with(fs[0].code@, c) {
        Some(0)
    } else {
        match first_code_prefix(fs.drop_first(), c) {
            Some(i) => Some(i + 1),
            None => None,
        }
    }
}

/// The finding that explains a class's cap: the first with exactly the
/// class code, else the first whose code starts with it.
pub open spec fn finding_for_class_spec(fs: Seq<DoctorFinding>, class: RustAdvisoryClass) -> Option<
    int,
> {
    match first_code_eq(fs, class_code(class)) {
        Some(i) => Some(i),
        None => first_code_prefix(fs, class_code(class)),
    }
}

pub proof fn lemma_first_code_in_range(fs: Seq<DoctorFinding>, c: Seq<char>)
    ensures
        first_code_eq(fs, c) matches Some(i) ==> 0 <= i < fs.len() && fs[i].code@ == c,
        first_code_prefix(fs, c) matches Some(i) ==> 0 <= i < fs.len() && starts_with(
            fs[i].code@,
            c,
        ),
    decreases fs.len(),
{
    if fs.len() > 0 {
        lemma_first_code_in_range(fs.drop_first(), c);
    }
}

fn first_index_where(findings: &Vec<DoctorFinding>, code: &str, exact: bool) -> (r: Option<usize>)
    ensures
        exact ==> opt_int(r) == first_code_eq(findings@, code@),
        !exact ==> opt_int(r) == first_code_prefix(findings@, code@),
        r matches Some(i) ==> i < findings.len(),
{
    let mut i: usize = 0;
    assert(findings@.subrange(0, findings@.len() as int) =~= findings@);
    while i < findings.len()
        invariant
            i <= findings.len(),
            exact ==> first_code_eq(findings@, code@) == (match first_code_eq(
                findings@.subrange(i as int, findings@.len() as int),
                code@,
            ) {
                Some(j) => Some(j + i),
                None => None,
            }),
            !exact ==> first_code_prefix(findings@, code@) == (match first_code_prefix(
                findings@.subrange(i as int, findings@.len() as int),
                code@,
            ) {
                Some(j) => Some(j + i),
                None => None,
            }),
        decreases findings.len() - i,
    {
        let ghost rest = findings@.subrange(i as int, findings@.len() as int);
        assert(rest[0] == findings@[i as int]);
        assert(rest.drop_first() =~= findings@.subrange(i + 1, findings@.len() as int));
        let hit = if exact {
            str_eq(findings[i].code.as_str(), code)
        } else {
            str_starts_with(findings[i].code.as_str(), code)
        };
        if hit {
            return Some(i);
        }
        i += 1;
    }
    None
}

fn finding_for_class(findings: &Vec<DoctorFinding>, class: RustAdvisoryClass) -> (r: Option<usize>)
    ensures
        opt_int(r) == finding_for_class_spec(findings@, class),
        r matches Some(i) ==> i < findings.len(),
{
    match first_index_where(findings, class.code(), true) {
        Some(i) => Some(i),
        None => first_index_where(findings, class.code(), false),
    }
}

/// The value recorded as `key=value` in the first evidence entry that has it.
pub open spec fn evidence_value(ev: Seq<Seq<char>>, key: Seq<char>) -> Option<Seq<char>>
    decreases ev.len(),
{
    if ev.len() == 0 {
        None
    } else if starts_with(ev[0], key + "="@) {
        Some(ev[0].subrange(key.len() as int + 1, ev[0].len() as int))
    } else {
        evidence_value(ev.drop_first(), key)
    }
}

pub open spec fn opt_view(o: Option<String>) -> Option<Seq<char>> {
    match o {
        Some(s) => Some(s@),
        None => None,
    }
}

fn find_evidence_value(finding: &DoctorFinding, key: &str) -> (r: Option<String>)
    ensures
        opt_view(r) == evidence_value(crate::text::views(finding.evidence@), key@),
{
    let prefix = concat_str(key, "=");
    proof {
        reveal_strlit("=");
    }
    let ev = &finding.evidence;
    let mut i: usize = 0;
    assert(crate::text::views(ev@).subrange(0, ev@.len() as int) =~= crate::text::views(ev@));
    while i < ev.len()
        invariant
            i <= ev.len(),
            prefix@ == key@ + "="@,
            prefix@.len() == key@.len() + 1,
            ev@ == finding.evidence@,
            evidence_value(crate::text::views(ev@), key@) == evidence_value(
                crate::text::views(ev@).subrange(i as int, ev@.len() as int),
                key@,
            ),
        decreases ev.len() - i,
    {
        let ghost rest = crate::text::views(ev@).subrange(i as int, ev@.len() as int);
        assert(rest[0] == ev@[i as int]@);
        assert(rest.drop_first() =~= crate::text::views(ev@).subrange(i + 1, ev@.len() as int));
        match crate::text::strip_prefix(ev[i].as_str(), prefix.as_str()) {
            Some(v) => {
                assert(v@ =~= rest[0].subrange(key@.len() as int + 1, rest[0].len() as int));
                return Some(v);
            },
            None => {},
        }
        i += 1;
    }
    None
}

/// The first part of a cap reason: the class label with the advisory id,
/// package and version that the finding records, or the finding's message.
pub open spec fn reason_prefix(fs: Seq<DoctorFinding>, class: RustAdvisoryClass) -> Seq<char> {
    match finding_for_class_spec(fs, class) {
        None => class_label(class),
        Some(i) => {
            let ev = crate::text::views(fs[i].evidence@);
            let id = evidence_value(ev, "advisory.id"@);
            let package = match evidence_value(ev, "crate"@) {
                Some(p) => Some(p),
                None => evidence_value(ev, "package"@),
            };
            let version = evidence_value(ev, "version"@);
            match (id, package, version) {
                (Some(id), Some(p), Some(v)) => class_label(class) + " "@ + id + " for "@ + p
                    + " "@ + v,
                (Some(id), Some(p), None) => class_label(class) + " "@ + id + " for "@ + p,
                (Some(id), None, None) => class_label(class) + " "@ + id,
                _ => fs[i].message@,
            }
        },
    }
}

pub open spec fn cap_reason_spec(fs: Seq<DoctorFinding>, class: RustAdvisoryClass, cap: u8) -> Seq<
    char,
> {
    reason_prefix(fs, class) + " capped Rust dependency score at "@ + decimal(cap as nat)
        + "/100"@
}

fn describe_cap_reason(class: RustAdvisoryClass, cap: u8, findings: &Vec<DoctorFinding>) -> (r:
    String)
    ensures
        r@ == cap_reason_spec(findings@, class, cap),
{
    let prefix = match finding_for_class(findings, class) {
        None => class.label().to_owned(),
        Some(i) => {
            let f = &findings[i];
            let id = find_evidence_value(f, "advisory.id");
            let package = match find_evidence_value(f, "crate") {
                Some(p) => Some(p),
                None => find_evidence_value(f, "package"),
            };
            let version = find_evidence_value(f, "version");
            match (id, package, version) {
                (Some(id), Some(p), Some(v)) => {
                    let mut s = concat_str(class.label(), " ");
                    s.append(id.as_str());
                    s.append(" for ");
                    s.append(p.as_str());
                    s.append(" ");
                    s.append(v.as_str());
                    s
                },
                (Some(id), Some(p), None) => {
                    let mut s = concat_str(class.label(), " ");
                    s.append(id.as_str());
                    s.append(" for ");
                    s.append(p.as_str());
                    s
                },
                (Some(id), None, None) => {
                    let mut s = concat_str(class.label(), " ");
                    s.append(id.as_str());
                    s
                },
                _ => f.message.clone(),
            }
        },
    };
    let mut r = prefix;
    r.append(" capped Rust dependency score at ");
    r.append(decimal_string(cap as u64).as_str());
    r.append("/100");
    r
}

// ---------------------------------------------------------------------------
// Score
// ---------------------------------------------------------------------------

#[derive(Debug, Clone)]
pub struct RustDepsScoringOutcome {
    pub score: u8,
    pub cap: Option<u8>,
    pub cap_reason: Option<String>,
    pub cap_code: Option<String>,
    pub features: RustDepsFeatureVector,
}

/// The Rust dependency score: 100 less the penalty; at least the policy-only
/// floor when no advisory was reported; at most the winning cap.
pub open spec fn rust_score_spec(f: RustDepsFeatureVector, p: RustDepsScoringProfile) -> nat {
    let base = crate::doctor::score_after(rust_penalty_spec(f, p));
    let floor = p.combination.policy_only_floor as nat;
    let s1 = if total_advisories_spec(f) == 0 && base < floor {
        floor
    } else {
        base
    };
    match best_candidate(cap_candidates(f, p)) {
        Some(c) => crate::doctor::min_nat(s1, c.0 as nat),
        None => s1,
    }
}

/// What a scoring run promises about its outcome.
pub open spec fn outcome_matches(
    o: RustDepsScoringOutcome,
    f: RustDepsFeatureVector,
    fs: Seq<DoctorFinding>,
    p: RustDepsScoringProfile,
) -> bool {
    &&& o.score == rust_score_spec(f, p)
    &&& o.features == f
    &&& match best_candidate(cap_candidates(f, p)) {
        Some(c) => {
            &&& o.cap == Some(c.0)
            &&& o.cap_code matches Some(code) && code@ == class_code(c.1)
            &&& o.cap_reason matches Some(reason) && reason@ == cap_reason_spec(fs, c.1, c.0)
        },
        None => o.cap.is_none() && o.cap_code.is_none() && o.cap_reason.is_none(),
    }
}

pub fn score_rust_deps_features(
    features: &RustDepsFeatureVector,
    findings: &Vec<DoctorFinding>,
    profile: &RustDepsScoringProfile,
) -> (o: RustDepsScoringOutcome)
    requires
        penalty_fits(*features, *profile),
    ensures
        outcome_matches(o, *features, findings@, *profile),
{
    let penalty = rust_deps_penalty(features, profile);
    let mut score: u8 = if penalty >= 100 {
        0
    } else {
        (100 - penalty) as u8
    };
    if features.policy_only() && score < profile.combination.policy_only_floor {
        score = profile.combination.policy_only_floor;
    }
    let best = rust_deps_cap(features, profile);
    match best {
        Some((cap, class)) => {
            if cap < score {
                score = cap;
            }
            RustDepsScoringOutcome {
                score,
                cap: Some(cap),
                cap_reason: Some(describe_cap_reason(class, cap, findings)),
                cap_code: Some(class.code().to_owned()),
                features: *features,
            }
        },
        None => RustDepsScoringOutcome {
            score,
            cap: None,
            cap_reason: None,
            cap_code: None,
            features: *features,
        },
    }
}

/// Counts the features of `findings` and scores them under `profile`.
pub fn score_rust_deps_findings(findings: &Vec<DoctorFinding>, profile: &RustDepsScoringProfile) -> (o:
    RustDepsScoringOutcome)
    requires
        feature_counts_fit(findings@),
        penalty_fits(features_spec(findings@), *profile),
    ensures
        outcome_matches(o, features_spec(findings@), findings@, *profile),
{
    let features = RustDepsFeatureVector::from_findings(findings);
    proof {
        lemma_features_spec(findings@, features);
    }
    score_rust_deps_features(&features, findings, profile)
}

pub proof fn lemma_feature_count_le(fs: Seq<DoctorFinding>, k: int)
    ensures
        feature_count(fs, k) <= fs.len(),
    decreases fs.len(),
{
    if fs.len() > 0 {
        lemma_feature_count_le(fs.drop_last(), k);
    }
}

/// Does every feature count of the findings fit the 16-bit counters?
pub fn feature_counts_within(findings: &Vec<DoctorFinding>) -> (b: bool)
    ensures
        b == feature_counts_fit(findings@),
{
    let mut counts: Vec<u64> = Vec::new();
    let mut j: usize = 0;
    while j < 20
        invariant
            j <= 20,
            counts@.len() == j,
            forall|k: int| 0 <= k < j ==> counts@[k] == 0,
        decreases 20 - j,
    {
        counts.push(0);
        j += 1;
    }
    let n = findings.len();
    let mut i: usize = 0;
    while i < n
        invariant
            i <= n,
            n == findings@.len(),
            counts@.len() == 20,
            forall|k: int|
                0 <= k < 20 ==> #[trigger] counts@[k] == feature_count(findings@.take(i as int), k),
        decreases n - i,
    {
        assert(findings@.take(i + 1).drop_last() =~= findings@.take(i as int));
        let f = &findings[i];
        if f.ecosystem == Some(DoctorEcosystem::Rust) {
            match feature_index(f.code.as_str()) {
                Some(k) => {
                    proof {
                        lemma_feature_count_le(findings@.take(i as int), k as int);
                    }
                    let c = counts[k];
                    counts.set(k, c + 1);
                },
                None => {},
            }
        }
        i += 1;
    }
    assert(findings@.take(n as int) =~= findings@);
    let mut k: usize = 0;
    while k < 20
        invariant
            k <= 20,
            counts@.len() == 20,
            forall|t: int| 0 <= t < 20 ==> #[trigger] counts@[t] == feature_count(findings@, t),
            forall|t: int| 0 <= t < k ==> #[trigger] feature_count(findings@, t) <= 0xffff,
        decreases 20 - k,
    {
        if counts[k] > 0xffff {
            assert(!(feature_count(findings@, k as int) <= 0xffff));
            return false;
        }
        k += 1;
    }
    true
}

/// Does the penalty arithmetic for `f` under `p` fit its 16-bit counters?
pub fn penalty_within(f: &RustDepsFeatureVector, p: &RustDepsScoringProfile) -> (b: bool)
    ensures
        b == penalty_fits(*f, *p),
{
    let w = &p.weights;
    let mut total: u64 = 0;
    total = total + mul16(f.advisory_critical, w.advisory_critical);
    total = total + mul16(f.advisory_high, w.advisory_high);
    total = total + mul16(f.advisory_medium, w.advisory_medium);
    total = total + mul16(f.advisory_low, w.advisory_low);
    total = total + mul16(f.advisory_unmaintained, w.advisory_unmaintained);
    total = total + mul16(f.advisory_yanked, w.advisory_yanked);
    total = total + mul16(f.advisory_unsound, w.advisory_unsound);
    total = total + mul16(f.advisory_informational, w.advisory_informational);
    total = total + mul16(f.advisory_reported, w.advisory_reported);
    total = total + mul16(f.lockfile_missing, w.lockfile_missing);
    total = total + mul16(f.policy_missing, w.policy_missing);
    total = total + mul16(f.license_missing, w.license_missing);
    total = total + mul16(f.version_wildcard, w.version_wildcard);
    total = total + mul16(f.source_direct, w.source_direct);
    total = total + mul16(f.source_path, w.source_path);
    total = total + mul16(f.source_registry, w.source_registry);
    total = total + mul16(f.license_reported, w.license_reported);
    total = total + mul16(f.source_reported, w.source_reported);
    total = total + mul16(f.bans_reported, w.bans_reported);
    total = total + mul16(f.engine_signal, w.engine_signal);
    assert(total == weighted_sum(*f, *w));
    let t: u64 = f.advisory_critical as u64 + f.advisory_high as u64 + f.advisory_medium as u64
        + f.advisory_low as u64 + f.advisory_unmaintained as u64 + f.advisory_yanked as u64
        + f.advisory_unsound as u64 + f.advisory_informational as u64 + f.advisory_reported as u64;
    let low: u64 = f.advisory_low as u64 + f.advisory_informational as u64;
    if t > 1 {
        let extra = t - 1;
        assert(extra * p.combination.repeated_advisory_penalty <= 600000 * 0xffff) by (nonlinear_arith)
            requires
                extra <= 600000,
                p.combination.repeated_advisory_penalty <= 0xffff,
        ;
        total = total + extra * (p.combination.repeated_advisory_penalty as u64);
    }
    if low > 1 {
        let extra = low - 1;
        assert(extra * p.combination.low_signal_stack_penalty <= 200000 * 0xffff) by (nonlinear_arith)
            requires
                extra <= 200000,
                p.combination.low_signal_stack_penalty <= 0xffff,
        ;
        total = total + extra * (p.combination.low_signal_stack_penalty as u64);
    }
    total <= 0xffff && t <= 0xffff && low <= 0xffff
}

} // verus!
