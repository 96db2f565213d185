//! Repository configuration (`ossify.toml`): defaults, rule overrides and
//! required levels.
use vstd::prelude::*;
use crate::text::{trim, trim_seq};

verus! {

/// The level a rule must reach for a strict audit to pass.
#[derive(Debug, Clone, Copy, PartialEq, Eq, Structural)]
pub enum RuleRequirement {
    Partial,
    Strong,
}

/// Defaults used when generating files.
#[derive(Debug, Clone)]
pub struct ConfigDefaults {
    pub owner: Option<String>,
    pub license: Option<String>,
    pub funding: Option<String>,
}

/// A per-rule override: enable or disable it, reweigh it, require a level.
#[derive(Debug, Clone)]
pub struct RuleOverride {
    pub enabled: Option<bool>,
    pub weight: Option<u16>,
    pub required_level: Option<RuleRequirement>,
}

/// `[defaults]` as written in the file.
#[derive(Debug, Clone)]
pub struct RawDefaults {
    pub owner: Option<String>,
    pub license: Option<String>,
    pub funding: Option<String>,
}

/// A `[rules.<id>]` table as written in the file.
#[derive(Debug, Clone)]
pub struct RawRuleOverride {
    pub enabled: Option<bool>,
    pub weight: Option<u16>,
    pub required_level: Option<RuleRequirement>,
}

/// A default value trimmed, and dropped when nothing is left.
pub open spec fn cleaned_default(v: Option<String>) -> Option<Seq<char>> {
    match v {
        Some(s) => if trim_seq(s@).len() > 0 {
            Some(trim_seq(s@))
        } else {
            None
        },
        None => None,
    }
}

fn clean_default(v: Option<String>) -> (r: Option<String>)
    ensures
        crate::rust_deps::opt_view(r) == cleaned_default(v),
{
    match v {
        Some(s) => {
            let t = trim(s.as_str());
            if t.unicode_len() > 0 {
                Some(t)
            } else {
                None
            }
        },
        None => None,
    }
}

impl RawDefaults {
    pub fn into_config_defaults(self) -> (d: ConfigDefaults)
        ensures
            crate::rust_deps::opt_view(d.owner) == cleaned_default(self.owner),
            crate::rust_deps::opt_view(d.license) == cleaned_default(self.license),
            crate::rust_deps::opt_view(d.funding) == cleaned_default(self.funding),
    {
        ConfigDefaults {
            owner: clean_default(self.owner),
            license: clean_default(self.license),
            funding: clean_default(self.funding),
        }
    }
}

impl RawRuleOverride {
    /// A zero weight counts as no weight.
    pub fn into_rule_override(self) -> (r: RuleOverride)
        ensures
            r.enabled == self.enabled,
            r.weight == (match self.weight {
                Some(w) => if w > 0 {
                    Some(w)
                } else {
                    None
                },
                None => None,
            }),
            r.required_level == self.required_level,
    {
        RuleOverride {
            enabled: self.enabled,
            weight: match self.weight {
                Some(w) => if w > 0 {
                    Some(w)
                } else {
                    None
                },
                None => None,
            },
            required_level: self.required_level,
        }
    }
}

// ---------------------------------------------------------------------------
// The configuration
// ---------------------------------------------------------------------------

/// A repository's configuration, apart from the category weights.
#[derive(Debug, Clone)]
pub struct OssifyConfig {
    /// The file it was read from, if any.
    pub source: Option<String>,
    pub profile: Option<crate::project::RepoProfile>,
    pub minimum_score: u8,
    pub defaults: ConfigDefaults,
    /// Rule overrides by rule id, sorted by id, each id once.
    pub rules: Vec<(String, RuleOverride)>,
}

impl Default for OssifyConfig {
    /// No file, no profile, a minimum score of 85, no defaults, no overrides.
    fn default() -> (c: OssifyConfig)
        ensures
            c.source.is_none(),
            c.profile.is_none(),
            c.minimum_score == 85,
            c.defaults.owner.is_none() && c.defaults.license.is_none() && c.defaults.funding.is_none(),
            c.rules@.len() == 0,
    {
        OssifyConfig {
            source: None,
            profile: None,
            minimum_score: 85,
            defaults: ConfigDefaults { owner: None, license: None, funding: None },
            rules: Vec::new(),
        }
    }
}

/// The first override for rule `id`.
pub open spec fn override_index(rules: Seq<(String, RuleOverride)>, id: Seq<char>) -> Option<int>
    decreases rules.len(),
{
    if rules.len() == 0 {
        None
    } else {
        match override_index(rules.drop_last(), id) {
            Some(i) => Some(i),
            None => if rules.last().0@ == id {
                Some(rules.len() - 1)
            } else {
                None
            },
        }
    }
}

pub proof fn lemma_override_index(rules: Seq<(String, RuleOverride)>, id: Seq<char>)
    ensures
        override_index(rules, id) matches Some(i) ==> 0 <= i < rules.len() && rules[i].0@ == id,
    decreases rules.len(),
{
    if rules.len() > 0 {
        lemma_override_index(rules.drop_last(), id);
    }
}

/// The override of rule `id`, if the configuration has one.
pub open spec fn override_of(c: OssifyConfig, id: Seq<char>) -> Option<RuleOverride> {
    match override_index(c.rules@, id) {
        Some(i) => Some(c.rules@[i].1),
        None => None,
    }
}

fn opt_str(o: &Option<String>) -> (r: Option<&str>)
    ensures
        match o {
            Some(s) => r matches Some(x) && x@ == s@,
            None => r.is_none(),
        },
{
    match o {
        Some(s) => Some(s.as_str()),
        None => None,
    }
}

impl OssifyConfig {
    pub fn source(&self) -> (r: Option<&str>)
        ensures
            match self.source {
                Some(s) => r matches Some(x) && x@ == s@,
                None => r.is_none(),
            },
    {
        opt_str(&self.source)
    }

    pub fn profile_override(&self) -> (r: Option<crate::project::RepoProfile>)
        ensures
            r == self.profile,
    {
        self.profile
    }

    pub fn minimum_score(&self) -> (r: u8)
        ensures
            r == self.minimum_score,
    {
        self.minimum_score
    }

    pub fn default_owner(&self) -> (r: Option<&str>)
        ensures
            match self.defaults.owner {
                Some(s) => r matches Some(x) && x@ == s@,
                None => r.is_none(),
            },
    {
        opt_str(&self.defaults.owner)
    }

    pub fn default_license(&self) -> (r: Option<&str>)
        ensures
            match self.defaults.license {
                Some(s) => r matches Some(x) && x@ == s@,
                None => r.is_none(),
            },
    {
        opt_str(&self.defaults.license)
    }

    pub fn default_funding(&self) -> (r: Option<&str>)
        ensures
            match self.defaults.funding {
                Some(s) => r matches Some(x) && x@ == s@,
                None => r.is_none(),
            },
    {
        opt_str(&self.defaults.funding)
    }

    pub fn rule_override(&self, id: &str) -> (r: Option<&RuleOverride>)
        ensures
            match override_of(*self, id@) {
                Some(o) => r matches Some(x) && *x == o,
                None => r.is_none(),
            },
    {
        let mut i: usize = 0;
        while i < self.rules.len()
            invariant
                i <= self.rules.len(),
                override_index(self.rules@.take(i as int), id@).is_none(),
            decreases self.rules.len() - i,
        {
            assert(self.rules@.take(i + 1).drop_last() =~= self.rules@.take(i as int));
            if crate::text::str_eq(self.rules[i].0.as_str(), id) {
                assert(override_index(self.rules@.take(i + 1), id@) == Some(i as int));
                proof {
                    lemma_override_index_prefix(self.rules@, i + 1, id@);
                }
                return Some(&self.rules[i].1);
            }
            i += 1;
        }
        assert(self.rules@.take(self.rules.len() as int) =~= self.rules@);
        None
    }

    /// Rules are enabled unless an override disables them.
    pub fn rule_enabled(&self, id: &str) -> (b: bool)
        ensures
            b == (match override_of(*self, id@) {
                Some(o) => match o.enabled {
                    Some(e) => e,
                    None => true,
                },
                None => true,
            }),
    {
        match self.rule_override(id) {
            Some(o) => match o.enabled {
                Some(e) => e,
                None => true,
            },
            None => true,
        }
    }

    pub fn rule_weight(&self, id: &str) -> (w: Option<u16>)
        ensures
            w == (match override_of(*self, id@) {
                Some(o) => o.weight,
                None => None,
            }),
    {
        match self.rule_override(id) {
            Some(o) => o.weight,
            None => None,
        }
    }

    pub fn rule_requirement(&self, id: &str) -> (r: Option<RuleRequirement>)
        ensures
            r == (match override_of(*self, id@) {
                Some(o) => o.required_level,
                None => None,
            }),
    {
        match self.rule_override(id) {
            Some(o) => o.required_level,
            None => None,
        }
    }
}

proof fn lemma_override_index_prefix(rules: Seq<(String, RuleOverride)>, n: int, id: Seq<char>)
    requires
        0 <= n <= rules.len(),
        override_index(rules.take(n), id).is_some(),
    ensures
        override_index(rules, id) == override_index(rules.take(n), id),
    decreases rules.len(),
{
    if n < rules.len() {
        assert(rules.drop_last().take(n) =~= rules.take(n));
        lemma_override_index_prefix(rules.drop_last(), n, id);
    } else {
        assert(rules.take(n) =~= rules);
    }
}

/// A configuration file as written, apart from its category weights.
#[derive(Debug, Clone)]
pub struct RawConfig {
    pub version: Option<u8>,
    pub profile: Option<crate::project::RepoProfile>,
    pub minimum_score: Option<u8>,
    pub defaults: Option<RawDefaults>,
    /// `[rules.<id>]` tables, sorted by id, each id once.
    pub rules: Vec<(String, RawRuleOverride)>,
}

/// A configuration file this version cannot read.
#[derive(Debug, Clone, Copy, PartialEq, Eq, Structural)]
pub enum ConfigError {
    UnsupportedVersion(u8),
}

/// The minimum score a file asks for, held between 1 and 100; 85 when it
/// asks for none.
pub open spec fn minimum_score_of(m: Option<u8>) -> u8 {
    match m {
        Some(v) => if v < 1 {
            1
        } else if v > 100 {
            100
        } else {
            v
        },
        None => 85,
    }
}

/// The configuration a file gives, read from `source`.  Only version 1
/// files are read.
pub fn config_from_raw(raw: RawConfig, source: String) -> (r: Result<OssifyConfig, ConfigError>)
    ensures
        match raw.version {
            Some(v) => v != 1 ==> r == Err::<OssifyConfig, ConfigError>(
                ConfigError::UnsupportedVersion(v),
            ),
            None => true,
        },
        (raw.version.is_none() || raw.version == Some(1u8)) ==> (r matches Ok(c) && {
            &&& c.source matches Some(s) && s@ == source@
            &&& c.profile == raw.profile
            &&& c.minimum_score == minimum_score_of(raw.minimum_score)
            &&& match raw.defaults {
                Some(d) => {
                    &&& crate::rust_deps::opt_view(c.defaults.owner) == cleaned_default(d.owner)
                    &&& crate::rust_deps::opt_view(c.defaults.license) == cleaned_default(d.license)
                    &&& crate::rust_deps::opt_view(c.defaults.funding) == cleaned_default(d.funding)
                },
                None => c.defaults.owner.is_none() && c.defaults.license.is_none()
                    && c.defaults.funding.is_none(),
            }
            &&& c.rules@.len() == raw.rules@.len()
            &&& forall|i: int|
                0 <= i < raw.rules@.len() ==> {
                    &&& (#[trigger] c.rules@[i]).0@ == raw.rules@[i].0@
                    &&& c.rules@[i].1.enabled == raw.rules@[i].1.enabled
                    &&& c.rules@[i].1.required_level == raw.rules@[i].1.required_level
                    &&& c.rules@[i].1.weight == (match raw.rules@[i].1.weight {
                        Some(w) => if w > 0 {
                            Some(w)
                        } else {
                            None
                        },
                        None => None,
                    })
                }
        }),
{
    match raw.version {
        Some(v) => {
            if v != 1 {
                return Err(ConfigError::UnsupportedVersion(v));
            }
        },
        None => {},
    }
    let minimum_score: u8 = match raw.minimum_score {
        Some(v) => if v < 1 {
            1
        } else if v > 100 {
            100
        } else {
            v
        },
        None => 85,
    };
    let defaults = match raw.defaults {
        Some(d) => d.into_config_defaults(),
        None => ConfigDefaults { owner: None, license: None, funding: None },
    };
    let mut rules: Vec<(String, RuleOverride)> = Vec::new();
    let mut i: usize = 0;
    while i < raw.rules.len()
        invariant
            i <= raw.rules.len(),
            rules@.len() == i,
            forall|k: int|
                0 <= k < i ==> {
                    &&& (#[trigger] rules@[k]).0@ == raw.rules@[k].0@
                    &&& rules@[k].1.enabled == raw.rules@[k].1.enabled
                    &&& rules@[k].1.required_level == raw.rules@[k].1.required_level
                    &&& rules@[k].1.weight == (match raw.rules@[k].1.weight {
                        Some(w) => if w > 0 {
                            Some(w)
                        } else {
                            None
                        },
                        None => None,
                    })
                },
        decreases raw.rules.len() - i,
    {
        let (id, o) = &raw.rules[i];
        let r = RawRuleOverride {
            enabled: o.enabled,
            weight: o.weight,
            required_level: o.required_level,
        };
        rules.push((id.clone(), r.into_rule_override()));
        i += 1;
    }
    Ok(OssifyConfig { source: Some(source), profile: raw.profile, minimum_score, defaults, rules })
}

} // verus!
