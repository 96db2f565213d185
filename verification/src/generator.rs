//! Scaffolding: which files the generator plans for which audit rule, what
//! it does with each (create, update or skip), and what the plan promises
//! to the audit.
use vstd::prelude::*;
use crate::audit::{CheckStatus, PlannedCheckUpgrade};
use crate::project::ProjectContext;
use crate::text::{concat_str, join_seq, join_strings, str_eq, views};

verus! {

/// The license a scaffold writes.
#[derive(Debug, Clone, Copy, PartialEq, Eq, Structural)]
pub enum LicenseKind {
    Mit,
    Apache2,
}

pub open spec fn license_name(l: LicenseKind) -> Seq<char> {
    match l {
        LicenseKind::Mit => "mit"@,
        LicenseKind::Apache2 => "apache-2.0"@,
    }
}

/// The names `LicenseKind::parse` accepts for each license.
pub open spec fn parse_license_spec(v: Seq<char>) -> Option<LicenseKind> {
    if v == "mit"@ || v == "MIT"@ {
        Some(LicenseKind::Mit)
    } else if v == "apache-2.0"@ || v == "Apache-2.0"@ || v == "apache"@ {
        Some(LicenseKind::Apache2)
    } else {
        None
    }
}

impl LicenseKind {
    /// A license from its command-line name.
    pub fn parse(value: &str) -> (r: Result<LicenseKind, String>)
        ensures
            match parse_license_spec(value@) {
                Some(l) => r == Ok::<LicenseKind, String>(l),
                None => r matches Err(m) && m@ == "Unsupported license: "@ + value@
                    + ". Use `mit` or `apache-2.0`."@,
            },
    {
        if str_eq(value, "mit") || str_eq(value, "MIT") {
            Ok(LicenseKind::Mit)
        } else if str_eq(value, "apache-2.0") || str_eq(value, "Apache-2.0") || str_eq(
            value,
            "apache",
        ) {
            Ok(LicenseKind::Apache2)
        } else {
            let mut m = concat_str("Unsupported license: ", value);
            m.append(". Use `mit` or `apache-2.0`.");
            Err(m)
        }
    }

    /// The license's name as the command line and the JSON output write it.
    pub fn name(self) -> (r: &'static str)
        ensures
            r@ == license_name(self),
    {
        match self {
            LicenseKind::Mit => "mit",
            LicenseKind::Apache2 => "apache-2.0",
        }
    }
}

/// What the generator did, or would do, with a file.
#[derive(Debug, Clone, Copy, PartialEq, Eq, Structural)]
pub enum FileAction {
    Created,
    Updated,
    Skipped,
}

/// Which command produced a scaffold report.
#[derive(Debug, Clone, Copy, PartialEq, Eq, Structural)]
pub enum ScaffoldMode {
    Init,
    Fix,
    Plan,
}

pub open spec fn mode_str(m: ScaffoldMode) -> Seq<char> {
    match m {
        ScaffoldMode::Init => "init"@,
        ScaffoldMode::Fix => "fix"@,
        ScaffoldMode::Plan => "plan"@,
    }
}

impl ScaffoldMode {
    pub fn as_str(self) -> (r: &'static str)
        ensures
            r@ == mode_str(self),
    {
        match self {
            ScaffoldMode::Init => "init",
            ScaffoldMode::Fix => "fix",
            ScaffoldMode::Plan => "plan",
        }
    }
}

/// The options of `init` and `fix`.
#[derive(Debug, Clone)]
pub struct InitOptions {
    pub overwrite: bool,
    pub license: LicenseKind,
    pub owner: String,
    pub funding: Option<String>,
}

/// One file of a scaffold and what happened to it.
#[derive(Debug, Clone)]
pub struct GeneratedFile {
    pub path: String,
    pub action: FileAction,
    pub reason: Option<String>,
}

/// A scaffold run: where, which mode, the project and its files.
#[derive(Debug, Clone)]
pub struct InitReport {
    pub target: String,
    pub mode: ScaffoldMode,
    pub project: ProjectContext,
    pub files: Vec<GeneratedFile>,
}

// ---------------------------------------------------------------------------
// Scaffold items and audit rules
// ---------------------------------------------------------------------------

/// A unit of scaffolding, tied to one audit rule.
#[derive(Debug, Clone, Copy, PartialEq, Eq, Structural)]
pub enum ScaffoldItem {
    Readme,
    License,
    Contributing,
    CodeOfConduct,
    Security,
    Changelog,
    IssueTemplates,
    PullRequestTemplate,
    CiWorkflow,
    Codeowners,
    Funding,
    Dependabot,
    ReleaseWorkflow,
}

/// The audit rule an item satisfies.
pub open spec fn check_of(item: ScaffoldItem) -> Seq<char> {
    match item {
        ScaffoldItem::Readme => "readme"@,
        ScaffoldItem::License => "license"@,
        ScaffoldItem::Contributing => "contributing_guide"@,
        ScaffoldItem::CodeOfConduct => "code_of_conduct"@,
        ScaffoldItem::Security => "security_policy"@,
        ScaffoldItem::Changelog => "changelog"@,
        ScaffoldItem::IssueTemplates => "issue_templates"@,
        ScaffoldItem::PullRequestTemplate => "pull_request_template"@,
        ScaffoldItem::CiWorkflow => "ci_workflow"@,
        ScaffoldItem::Codeowners => "codeowners"@,
        ScaffoldItem::Funding => "funding"@,
        ScaffoldItem::Dependabot => "dependabot"@,
        ScaffoldItem::ReleaseWorkflow => "release_workflow"@,
    }
}

/// Every item, in scaffolding order.
pub open spec fn all_items() -> Seq<ScaffoldItem> {
    seq![
        ScaffoldItem::Readme,
        ScaffoldItem::License,
        ScaffoldItem::Contributing,
        ScaffoldItem::CodeOfConduct,
        ScaffoldItem::Security,
        ScaffoldItem::Changelog,
        ScaffoldItem::IssueTemplates,
        ScaffoldItem::PullRequestTemplate,
        ScaffoldItem::CiWorkflow,
        ScaffoldItem::Codeowners,
        ScaffoldItem::Funding,
        ScaffoldItem::Dependabot,
        ScaffoldItem::ReleaseWorkflow,
    ]
}

/// The item for an audit rule, if the generator can fix that rule.
pub open spec fn item_for_check_spec(id: Seq<char>) -> Option<ScaffoldItem> {
    if exists|i: int| 0 <= i < all_items().len() && check_of(#[trigger] all_items()[i]) == id {
        Some(all_items()[choose|i: int| 0 <= i < all_items().len() && check_of(#[trigger] all_items()[i]) == id])
    } else {
        None
    }
}

/// Every item the generator knows, in order.
pub fn all_fixable_items() -> (r: Vec<ScaffoldItem>)
    ensures
        r@ == all_items(),
{
    let r = vec![
        ScaffoldItem::Readme,
        ScaffoldItem::License,
        ScaffoldItem::Contributing,
        ScaffoldItem::CodeOfConduct,
        ScaffoldItem::Security,
        ScaffoldItem::Changelog,
        ScaffoldItem::IssueTemplates,
        ScaffoldItem::PullRequestTemplate,
        ScaffoldItem::CiWorkflow,
        ScaffoldItem::Codeowners,
        ScaffoldItem::Funding,
        ScaffoldItem::Dependabot,
        ScaffoldItem::ReleaseWorkflow,
    ];
    assert(r@ =~= all_items());
    r
}

/// The audit rule an item satisfies.
pub fn check_for_item(item: ScaffoldItem) -> (r: &'static str)
    ensures
        r@ == check_of(item),
{
    match item {
        ScaffoldItem::Readme => "readme",
        ScaffoldItem::License => "license",
        ScaffoldItem::Contributing => "contributing_guide",
        ScaffoldItem::CodeOfConduct => "code_of_conduct",
        ScaffoldItem::Security => "security_policy",
        ScaffoldItem::Changelog => "changelog",
        ScaffoldItem::IssueTemplates => "issue_templates",
        ScaffoldItem::PullRequestTemplate => "pull_request_template",
        ScaffoldItem::CiWorkflow => "ci_workflow",
        ScaffoldItem::Codeowners => "codeowners",
        ScaffoldItem::Funding => "funding",
        ScaffoldItem::Dependabot => "dependabot",
        ScaffoldItem::ReleaseWorkflow => "release_workflow",
    }
}

/// Distinct items satisfy distinct rules.
pub proof fn lemma_check_of_injective(a: ScaffoldItem, b: ScaffoldItem)
    ensures
        check_of(a) == check_of(b) ==> a == b,
{
    reveal_strlit("readme");
    reveal_strlit("license");
    reveal_strlit("contributing_guide");
    reveal_strlit("code_of_conduct");
    reveal_strlit("security_policy");
    reveal_strlit("changelog");
    reveal_strlit("issue_templates");
    reveal_strlit("pull_request_template");
    reveal_strlit("ci_workflow");
    reveal_strlit("codeowners");
    reveal_strlit("funding");
    reveal_strlit("dependabot");
    reveal_strlit("release_workflow");
    if check_of(a) == check_of(b) && a != b {
        assert(check_of(a).len() != check_of(b).len() || check_of(a)[0] != check_of(b)[0] || check_of(
            a,
        )[1] != check_of(b)[1] || check_of(a)[2] != check_of(b)[2] || check_of(a)[3]
            != check_of(b)[3] || check_of(a)[4] != check_of(b)[4] || check_of(a)[5] != check_of(
            b,
        )[5] || check_of(a)[6] != check_of(b)[6]);
    }
}

/// The item for an audit rule, if the generator can fix that rule.
pub fn item_for_check(id: &str) -> (r: Option<ScaffoldItem>)
    ensures
        r == item_for_check_spec(id@),
        r matches Some(item) ==> check_of(item) == id@,
{
    let items = all_fixable_items();
    let mut i: usize = 0;
    while i < items.len()
        invariant
            i <= items.len(),
            items@ == all_items(),
            forall|k: int| 0 <= k < i ==> check_of(#[trigger] all_items()[k]) != id@,
        decreases items.len() - i,
    {
        if str_eq(check_for_item(items[i]), id) {
            proof {
                let j = choose|j: int| 0 <= j < all_items().len() && check_of(#[trigger] all_items()[j]) == id@;
                lemma_check_of_injective(all_items()[j], items@[i as int]);
            }
            return Some(items[i]);
        }
        i += 1;
    }
    None
}

// ---------------------------------------------------------------------------
// Planning files
// ---------------------------------------------------------------------------

/// A planned change to one file: the item it belongs to, what happens to
/// the file, and the content to write when it is written.
#[derive(Debug, Clone)]
pub struct PlannedFileChange {
    pub item: ScaffoldItem,
    pub generated: GeneratedFile,
    pub content: Option<String>,
}

pub open spec fn opt_view(o: Option<String>) -> Option<Seq<char>> {
    match o {
        Some(s) => Some(s@),
        None => None,
    }
}

/// What happens to a file the scaffold would write: without content it is
/// skipped for the given reason (or for missing inputs); an existing file is
/// kept unless overwriting; otherwise it is created or updated.
pub open spec fn plan_file_matches(
    r: PlannedFileChange,
    item: ScaffoldItem,
    path: Seq<char>,
    content: Option<Seq<char>>,
    exists: bool,
    overwrite: bool,
    missing_reason: Option<Seq<char>>,
) -> bool {
    &&& r.item == item
    &&& r.generated.path@ == path
    &&& match content {
        Some(c) => if exists && !overwrite {
            &&& r.generated.action == FileAction::Skipped
            &&& opt_view(r.generated.reason) == Some(
                "File already exists. Re-run with --overwrite to replace it."@,
            )
            &&& r.content.is_none()
        } else {
            &&& r.generated.action == (if exists {
                FileAction::Updated
            } else {
                FileAction::Created
            })
            &&& r.generated.reason.is_none()
            &&& opt_view(r.content) == Some(c)
        },
        None => {
            &&& r.generated.action == FileAction::Skipped
            &&& opt_view(r.generated.reason) == Some(
                match missing_reason {
                    Some(m) => m,
                    None => "Missing required inputs."@,
                },
            )
            &&& r.content.is_none()
        },
    }
}

/// The planned change for one file; `exists` says whether the file is
/// already there.
pub fn plan_file(
    item: ScaffoldItem,
    path: &str,
    content: Option<String>,
    exists: bool,
    overwrite: bool,
    missing_reason: Option<&str>,
) -> (r: PlannedFileChange)
    ensures
        plan_file_matches(
            r,
            item,
            path@,
            opt_view(content),
            exists,
            overwrite,
            match missing_reason {
                Some(m) => Some(m@),
                None => None,
            },
        ),
{
    match content {
        Some(c) => {
            if exists && !overwrite {
                PlannedFileChange {
                    item,
                    generated: GeneratedFile {
                        path: path.to_owned(),
                        action: FileAction::Skipped,
                        reason: Some(
                            "File already exists. Re-run with --overwrite to replace it.".to_owned(),
                        ),
                    },
                    content: None,
                }
            } else {
                PlannedFileChange {
                    item,
                    generated: GeneratedFile {
                        path: path.to_owned(),
                        action: if exists {
                            FileAction::Updated
                        } else {
                            FileAction::Created
                        },
                        reason: None,
                    },
                    content: Some(c),
                }
            }
        },
        None => PlannedFileChange {
            item,
            generated: GeneratedFile {
                path: path.to_owned(),
                action: FileAction::Skipped,
                reason: Some(
                    match missing_reason {
                        Some(m) => m.to_owned(),
                        None => "Missing required inputs.".to_owned(),
                    },
                ),
            },
            content: None,
        },
    }
}

// ---------------------------------------------------------------------------
// Choosing items from an audit
// ---------------------------------------------------------------------------

/// What the selection reads of an audit check.
#[derive(Debug, Clone)]
pub struct CheckSelection {
    pub id: String,
    pub status: CheckStatus,
    pub fixable: bool,
}

/// A check is fixed when it is missing, or partial and partial files may
/// be overwritten, and the generator can fix it.
pub open spec fn is_selected(c: CheckSelection, overwrite_partials: bool) -> bool {
    match c.status {
        CheckStatus::Missing => c.fixable,
        CheckStatus::Partial => overwrite_partials && c.fixable,
        CheckStatus::Strong => false,
    }
}

/// The items for the selected checks, each once, in the checks' order.
pub open spec fn items_from_checks_spec(cs: Seq<CheckSelection>, overwrite_partials: bool) -> Seq<
    ScaffoldItem,
>
    decreases cs.len(),
{
    if cs.len() == 0 {
        Seq::empty()
    } else {
        let prev = items_from_checks_spec(cs.drop_last(), overwrite_partials);
        let c = cs.last();
        match item_for_check_spec(c.id@) {
            Some(item) => if is_selected(c, overwrite_partials) && !prev.contains(item) {
                prev.push(item)
            } else {
                prev
            },
            None => prev,
        }
    }
}

fn contains_item(v: &Vec<ScaffoldItem>, x: ScaffoldItem) -> (b: bool)
    ensures
        b == v@.contains(x),
{
    let mut i: usize = 0;
    while i < v.len()
        invariant
            i <= v.len(),
            forall|k: int| 0 <= k < i ==> v@[k] != x,
        decreases v.len() - i,
    {
        if v[i] == x {
            return true;
        }
        i += 1;
    }
    false
}

/// The items a `fix` run scaffolds for an audit's checks.
pub fn items_from_checks(checks: &Vec<CheckSelection>, overwrite_partials: bool) -> (r: Vec<
    ScaffoldItem,
>)
    ensures
        r@ == items_from_checks_spec(checks@, overwrite_partials),
{
    let mut items: Vec<ScaffoldItem> = Vec::new();
    let mut i: usize = 0;
    while i < checks.len()
        invariant
            i <= checks.len(),
            items@ == items_from_checks_spec(checks@.take(i as int), overwrite_partials),
        decreases checks.len() - i,
    {
        assert(checks@.take(i + 1).drop_last() =~= checks@.take(i as int));
        let c = &checks[i];
        let selected = match c.status {
            CheckStatus::Missing => c.fixable,
            CheckStatus::Partial => overwrite_partials && c.fixable,
            CheckStatus::Strong => false,
        };
        if selected {
            match item_for_check(c.id.as_str()) {
                Some(item) => {
                    if !contains_item(&items, item) {
                        items.push(item);
                    }
                },
                None => {},
            }
        }
        i += 1;
    }
    assert(checks@.take(checks.len() as int) =~= checks@);
    items
}

// ---------------------------------------------------------------------------
// What a plan promises the audit
// ---------------------------------------------------------------------------

/// The paths of the planned files of an item, in plan order.
pub open spec fn item_paths(ops: Seq<PlannedFileChange>, item: ScaffoldItem) -> Seq<Seq<char>>
    decreases ops.len(),
{
    if ops.len() == 0 {
        Seq::empty()
    } else {
        item_paths(ops.drop_last(), item) + if ops.last().item == item {
            seq![ops.last().generated.path@]
        } else {
            Seq::empty()
        }
    }
}

/// Every planned file of an item is written.
pub open spec fn item_written(ops: Seq<PlannedFileChange>, item: ScaffoldItem) -> bool {
    forall|i: int|
        0 <= i < ops.len() && (#[trigger] ops[i]).item == item ==> ops[i].generated.action
            != FileAction::Skipped
}

/// A planned rule upgrade as plain values.
pub struct UpgradeView {
    pub rule_id: Seq<char>,
    pub message: Seq<char>,
    pub evidence: Seq<Seq<char>>,
    pub location: Option<Seq<char>>,
}

pub open spec fn upgrade_view(u: PlannedCheckUpgrade) -> UpgradeView {
    UpgradeView {
        rule_id: u.rule_id@,
        message: u.message@,
        evidence: views(u.evidence@),
        location: opt_view(u.location),
    }
}

/// The upgrade an item's planned files bring: its rule, when the item has
/// planned files and all of them are written.
pub open spec fn item_upgrade(ops: Seq<PlannedFileChange>, item: ScaffoldItem) -> Seq<UpgradeView> {
    let paths = item_paths(ops, item);
    if paths.len() > 0 && item_written(ops, item) {
        seq![
            UpgradeView {
                rule_id: check_of(item),
                message: "Planned scaffolding would satisfy this rule by adding "@ + join_seq(
                    paths,
                    ", "@,
                ) + "."@,
                evidence: paths,
                location: Some(paths[0]),
            },
        ]
    } else {
        Seq::empty()
    }
}

/// The upgrades of the first `n` items.
pub open spec fn upgrades_spec(ops: Seq<PlannedFileChange>, n: int) -> Seq<UpgradeView>
    decreases n,
{
    if n <= 0 {
        Seq::empty()
    } else {
        upgrades_spec(ops, n - 1) + item_upgrade(ops, all_items()[n - 1])
    }
}

fn collect_item(ops: &Vec<PlannedFileChange>, item: ScaffoldItem) -> (r: (Vec<String>, bool))
    ensures
        views(r.0@) == item_paths(ops@, item),
        r.1 == item_written(ops@, item),
{
    let mut paths: Vec<String> = Vec::new();
    let mut written = true;
    let mut j: usize = 0;
    while j < ops.len()
        invariant
            j <= ops.len(),
            views(paths@) == item_paths(ops@.take(j as int), item),
            written == forall|k: int|
                0 <= k < j && (#[trigger] ops@[k]).item == item ==> ops@[k].generated.action
                    != FileAction::Skipped,
        decreases ops.len() - j,
    {
        assert(ops@.take(j + 1).drop_last() =~= ops@.take(j as int));
        let op = &ops[j];
        if op.item == item {
            let ghost before = views(paths@);
            paths.push(op.generated.path.clone());
            assert(views(paths@) =~= before.push(ops@[j as int].generated.path@));
            if op.generated.action == FileAction::Skipped {
                written = false;
            }
        } else {
            assert(views(paths@) =~= item_paths(ops@.take(j + 1), item));
        }
        j += 1;
    }
    assert(ops@.take(ops.len() as int) =~= ops@);
    (paths, written)
}

fn clone_strings(v: &Vec<String>) -> (r: Vec<String>)
    ensures
        views(r@) == views(v@),
{
    let mut r: Vec<String> = Vec::new();
    let mut i: usize = 0;
    while i < v.len()
        invariant
            i <= v.len(),
            views(r@) == views(v@).take(i as int),
        decreases v.len() - i,
    {
        let ghost before = views(r@);
        let c = v[i].clone();
        r.push(c);
        assert(views(r@) =~= before.push(v@[i as int]@));
        assert(views(v@).take(i + 1) =~= views(v@).take(i as int).push(v@[i as int]@));
        i += 1;
    }
    assert(views(v@).take(v.len() as int) =~= views(v@));
    r
}

/// The audit rules a plan would satisfy, item by item.
pub fn planned_upgrades(operations: &Vec<PlannedFileChange>) -> (r: Vec<PlannedCheckUpgrade>)
    ensures
        r@.map_values(|u: PlannedCheckUpgrade| upgrade_view(u)) == upgrades_spec(
            operations@,
            13,
        ),
{
    let items = all_fixable_items();
    let mut upgrades: Vec<PlannedCheckUpgrade> = Vec::new();
    let mut i: usize = 0;
    while i < items.len()
        invariant
            i <= items.len(),
            items@ == all_items(),
            upgrades@.map_values(|u: PlannedCheckUpgrade| upgrade_view(u)) == upgrades_spec(
                operations@,
                i as int,
            ),
        decreases items.len() - i,
    {
        let item = items[i];
        let (paths, written) = collect_item(operations, item);
        let ghost before = upgrades@.map_values(|u: PlannedCheckUpgrade| upgrade_view(u));
        if paths.len() > 0 && written {
            let mut message = concat_str(
                "Planned scaffolding would satisfy this rule by adding ",
                join_strings(&paths, ", ").as_str(),
            );
            message.append(".");
            let location = Some(paths[0].clone());
            let evidence = clone_strings(&paths);
            let u = PlannedCheckUpgrade {
                rule_id: check_for_item(item).to_owned(),
                message,
                evidence,
                location,
            };
            upgrades.push(u);
            assert(upgrades@.map_values(|u: PlannedCheckUpgrade| upgrade_view(u)) =~= before
                + item_upgrade(operations@, all_items()[i as int]));
        } else {
            assert(upgrades@.map_values(|u: PlannedCheckUpgrade| upgrade_view(u)) =~= before
                + item_upgrade(operations@, all_items()[i as int]));
        }
        i += 1;
    }
    upgrades
}

/// The calendar year a Unix time falls in, counting 365.2425-day years
/// from 1970.
pub fn year_from_unix_seconds(seconds: u64) -> (y: i32)
    requires
        1970 + seconds / 31_556_952 <= i32::MAX,
    ensures
        y == 1970 + seconds / 31_556_952,
{
    let years = seconds / 31_556_952;
    1970 + years as i32
}

} // verus!
