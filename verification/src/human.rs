//! Doctor reports for people: findings grouped by file, next fixes, and
//! the rendered text.
use vstd::prelude::*;
use crate::doctor::{count_severity, lemma_count_severity_bounded, DoctorEcosystem, DoctorFinding, DoctorSeverity};
use crate::text::{
    chars_of, decimal, decimal_string, join_seq, join_strings, string_from_chars,
    distinct_sorted_strings, ends_with, sorted_distinct, starts_with, str_ends_with, str_eq,
    str_starts_with, suffix_from, views,
};

verus! {

// ---------------------------------------------------------------------------
// Where a finding is shown
// ---------------------------------------------------------------------------

/// `file` relative to `target` when `target` is a leading part of it,
/// the path as it is otherwise (paths written with `/`).
pub open spec fn strip_path_spec(target: Seq<char>, file: Seq<char>) -> Seq<char> {
    if file == target {
        Seq::empty()
    } else if ends_with(target, "/"@) && starts_with(file, target) {
        file.skip(target.len() as int)
    } else if starts_with(file, target + "/"@) {
        file.skip(target.len() as int + 1)
    } else {
        file
    }
}

/// The place a finding is listed under: its file relative to the target,
/// or `.` for a finding about the repository as a whole.
pub open spec fn location_spec(target: Seq<char>, file: Option<String>) -> Seq<char> {
    match file {
        Some(f) => strip_path_spec(target, f@),
        None => "."@,
    }
}

pub fn relative_location(target: &str, file: &Option<String>) -> (r: String)
    ensures
        r@ == location_spec(target@, *file),
{
    match file {
        None => ".".to_owned(),
        Some(f) => {
            let fs = f.as_str();
            let n = target.unicode_len();
            if str_eq(fs, target) {
                String::new()
            } else if str_ends_with(target, "/") && str_starts_with(fs, target) {
                suffix_from(fs, n)
            } else {
                let mut with_sep = target.to_owned();
                with_sep.append("/");
                proof {
                    reveal_strlit("/");
                }
                assert(with_sep@ == target@ + "/"@);
                if str_starts_with(fs, with_sep.as_str()) {
                    let m = with_sep.as_str().unicode_len();
                    suffix_from(fs, m)
                } else {
                    f.clone()
                }
            }
        },
    }
}

pub open spec fn locations_of(target: Seq<char>, fs: Seq<DoctorFinding>) -> Seq<Seq<char>> {
    fs.map_values(|f: DoctorFinding| location_spec(target, f.file))
}

/// The files of a report, each once, in ascending order.
pub open spec fn file_paths(target: Seq<char>, fs: Seq<DoctorFinding>) -> Seq<Seq<char>> {
    sorted_distinct(locations_of(target, fs))
}

/// The findings listed under `path`, in their order.
pub open spec fn group_of(target: Seq<char>, fs: Seq<DoctorFinding>, path: Seq<char>) -> Seq<
    DoctorFinding,
>
    decreases fs.len(),
{
    if fs.len() == 0 {
        Seq::empty()
    } else {
        let prev = group_of(target, fs.drop_last(), path);
        if location_spec(target, fs.last().file) == path {
            prev.push(fs.last())
        } else {
            prev
        }
    }
}

fn location_list(target: &str, findings: &Vec<DoctorFinding>) -> (r: Vec<String>)
    ensures
        views(r@) == locations_of(target@, findings@),
{
    let mut r: Vec<String> = Vec::new();
    let mut i: usize = 0;
    while i < findings.len()
        invariant
            i <= findings.len(),
            views(r@) == locations_of(target@, findings@.take(i as int)),
        decreases findings.len() - i,
    {
        let ghost before = views(r@);
        let loc = relative_location(target, &findings[i].file);
        r.push(loc);
        assert(views(r@) =~= before.push(r@[i as int]@));
        assert(locations_of(target@, findings@.take(i + 1)) =~= locations_of(
            target@,
            findings@.take(i as int),
        ).push(location_spec(target@, findings@[i as int].file)));
        i += 1;
    }
    assert(findings@.take(findings.len() as int) =~= findings@);
    r
}

// ---------------------------------------------------------------------------
// Findings by file
// ---------------------------------------------------------------------------

/// Does some finding of `fs` belong to ecosystem `e`?
pub open spec fn has_ecosystem(fs: Seq<DoctorFinding>, e: DoctorEcosystem) -> bool
    decreases fs.len(),
{
    fs.len() > 0 && (has_ecosystem(fs.drop_last(), e) || fs.last().ecosystem == Some(e))
}

/// The ecosystems of the findings, each once, in declaration order.
pub open spec fn ecosystems_present(fs: Seq<DoctorFinding>) -> Seq<DoctorEcosystem> {
    (if has_ecosystem(fs, DoctorEcosystem::Auto) {
        seq![DoctorEcosystem::Auto]
    } else {
        Seq::empty()
    }) + (if has_ecosystem(fs, DoctorEcosystem::Rust) {
        seq![DoctorEcosystem::Rust]
    } else {
        Seq::empty()
    }) + (if has_ecosystem(fs, DoctorEcosystem::Node) {
        seq![DoctorEcosystem::Node]
    } else {
        Seq::empty()
    }) + (if has_ecosystem(fs, DoctorEcosystem::Python) {
        seq![DoctorEcosystem::Python]
    } else {
        Seq::empty()
    })
}

/// One finding as it is listed under its file.
#[derive(Debug, Clone)]
pub struct FileDetail {
    pub severity: DoctorSeverity,
    pub message: String,
}

pub open spec fn detail_view(d: FileDetail) -> (DoctorSeverity, Seq<char>) {
    (d.severity, d.message@)
}

pub open spec fn detail_views(ds: Seq<FileDetail>) -> Seq<(DoctorSeverity, Seq<char>)> {
    ds.map_values(|d: FileDetail| detail_view(d))
}

pub open spec fn finding_details(fs: Seq<DoctorFinding>) -> Seq<(DoctorSeverity, Seq<char>)> {
    fs.map_values(|f: DoctorFinding| (f.severity, f.message@))
}

/// The findings of one file with their counts.
#[derive(Debug, Clone)]
pub struct DomainFileReport {
    pub path: String,
    pub ecosystems: Vec<DoctorEcosystem>,
    pub warning_count: usize,
    pub info_count: usize,
    pub error_count: usize,
    pub detail_count: usize,
    pub details: Vec<FileDetail>,
}

/// `r` lists the findings of `fs` shown under `path`.
pub open spec fn domain_file_report_spec(
    r: DomainFileReport,
    target: Seq<char>,
    fs: Seq<DoctorFinding>,
    path: Seq<char>,
) -> bool {
    let g = group_of(target, fs, path);
    &&& r.path@ == path
    &&& r.ecosystems@ == ecosystems_present(g)
    &&& r.warning_count == count_severity(g, DoctorSeverity::Warning)
    &&& r.info_count == count_severity(g, DoctorSeverity::Info)
    &&& r.error_count == count_severity(g, DoctorSeverity::Error)
    &&& r.detail_count == g.len()
    &&& detail_views(r.details@) == finding_details(g)
}

fn ecosystem_list(auto: bool, rust: bool, node: bool, python: bool) -> (r: Vec<DoctorEcosystem>)
    ensures
        r@ == (if auto {
            seq![DoctorEcosystem::Auto]
        } else {
            Seq::empty()
        }) + (if rust {
            seq![DoctorEcosystem::Rust]
        } else {
            Seq::empty()
        }) + (if node {
            seq![DoctorEcosystem::Node]
        } else {
            Seq::empty()
        }) + (if python {
            seq![DoctorEcosystem::Python]
        } else {
            Seq::empty()
        }),
{
    let mut r: Vec<DoctorEcosystem> = Vec::new();
    if auto {
        r.push(DoctorEcosystem::Auto);
    }
    if rust {
        r.push(DoctorEcosystem::Rust);
    }
    if node {
        r.push(DoctorEcosystem::Node);
    }
    if python {
        r.push(DoctorEcosystem::Python);
    }
    assert(r@ =~= (if auto {
        seq![DoctorEcosystem::Auto]
    } else {
        Seq::empty()
    }) + (if rust {
        seq![DoctorEcosystem::Rust]
    } else {
        Seq::empty()
    }) + (if node {
        seq![DoctorEcosystem::Node]
    } else {
        Seq::empty()
    }) + (if python {
        seq![DoctorEcosystem::Python]
    } else {
        Seq::empty()
    }));
    r
}

/// The report of the findings shown under `path`.
pub fn file_report_for(target: &str, findings: &Vec<DoctorFinding>, path: &str) -> (r:
    DomainFileReport)
    ensures
        domain_file_report_spec(r, target@, findings@, path@),
{
    let mut details: Vec<FileDetail> = Vec::new();
    let mut warnings: usize = 0;
    let mut infos: usize = 0;
    let mut errors: usize = 0;
    let mut auto = false;
    let mut rust = false;
    let mut node = false;
    let mut python = false;
    let mut i: usize = 0;
    while i < findings.len()
        invariant
            i <= findings.len(),
            details@.len() <= i,
            detail_views(details@) == finding_details(group_of(target@, findings@.take(i as int), path@)),
            warnings == count_severity(
                group_of(target@, findings@.take(i as int), path@),
                DoctorSeverity::Warning,
            ),
            infos == count_severity(group_of(target@, findings@.take(i as int), path@), DoctorSeverity::Info),
            errors == count_severity(
                group_of(target@, findings@.take(i as int), path@),
                DoctorSeverity::Error,
            ),
            auto == has_ecosystem(group_of(target@, findings@.take(i as int), path@), DoctorEcosystem::Auto),
            rust == has_ecosystem(group_of(target@, findings@.take(i as int), path@), DoctorEcosystem::Rust),
            node == has_ecosystem(group_of(target@, findings@.take(i as int), path@), DoctorEcosystem::Node),
            python == has_ecosystem(
                group_of(target@, findings@.take(i as int), path@),
                DoctorEcosystem::Python,
            ),
        decreases findings.len() - i,
    {
        let ghost g0 = group_of(target@, findings@.take(i as int), path@);
        assert(findings@.take(i + 1).drop_last() =~= findings@.take(i as int));
        assert(detail_views(details@).len() == details@.len());
        assert(finding_details(g0).len() == g0.len());
        let f = &findings[i];
        let loc = relative_location(target, &f.file);
        if str_eq(loc.as_str(), path) {
            let ghost g1 = g0.push(*f);
            assert(g1.drop_last() =~= g0);
            proof {
                lemma_count_severity_bounded(g0, DoctorSeverity::Warning);
                lemma_count_severity_bounded(g0, DoctorSeverity::Info);
                lemma_count_severity_bounded(g0, DoctorSeverity::Error);
            }
            let ghost before = details@;
            details.push(FileDetail { severity: f.severity, message: f.message.clone() });
            assert(detail_views(details@) =~= detail_views(before).push((f.severity, f.message@)));
            assert(finding_details(g1) =~= finding_details(g0).push((f.severity, f.message@)));
            match f.severity {
                DoctorSeverity::Warning => {
                    warnings += 1;
                },
                DoctorSeverity::Info => {
                    infos += 1;
                },
                DoctorSeverity::Error => {
                    errors += 1;
                },
            }
            match f.ecosystem {
                Some(DoctorEcosystem::Auto) => {
                    auto = true;
                },
                Some(DoctorEcosystem::Rust) => {
                    rust = true;
                },
                Some(DoctorEcosystem::Node) => {
                    node = true;
                },
                Some(DoctorEcosystem::Python) => {
                    python = true;
                },
                None => {},
            }
        }
        i += 1;
    }
    assert(findings@.take(findings.len() as int) =~= findings@);
    let ecosystems = ecosystem_list(auto, rust, node, python);
    DomainFileReport {
        path: path.to_owned(),
        ecosystems,
        warning_count: warnings,
        info_count: infos,
        error_count: errors,
        detail_count: details.len(),
        details,
    }
}

/// The findings grouped by the file they are about, files in ascending
/// order, each file's findings in their order.
pub fn build_domain_file_reports(target: &str, findings: &Vec<DoctorFinding>) -> (r: Vec<
    DomainFileReport,
>)
    ensures
        r@.len() == file_paths(target@, findings@).len(),
        forall|k: int|
            0 <= k < r@.len() ==> domain_file_report_spec(
                #[trigger] r@[k],
                target@,
                findings@,
                file_paths(target@, findings@)[k],
            ),
{
    let paths = distinct_sorted_strings(location_list(target, findings));
    let mut r: Vec<DomainFileReport> = Vec::new();
    let mut k: usize = 0;
    while k < paths.len()
        invariant
            k <= paths.len(),
            views(paths@) == file_paths(target@, findings@),
            r@.len() == k,
            forall|j: int|
                0 <= j < k ==> domain_file_report_spec(
                    #[trigger] r@[j],
                    target@,
                    findings@,
                    file_paths(target@, findings@)[j],
                ),
        decreases paths.len() - k,
    {
        let rep = file_report_for(target, findings, paths[k].as_str());
        r.push(rep);
        k += 1;
    }
    r
}

// ---------------------------------------------------------------------------
// Next fixes
// ---------------------------------------------------------------------------

/// The fix hint of a finding, else its help.
pub open spec fn hint_of(f: DoctorFinding) -> Option<Seq<char>> {
    match f.fix_hint {
        Some(h) => Some(h@),
        None => match f.help {
            Some(h) => Some(h@),
            None => None,
        },
    }
}

pub open spec fn hints_of(fs: Seq<DoctorFinding>) -> Seq<Seq<char>>
    decreases fs.len(),
{
    if fs.len() == 0 {
        Seq::empty()
    } else {
        match hint_of(fs.last()) {
            Some(h) => hints_of(fs.drop_last()).push(h),
            None => hints_of(fs.drop_last()),
        }
    }
}

/// Each finding's fix hint (or else its help), each once, in ascending order.
pub fn domain_next_fixes(findings: &Vec<DoctorFinding>) -> (r: Vec<String>)
    ensures
        views(r@) == sorted_distinct(hints_of(findings@)),
{
    let mut hints: Vec<String> = Vec::new();
    let mut i: usize = 0;
    while i < findings.len()
        invariant
            i <= findings.len(),
            views(hints@) == hints_of(findings@.take(i as int)),
        decreases findings.len() - i,
    {
        assert(findings@.take(i + 1).drop_last() =~= findings@.take(i as int));
        let ghost before = views(hints@);
        match &findings[i].fix_hint {
            Some(h) => {
                hints.push(h.clone());
                assert(views(hints@) =~= before.push(h@));
            },
            None => match &findings[i].help {
                Some(h) => {
                    hints.push(h.clone());
                    assert(views(hints@) =~= before.push(h@));
                },
                None => {},
            },
        }
        i += 1;
    }
    assert(findings@.take(findings.len() as int) =~= findings@);
    distinct_sorted_strings(hints)
}

// ---------------------------------------------------------------------------
// Workflow findings by file
// ---------------------------------------------------------------------------

/// `s` split at each `ab` pair, scanning from the left (`str::split` with
/// a two-character pattern); `cur` is the piece read so far.
pub open spec fn split_pair(s: Seq<char>, a: char, b: char, cur: Seq<char>) -> Seq<Seq<char>>
    decreases s.len(),
{
    if s.len() == 0 {
        seq![cur]
    } else if s.len() >= 2 && s[0] == a && s[1] == b {
        seq![cur] + split_pair(s.skip(2), a, b, Seq::empty())
    } else {
        split_pair(s.drop_first(), a, b, cur.push(s[0]))
    }
}

pub fn split_at_pair(s: &str, a: char, b: char) -> (r: Vec<String>)
    ensures
        views(r@) == split_pair(s@, a, b, Seq::empty()),
{
    let v = chars_of(s);
    let mut out: Vec<String> = Vec::new();
    let mut cur: Vec<char> = Vec::new();
    let mut i: usize = 0;
    assert(v@.subrange(0, v.len() as int) =~= v@);
    while i < v.len()
        invariant
            i <= v.len(),
            v@ == s@,
            views(out@) + split_pair(v@.subrange(i as int, v.len() as int), a, b, cur@) == split_pair(
                s@,
                a,
                b,
                Seq::empty(),
            ),
        decreases v.len() - i,
    {
        let ghost rest = v@.subrange(i as int, v.len() as int);
        if i + 1 < v.len() && v[i] == a && v[i + 1] == b {
            assert(rest.skip(2) =~= v@.subrange(i + 2, v.len() as int));
            let piece = string_from_chars(&cur);
            let ghost old_out = views(out@);
            out.push(piece);
            assert(views(out@) =~= old_out.push(piece@));
            assert(old_out + (seq![cur@] + split_pair(rest.skip(2), a, b, Seq::empty())) =~= old_out.push(
                piece@,
            ) + split_pair(rest.skip(2), a, b, Seq::empty()));
            cur = Vec::new();
            assert(cur@ =~= Seq::<char>::empty());
            i += 2;
        } else {
            assert(rest.drop_first() =~= v@.subrange(i + 1, v.len() as int));
            cur.push(v[i]);
            i += 1;
        }
    }
    assert(v@.subrange(i as int, v.len() as int) =~= Seq::<char>::empty());
    let piece = string_from_chars(&cur);
    let ghost old_out = views(out@);
    out.push(piece);
    assert(views(out@) =~= old_out + seq![cur@]);
    out
}

/// The non-empty strings of `ps`, in order.
pub open spec fn non_empty(ps: Seq<Seq<char>>) -> Seq<Seq<char>>
    decreases ps.len(),
{
    if ps.len() == 0 {
        Seq::empty()
    } else if ps.last().len() == 0 {
        non_empty(ps.drop_last())
    } else {
        non_empty(ps.drop_last()).push(ps.last())
    }
}

/// The action refs named in an unpinned-actions message: the part after
/// the first `: ` (up to a second one), split at `, `.
pub open spec fn mutable_refs_of(message: Seq<char>) -> Seq<Seq<char>> {
    let pieces = split_pair(message, ':', ' ', Seq::empty());
    if pieces.len() < 2 {
        Seq::empty()
    } else {
        non_empty(split_pair(pieces[1], ',', ' ', Seq::empty()))
    }
}

pub open spec fn compact_refs_spec(message: Seq<char>) -> Seq<char> {
    let refs = mutable_refs_of(message);
    if refs.len() == 0 {
        "mutable action refs should be pinned to full commit SHAs"@
    } else {
        decimal(refs.len()) + " mutable action ref(s): "@ + join_seq(refs, ", "@)
    }
}

/// The unpinned-actions message shortened to a count and the refs.
pub fn compact_mutable_refs_message(message: &str) -> (r: String)
    ensures
        r@ == compact_refs_spec(message@),
{
    let pieces = split_at_pair(message, ':', ' ');
    let mut refs: Vec<String> = Vec::new();
    if pieces.len() >= 2 {
        let parts = split_at_pair(pieces[1].as_str(), ',', ' ');
        let mut i: usize = 0;
        while i < parts.len()
            invariant
                i <= parts.len(),
                views(refs@) == non_empty(views(parts@).take(i as int)),
            decreases parts.len() - i,
        {
            assert(views(parts@).take(i + 1).drop_last() =~= views(parts@).take(i as int));
            if parts[i].as_str().unicode_len() > 0 {
                let ghost before = views(refs@);
                refs.push(parts[i].clone());
                assert(views(refs@) =~= before.push(parts@[i as int]@));
            }
            i += 1;
        }
        assert(views(parts@).take(parts.len() as int) =~= views(parts@));
    } else {
        assert(views(refs@) =~= Seq::<Seq<char>>::empty());
    }
    if refs.len() == 0 {
        return "mutable action refs should be pinned to full commit SHAs".to_owned();
    }
    let mut r = decimal_string(refs.len() as u64);
    r.append(" mutable action ref(s): ");
    r.append(join_strings(&refs, ", ").as_str());
    r
}

/// The message a workflow finding is listed with.
pub open spec fn compact_message_spec(f: DoctorFinding) -> Seq<char> {
    if f.code@ == "workflow.permissions.missing"@ {
        "explicit `permissions:` block is missing"@
    } else if f.code@ == "workflow.concurrency.missing"@ {
        "no `concurrency` guard for superseded runs"@
    } else if f.code@ == "workflow.actions.unpinned"@ {
        compact_refs_spec(f.message@)
    } else {
        f.message@
    }
}

fn compact_message(f: &DoctorFinding) -> (r: String)
    ensures
        r@ == compact_message_spec(*f),
{
    let code = f.code.as_str();
    if str_eq(code, "workflow.permissions.missing") {
        "explicit `permissions:` block is missing".to_owned()
    } else if str_eq(code, "workflow.concurrency.missing") {
        "no `concurrency` guard for superseded runs".to_owned()
    } else if str_eq(code, "workflow.actions.unpinned") {
        compact_mutable_refs_message(f.message.as_str())
    } else {
        f.message.clone()
    }
}

/// The findings of `fs` with severity `s`, in order.
pub open spec fn of_severity(fs: Seq<DoctorFinding>, s: DoctorSeverity) -> Seq<DoctorFinding>
    decreases fs.len(),
{
    if fs.len() == 0 {
        Seq::empty()
    } else if fs.last().severity == s {
        of_severity(fs.drop_last(), s).push(fs.last())
    } else {
        of_severity(fs.drop_last(), s)
    }
}

pub open spec fn compact_views(fs: Seq<DoctorFinding>) -> Seq<(DoctorSeverity, Seq<char>)> {
    fs.map_values(|f: DoctorFinding| (f.severity, compact_message_spec(f)))
}

/// The compacted details, errors first, then warnings, then notes, each in
/// the order of the findings (a stable sort by severity rank).
pub open spec fn ranked_details(fs: Seq<DoctorFinding>) -> Seq<(DoctorSeverity, Seq<char>)> {
    compact_views(of_severity(fs, DoctorSeverity::Error)) + compact_views(
        of_severity(fs, DoctorSeverity::Warning),
    ) + compact_views(of_severity(fs, DoctorSeverity::Info))
}

fn concat_details(a: Vec<FileDetail>, b: Vec<FileDetail>, c: Vec<FileDetail>) -> (r: Vec<FileDetail>)
    ensures
        detail_views(r@) == detail_views(a@) + detail_views(b@) + detail_views(c@),
{
    let mut r = a;
    let mut b = b;
    let mut c = c;
    let ghost va = detail_views(r@);
    let ghost vb = detail_views(b@);
    let ghost vc = detail_views(c@);
    r.append(&mut b);
    assert(detail_views(r@) =~= va + vb);
    r.append(&mut c);
    assert(detail_views(r@) =~= va + vb + vc);
    r
}

/// The details of the findings listed under `path` (all findings when
/// `path` is `None`), compacted and ranked.
fn ranked_details_of(target: &str, findings: &Vec<DoctorFinding>, path: Option<&str>) -> (r: Vec<
    FileDetail,
>)
    ensures
        detail_views(r@) == ranked_details(
            match path {
                Some(p) => group_of(target@, findings@, p@),
                None => findings@,
            },
        ),
{
    let ghost sel = |fs: Seq<DoctorFinding>|
        match path {
            Some(p) => group_of(target@, fs, p@),
            None => fs,
        };
    let mut errs: Vec<FileDetail> = Vec::new();
    let mut warns: Vec<FileDetail> = Vec::new();
    let mut infos: Vec<FileDetail> = Vec::new();
    let mut i: usize = 0;
    while i < findings.len()
        invariant
            i <= findings.len(),
            sel == (|fs: Seq<DoctorFinding>|
                match path {
                    Some(p) => group_of(target@, fs, p@),
                    None => fs,
                }),
            detail_views(errs@) == compact_views(of_severity(sel(findings@.take(i as int)), DoctorSeverity::Error)),
            detail_views(warns@) == compact_views(
                of_severity(sel(findings@.take(i as int)), DoctorSeverity::Warning),
            ),
            detail_views(infos@) == compact_views(of_severity(sel(findings@.take(i as int)), DoctorSeverity::Info)),
        decreases findings.len() - i,
    {
        let ghost g0 = sel(findings@.take(i as int));
        assert(findings@.take(i + 1).drop_last() =~= findings@.take(i as int));
        let f = &findings[i];
        let keep = match path {
            Some(p) => str_eq(relative_location(target, &f.file).as_str(), p),
            None => true,
        };
        if keep {
            let ghost g1 = g0.push(*f);
            assert(sel(findings@.take(i + 1)) == g1);
            assert(g1.drop_last() =~= g0);
            let d = FileDetail { severity: f.severity, message: compact_message(f) };
            match f.severity {
                DoctorSeverity::Error => {
                    let ghost before = detail_views(errs@);
                    errs.push(d);
                    assert(detail_views(errs@) =~= before.push(detail_view(d)));
                    assert(compact_views(of_severity(g1, DoctorSeverity::Error)) =~= compact_views(
                        of_severity(g0, DoctorSeverity::Error),
                    ).push((f.severity, compact_message_spec(*f))));
                },
                DoctorSeverity::Warning => {
                    let ghost before = detail_views(warns@);
                    warns.push(d);
                    assert(detail_views(warns@) =~= before.push(detail_view(d)));
                    assert(compact_views(of_severity(g1, DoctorSeverity::Warning)) =~= compact_views(
                        of_severity(g0, DoctorSeverity::Warning),
                    ).push((f.severity, compact_message_spec(*f))));
                },
                DoctorSeverity::Info => {
                    let ghost before = detail_views(infos@);
                    infos.push(d);
                    assert(detail_views(infos@) =~= before.push(detail_view(d)));
                    assert(compact_views(of_severity(g1, DoctorSeverity::Info)) =~= compact_views(
                        of_severity(g0, DoctorSeverity::Info),
                    ).push((f.severity, compact_message_spec(*f))));
                },
            }
        } else {
            assert(sel(findings@.take(i + 1)) == g0);
        }
        i += 1;
    }
    assert(findings@.take(findings.len() as int) =~= findings@);
    concat_details(errs, warns, infos)
}

/// Workflow findings as listed: compacted messages, errors first, then
/// warnings, then notes, each in the order given.
pub fn compact_workflow_details(findings: &Vec<DoctorFinding>) -> (r: Vec<FileDetail>)
    ensures
        detail_views(r@) == ranked_details(findings@),
{
    ranked_details_of("", findings, None)
}

/// The workflow findings of one file.
#[derive(Debug, Clone)]
pub struct WorkflowFileReport {
    pub path: String,
    pub warning_count: usize,
    pub info_count: usize,
    pub error_count: usize,
    pub detail_count: usize,
    pub details: Vec<FileDetail>,
}

pub open spec fn workflow_file_report_spec(
    r: WorkflowFileReport,
    target: Seq<char>,
    fs: Seq<DoctorFinding>,
    path: Seq<char>,
) -> bool {
    let g = group_of(target, fs, path);
    &&& r.path@ == path
    &&& r.warning_count == count_severity(g, DoctorSeverity::Warning)
    &&& r.info_count == count_severity(g, DoctorSeverity::Info)
    &&& r.error_count == count_severity(g, DoctorSeverity::Error)
    &&& r.detail_count == g.len()
    &&& detail_views(r.details@) == ranked_details(g)
}

/// The workflow findings grouped by file, files in ascending order.
pub fn build_workflow_file_reports(target: &str, findings: &Vec<DoctorFinding>) -> (r: Vec<
    WorkflowFileReport,
>)
    ensures
        r@.len() == file_paths(target@, findings@).len(),
        forall|k: int|
            0 <= k < r@.len() ==> workflow_file_report_spec(
                #[trigger] r@[k],
                target@,
                findings@,
                file_paths(target@, findings@)[k],
            ),
{
    let paths = distinct_sorted_strings(location_list(target, findings));
    let mut r: Vec<WorkflowFileReport> = Vec::new();
    let mut k: usize = 0;
    while k < paths.len()
        invariant
            k <= paths.len(),
            views(paths@) == file_paths(target@, findings@),
            r@.len() == k,
            forall|j: int|
                0 <= j < k ==> workflow_file_report_spec(
                    #[trigger] r@[j],
                    target@,
                    findings@,
                    file_paths(target@, findings@)[j],
                ),
        decreases paths.len() - k,
    {
        let p = paths[k].as_str();
        let base = file_report_for(target, findings, p);
        let details = ranked_details_of(target, findings, Some(p));
        r.push(
            WorkflowFileReport {
                path: base.path,
                warning_count: base.warning_count,
                info_count: base.info_count,
                error_count: base.error_count,
                detail_count: base.detail_count,
                details,
            },
        );
        k += 1;
    }
    r
}

/// The next fix for a workflow finding's code, if the code has one.
pub open spec fn workflow_hint(code: Seq<char>) -> Option<Seq<char>> {
    if code == "workflow.permissions.missing"@ {
        Some("Declare top-level `permissions:` in CI with the narrowest token scope."@)
    } else if code == "workflow.concurrency.missing"@ {
        Some("Add `concurrency` to workflows where newer runs should cancel older ones."@)
    } else if code == "workflow.timeout.missing"@ {
        Some("Add `timeout-minutes` to every job so stuck runners fail fast."@)
    } else if code == "workflow.actions.unpinned"@ {
        Some(
            "Pin third-party GitHub Actions to full commit SHAs for stronger supply-chain hygiene."@,
        )
    } else if code == "workflow.engine-bootstrap-failed"@ {
        Some(
            "Let ossify bootstrap the managed engine or point `OSSIFY_ACTIONLINT` at an existing binary."@,
        )
    } else {
        None
    }
}

pub open spec fn workflow_hints_of(fs: Seq<DoctorFinding>) -> Seq<Seq<char>>
    decreases fs.len(),
{
    if fs.len() == 0 {
        Seq::empty()
    } else {
        match workflow_hint(fs.last().code@) {
            Some(h) => workflow_hints_of(fs.drop_last()).push(h),
            None => workflow_hints_of(fs.drop_last()),
        }
    }
}

fn workflow_hint_exec(code: &str) -> (r: Option<String>)
    ensures
        match r {
            Some(h) => workflow_hint(code@) == Some(h@),
            None => workflow_hint(code@).is_none(),
        },
{
    if str_eq(code, "workflow.permissions.missing") {
        Some("Declare top-level `permissions:` in CI with the narrowest token scope.".to_owned())
    } else if str_eq(code, "workflow.concurrency.missing") {
        Some("Add `concurrency` to workflows where newer runs should cancel older ones.".to_owned())
    } else if str_eq(code, "workflow.timeout.missing") {
        Some("Add `timeout-minutes` to every job so stuck runners fail fast.".to_owned())
    } else if str_eq(code, "workflow.actions.unpinned") {
        Some(
            "Pin third-party GitHub Actions to full commit SHAs for stronger supply-chain hygiene.".to_owned(),
        )
    } else if str_eq(code, "workflow.engine-bootstrap-failed") {
        Some(
            "Let ossify bootstrap the managed engine or point `OSSIFY_ACTIONLINT` at an existing binary.".to_owned(),
        )
    } else {
        None
    }
}

/// The next fixes for the workflow findings, each once, in ascending order.
pub fn workflow_next_fixes(findings: &Vec<DoctorFinding>) -> (r: Vec<String>)
    ensures
        views(r@) == sorted_distinct(workflow_hints_of(findings@)),
{
    let mut hints: Vec<String> = Vec::new();
    let mut i: usize = 0;
    while i < findings.len()
        invariant
            i <= findings.len(),
            views(hints@) == workflow_hints_of(findings@.take(i as int)),
        decreases findings.len() - i,
    {
        assert(findings@.take(i + 1).drop_last() =~= findings@.take(i as int));
        match workflow_hint_exec(findings[i].code.as_str()) {
            Some(h) => {
                let ghost before = views(hints@);
                let ghost hv = h@;
                hints.push(h);
                assert(views(hints@) =~= before.push(hv));
            },
            None => {},
        }
        i += 1;
    }
    assert(findings@.take(findings.len() as int) =~= findings@);
    distinct_sorted_strings(hints)
}

} // verus!
