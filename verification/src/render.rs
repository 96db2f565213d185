//! The deps and release doctor reports as text for a terminal.
use vstd::prelude::*;
use crate::doctor::{
    docs_summary_spec, severity_label, workflow_summary_spec, DocsDoctorReport, WorkflowDoctorReport,
    DepsDoctorReport, ReleaseDoctorReport, count_severity, count_with_severity, ecosystem_label, DoctorFinding, DoctorSeverity,
    EcosystemDoctorScore,
};
use crate::domains::{first_min_reason, first_min_reason_exec};
use crate::engines::{engine_status_label, ManagedEngineStatus};
use crate::human::{
    build_domain_file_reports, detail_views, domain_file_report_spec, domain_next_fixes,
    build_workflow_file_reports, location_spec, ranked_details, relative_location,
    workflow_file_report_spec, workflow_hints_of, workflow_next_fixes, WorkflowFileReport,
    ecosystems_present, file_paths, finding_details, group_of, hints_of, DomainFileReport, FileDetail,
};
use crate::styled::{
    format_severity_counts, paint_spec, score_text_spec, severity_color, severity_counts_spec,
    wrap_prefixed, wrap_prefixed_spec, ReportStyle,
};
use crate::text::{concat_str, decimal, decimal_string, join_seq, join_strings, sorted_distinct, views};

verus! {

// ---------------------------------------------------------------------------
// Line lists
// ---------------------------------------------------------------------------

pub fn push_line(lines: &mut Vec<String>, line: String)
    ensures
        views(final(lines)@) == views(old(lines)@).push(line@),
{
    let ghost before = views(lines@);
    let ghost l = line@;
    lines.push(line);
    assert(views(lines@) =~= before.push(l));
}

pub fn append_lines(lines: &mut Vec<String>, more: Vec<String>)
    ensures
        views(final(lines)@) == views(old(lines)@) + views(more@),
{
    let ghost start = views(lines@);
    let mut i: usize = 0;
    while i < more.len()
        invariant
            i <= more.len(),
            views(lines@) == start + views(more@).take(i as int),
        decreases more.len() - i,
    {
        let ghost before = views(lines@);
        lines.push(more[i].clone());
        assert(views(lines@) =~= before.push(more@[i as int]@));
        assert(views(more@).take(i + 1) =~= views(more@).take(i as int).push(more@[i as int]@));
        assert(start + views(more@).take(i + 1) =~= (start + views(more@).take(i as int)).push(
            more@[i as int]@,
        ));
        i += 1;
    }
    assert(views(more@).take(more.len() as int) =~= views(more@));
}

/// The two-space indent of listed items, two bytes long.
proof fn lemma_indent_bytes()
    ensures
        "  ".len() == 2,
        "  "@ == seq![' ', ' '],
{
    reveal_strlit("  ");
    broadcast use vstd::string::is_ascii_spec_bytes;

    assert(vstd::string::is_ascii("  "));
}

pub open spec fn muted(e: bool, t: Seq<char>) -> Seq<char> {
    paint_spec(e, "90"@, t)
}

/// The lines of a listed item: `lead`, a space and `text`, wrapped and
/// indented by two spaces.
pub open spec fn item_lines(lead: Seq<char>, text: Seq<char>, width: nat) -> Seq<Seq<char>> {
    wrap_prefixed_spec(lead + " "@ + text, "  "@, width, 2)
}

fn item(lead: &str, text: &str, width: usize) -> (r: Vec<String>)
    ensures
        views(r@) == item_lines(lead@, text@, width as nat),
{
    let mut s = concat_str(lead, " ");
    s.append(text);
    proof {
        lemma_indent_bytes();
    }
    wrap_prefixed(s.as_str(), "  ", width)
}

/// The lines of the details of a file: a coloured dot and the message.
pub open spec fn detail_lines(e: bool, ds: Seq<(DoctorSeverity, Seq<char>)>, width: nat) -> Seq<
    Seq<char>,
>
    decreases ds.len(),
{
    if ds.len() == 0 {
        Seq::empty()
    } else {
        detail_lines(e, ds.drop_last(), width) + item_lines(
            paint_spec(e, severity_color(ds.last().0), "●"@),
            ds.last().1,
            width,
        )
    }
}

fn detail_block(style: &ReportStyle, details: &Vec<FileDetail>, width: usize) -> (r: Vec<String>)
    ensures
        views(r@) == detail_lines(style.enabled, detail_views(details@), width as nat),
{
    let mut r: Vec<String> = Vec::new();
    let mut i: usize = 0;
    while i < details.len()
        invariant
            i <= details.len(),
            views(r@) == detail_lines(style.enabled, detail_views(details@.take(i as int)), width as nat),
        decreases details.len() - i,
    {
        assert(detail_views(details@.take(i + 1)).drop_last() =~= detail_views(
            details@.take(i as int),
        ));
        let dot = style.dot(details[i].severity);
        let more = item(dot.as_str(), details[i].message.as_str(), width);
        append_lines(&mut r, more);
        i += 1;
    }
    assert(details@.take(details.len() as int) =~= details@);
    r
}

/// The lines of the next fixes: a muted bullet and the hint.
pub open spec fn hint_lines(e: bool, hs: Seq<Seq<char>>, width: nat) -> Seq<Seq<char>>
    decreases hs.len(),
{
    if hs.len() == 0 {
        Seq::empty()
    } else {
        hint_lines(e, hs.drop_last(), width) + item_lines(muted(e, "•"@), hs.last(), width)
    }
}

fn hint_block(style: &ReportStyle, hints: &Vec<String>, width: usize) -> (r: Vec<String>)
    ensures
        views(r@) == hint_lines(style.enabled, views(hints@), width as nat),
{
    let mut r: Vec<String> = Vec::new();
    let mut i: usize = 0;
    while i < hints.len()
        invariant
            i <= hints.len(),
            views(r@) == hint_lines(style.enabled, views(hints@).take(i as int), width as nat),
        decreases hints.len() - i,
    {
        assert(views(hints@).take(i + 1).drop_last() =~= views(hints@).take(i as int));
        let bullet = style.muted("•");
        let more = item(bullet.as_str(), hints[i].as_str(), width);
        append_lines(&mut r, more);
        i += 1;
    }
    assert(views(hints@).take(hints.len() as int) =~= views(hints@));
    r
}

/// A section of next fixes, when there is any hint.
pub open spec fn next_fix_section(e: bool, hs: Seq<Seq<char>>, width: nat) -> Seq<Seq<char>> {
    if hs.len() == 0 {
        Seq::empty()
    } else {
        seq![Seq::empty(), paint_spec(e, "1;90"@, "Next Fixes"@)] + hint_lines(e, hs, width)
    }
}

pub fn next_fixes_block(style: &ReportStyle, hints: &Vec<String>, width: usize) -> (r: Vec<String>)
    ensures
        views(r@) == next_fix_section(style.enabled, views(hints@), width as nat),
{
    let mut r: Vec<String> = Vec::new();
    if hints.len() == 0 {
        assert(views(r@) =~= Seq::<Seq<char>>::empty());
        return r;
    }
    push_line(&mut r, String::new());
    push_line(&mut r, style.section("Next Fixes"));
    append_lines(&mut r, hint_block(style, hints, width));
    r
}

// ---------------------------------------------------------------------------
// Ecosystems
// ---------------------------------------------------------------------------

pub open spec fn eco_detail_spec(e: bool, es: EcosystemDoctorScore) -> Seq<char> {
    if es.engine_detail.is_none() && es.engine_status == ManagedEngineStatus::Managed {
        Seq::empty()
    } else {
        " "@ + muted(e, "["@ + engine_status_label(es.engine_status) + "]"@)
    }
}

pub open spec fn eco_cap_spec(e: bool, cap: Option<u8>) -> Seq<char> {
    match cap {
        Some(c) => " cap "@ + muted(e, decimal(c as nat)),
        None => Seq::empty(),
    }
}

/// The line of one ecosystem: name, score, engine, engine status, finding
/// count and cap.
pub open spec fn eco_line_spec(e: bool, es: EcosystemDoctorScore) -> Seq<char> {
    paint_spec(e, "1;97"@, ecosystem_label(es.ecosystem)) + "  "@ + score_text_spec(e, Some(es.score))
        + "  "@ + muted(e, es.engine@) + eco_detail_spec(e, es) + "  "@ + decimal(
        es.finding_count as nat,
    ) + " finding(s)"@ + eco_cap_spec(e, es.cap)
}

pub open spec fn eco_lines(e: bool, es: EcosystemDoctorScore, width: nat) -> Seq<Seq<char>> {
    seq![eco_line_spec(e, es)] + match es.cap_reason {
        Some(r) => item_lines(muted(e, "cap reason:"@), r@, width),
        None => Seq::empty(),
    }
}

pub open spec fn eco_blocks(e: bool, es: Seq<EcosystemDoctorScore>, width: nat) -> Seq<Seq<char>>
    decreases es.len(),
{
    if es.len() == 0 {
        Seq::empty()
    } else {
        eco_blocks(e, es.drop_last(), width) + eco_lines(e, es.last(), width)
    }
}

fn eco_line(style: &ReportStyle, es: &EcosystemDoctorScore) -> (r: String)
    ensures
        r@ == eco_line_spec(style.enabled, *es),
{
    let mut s = style.file(es.ecosystem.label());
    s.append("  ");
    s.append(style.score(Some(es.score)).as_str());
    s.append("  ");
    s.append(style.muted(es.engine.as_str()).as_str());
    let show_status = match es.engine_detail {
        Some(_) => true,
        None => match es.engine_status {
            ManagedEngineStatus::Managed => false,
            _ => true,
        },
    };
    if show_status {
        let bracket = concat_str("[", es.engine_status.label());
        let mut b = bracket;
        b.append("]");
        s.append(" ");
        s.append(style.muted(b.as_str()).as_str());
    }
    s.append("  ");
    s.append(decimal_string(es.finding_count as u64).as_str());
    s.append(" finding(s)");
    match es.cap {
        Some(c) => {
            s.append(" cap ");
            s.append(style.muted(decimal_string(c as u64).as_str()).as_str());
        },
        None => {},
    }
    assert(s@ =~= eco_line_spec(style.enabled, *es));
    s
}

fn eco_section_lines(style: &ReportStyle, es: &Vec<EcosystemDoctorScore>, width: usize) -> (r: Vec<
    String,
>)
    ensures
        views(r@) == eco_blocks(style.enabled, es@, width as nat),
{
    let mut r: Vec<String> = Vec::new();
    let mut i: usize = 0;
    while i < es.len()
        invariant
            i <= es.len(),
            views(r@) == eco_blocks(style.enabled, es@.take(i as int), width as nat),
        decreases es.len() - i,
    {
        assert(es@.take(i + 1).drop_last() =~= es@.take(i as int));
        let ghost before = views(r@);
        push_line(&mut r, eco_line(style, &es[i]));
        match &es[i].cap_reason {
            Some(reason) => {
                let lead = style.muted("cap reason:");
                append_lines(&mut r, item(lead.as_str(), reason.as_str(), width));
            },
            None => {},
        }
        assert(views(r@) =~= before + eco_lines(style.enabled, es@[i as int], width as nat));
        i += 1;
    }
    assert(es@.take(es.len() as int) =~= es@);
    r
}

// ---------------------------------------------------------------------------
// Files
// ---------------------------------------------------------------------------

pub open spec fn eco_names(es: Seq<crate::doctor::DoctorEcosystem>) -> Seq<Seq<char>> {
    es.map_values(|x: crate::doctor::DoctorEcosystem| ecosystem_label(x))
}

/// The heading line of a file: its path, severity counts, the number of
/// findings and the ecosystems they belong to.
pub open spec fn file_header_spec(e: bool, path: Seq<char>, g: Seq<DoctorFinding>) -> Seq<char> {
    let ecos = ecosystems_present(g);
    paint_spec(e, "1;97"@, path) + "  "@ + severity_counts_spec(
        e,
        count_severity(g, DoctorSeverity::Warning),
        count_severity(g, DoctorSeverity::Info),
        count_severity(g, DoctorSeverity::Error),
    ) + "  "@ + muted(e, decimal(g.len()) + " issue(s)"@) + "  "@ + if ecos.len() == 0 {
        Seq::empty()
    } else {
        muted(e, "["@ + join_seq(eco_names(ecos), ", "@) + "]"@)
    }
}

pub open spec fn file_block_spec(
    e: bool,
    target: Seq<char>,
    fs: Seq<DoctorFinding>,
    path: Seq<char>,
    width: nat,
) -> Seq<Seq<char>> {
    let g = group_of(target, fs, path);
    seq![file_header_spec(e, path, g)] + detail_lines(e, finding_details(g), width)
}

pub open spec fn file_blocks(
    e: bool,
    target: Seq<char>,
    fs: Seq<DoctorFinding>,
    paths: Seq<Seq<char>>,
    width: nat,
) -> Seq<Seq<char>>
    decreases paths.len(),
{
    if paths.len() == 0 {
        Seq::empty()
    } else {
        file_blocks(e, target, fs, paths.drop_last(), width) + file_block_spec(
            e,
            target,
            fs,
            paths.last(),
            width,
        )
    }
}

fn eco_label_list(es: &Vec<crate::doctor::DoctorEcosystem>) -> (r: Vec<String>)
    ensures
        views(r@) == eco_names(es@),
{
    let mut r: Vec<String> = Vec::new();
    let mut i: usize = 0;
    while i < es.len()
        invariant
            i <= es.len(),
            views(r@) == eco_names(es@.take(i as int)),
        decreases es.len() - i,
    {
        let ghost before = views(r@);
        push_line(&mut r, es[i].label().to_owned());
        assert(eco_names(es@.take(i + 1)) =~= eco_names(es@.take(i as int)).push(
            ecosystem_label(es@[i as int]),
        ));
        i += 1;
    }
    assert(es@.take(es.len() as int) =~= es@);
    r
}

fn file_block(
    style: &ReportStyle,
    report: &DomainFileReport,
    width: usize,
    Ghost(target): Ghost<Seq<char>>,
    Ghost(fs): Ghost<Seq<DoctorFinding>>,
) -> (r: Vec<String>)
    requires
        domain_file_report_spec(*report, target, fs, report.path@),
    ensures
        views(r@) == file_block_spec(style.enabled, target, fs, report.path@, width as nat),
{
    let mut head = style.file(report.path.as_str());
    head.append("  ");
    head.append(
        format_severity_counts(
            style,
            report.warning_count,
            report.info_count,
            report.error_count,
        ).as_str(),
    );
    head.append("  ");
    let issues = concat_str(decimal_string(report.detail_count as u64).as_str(), " issue(s)");
    head.append(style.muted(issues.as_str()).as_str());
    head.append("  ");
    if report.ecosystems.len() > 0 {
        let names = join_strings(&eco_label_list(&report.ecosystems), ", ");
        let mut bracket = concat_str("[", names.as_str());
        bracket.append("]");
        head.append(style.muted(bracket.as_str()).as_str());
    }
    let ghost g = group_of(target, fs, report.path@);
    assert(head@ =~= file_header_spec(style.enabled, report.path@, g));
    let mut r: Vec<String> = Vec::new();
    push_line(&mut r, head);
    append_lines(&mut r, detail_block(style, &report.details, width));
    assert(views(r@) =~= file_block_spec(style.enabled, target, fs, report.path@, width as nat));
    r
}

fn file_section_lines(style: &ReportStyle, target: &str, findings: &Vec<DoctorFinding>, width: usize) -> (r:
    Vec<String>)
    ensures
        views(r@) == file_blocks(
            style.enabled,
            target@,
            findings@,
            file_paths(target@, findings@),
            width as nat,
        ),
{
    let reports = build_domain_file_reports(target, findings);
    let ghost paths = file_paths(target@, findings@);
    let mut r: Vec<String> = Vec::new();
    let mut k: usize = 0;
    while k < reports.len()
        invariant
            k <= reports.len(),
            reports@.len() == paths.len(),
            paths == file_paths(target@, findings@),
            forall|j: int|
                0 <= j < reports@.len() ==> domain_file_report_spec(
                    #[trigger] reports@[j],
                    target@,
                    findings@,
                    paths[j],
                ),
            views(r@) == file_blocks(style.enabled, target@, findings@, paths.take(k as int), width as nat),
        decreases reports.len() - k,
    {
        assert(paths.take(k + 1).drop_last() =~= paths.take(k as int));
        assert(domain_file_report_spec(reports@[k as int], target@, findings@, paths[k as int]));
        let more = file_block(style, &reports[k], width, Ghost(target@), Ghost(findings@));
        append_lines(&mut r, more);
        k += 1;
    }
    assert(paths.take(reports.len() as int) =~= paths);
    r
}

// ---------------------------------------------------------------------------
// The report
// ---------------------------------------------------------------------------

pub open spec fn eco_summary_spec(e: bool, es: Seq<EcosystemDoctorScore>) -> Seq<char> {
    if es.len() == 0 {
        muted(e, "none detected"@)
    } else {
        join_seq(es.map_values(|x: EcosystemDoctorScore| ecosystem_label(x.ecosystem)), ", "@)
    }
}

/// The heading lines: title, score, target, summary and the cap that
/// holds the score down, if any.
pub open spec fn domain_head_lines(
    e: bool,
    title: Seq<char>,
    doctor_label: Seq<char>,
    target: Seq<char>,
    score: Option<u8>,
    engine: Seq<char>,
    summary: Seq<char>,
    es: Seq<EcosystemDoctorScore>,
    fs: Seq<DoctorFinding>,
) -> Seq<Seq<char>> {
    seq![
        paint_spec(e, "1;96"@, title),
        muted(e, "score"@) + "  "@ + score_text_spec(e, score) + "  "@ + muted(e, "ecosystems"@) + "  "@
            + eco_summary_spec(e, es) + "  "@ + muted(e, "engine"@) + "  "@ + muted(e, engine),
        muted(e, "target"@) + " "@ + target,
        muted(e, "summary"@) + " "@ + summary + "  "@ + severity_counts_spec(
            e,
            count_severity(fs, DoctorSeverity::Warning),
            count_severity(fs, DoctorSeverity::Info),
            count_severity(fs, DoctorSeverity::Error),
        ) + "  "@ + muted(e, doctor_label + " policy blend"@),
    ] + match first_min_reason(es, false) {
        Some(i) => seq![muted(e, "cap"@) + " "@ + es[i].cap_reason.unwrap()@],
        None => Seq::empty(),
    }
}

/// The ecosystems section, when there is any ecosystem.
pub open spec fn eco_section_spec(e: bool, es: Seq<EcosystemDoctorScore>, width: nat) -> Seq<Seq<char>> {
    if es.len() == 0 {
        Seq::empty()
    } else {
        seq![Seq::empty(), paint_spec(e, "1;90"@, "By Ecosystem"@)] + eco_blocks(e, es, width)
    }
}

/// The findings by file and the next fixes, or a line saying there is
/// no finding.
pub open spec fn findings_section_spec(
    e: bool,
    doctor_label: Seq<char>,
    target: Seq<char>,
    fs: Seq<DoctorFinding>,
    width: nat,
) -> Seq<Seq<char>> {
    if fs.len() == 0 {
        seq![Seq::empty(), paint_spec(e, "92"@, "No "@ + doctor_label + " findings."@)]
    } else {
        seq![Seq::empty(), paint_spec(e, "1;90"@, "By File"@)] + file_blocks(
            e,
            target,
            fs,
            file_paths(target, fs),
            width,
        ) + next_fix_section(e, sorted_distinct(hints_of(fs)), width)
    }
}

/// The whole report, line by line.
pub open spec fn domain_report_lines(
    e: bool,
    title: Seq<char>,
    doctor_label: Seq<char>,
    target: Seq<char>,
    score: Option<u8>,
    engine: Seq<char>,
    summary: Seq<char>,
    es: Seq<EcosystemDoctorScore>,
    fs: Seq<DoctorFinding>,
    width: nat,
) -> Seq<Seq<char>> {
    domain_head_lines(e, title, doctor_label, target, score, engine, summary, es, fs)
        + eco_section_spec(e, es, width) + findings_section_spec(e, doctor_label, target, fs, width)
}

fn eco_summary(style: &ReportStyle, es: &Vec<EcosystemDoctorScore>) -> (r: String)
    ensures
        r@ == eco_summary_spec(style.enabled, es@),
{
    if es.len() == 0 {
        return style.muted("none detected");
    }
    let mut names: Vec<String> = Vec::new();
    let mut i: usize = 0;
    while i < es.len()
        invariant
            i <= es.len(),
            views(names@) == es@.take(i as int).map_values(
                |x: EcosystemDoctorScore| ecosystem_label(x.ecosystem),
            ),
        decreases es.len() - i,
    {
        push_line(&mut names, es[i].ecosystem.label().to_owned());
        assert(es@.take(i + 1).map_values(|x: EcosystemDoctorScore| ecosystem_label(x.ecosystem))
            =~= es@.take(i as int).map_values(
            |x: EcosystemDoctorScore| ecosystem_label(x.ecosystem),
        ).push(ecosystem_label(es@[i as int].ecosystem)));
        i += 1;
    }
    assert(es@.take(es.len() as int) =~= es@);
    join_strings(&names, ", ")
}

fn domain_head(
    style: &ReportStyle,
    title: &str,
    doctor_label: &str,
    target: &str,
    score: Option<u8>,
    engine: &str,
    summary: &str,
    ecosystems: &Vec<EcosystemDoctorScore>,
    findings: &Vec<DoctorFinding>,
) -> (r: Vec<String>)
    ensures
        views(r@) == domain_head_lines(
            style.enabled,
            title@,
            doctor_label@,
            target@,
            score,
            engine@,
            summary@,
            ecosystems@,
            findings@,
        ),
{
    let mut r: Vec<String> = Vec::new();
    push_line(&mut r, style.paint("1;96", title));
    let mut l1 = style.label("score");
    l1.append("  ");
    l1.append(style.score(score).as_str());
    l1.append("  ");
    l1.append(style.label("ecosystems").as_str());
    l1.append("  ");
    l1.append(eco_summary(style, ecosystems).as_str());
    l1.append("  ");
    l1.append(style.label("engine").as_str());
    l1.append("  ");
    l1.append(style.muted(engine).as_str());
    push_line(&mut r, l1);
    let mut l2 = style.label("target");
    l2.append(" ");
    l2.append(target);
    push_line(&mut r, l2);
    let warnings = count_with_severity(findings, DoctorSeverity::Warning);
    let infos = count_with_severity(findings, DoctorSeverity::Info);
    let errors = count_with_severity(findings, DoctorSeverity::Error);
    let mut l3 = style.label("summary");
    l3.append(" ");
    l3.append(summary);
    l3.append("  ");
    l3.append(format_severity_counts(style, warnings, infos, errors).as_str());
    l3.append("  ");
    let blend = concat_str(doctor_label, " policy blend");
    l3.append(style.muted(blend.as_str()).as_str());
    push_line(&mut r, l3);
    proof {
        lemma_first_min_reason_present(ecosystems@);
    }
    match first_min_reason_exec(ecosystems, false) {
        Some(i) => {
            match &ecosystems[i].cap_reason {
                Some(reason) => {
                    let mut l = style.label("cap");
                    l.append(" ");
                    l.append(reason.as_str());
                    push_line(&mut r, l);
                },
                None => {},
            }
        },
        None => {},
    }
    assert(views(r@) =~= domain_head_lines(
        style.enabled,
        title@,
        doctor_label@,
        target@,
        score,
        engine@,
        summary@,
        ecosystems@,
        findings@,
    ));
    r
}

/// The ecosystem picked for the cap line has a cap reason.
proof fn lemma_first_min_reason_present(es: Seq<EcosystemDoctorScore>)
    ensures
        first_min_reason(es, false) matches Some(i) ==> 0 <= i < es.len() && es[i].cap_reason.is_some(),
    decreases es.len(),
{
    if es.len() > 0 {
        lemma_first_min_reason_present(es.drop_last());
    }
}

fn eco_section(style: &ReportStyle, ecosystems: &Vec<EcosystemDoctorScore>, width: usize) -> (r: Vec<
    String,
>)
    ensures
        views(r@) == eco_section_spec(style.enabled, ecosystems@, width as nat),
{
    let mut lines: Vec<String> = Vec::new();
    if ecosystems.len() > 0 {
        push_line(&mut lines, String::new());
        push_line(&mut lines, style.section("By Ecosystem"));
        append_lines(&mut lines, eco_section_lines(style, ecosystems, width));
    }
    assert(views(lines@) =~= eco_section_spec(style.enabled, ecosystems@, width as nat));
    lines
}

fn findings_section(
    style: &ReportStyle,
    doctor_label: &str,
    target: &str,
    findings: &Vec<DoctorFinding>,
    width: usize,
) -> (r: Vec<String>)
    ensures
        views(r@) == findings_section_spec(style.enabled, doctor_label@, target@, findings@, width as nat),
{
    let mut lines: Vec<String> = Vec::new();
    if findings.len() == 0 {
        push_line(&mut lines, String::new());
        let mut msg = concat_str("No ", doctor_label);
        msg.append(" findings.");
        push_line(&mut lines, style.good(msg.as_str()));
    } else {
        push_line(&mut lines, String::new());
        push_line(&mut lines, style.section("By File"));
        append_lines(&mut lines, file_section_lines(style, target, findings, width));
        let hints = domain_next_fixes(findings);
        append_lines(&mut lines, next_fixes_block(style, &hints, width));
    }
    assert(views(lines@) =~= findings_section_spec(
        style.enabled,
        doctor_label@,
        target@,
        findings@,
        width as nat,
    ));
    lines
}

/// A deps or release doctor report as text: the heading, the ecosystems,
/// the findings grouped by file and the next fixes, lines joined by
/// newlines, wrapped to `width` columns.
pub fn render_multi_domain_doctor_human(
    title: &str,
    doctor_label: &str,
    target: &str,
    score: Option<u8>,
    engine: &str,
    summary: &str,
    ecosystems: &Vec<EcosystemDoctorScore>,
    findings: &Vec<DoctorFinding>,
    color: bool,
    width: usize,
) -> (r: String)
    ensures
        r@ == join_seq(
            domain_report_lines(
                color,
                title@,
                doctor_label@,
                target@,
                score,
                engine@,
                summary@,
                ecosystems@,
                findings@,
                width as nat,
            ),
            "\n"@,
        ),
{
    let style = ReportStyle { enabled: color };
    let mut lines = domain_head(
        &style,
        title,
        doctor_label,
        target,
        score,
        engine,
        summary,
        ecosystems,
        findings,
    );
    append_lines(&mut lines, eco_section(&style, ecosystems, width));
    append_lines(&mut lines, findings_section(&style, doctor_label, target, findings, width));
    join_strings(&lines, "\n")
}

/// The deps doctor report as text.
pub fn render_deps_doctor_human(report: &DepsDoctorReport, color: bool, width: usize) -> (r: String)
    ensures
        r@ == join_seq(
            domain_report_lines(
                color,
                "OSSIFY DEPS DOCTOR"@,
                "deps"@,
                report.target@,
                report.domain.score,
                report.domain.engine@,
                report.domain.summary@,
                report.ecosystems@,
                report.findings@,
                width as nat,
            ),
            "\n"@,
        ),
{
    render_multi_domain_doctor_human(
        "OSSIFY DEPS DOCTOR",
        "deps",
        report.target.as_str(),
        report.domain.score,
        report.domain.engine.as_str(),
        report.domain.summary.as_str(),
        &report.ecosystems,
        &report.findings,
        color,
        width,
    )
}

/// The release doctor report as text.
pub fn render_release_doctor_human(report: &ReleaseDoctorReport, color: bool, width: usize) -> (r:
    String)
    ensures
        r@ == join_seq(
            domain_report_lines(
                color,
                "OSSIFY RELEASE DOCTOR"@,
                "release"@,
                report.target@,
                report.domain.score,
                report.domain.engine@,
                report.domain.summary@,
                report.ecosystems@,
                report.findings@,
                width as nat,
            ),
            "\n"@,
        ),
{
    render_multi_domain_doctor_human(
        "OSSIFY RELEASE DOCTOR",
        "release",
        report.target.as_str(),
        report.domain.score,
        report.domain.engine.as_str(),
        report.domain.summary.as_str(),
        &report.ecosystems,
        &report.findings,
        color,
        width,
    )
}

// ---------------------------------------------------------------------------
// The workflow doctor report
// ---------------------------------------------------------------------------

pub open spec fn workflow_block_spec(
    e: bool,
    target: Seq<char>,
    fs: Seq<DoctorFinding>,
    path: Seq<char>,
    width: nat,
) -> Seq<Seq<char>> {
    let g = group_of(target, fs, path);
    seq![
        paint_spec(e, "1;97"@, path) + "  "@ + severity_counts_spec(
            e,
            count_severity(g, DoctorSeverity::Warning),
            count_severity(g, DoctorSeverity::Info),
            count_severity(g, DoctorSeverity::Error),
        ) + "  "@ + muted(e, decimal(g.len()) + " issue(s)"@),
    ] + detail_lines(e, ranked_details(g), width)
}

pub open spec fn workflow_blocks(
    e: bool,
    target: Seq<char>,
    fs: Seq<DoctorFinding>,
    paths: Seq<Seq<char>>,
    width: nat,
) -> Seq<Seq<char>>
    decreases paths.len(),
{
    if paths.len() == 0 {
        Seq::empty()
    } else {
        workflow_blocks(e, target, fs, paths.drop_last(), width) + workflow_block_spec(
            e,
            target,
            fs,
            paths.last(),
            width,
        )
    }
}

fn workflow_block(
    style: &ReportStyle,
    report: &WorkflowFileReport,
    width: usize,
    Ghost(target): Ghost<Seq<char>>,
    Ghost(fs): Ghost<Seq<DoctorFinding>>,
) -> (r: Vec<String>)
    requires
        workflow_file_report_spec(*report, target, fs, report.path@),
    ensures
        views(r@) == workflow_block_spec(style.enabled, target, fs, report.path@, width as nat),
{
    let mut head = style.file(report.path.as_str());
    head.append("  ");
    head.append(
        format_severity_counts(
            style,
            report.warning_count,
            report.info_count,
            report.error_count,
        ).as_str(),
    );
    head.append("  ");
    let issues = concat_str(decimal_string(report.detail_count as u64).as_str(), " issue(s)");
    head.append(style.muted(issues.as_str()).as_str());
    let mut r: Vec<String> = Vec::new();
    push_line(&mut r, head);
    append_lines(&mut r, detail_block(style, &report.details, width));
    assert(views(r@) =~= workflow_block_spec(style.enabled, target, fs, report.path@, width as nat));
    r
}

fn workflow_section_lines(
    style: &ReportStyle,
    target: &str,
    findings: &Vec<DoctorFinding>,
    width: usize,
) -> (r: Vec<String>)
    ensures
        views(r@) == workflow_blocks(
            style.enabled,
            target@,
            findings@,
            file_paths(target@, findings@),
            width as nat,
        ),
{
    let reports = build_workflow_file_reports(target, findings);
    let ghost paths = file_paths(target@, findings@);
    let mut r: Vec<String> = Vec::new();
    let mut k: usize = 0;
    while k < reports.len()
        invariant
            k <= reports.len(),
            reports@.len() == paths.len(),
            paths == file_paths(target@, findings@),
            forall|j: int|
                0 <= j < reports@.len() ==> workflow_file_report_spec(
                    #[trigger] reports@[j],
                    target@,
                    findings@,
                    paths[j],
                ),
            views(r@) == workflow_blocks(
                style.enabled,
                target@,
                findings@,
                paths.take(k as int),
                width as nat,
            ),
        decreases reports.len() - k,
    {
        assert(paths.take(k + 1).drop_last() =~= paths.take(k as int));
        assert(workflow_file_report_spec(reports@[k as int], target@, findings@, paths[k as int]));
        let more = workflow_block(style, &reports[k], width, Ghost(target@), Ghost(findings@));
        append_lines(&mut r, more);
        k += 1;
    }
    assert(paths.take(reports.len() as int) =~= paths);
    r
}

pub open spec fn workflow_head_lines(e: bool, r: WorkflowDoctorReport) -> Seq<Seq<char>> {
    let fs = r.findings@;
    seq![
        paint_spec(e, "1;96"@, "OSSIFY WORKFLOW DOCTOR"@),
        muted(e, "score"@) + "  "@ + score_text_spec(e, r.score) + "  "@ + muted(e, "workflows"@) + "  "@
            + decimal(r.workflow_files as nat) + "  "@ + muted(e, "engine"@) + "  "@ + if r.engine_available {
            paint_spec(e, "92"@, r.engine@)
        } else {
            paint_spec(e, "91"@, r.engine@)
        },
        muted(e, "target"@) + " "@ + r.target@,
        muted(e, "summary"@) + " "@ + workflow_summary_spec(r) + "  "@ + severity_counts_spec(
            e,
            count_severity(fs, DoctorSeverity::Warning),
            count_severity(fs, DoctorSeverity::Info),
            count_severity(fs, DoctorSeverity::Error),
        ) + "  "@ + if r.engine_available {
            muted(e, "actionlint + ossify"@)
        } else {
            muted(e, "bootstrap pending"@)
        },
    ]
}

/// The workflow report, line by line.
pub open spec fn workflow_report_lines(e: bool, r: WorkflowDoctorReport, width: nat) -> Seq<Seq<char>> {
    workflow_head_lines(e, r) + if r.findings@.len() == 0 {
        seq![Seq::empty(), paint_spec(e, "92"@, "No workflow findings."@)]
    } else {
        seq![Seq::empty(), paint_spec(e, "1;90"@, "By File"@)] + workflow_blocks(
            e,
            r.target@,
            r.findings@,
            file_paths(r.target@, r.findings@),
            width,
        ) + next_fix_section(e, sorted_distinct(workflow_hints_of(r.findings@)), width)
    }
}

fn workflow_head(style: &ReportStyle, report: &WorkflowDoctorReport) -> (r: Vec<String>)
    ensures
        views(r@) == workflow_head_lines(style.enabled, *report),
{
    let mut r: Vec<String> = Vec::new();
    push_line(&mut r, style.paint("1;96", "OSSIFY WORKFLOW DOCTOR"));
    let mut l1 = style.label("score");
    l1.append("  ");
    l1.append(style.score(report.score).as_str());
    l1.append("  ");
    l1.append(style.label("workflows").as_str());
    l1.append("  ");
    l1.append(decimal_string(report.workflow_files as u64).as_str());
    l1.append("  ");
    l1.append(style.label("engine").as_str());
    l1.append("  ");
    if report.engine_available {
        l1.append(style.good(report.engine.as_str()).as_str());
    } else {
        l1.append(style.bad(report.engine.as_str()).as_str());
    }
    push_line(&mut r, l1);
    let mut l2 = style.label("target");
    l2.append(" ");
    l2.append(report.target.as_str());
    push_line(&mut r, l2);
    let mut l3 = style.label("summary");
    l3.append(" ");
    l3.append(report.summary().as_str());
    l3.append("  ");
    l3.append(
        format_severity_counts(
            style,
            report.warning_count(),
            report.info_count(),
            report.error_count(),
        ).as_str(),
    );
    l3.append("  ");
    if report.engine_available {
        l3.append(style.muted("actionlint + ossify").as_str());
    } else {
        l3.append(style.muted("bootstrap pending").as_str());
    }
    push_line(&mut r, l3);
    assert(views(r@) =~= workflow_head_lines(style.enabled, *report));
    r
}

/// The workflow doctor report as text: heading, findings by file (errors
/// first within a file) and next fixes, wrapped to `width` columns.
pub fn render_workflow_doctor_human(report: &WorkflowDoctorReport, color: bool, width: usize) -> (r:
    String)
    ensures
        r@ == join_seq(workflow_report_lines(color, *report, width as nat), "\n"@),
{
    let style = ReportStyle { enabled: color };
    let mut lines = workflow_head(&style, report);
    let ghost head = views(lines@);
    if report.findings.len() == 0 {
        push_line(&mut lines, String::new());
        push_line(&mut lines, style.good("No workflow findings."));
    } else {
        push_line(&mut lines, String::new());
        push_line(&mut lines, style.section("By File"));
        append_lines(
            &mut lines,
            workflow_section_lines(&style, report.target.as_str(), &report.findings, width),
        );
        let hints = workflow_next_fixes(&report.findings);
        append_lines(&mut lines, next_fixes_block(&style, &hints, width));
    }
    assert(views(lines@) =~= workflow_report_lines(color, *report, width as nat));
    join_strings(&lines, "\n")
}

// ---------------------------------------------------------------------------
// The docs doctor report
// ---------------------------------------------------------------------------

pub open spec fn docs_finding_lines(target: Seq<char>, f: DoctorFinding) -> Seq<Seq<char>> {
    seq!["["@ + severity_label(f.severity) + "] "@ + location_spec(target, f.file) + " | "@ + f.message@]
        + match f.help {
        Some(h) => seq!["  -> "@ + h@],
        None => Seq::empty(),
    }
}

pub open spec fn docs_findings_lines(target: Seq<char>, fs: Seq<DoctorFinding>) -> Seq<Seq<char>>
    decreases fs.len(),
{
    if fs.len() == 0 {
        Seq::empty()
    } else {
        docs_findings_lines(target, fs.drop_last()) + docs_finding_lines(target, fs.last())
    }
}

/// The docs report, line by line.
pub open spec fn docs_report_lines(r: DocsDoctorReport) -> Seq<Seq<char>> {
    seq![
        "OSSIFY DOCS DOCTOR"@,
        "Target: "@ + r.target@,
        "Score: "@ + decimal(r.score as nat) + "/100"@,
        "Markdown files scanned: "@ + decimal(r.markdown_files as nat),
        "Local links checked: "@ + decimal(r.local_links_checked as nat),
        "Summary: "@ + docs_summary_spec(
            count_severity(r.findings@, DoctorSeverity::Error),
            count_severity(r.findings@, DoctorSeverity::Warning),
        ),
    ] + if r.findings@.len() == 0 {
        seq![Seq::empty(), "No documentation findings."@]
    } else {
        seq![Seq::empty(), "Findings"@] + docs_findings_lines(r.target@, r.findings@)
    }
}

fn docs_finding_block(target: &str, f: &DoctorFinding) -> (r: Vec<String>)
    ensures
        views(r@) == docs_finding_lines(target@, *f),
{
    let mut l = concat_str("[", f.severity.label());
    l.append("] ");
    l.append(relative_location(target, &f.file).as_str());
    l.append(" | ");
    l.append(f.message.as_str());
    let mut r: Vec<String> = Vec::new();
    push_line(&mut r, l);
    match &f.help {
        Some(h) => {
            push_line(&mut r, concat_str("  -> ", h.as_str()));
        },
        None => {},
    }
    assert(views(r@) =~= docs_finding_lines(target@, *f));
    r
}

/// The docs doctor report as plain text.
pub fn render_docs_doctor_human(report: &DocsDoctorReport) -> (r: String)
    ensures
        r@ == join_seq(docs_report_lines(*report), "\n"@),
{
    let mut lines: Vec<String> = Vec::new();
    push_line(&mut lines, "OSSIFY DOCS DOCTOR".to_owned());
    push_line(&mut lines, concat_str("Target: ", report.target.as_str()));
    let mut score = concat_str("Score: ", decimal_string(report.score as u64).as_str());
    score.append("/100");
    push_line(&mut lines, score);
    push_line(
        &mut lines,
        concat_str("Markdown files scanned: ", decimal_string(report.markdown_files as u64).as_str()),
    );
    push_line(
        &mut lines,
        concat_str("Local links checked: ", decimal_string(report.local_links_checked as u64).as_str()),
    );
    push_line(&mut lines, concat_str("Summary: ", report.summary().as_str()));
    if report.findings.len() == 0 {
        push_line(&mut lines, String::new());
        push_line(&mut lines, "No documentation findings.".to_owned());
    } else {
        push_line(&mut lines, String::new());
        push_line(&mut lines, "Findings".to_owned());
        let ghost start = views(lines@);
        let mut i: usize = 0;
        while i < report.findings.len()
            invariant
                i <= report.findings.len(),
                views(lines@) == start + docs_findings_lines(
                    report.target@,
                    report.findings@.take(i as int),
                ),
            decreases report.findings.len() - i,
        {
            assert(report.findings@.take(i + 1).drop_last() =~= report.findings@.take(i as int));
            let ghost before = views(lines@);
            append_lines(&mut lines, docs_finding_block(report.target.as_str(), &report.findings[i]));
            assert(views(lines@) =~= start + docs_findings_lines(
                report.target@,
                report.findings@.take(i + 1),
            ));
            i += 1;
        }
        assert(report.findings@.take(report.findings.len() as int) =~= report.findings@);
    }
    assert(views(lines@) =~= docs_report_lines(*report));
    join_strings(&lines, "\n")
}

} // verus!
