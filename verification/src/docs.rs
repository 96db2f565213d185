//! The documentation doctor: what a Markdown file holds (headings, links,
//! code blocks), and the findings on a repository's README and local links.
use vstd::prelude::*;
use pulldown_cmark::{Event, Options, Parser, Tag, TagEnd};
use crate::doctor::{
    clamped_total, is_local_destination, local_link_parts, parse_local_link, score_after,
    score_from_total, severity_penalty, DocsDoctorReport, doctor_finding, finding_if, has_heading, has_heading_spec, slugify_heading,
    slugify_heading_spec, view_of, views_of, DoctorDomain, DoctorFinding, DoctorSeverity,
    FindingView,
};
use crate::order::{listing_order, sort_listed};
use crate::rust_deps::opt_int;
use crate::text::{
    concat_str, distinct_sorted_strings, last_index_of, push_char, rfind_char, sorted_distinct, str_eq,
    suffix_from, trim, trim_seq, views,
};

verus! {

// ---------------------------------------------------------------------------
// Markdown events
// ---------------------------------------------------------------------------

/// The Markdown parser events that the documentation doctor reads.
#[derive(Debug, Clone)]
pub enum MdEvent {
    HeadingStart,
    HeadingEnd,
    CodeBlockStart,
    /// The destination of a link or an image.
    Link(String),
    /// Text or inline code.
    Text(String),
    /// A soft or hard line break.
    Break,
    Other,
}

/// An event as a kind number and its text.
pub open spec fn event_view(e: MdEvent) -> (u8, Seq<char>) {
    match e {
        MdEvent::HeadingStart => (0u8, Seq::empty()),
        MdEvent::HeadingEnd => (1u8, Seq::empty()),
        MdEvent::CodeBlockStart => (2u8, Seq::empty()),
        MdEvent::Link(d) => (3u8, d@),
        MdEvent::Text(t) => (4u8, t@),
        MdEvent::Break => (5u8, Seq::empty()),
        MdEvent::Other => (6u8, Seq::empty()),
    }
}

pub open spec fn event_views(es: Seq<MdEvent>) -> Seq<(u8, Seq<char>)> {
    es.map_values(|e: MdEvent| event_view(e))
}

/// The events that pulldown-cmark, with every extension on, reports for a
/// Markdown text.
pub uninterp spec fn markdown_events_of(contents: Seq<char>) -> Seq<(u8, Seq<char>)>;

/// `pulldown_cmark::Parser::new_ext(contents, Options::all())`, each event
/// turned into an `MdEvent`: heading starts and ends, code block starts,
/// link and image destinations, text and inline code, soft and hard breaks,
/// and `Other` for the rest.  What the parse yields is not stated here; it
/// is named by `markdown_events_of`.
#[verifier::external_body]
fn parse_markdown_events(contents: &str) -> (r: Vec<MdEvent>)
    ensures
        event_views(r@) == markdown_events_of(contents@),
{
    Parser::new_ext(contents, Options::all()).map(|event| match event {
        Event::Start(Tag::Heading { .. }) => MdEvent::HeadingStart,
        Event::End(TagEnd::Heading(_)) => MdEvent::HeadingEnd,
        Event::Start(Tag::CodeBlock(_)) => MdEvent::CodeBlockStart,
        Event::Start(Tag::Link { dest_url, .. }) => MdEvent::Link(dest_url.to_string()),
        Event::Start(Tag::Image { dest_url, .. }) => MdEvent::Link(dest_url.to_string()),
        Event::Text(text) | Event::Code(text) => MdEvent::Text(text.to_string()),
        Event::SoftBreak | Event::HardBreak => MdEvent::Break,
        _ => MdEvent::Other,
    }).collect()
}

// ---------------------------------------------------------------------------
// Reading the events
// ---------------------------------------------------------------------------

/// The heading being read (if any), the headings read so far (trimmed,
/// empty ones left out), the link destinations and the code block count.
pub type MdState = (Option<Seq<char>>, Seq<Seq<char>>, Seq<Seq<char>>, nat);

pub open spec fn md_step(st: MdState, e: (u8, Seq<char>)) -> MdState {
    let (current, raw, links, blocks) = st;
    if e.0 == 0 {
        (Some(Seq::empty()), raw, links, blocks)
    } else if e.0 == 1 {
        match current {
            Some(h) => if trim_seq(h).len() > 0 {
                (None, raw.push(trim_seq(h)), links, blocks)
            } else {
                (None, raw, links, blocks)
            },
            None => (None, raw, links, blocks),
        }
    } else if e.0 == 2 {
        (current, raw, links, blocks + 1)
    } else if e.0 == 3 {
        (current, raw, links.push(e.1), blocks)
    } else if e.0 == 4 {
        (
            match current {
                Some(h) => Some(h + e.1),
                None => None,
            },
            raw,
            links,
            blocks,
        )
    } else if e.0 == 5 {
        (
            match current {
                Some(h) => Some(h.push(' ')),
                None => None,
            },
            raw,
            links,
            blocks,
        )
    } else {
        st
    }
}

pub open spec fn md_scan(es: Seq<(u8, Seq<char>)>) -> MdState
    decreases es.len(),
{
    if es.len() == 0 {
        (None, Seq::empty(), Seq::empty(), 0)
    } else {
        md_step(md_scan(es.drop_last()), es.last())
    }
}

/// What one Markdown file holds.
#[derive(Debug, Clone)]
pub struct MarkdownAnalysis {
    pub path: String,
    /// The anchor slugs of the headings, sorted, each once.
    pub headings: Vec<String>,
    /// The headings' text, trimmed, in document order.
    pub raw_headings: Vec<String>,
    /// Link and image destinations, in document order.
    pub links: Vec<String>,
    pub code_blocks: usize,
}

pub open spec fn slugs_of(hs: Seq<Seq<char>>) -> Seq<Seq<char>> {
    hs.map_values(|h: Seq<char>| slugify_heading_spec(h))
}

/// The analysis of a file at `path` whose Markdown gives `events`.
pub open spec fn analysis_matches(
    a: MarkdownAnalysis,
    path: Seq<char>,
    events: Seq<(u8, Seq<char>)>,
) -> bool {
    let st = md_scan(events);
    &&& a.path@ == path
    &&& views(a.raw_headings@) == st.1
    &&& views(a.links@) == st.2
    &&& a.code_blocks == st.3
    &&& views(a.headings@) == sorted_distinct(slugs_of(st.1))
}

pub open spec fn opt_str(o: Option<String>) -> Option<Seq<char>> {
    match o {
        Some(s) => Some(s@),
        None => None,
    }
}

fn heading_slugs(raw: &Vec<String>) -> (r: Vec<String>)
    ensures
        views(r@) == slugs_of(views(raw@)),
{
    let mut r: Vec<String> = Vec::new();
    let mut i: usize = 0;
    while i < raw.len()
        invariant
            i <= raw.len(),
            views(r@) == slugs_of(views(raw@).take(i as int)),
        decreases raw.len() - i,
    {
        let ghost before = views(r@);
        r.push(slugify_heading(raw[i].as_str()));
        assert(views(r@) =~= before.push(slugify_heading_spec(raw@[i as int]@)));
        assert(views(raw@).take(i + 1) =~= views(raw@).take(i as int).push(raw@[i as int]@));
        assert(slugs_of(views(raw@).take(i + 1)) =~= slugs_of(views(raw@).take(i as int)).push(
            slugify_heading_spec(raw@[i as int]@),
        ));
        i += 1;
    }
    assert(views(raw@).take(raw.len() as int) =~= views(raw@));
    r
}

/// Headings, links and code blocks of a file, from its parser events.
pub fn analyze_events(path: &str, events: &Vec<MdEvent>) -> (a: MarkdownAnalysis)
    ensures
        analysis_matches(a, path@, event_views(events@)),
{
    let ghost evs = event_views(events@);
    let mut current: Option<String> = None;
    let mut raw: Vec<String> = Vec::new();
    let mut links: Vec<String> = Vec::new();
    let mut code_blocks: usize = 0;
    let mut i: usize = 0;
    while i < events.len()
        invariant
            i <= events.len(),
            evs == event_views(events@),
            code_blocks <= i,
            md_scan(evs.take(i as int)) == (opt_str(current), views(raw@), views(links@), code_blocks as nat),
        decreases events.len() - i,
    {
        assert(evs.take(i + 1).drop_last() =~= evs.take(i as int));
        assert(evs.take(i + 1).last() == event_view(events@[i as int]));
        match &events[i] {
            MdEvent::HeadingStart => {
                current = Some(String::new());
            },
            MdEvent::HeadingEnd => {
                match &current {
                    Some(h) => {
                        let t = trim(h.as_str());
                        if !t.as_str().is_empty() {
                            raw.push(t);
                            assert(views(raw@) =~= md_scan(evs.take(i + 1)).1);
                        }
                    },
                    None => {},
                }
                current = None;
            },
            MdEvent::CodeBlockStart => {
                code_blocks = code_blocks + 1;
            },
            MdEvent::Link(d) => {
                links.push(d.clone());
                assert(views(links@) =~= md_scan(evs.take(i + 1)).2);
            },
            MdEvent::Text(t) => {
                match current {
                    Some(mut h) => {
                        h.append(t.as_str());
                        current = Some(h);
                    },
                    None => {
                        current = None;
                    },
                }
            },
            MdEvent::Break => {
                match current {
                    Some(mut h) => {
                        push_char(&mut h, ' ');
                        current = Some(h);
                    },
                    None => {
                        current = None;
                    },
                }
            },
            MdEvent::Other => {},
        }
        i += 1;
    }
    assert(evs.take(events.len() as int) =~= evs);
    let slugs = heading_slugs(&raw);
    let headings = distinct_sorted_strings(slugs);
    MarkdownAnalysis {
        path: path.to_owned(),
        headings,
        raw_headings: raw,
        links,
        code_blocks,
    }
}

/// Headings, links and code blocks of the Markdown file at `path`.
pub fn analyze_markdown(path: &str, contents: &str) -> (a: MarkdownAnalysis)
    ensures
        analysis_matches(a, path@, markdown_events_of(contents@)),
{
    let events = parse_markdown_events(contents);
    analyze_events(path, &events)
}

// ---------------------------------------------------------------------------
// The documentation doctor
// ---------------------------------------------------------------------------

/// Where a local link leads, as the file system saw it: the target path and
/// whether something exists there.
#[derive(Debug, Clone)]
pub struct LinkTarget {
    pub path: String,
    pub exists: bool,
}

/// The last component of a `/`-separated path.
pub open spec fn file_name_seq(p: Seq<char>) -> Seq<char> {
    match last_index_of(p, '/') {
        Some(i) => p.subrange(i + 1, p.len() as int),
        None => p,
    }
}

/// The extension of a file name: what follows its last dot, unless that
/// dot starts the name.
pub open spec fn extension_seq(p: Seq<char>) -> Option<Seq<char>> {
    let name = file_name_seq(p);
    match last_index_of(name, '.') {
        Some(i) => if i > 0 {
            Some(name.subrange(i + 1, name.len() as int))
        } else {
            None
        },
        None => None,
    }
}

pub open spec fn is_markdown_path(p: Seq<char>) -> bool {
    extension_seq(p) == Some("md"@) || extension_seq(p) == Some("markdown"@)
}

/// A `.md` or `.markdown` file.
pub fn is_markdown_file(path: &str) -> (b: bool)
    ensures
        b == is_markdown_path(path@),
{
    let _n = path.unicode_len();
    let name = match rfind_char(path, '/') {
        Some(i) => suffix_from(path, i + 1),
        None => path.to_owned(),
    };
    let _m = name.as_str().unicode_len();
    match rfind_char(name.as_str(), '.') {
        Some(i) => {
            if i == 0 {
                return false;
            }
            let ext = suffix_from(name.as_str(), i + 1);
            str_eq(ext.as_str(), "md") || str_eq(ext.as_str(), "markdown")
        },
        None => false,
    }
}

/// The first scanned file at `path`.
pub open spec fn find_doc(docs: Seq<MarkdownAnalysis>, path: Seq<char>) -> Option<int>
    decreases docs.len(),
{
    if docs.len() == 0 {
        None
    } else {
        match find_doc(docs.drop_last(), path) {
            Some(i) => Some(i),
            None => if docs.last().path@ == path {
                Some(docs.len() - 1)
            } else {
                None
            },
        }
    }
}

/// The last scanned file at `path`.
pub open spec fn last_doc(docs: Seq<MarkdownAnalysis>, path: Seq<char>) -> Option<int>
    decreases docs.len(),
{
    if docs.len() == 0 {
        None
    } else if docs.last().path@ == path {
        Some(docs.len() - 1)
    } else {
        last_doc(docs.drop_last(), path)
    }
}

pub proof fn lemma_doc_index_in_range(docs: Seq<MarkdownAnalysis>, path: Seq<char>)
    ensures
        find_doc(docs, path) matches Some(i) ==> 0 <= i < docs.len() && docs[i].path@ == path,
        last_doc(docs, path) matches Some(i) ==> 0 <= i < docs.len() && docs[i].path@ == path,
    decreases docs.len(),
{
    if docs.len() > 0 {
        lemma_doc_index_in_range(docs.drop_last(), path);
    }
}

fn find_doc_exec(docs: &Vec<MarkdownAnalysis>, path: &str, last: bool) -> (r: Option<usize>)
    ensures
        opt_int(r) == (if last {
            last_doc(docs@, path@)
        } else {
            find_doc(docs@, path@)
        }),
{
    let mut found: Option<usize> = None;
    let mut i: usize = 0;
    while i < docs.len()
        invariant
            i <= docs.len(),
            opt_int(found) == (if last {
                last_doc(docs@.take(i as int), path@)
            } else {
                find_doc(docs@.take(i as int), path@)
            }),
        decreases docs.len() - i,
    {
        assert(docs@.take(i + 1).drop_last() =~= docs@.take(i as int));
        if str_eq(docs[i].path.as_str(), path) {
            if last || found.is_none() {
                found = Some(i);
            }
        }
        i += 1;
    }
    assert(docs@.take(docs.len() as int) =~= docs@);
    found
}

/// A documentation finding about a file, with help text.
pub open spec fn docs_view(
    severity: DoctorSeverity,
    code: Seq<char>,
    message: Seq<char>,
    file: Seq<char>,
    help: Seq<char>,
) -> FindingView {
    FindingView {
        domain: DoctorDomain::Docs,
        ecosystem: None,
        severity,
        code,
        message,
        file: Some(file),
        help: Some(help),
        evidence: Seq::empty(),
        fix_hint: None,
        engine: None,
    }
}

fn docs_finding(
    severity: DoctorSeverity,
    code: &str,
    message: &str,
    file: &str,
    help: &str,
) -> (f: DoctorFinding)
    ensures
        view_of(f) == docs_view(severity, code@, message@, file@, help@),
{
    let f = doctor_finding(
        DoctorDomain::Docs,
        None,
        severity,
        code,
        message,
        Some(file.to_owned()),
        Some(help.to_owned()),
    );
    assert(views(f.evidence@) =~= Seq::<Seq<char>>::empty());
    f
}

pub open spec fn install_headings() -> Seq<Seq<char>> {
    seq!["install"@, "installation"@]
}

pub open spec fn usage_headings() -> Seq<Seq<char>> {
    seq!["usage"@, "quickstart"@, "examples"@, "getting started"@]
}

/// The README findings: missing, or without an install section, a usage
/// section or a fenced code block.
pub open spec fn readme_views(docs: Seq<MarkdownAnalysis>, readme_path: Seq<char>) -> Seq<
    FindingView,
> {
    match find_doc(docs, readme_path) {
        None => seq![
            docs_view(
                DoctorSeverity::Error,
                "readme.missing"@,
                "README.md is missing."@,
                readme_path,
                "Add a root README so the project has a clear entry point for install and usage."@,
            ),
        ],
        Some(i) => {
            let r = docs[i];
            finding_if(
                !has_heading_spec(views(r.raw_headings@), install_headings()),
                docs_view(
                    DoctorSeverity::Warning,
                    "readme.install"@,
                    "README.md has no obvious install section."@,
                    r.path@,
                    "Add an Install or Installation section with one copy-pasteable command."@,
                ),
            ) + finding_if(
                !has_heading_spec(views(r.raw_headings@), usage_headings()),
                docs_view(
                    DoctorSeverity::Warning,
                    "readme.usage"@,
                    "README.md has no obvious usage or examples section."@,
                    r.path@,
                    "Add a Usage, Examples, or Quickstart section so readers can try the tool immediately."@,
                ),
            ) + finding_if(
                r.code_blocks == 0,
                docs_view(
                    DoctorSeverity::Info,
                    "readme.codeblocks"@,
                    "README.md has no fenced code blocks."@,
                    r.path@,
                    "Add at least one copy-pasteable command example to make the README more actionable."@,
                ),
            )
        },
    }
}

fn two_strings(a: &str, b: &str) -> (r: Vec<String>)
    ensures
        views(r@) == seq![a@, b@],
{
    let mut r: Vec<String> = Vec::new();
    r.push(a.to_owned());
    r.push(b.to_owned());
    assert(views(r@) =~= seq![a@, b@]);
    r
}

fn push_if(out: &mut Vec<DoctorFinding>, c: bool, f: DoctorFinding)
    ensures
        views_of(final(out)@) == views_of(old(out)@) + finding_if(c, view_of(f)),
{
    if c {
        out.push(f);
        assert(views_of(out@) =~= views_of(old(out)@) + finding_if(c, view_of(f)));
    } else {
        assert(views_of(out@) =~= views_of(old(out)@) + finding_if(c, view_of(f)));
    }
}

/// The README findings.
pub fn readme_findings(docs: &Vec<MarkdownAnalysis>, readme_path: &str) -> (out: Vec<
    DoctorFinding,
>)
    ensures
        views_of(out@) == readme_views(docs@, readme_path@),
{
    proof {
        lemma_doc_index_in_range(docs@, readme_path@);
        reveal_strlit("install");
        reveal_strlit("installation");
        reveal_strlit("usage");
        reveal_strlit("quickstart");
        reveal_strlit("examples");
        reveal_strlit("getting started");
    }
    let mut out: Vec<DoctorFinding> = Vec::new();
    match find_doc_exec(docs, readme_path, false) {
        None => {
            out.push(
                docs_finding(
                    DoctorSeverity::Error,
                    "readme.missing",
                    "README.md is missing.",
                    readme_path,
                    "Add a root README so the project has a clear entry point for install and usage.",
                ),
            );
            assert(views_of(out@) =~= readme_views(docs@, readme_path@));
        },
        Some(i) => {
            let r = &docs[i];
            let install = two_strings("install", "installation");
            let mut usage = two_strings("usage", "quickstart");
            let more = two_strings("examples", "getting started");
            let mut more = more;
            let ghost first = usage@;
            let ghost second = more@;
            usage.append(&mut more);
            assert(usage@ =~= first + second);
            assert(views(usage@) =~= views(first) + views(second));
            assert(views(usage@) =~= usage_headings());
            assert(views(install@) =~= install_headings());
            let no_install = !has_heading(&r.raw_headings, &install);
            push_if(
                &mut out,
                no_install,
                docs_finding(
                    DoctorSeverity::Warning,
                    "readme.install",
                    "README.md has no obvious install section.",
                    r.path.as_str(),
                    "Add an Install or Installation section with one copy-pasteable command.",
                ),
            );
            let no_usage = !has_heading(&r.raw_headings, &usage);
            push_if(
                &mut out,
                no_usage,
                docs_finding(
                    DoctorSeverity::Warning,
                    "readme.usage",
                    "README.md has no obvious usage or examples section.",
                    r.path.as_str(),
                    "Add a Usage, Examples, or Quickstart section so readers can try the tool immediately.",
                ),
            );
            push_if(
                &mut out,
                r.code_blocks == 0,
                docs_finding(
                    DoctorSeverity::Info,
                    "readme.codeblocks",
                    "README.md has no fenced code blocks.",
                    r.path.as_str(),
                    "Add at least one copy-pasteable command example to make the README more actionable.",
                ),
            );
            assert(views_of(out@) =~= readme_views(docs@, readme_path@));
        },
    }
    out
}

/// A heading slug of the last scanned file at `path`.
pub open spec fn anchor_found(docs: Seq<MarkdownAnalysis>, path: Seq<char>, slug: Seq<char>) -> bool {
    match last_doc(docs, path) {
        Some(k) => views(docs[k].headings@).contains(slug),
        None => false,
    }
}

/// The finding, if any, on the link `d` of file `i` whose target is `t`:
/// a local link whose target does not exist is broken; one whose target is
/// a Markdown file without the linked anchor points nowhere.
pub open spec fn link_views(docs: Seq<MarkdownAnalysis>, i: int, d: Seq<char>, t: LinkTarget) -> Seq<
    FindingView,
> {
    if !is_local_destination(d) {
        Seq::empty()
    } else if !t.exists {
        seq![
            docs_view(
                DoctorSeverity::Error,
                "docs.broken-link"@,
                "Broken local link `"@ + d + "`."@,
                docs[i].path@,
                "Create the missing file or update the link destination so local docs stay navigable."@,
            ),
        ]
    } else {
        match local_link_parts(d).1 {
            Some(anchor) => if is_markdown_path(t.path@) && !anchor_found(
                docs,
                t.path@,
                slugify_heading_spec(anchor),
            ) {
                seq![
                    docs_view(
                        DoctorSeverity::Error,
                        "docs.missing-anchor"@,
                        "Link `"@ + d + "` points to an anchor that does not exist."@,
                        docs[i].path@,
                        "Update the fragment or add the matching heading in the target Markdown file."@,
                    ),
                ]
            } else {
                Seq::empty()
            },
            None => Seq::empty(),
        }
    }
}

/// The link findings of the first `n` links of file `i`.
pub open spec fn doc_links_views(
    docs: Seq<MarkdownAnalysis>,
    targets: Seq<Vec<LinkTarget>>,
    i: int,
    n: int,
) -> Seq<FindingView>
    decreases n,
{
    if n <= 0 {
        Seq::empty()
    } else {
        doc_links_views(docs, targets, i, n - 1) + link_views(
            docs,
            i,
            docs[i].links@[n - 1]@,
            targets[i]@[n - 1],
        )
    }
}

/// The link findings of the first `m` files.
pub open spec fn all_links_views(
    docs: Seq<MarkdownAnalysis>,
    targets: Seq<Vec<LinkTarget>>,
    m: int,
) -> Seq<FindingView>
    decreases m,
{
    if m <= 0 {
        Seq::empty()
    } else {
        all_links_views(docs, targets, m - 1) + doc_links_views(
            docs,
            targets,
            m - 1,
            docs[m - 1].links@.len() as int,
        )
    }
}

/// The number of local links among the first `n` links of file `i`.
pub open spec fn doc_local_count(docs: Seq<MarkdownAnalysis>, i: int, n: int) -> nat
    decreases n,
{
    if n <= 0 {
        0
    } else {
        doc_local_count(docs, i, n - 1) + if is_local_destination(docs[i].links@[n - 1]@) {
            1nat
        } else {
            0nat
        }
    }
}

/// The number of local links in the first `m` files.
pub open spec fn all_local_count(docs: Seq<MarkdownAnalysis>, m: int) -> nat
    decreases m,
{
    if m <= 0 {
        0
    } else {
        all_local_count(docs, m - 1) + doc_local_count(docs, m - 1, docs[m - 1].links@.len() as int)
    }
}

/// The number of links in the first `m` files.
pub open spec fn total_links(docs: Seq<MarkdownAnalysis>, m: int) -> nat
    decreases m,
{
    if m <= 0 {
        0
    } else {
        total_links(docs, m - 1) + docs[m - 1].links@.len()
    }
}

proof fn lemma_total_links_monotone(docs: Seq<MarkdownAnalysis>, a: int, b: int)
    requires
        0 <= a <= b,
    ensures
        total_links(docs, a) <= total_links(docs, b),
    decreases b - a,
{
    if a < b {
        lemma_total_links_monotone(docs, a, b - 1);
    }
}

proof fn lemma_doc_local_count_bound(docs: Seq<MarkdownAnalysis>, i: int, n: int)
    requires
        0 <= n,
    ensures
        doc_local_count(docs, i, n) <= n,
    decreases n,
{
    if n > 0 {
        lemma_doc_local_count_bound(docs, i, n - 1);
    }
}

proof fn lemma_all_local_count_bound(docs: Seq<MarkdownAnalysis>, m: int)
    requires
        0 <= m <= docs.len(),
    ensures
        all_local_count(docs, m) <= total_links(docs, m),
    decreases m,
{
    if m > 0 {
        lemma_all_local_count_bound(docs, m - 1);
        lemma_doc_local_count_bound(docs, m - 1, docs[m - 1].links@.len() as int);
    }
}

fn link_findings(
    docs: &Vec<MarkdownAnalysis>,
    targets: &Vec<Vec<LinkTarget>>,
) -> (r: (Vec<DoctorFinding>, usize))
    requires
        targets@.len() == docs@.len(),
        forall|i: int| 0 <= i < docs@.len() ==> #[trigger] targets@[i]@.len() == docs@[i].links@.len(),
        total_links(docs@, docs@.len() as int) <= usize::MAX,
    ensures
        views_of(r.0@) == all_links_views(docs@, targets@, docs@.len() as int),
        r.1 == all_local_count(docs@, docs@.len() as int),
{
    let mut out: Vec<DoctorFinding> = Vec::new();
    let mut count: usize = 0;
    let mut i: usize = 0;
    while i < docs.len()
        invariant
            i <= docs.len(),
            targets@.len() == docs@.len(),
            forall|k: int| 0 <= k < docs@.len() ==> #[trigger] targets@[k]@.len() == docs@[k].links@.len(),
            total_links(docs@, docs@.len() as int) <= usize::MAX,
            views_of(out@) == all_links_views(docs@, targets@, i as int),
            count == all_local_count(docs@, i as int),
        decreases docs.len() - i,
    {
        proof {
            lemma_all_local_count_bound(docs@, i as int);
            lemma_total_links_monotone(docs@, i as int + 1, docs@.len() as int);
        }
        let doc = &docs[i];
        let ts = &targets[i];
        let mut j: usize = 0;
        while j < doc.links.len()
            invariant
                i < docs.len(),
                doc == docs@[i as int],
                ts == targets@[i as int],
                ts@.len() == doc.links@.len(),
                j <= doc.links.len(),
                all_local_count(docs@, i as int) <= total_links(docs@, i as int),
                total_links(docs@, i as int + 1) <= usize::MAX,
                views_of(out@) == all_links_views(docs@, targets@, i as int) + doc_links_views(
                    docs@,
                    targets@,
                    i as int,
                    j as int,
                ),
                count == all_local_count(docs@, i as int) + doc_local_count(docs@, i as int, j as int),
            decreases doc.links.len() - j,
        {
            proof {
                lemma_doc_local_count_bound(docs@, i as int, j as int);
                lemma_doc_index_in_range(docs@, ts@[j as int].path@);
            }
            let d = doc.links[j].as_str();
            let t = &ts[j];
            let ghost before = views_of(out@);
            match parse_local_link(d) {
                None => {
                    assert(views_of(out@) =~= before + link_views(docs@, i as int, d@, *t));
                },
                Some(link) => {
                    count = count + 1;
                    if !t.exists {
                        let mut message = concat_str("Broken local link `", d);
                        message.append("`.");
                        out.push(
                            docs_finding(
                                DoctorSeverity::Error,
                                "docs.broken-link",
                                message.as_str(),
                                doc.path.as_str(),
                                "Create the missing file or update the link destination so local docs stay navigable.",
                            ),
                        );
                        assert(views_of(out@) =~= before + link_views(docs@, i as int, d@, *t));
                    } else {
                        match &link.anchor {
                            Some(anchor) => {
                                if is_markdown_file(t.path.as_str()) {
                                    let slug = slugify_heading(anchor.as_str());
                                    let found = match find_doc_exec(docs, t.path.as_str(), true) {
                                        Some(k) => contains_string(&docs[k].headings, slug.as_str()),
                                        None => false,
                                    };
                                    if !found {
                                        let mut message = concat_str("Link `", d);
                                        message.append("` points to an anchor that does not exist.");
                                        out.push(
                                            docs_finding(
                                                DoctorSeverity::Error,
                                                "docs.missing-anchor",
                                                message.as_str(),
                                                doc.path.as_str(),
                                                "Update the fragment or add the matching heading in the target Markdown file.",
                                            ),
                                        );
                                    }
                                }
                                assert(views_of(out@) =~= before + link_views(docs@, i as int, d@, *t));
                            },
                            None => {
                                assert(views_of(out@) =~= before + link_views(docs@, i as int, d@, *t));
                            },
                        }
                    }
                },
            }
            assert(doc_links_views(docs@, targets@, i as int, j + 1) =~= doc_links_views(
                docs@,
                targets@,
                i as int,
                j as int,
            ) + link_views(docs@, i as int, doc.links@[j as int]@, ts@[j as int]));
            j += 1;
        }
        i += 1;
    }
    (out, count)
}

/// Whether `v` holds the string `s`.
pub fn contains_string(v: &Vec<String>, s: &str) -> (b: bool)
    ensures
        b == views(v@).contains(s@),
{
    let mut i: usize = 0;
    while i < v.len()
        invariant
            i <= v.len(),
            forall|k: int| 0 <= k < i ==> #[trigger] views(v@)[k] != s@,
        decreases v.len() - i,
    {
        if str_eq(v[i].as_str(), s) {
            assert(views(v@)[i as int] == s@);
            return true;
        }
        i += 1;
    }
    false
}

/// The sum of the findings' severity penalties.
pub open spec fn docs_penalty_total(fs: Seq<DoctorFinding>) -> nat
    decreases fs.len(),
{
    if fs.len() == 0 {
        0
    } else {
        docs_penalty_total(fs.drop_last()) + severity_penalty(fs.last().severity)
    }
}

/// 100 less the findings' penalties, at least 0.
pub fn docs_score(findings: &Vec<DoctorFinding>) -> (s: u8)
    ensures
        s == score_after(docs_penalty_total(findings@)),
{
    let mut total: u64 = 0;
    let mut i: usize = 0;
    while i < findings.len()
        invariant
            i <= findings.len(),
            clamped_total(total, docs_penalty_total(findings@.take(i as int))),
        decreases findings.len() - i,
    {
        assert(findings@.take(i + 1).drop_last() =~= findings@.take(i as int));
        if total < 100 {
            total = total + findings[i].severity.penalty() as u64;
        }
        i += 1;
    }
    assert(findings@.take(findings.len() as int) =~= findings@);
    score_from_total(total, Ghost(docs_penalty_total(findings@)))
}

/// The documentation report: README findings, then link findings file by
/// file and link by link, listed by severity, file and code; the score is
/// 100 less their penalties.  `targets[i][j]` is where link `j` of file `i`
/// leads; it is read only for local links.
pub fn docs_report(
    target: String,
    readme_path: &str,
    docs: &Vec<MarkdownAnalysis>,
    targets: &Vec<Vec<LinkTarget>>,
) -> (r: DocsDoctorReport)
    requires
        targets@.len() == docs@.len(),
        forall|i: int| 0 <= i < docs@.len() ==> #[trigger] targets@[i]@.len() == docs@[i].links@.len(),
        total_links(docs@, docs@.len() as int) <= usize::MAX,
    ensures
        r.target@ == target@,
        r.markdown_files == docs@.len(),
        r.local_links_checked == all_local_count(docs@, docs@.len() as int),
        exists|fs: Seq<DoctorFinding>|
            #[trigger] views_of(fs) == readme_views(docs@, readme_path@) + all_links_views(
                docs@,
                targets@,
                docs@.len() as int,
            ) && r.findings@ == listing_order(fs, false),
        r.score == score_after(docs_penalty_total(r.findings@)),
{
    let mut findings = readme_findings(docs, readme_path);
    let (mut links, count) = link_findings(docs, targets);
    let ghost a = findings@;
    let ghost b = links@;
    findings.append(&mut links);
    assert(findings@ =~= a + b);
    assert(views_of(findings@) =~= views_of(a) + views_of(b));
    let ghost unsorted = findings@;
    let sorted = sort_listed(findings, false);
    let score = docs_score(&sorted);
    assert(views_of(unsorted) == readme_views(docs@, readme_path@) + all_links_views(
        docs@,
        targets@,
        docs@.len() as int,
    ) && sorted@ == listing_order(unsorted, false));
    DocsDoctorReport {
        target,
        score,
        markdown_files: docs.len(),
        local_links_checked: count,
        findings: sorted,
    }
}

} // verus!
