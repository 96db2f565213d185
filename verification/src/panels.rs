//! Boxed panels for the `init` and `prompt` screens: widths measured in
//! terminal columns, word and character wrapping, framed sections and two
//! columns side by side.
use vstd::prelude::*;
use crate::audit::{category_str, fixability_str, status_str};
use crate::generator::{mode_str, FileAction, GeneratedFile, InitReport};
use crate::prompt::{strategy_str, BugPromptReport, GeneratedBugPrompt, PromptIssue};
use crate::project::ProjectContext;
use crate::rules::summary_spec;
use crate::styled::{paint_spec, score_text_spec, tier_text_spec, ReportStyle};
use crate::text::{
    chars_of, concat_str, join_seq, join_strings, lines, lines_of, push_char, string_from_chars,
    decimal, decimal_string, views, words, words_of,
};

verus! {

// ---------------------------------------------------------------------------
// Widths
// ---------------------------------------------------------------------------

/// The text from position `i` on with its escape sequences (ESC `[` … a
/// final byte between `@` and `~`) taken out.
pub open spec fn strip_at(s: Seq<char>, i: int, in_csi: bool) -> Seq<char>
    decreases s.len() - i,
{
    if i >= s.len() || i < 0 {
        Seq::empty()
    } else if in_csi {
        if '@' <= s[i] && s[i] <= '~' {
            strip_at(s, i + 1, false)
        } else {
            strip_at(s, i + 1, true)
        }
    } else if s[i] == '\u{1b}' && i + 1 < s.len() && s[i + 1] == '[' {
        strip_at(s, i + 2, true)
    } else {
        seq![s[i]] + strip_at(s, i + 1, false)
    }
}

pub open spec fn strip_ansi_spec(s: Seq<char>) -> Seq<char> {
    strip_at(s, 0, false)
}

/// The text without its ANSI escape sequences.
pub fn strip_ansi(input: &str) -> (r: String)
    ensures
        r@ == strip_ansi_spec(input@),
{
    let v = chars_of(input);
    let mut out = String::new();
    let mut in_csi = false;
    let mut i: usize = 0;
    while i < v.len()
        invariant
            i <= v.len(),
            v@ == input@,
            out@ + strip_at(v@, i as int, in_csi) == strip_at(v@, 0, false),
        decreases v.len() - i,
    {
        let c = v[i];
        if in_csi {
            if '@' <= c && c <= '~' {
                in_csi = false;
            }
            i += 1;
        } else if c == '\u{1b}' && i + 1 < v.len() && v[i + 1] == '[' {
            in_csi = true;
            i += 2;
        } else {
            let ghost before = out@;
            push_char(&mut out, c);
            assert(before + (seq![c] + strip_at(v@, i + 1, false)) =~= out@ + strip_at(
                v@,
                i + 1,
                false,
            ));
            i += 1;
        }
    }
    assert(out@ + Seq::<char>::empty() =~= out@);
    out
}

/// The columns that unicode-width gives a text.
pub uninterp spec fn unicode_columns(s: Seq<char>) -> usize;

/// `UnicodeWidthStr::width` of unicode-width: the columns a text takes on a
/// terminal by the East Asian widths of its characters, some sequences
/// (such as emoji joined by zero-width joiners) counted as one unit. The
/// contract says only that the result is that count for the text, named
/// `unicode_columns`; the tables and sequence rules are not stated.
#[verifier::external_body]
fn unicode_str_width(s: &str) -> (w: usize)
    ensures
        w == unicode_columns(s@),
{
    unicode_width::UnicodeWidthStr::width(s)
}

/// The columns a text takes on screen, escape sequences left out.
pub open spec fn display_width_spec(s: Seq<char>) -> usize {
    unicode_columns(strip_ansi_spec(s))
}

pub fn display_width(input: &str) -> (w: usize)
    ensures
        w == display_width_spec(input@),
{
    let stripped = strip_ansi(input);
    unicode_str_width(stripped.as_str())
}

/// `n` copies of `c`.
pub fn repeat_char(c: char, n: usize) -> (r: String)
    ensures
        r@ == Seq::new(n as nat, |i: int| c),
{
    let mut s = String::new();
    let mut i: usize = 0;
    while i < n
        invariant
            i <= n,
            s@ == Seq::new(i as nat, |k: int| c),
        decreases n - i,
    {
        push_char(&mut s, c);
        assert(s@ =~= Seq::new((i + 1) as nat, |k: int| c));
        i += 1;
    }
    s
}

pub open spec fn spaces(n: nat) -> Seq<char> {
    Seq::new(n, |i: int| ' ')
}

pub open spec fn sat_sub(a: nat, b: nat) -> nat {
    if a >= b {
        (a - b) as nat
    } else {
        0
    }
}

/// The text followed by spaces up to `width` columns.
pub open spec fn pad_to_width_spec(s: Seq<char>, width: nat) -> Seq<char> {
    s + spaces(sat_sub(width, display_width_spec(s) as nat))
}

pub fn pad_to_width(input: &str, width: usize) -> (r: String)
    ensures
        r@ == pad_to_width_spec(input@, width as nat),
{
    let w = display_width(input);
    let pad = width.saturating_sub(w);
    let tail = repeat_char(' ', pad);
    concat_str(input, tail.as_str())
}

/// The position of the first character at which the text's prefix would
/// take more than `width` columns.
pub open spec fn fit_len(s: Seq<char>, i: int, width: nat) -> int
    decreases s.len() - i,
{
    if i >= s.len() || i < 0 {
        s.len() as int
    } else if display_width_spec(s.take(i + 1)) > width {
        i
    } else {
        fit_len(s, i + 1, width)
    }
}

pub proof fn lemma_fit_len_range(s: Seq<char>, i: int, width: nat)
    requires
        0 <= i <= s.len(),
    ensures
        i <= fit_len(s, i, width) <= s.len(),
    decreases s.len() - i,
{
    if i < s.len() && display_width_spec(s.take(i + 1)) <= width {
        lemma_fit_len_range(s, i + 1, width);
    }
}

/// The longest prefix, taken character by character, that fits `width`
/// columns.
pub open spec fn truncate_to_width_spec(s: Seq<char>, width: nat) -> Seq<char> {
    s.take(fit_len(s, 0, width))
}

pub fn truncate_to_width(input: &str, width: usize) -> (r: String)
    ensures
        r@ == truncate_to_width_spec(input@, width as nat),
{
    let v = chars_of(input);
    let mut out: Vec<char> = Vec::new();
    let mut i: usize = 0;
    proof {
        lemma_fit_len_range(v@, 0, width as nat);
    }
    while i < v.len()
        invariant
            i <= v.len(),
            v@ == input@,
            out@ == v@.take(i as int),
            fit_len(v@, i as int, width as nat) == fit_len(v@, 0, width as nat),
        ensures
            i <= v.len(),
            out@ == v@.take(i as int),
            fit_len(v@, 0, width as nat) == i,
        decreases v.len() - i,
    {
        let mut candidate = out.clone();
        candidate.push(v[i]);
        assert(candidate@ =~= v@.take(i + 1));
        let s = string_from_chars(&candidate);
        if display_width(s.as_str()) > width {
            break;
        }
        out = candidate;
        i += 1;
    }
    string_from_chars(&out)
}

/// A prefix that fits stays fitting as `fit_len` extends it.
pub proof fn lemma_fit_len_fits(s: Seq<char>, i: int, width: nat)
    requires
        0 <= i <= s.len(),
        display_width_spec(s.take(i)) <= width,
    ensures
        display_width_spec(s.take(fit_len(s, i, width))) <= width,
    decreases s.len() - i,
{
    if i < s.len() && display_width_spec(s.take(i + 1)) <= width {
        lemma_fit_len_fits(s, i + 1, width);
    }
}

/// A truncated text fits the width, the empty text taking no column.
pub proof fn lemma_truncate_to_width_fits(s: Seq<char>, width: nat)
    requires
        unicode_columns(Seq::<char>::empty()) == 0,
    ensures
        display_width_spec(truncate_to_width_spec(s, width)) <= width,
{
    assert(s.take(0) =~= Seq::<char>::empty());
    assert(strip_ansi_spec(Seq::<char>::empty()) =~= Seq::<char>::empty());
    lemma_fit_len_fits(s, 0, width);
}

// ---------------------------------------------------------------------------
// Wrapping
// ---------------------------------------------------------------------------

/// Lines closed so far and the line being filled.
pub type LineFold = (Seq<Seq<char>>, Seq<char>);

/// One word added to the line being filled: it joins the line while the
/// line fits, else the line is closed and the word starts the next one, cut
/// to the width when it alone does not fit.
pub open spec fn text_step(st: LineFold, word: Seq<char>, width: nat) -> LineFold {
    let (lines, current) = st;
    let candidate = if current.len() == 0 {
        word
    } else {
        current + " "@ + word
    };
    if display_width_spec(candidate) <= width {
        (lines, candidate)
    } else {
        let closed = if current.len() > 0 {
            lines.push(current)
        } else {
            lines
        };
        if display_width_spec(word) > width {
            (closed.push(truncate_to_width_spec(word, width)), Seq::empty())
        } else {
            (closed, word)
        }
    }
}

pub open spec fn text_fold(ws: Seq<Seq<char>>, width: nat) -> LineFold
    decreases ws.len(),
{
    if ws.len() == 0 {
        (Seq::empty(), Seq::empty())
    } else {
        text_step(text_fold(ws.drop_last(), width), ws.last(), width)
    }
}

/// The text as lines of at most `width` columns broken between words; a
/// text that fits stays one line, and there is always at least one line.
pub open spec fn wrap_text_spec(s: Seq<char>, width: nat) -> Seq<Seq<char>> {
    if width == 0 {
        seq![Seq::empty()]
    } else if display_width_spec(s) <= width {
        seq![s]
    } else {
        let (lines, current) = text_fold(words_of(s), width);
        let lines = if current.len() > 0 {
            lines.push(current)
        } else {
            lines
        };
        if lines.len() == 0 {
            seq![Seq::empty()]
        } else {
            lines
        }
    }
}

/// Every closed line and the line being filled fit the width.
pub open spec fn fold_fits(st: LineFold, width: nat) -> bool {
    &&& forall|k: int| 0 <= k < st.0.len() ==> display_width_spec(#[trigger] st.0[k]) <= width
    &&& (st.1.len() > 0 ==> display_width_spec(st.1) <= width)
}

pub proof fn lemma_text_fold_fits(ws: Seq<Seq<char>>, width: nat)
    requires
        unicode_columns(Seq::<char>::empty()) == 0,
    ensures
        fold_fits(text_fold(ws, width), width),
    decreases ws.len(),
{
    if ws.len() > 0 {
        lemma_text_fold_fits(ws.drop_last(), width);
        let (lines, current) = text_fold(ws.drop_last(), width);
        let word = ws.last();
        lemma_truncate_to_width_fits(word, width);
        let closed = if current.len() > 0 {
            lines.push(current)
        } else {
            lines
        };
        assert forall|k: int| 0 <= k < closed.len() implies display_width_spec(#[trigger] closed[k])
            <= width by {
            if k < lines.len() {
                assert(closed[k] == lines[k]);
            }
        }
        let t = truncate_to_width_spec(word, width);
        assert forall|k: int| 0 <= k < closed.push(t).len() implies display_width_spec(
            #[trigger] closed.push(t)[k],
        ) <= width by {
            if k < closed.len() {
                assert(closed.push(t)[k] == closed[k]);
            }
        }
    }
}

pub fn wrap_text(input: &str, width: usize) -> (r: Vec<String>)
    ensures
        views(r@) == wrap_text_spec(input@, width as nat),
{
    let mut lines: Vec<String> = Vec::new();
    if width == 0 {
        lines.push(String::new());
        assert(views(lines@) =~= seq![Seq::<char>::empty()]);
        return lines;
    }
    if display_width(input) <= width {
        lines.push(input.to_owned());
        assert(views(lines@) =~= seq![input@]);
        return lines;
    }
    let ws = words(input);
    let mut current = String::new();
    let mut i: usize = 0;
    while i < ws.len()
        invariant
            i <= ws.len(),
            views(ws@) == words_of(input@),
            (views(lines@), current@) == text_fold(views(ws@).take(i as int), width as nat),
        decreases ws.len() - i,
    {
        assert(views(ws@).take(i + 1).drop_last() =~= views(ws@).take(i as int));
        assert(views(ws@).take(i + 1).last() == ws@[i as int]@);
        let word = ws[i].as_str();
        let candidate = if current.as_str().is_empty() {
            word.to_owned()
        } else {
            let mut c = concat_str(current.as_str(), " ");
            c.append(word);
            c
        };
        if display_width(candidate.as_str()) <= width {
            current = candidate;
        } else {
            if !current.as_str().is_empty() {
                let ghost before = views(lines@);
                lines.push(current);
                proof {
                    assert(views(lines@) =~= before.push(lines@[lines@.len() - 1]@));
                }
            }
            if display_width(word) > width {
                let ghost before = views(lines@);
                lines.push(truncate_to_width(word, width));
                proof {
                    assert(views(lines@) =~= before.push(lines@[lines@.len() - 1]@));
                }
                current = String::new();
            } else {
                current = word.to_owned();
            }
        }
        i += 1;
    }
    assert(views(ws@).take(ws.len() as int) =~= views(ws@));
    if !current.as_str().is_empty() {
        let ghost before = views(lines@);
        let ghost c = current@;
        lines.push(current);
        assert(views(lines@) =~= before.push(c));
    }
    if lines.len() == 0 {
        lines.push(String::new());
        assert(views(lines@) =~= seq![Seq::<char>::empty()]);
    }
    lines
}

/// One character added to the line being filled: a non-empty line that
/// would pass the width with it is closed first.
pub open spec fn verbatim_fold(s: Seq<char>, width: nat) -> LineFold
    decreases s.len(),
{
    if s.len() == 0 {
        (Seq::empty(), Seq::empty())
    } else {
        let (lines, current) = verbatim_fold(s.drop_last(), width);
        let candidate = current.push(s.last());
        if current.len() > 0 && display_width_spec(candidate) > width {
            (lines.push(current), seq![s.last()])
        } else {
            (lines, candidate)
        }
    }
}

/// The text cut into lines of at most `width` columns, character by
/// character, keeping every space.
pub open spec fn wrap_verbatim_spec(s: Seq<char>, width: nat) -> Seq<Seq<char>> {
    if width == 0 || s.len() == 0 {
        seq![Seq::empty()]
    } else if display_width_spec(s) <= width {
        seq![s]
    } else {
        let (lines, current) = verbatim_fold(s, width);
        if current.len() > 0 {
            lines.push(current)
        } else {
            lines
        }
    }
}

pub fn wrap_verbatim(input: &str, width: usize) -> (r: Vec<String>)
    ensures
        views(r@) == wrap_verbatim_spec(input@, width as nat),
{
    let mut lines: Vec<String> = Vec::new();
    if width == 0 || input.is_empty() {
        lines.push(String::new());
        assert(views(lines@) =~= seq![Seq::<char>::empty()]);
        return lines;
    }
    if display_width(input) <= width {
        lines.push(input.to_owned());
        assert(views(lines@) =~= seq![input@]);
        return lines;
    }
    let v = chars_of(input);
    let mut current = String::new();
    let mut i: usize = 0;
    while i < v.len()
        invariant
            i <= v.len(),
            v@ == input@,
            (views(lines@), current@) == verbatim_fold(v@.take(i as int), width as nat),
        decreases v.len() - i,
    {
        assert(v@.take(i + 1).drop_last() =~= v@.take(i as int));
        assert(v@.take(i + 1).last() == v@[i as int]);
        let ch = v[i];
        let mut candidate = current.clone();
        push_char(&mut candidate, ch);
        if !current.as_str().is_empty() && display_width(candidate.as_str()) > width {
            let ghost before = views(lines@);
            let ghost c = current@;
            lines.push(current);
            assert(views(lines@) =~= before.push(c));
            current = String::new();
            push_char(&mut current, ch);
            assert(current@ =~= seq![ch]);
        } else {
            current = candidate;
        }
        i += 1;
    }
    assert(v@.take(v.len() as int) =~= v@);
    if !current.as_str().is_empty() {
        let ghost before = views(lines@);
        let ghost c = current@;
        lines.push(current);
        assert(views(lines@) =~= before.push(c));
    }
    lines
}

// ---------------------------------------------------------------------------
// Framed sections
// ---------------------------------------------------------------------------

/// `─ title ` followed by rules up to `width` columns, or cut to `width`.
pub open spec fn section_header_spec(title: Seq<char>, width: nat) -> Seq<char> {
    let text = "─ "@ + title + " "@;
    let tw = display_width_spec(text) as nat;
    if tw >= width {
        truncate_to_width_spec(text, width)
    } else {
        text + Seq::new((width - tw) as nat, |i: int| '─')
    }
}

pub fn section_header(title: &str, width: usize) -> (r: String)
    ensures
        r@ == section_header_spec(title@, width as nat),
{
    let mut text = concat_str("─ ", title);
    text.append(" ");
    let tw = display_width(text.as_str());
    if tw >= width {
        truncate_to_width(text.as_str(), width)
    } else {
        let rule = repeat_char('─', width - tw);
        concat_str(text.as_str(), rule.as_str())
    }
}

/// Tabs as four spaces.
pub open spec fn expand_tabs(s: Seq<char>) -> Seq<char>
    decreases s.len(),
{
    if s.len() == 0 {
        Seq::empty()
    } else {
        expand_tabs(s.drop_last()) + if s.last() == '\t' {
            "    "@
        } else {
            seq![s.last()]
        }
    }
}

pub fn expand_tab_chars(input: &str) -> (r: String)
    ensures
        r@ == expand_tabs(input@),
{
    let v = chars_of(input);
    let mut out = String::new();
    let mut i: usize = 0;
    while i < v.len()
        invariant
            i <= v.len(),
            v@ == input@,
            out@ == expand_tabs(v@.take(i as int)),
        decreases v.len() - i,
    {
        assert(v@.take(i + 1).drop_last() =~= v@.take(i as int));
        let c = v[i];
        if c == '\t' {
            out.append("    ");
        } else {
            push_char(&mut out, c);
        }
        i += 1;
    }
    assert(v@.take(v.len() as int) =~= v@);
    out
}

/// The width inside a box's frame: four columns less, at least 12.
pub open spec fn box_inner(width: nat) -> nat {
    let inner = sat_sub(width, 4);
    if inner < 12 {
        12
    } else {
        inner
    }
}

/// One line inside the frame, padded to the inner width.
pub open spec fn framed(line: Seq<char>, inner: nat) -> Seq<char> {
    "│ "@ + line + spaces(sat_sub(inner, display_width_spec(line) as nat)) + " │"@
}

/// The lines a raw line becomes inside a box: wrapped between words, or,
/// verbatim, cut character by character with tabs expanded.
pub open spec fn wrapped_raw(raw: Seq<char>, inner: nat, verbatim: bool) -> Seq<Seq<char>> {
    if verbatim {
        wrap_verbatim_spec(expand_tabs(raw), inner)
    } else {
        wrap_text_spec(raw, inner)
    }
}

pub open spec fn box_rows(raws: Seq<Seq<char>>, inner: nat, verbatim: bool) -> Seq<Seq<char>>
    decreases raws.len(),
{
    if raws.len() == 0 {
        Seq::empty()
    } else {
        box_rows(raws.drop_last(), inner, verbatim) + wrapped_raw(
            raws.last(),
            inner,
            verbatim,
        ).map_values(|l: Seq<char>| framed(l, inner))
    }
}

pub open spec fn box_top(title: Seq<char>, width: nat) -> Seq<char> {
    "┌"@ + section_header_spec(title, sat_sub(width, 2)) + "┐"@
}

pub open spec fn box_bottom(width: nat) -> Seq<char> {
    "└"@ + Seq::new(sat_sub(width, 2), |i: int| '─') + "┘"@
}

/// A box `width` columns wide: the title in its top rule, then the lines.
pub open spec fn box_spec(width: nat, title: Seq<char>, raws: Seq<Seq<char>>, verbatim: bool) -> Seq<
    char,
> {
    join_seq(
        seq![box_top(title, width)] + box_rows(raws, box_inner(width), verbatim) + seq![
            box_bottom(width),
        ],
        "\n"@,
    )
}

fn framed_line(line: &str, inner: usize) -> (r: String)
    ensures
        r@ == framed(line@, inner as nat),
{
    let pad = inner.saturating_sub(display_width(line));
    let mut s = concat_str("│ ", line);
    s.append(repeat_char(' ', pad).as_str());
    s.append(" │");
    s
}

fn framed_box(width: usize, title: &str, raw_lines: &Vec<String>, verbatim: bool) -> (r: String)
    ensures
        r@ == box_spec(width as nat, title@, views(raw_lines@), verbatim),
{
    let inner0 = width.saturating_sub(4);
    let inner: usize = if inner0 < 12 {
        12
    } else {
        inner0
    };
    let mut top = concat_str("┌", section_header(title, width.saturating_sub(2)).as_str());
    top.append("┐");
    let mut lines: Vec<String> = Vec::new();
    lines.push(top);
    assert(views(lines@) =~= seq![box_top(title@, width as nat)] + box_rows(
        views(raw_lines@).take(0),
        inner as nat,
        verbatim,
    ));
    let mut i: usize = 0;
    while i < raw_lines.len()
        invariant
            i <= raw_lines.len(),
            inner == box_inner(width as nat),
            views(lines@) == seq![box_top(title@, width as nat)] + box_rows(
                views(raw_lines@).take(i as int),
                inner as nat,
                verbatim,
            ),
        decreases raw_lines.len() - i,
    {
        let wrapped = if verbatim {
            let expanded = expand_tab_chars(raw_lines[i].as_str());
            wrap_verbatim(expanded.as_str(), inner)
        } else {
            wrap_text(raw_lines[i].as_str(), inner)
        };
        assert(views(wrapped@) == wrapped_raw(raw_lines@[i as int]@, inner as nat, verbatim));
        let ghost base = views(lines@);
        let mut j: usize = 0;
        while j < wrapped.len()
            invariant
                j <= wrapped.len(),
                views(lines@) == base + views(wrapped@).take(j as int).map_values(
                    |l: Seq<char>| framed(l, inner as nat),
                ),
            decreases wrapped.len() - j,
        {
            let ghost before = views(lines@);
            lines.push(framed_line(wrapped[j].as_str(), inner));
            assert(views(lines@) =~= before.push(framed(wrapped@[j as int]@, inner as nat)));
            assert(views(wrapped@).take(j + 1).map_values(|l: Seq<char>| framed(l, inner as nat))
                =~= views(wrapped@).take(j as int).map_values(
                |l: Seq<char>| framed(l, inner as nat),
            ).push(framed(wrapped@[j as int]@, inner as nat)));
            j += 1;
        }
        assert(views(wrapped@).take(wrapped.len() as int) =~= views(wrapped@));
        let ghost raws = views(raw_lines@).take(i + 1);
        assert(raws.drop_last() =~= views(raw_lines@).take(i as int));
        assert(raws.last() == raw_lines@[i as int]@);
        assert(views(lines@) =~= seq![box_top(title@, width as nat)] + box_rows(
            raws,
            inner as nat,
            verbatim,
        ));
        i += 1;
    }
    assert(views(raw_lines@).take(raw_lines.len() as int) =~= views(raw_lines@));
    let mut bottom = concat_str("└", repeat_char('─', width.saturating_sub(2)).as_str());
    bottom.append("┘");
    let ghost before = views(lines@);
    lines.push(bottom);
    assert(views(lines@) =~= before + seq![box_bottom(width as nat)]);
    join_strings(&lines, "\n")
}

/// A box whose lines are wrapped between words.
pub fn box_section(width: usize, title: &str, raw_lines: &Vec<String>) -> (r: String)
    ensures
        r@ == box_spec(width as nat, title@, views(raw_lines@), false),
{
    framed_box(width, title, raw_lines, false)
}

/// A box whose lines keep every space and are cut character by character.
pub fn box_section_verbatim(width: usize, title: &str, raw_lines: &Vec<String>) -> (r: String)
    ensures
        r@ == box_spec(width as nat, title@, views(raw_lines@), true),
{
    framed_box(width, title, raw_lines, true)
}

// ---------------------------------------------------------------------------
// Sections stacked and side by side
// ---------------------------------------------------------------------------

/// The lines of the sections one below the other, an empty line between
/// two sections.
pub open spec fn stacked(sections: Seq<Seq<char>>) -> Seq<Seq<char>>
    decreases sections.len(),
{
    if sections.len() == 0 {
        Seq::empty()
    } else {
        stacked(sections.drop_last()) + (if sections.len() > 1 {
            seq![Seq::<char>::empty()]
        } else {
            Seq::empty()
        }) + lines_of(sections.last())
    }
}

pub fn stack_sections(sections: &Vec<String>) -> (r: Vec<String>)
    ensures
        views(r@) == stacked(views(sections@)),
{
    let mut out: Vec<String> = Vec::new();
    let mut i: usize = 0;
    while i < sections.len()
        invariant
            i <= sections.len(),
            views(out@) == stacked(views(sections@).take(i as int)),
        decreases sections.len() - i,
    {
        let ghost secs = views(sections@).take(i + 1);
        assert(secs.drop_last() =~= views(sections@).take(i as int));
        assert(secs.last() == sections@[i as int]@);
        let ghost start = views(out@);
        if i > 0 {
            out.push(String::new());
            assert(views(out@) =~= start + seq![Seq::<char>::empty()]);
        } else {
            assert(views(out@) =~= start + Seq::<Seq<char>>::empty());
        }
        let ghost mid = views(out@);
        let ls = lines(sections[i].as_str());
        let mut j: usize = 0;
        while j < ls.len()
            invariant
                j <= ls.len(),
                views(out@) == mid + views(ls@).take(j as int),
            decreases ls.len() - j,
        {
            let ghost before = views(out@);
            out.push(ls[j].clone());
            assert(views(out@) =~= before.push(ls@[j as int]@));
            assert(views(ls@).take(j + 1) =~= views(ls@).take(j as int).push(ls@[j as int]@));
            j += 1;
        }
        assert(views(ls@).take(ls.len() as int) =~= views(ls@));
        i += 1;
    }
    assert(views(sections@).take(sections.len() as int) =~= views(sections@));
    out
}

/// Row `row` of a column, or spaces where the column has ended.
pub open spec fn column_cell(col: Seq<Seq<char>>, row: int, width: nat) -> Seq<char> {
    if 0 <= row < col.len() {
        col[row]
    } else {
        spaces(width)
    }
}

/// Two columns side by side, each padded to its width, two spaces between.
pub open spec fn columns_spec(left: Seq<Seq<char>>, right: Seq<Seq<char>>, lw: nat, rw: nat) -> Seq<
    char,
> {
    let height = if left.len() >= right.len() {
        left.len()
    } else {
        right.len()
    };
    join_seq(
        Seq::new(
            height,
            |row: int|
                pad_to_width_spec(column_cell(left, row, lw), lw) + "  "@ + pad_to_width_spec(
                    column_cell(right, row, rw),
                    rw,
                ),
        ),
        "\n"@,
    )
}

pub fn join_columns(left: &Vec<String>, right: &Vec<String>, left_width: usize, right_width: usize) -> (r:
    String)
    ensures
        r@ == columns_spec(views(left@), views(right@), left_width as nat, right_width as nat),
{
    let height = if left.len() >= right.len() {
        left.len()
    } else {
        right.len()
    };
    let ghost rows = Seq::new(
        height as nat,
        |row: int|
            pad_to_width_spec(column_cell(views(left@), row, left_width as nat), left_width as nat)
                + "  "@ + pad_to_width_spec(
                column_cell(views(right@), row, right_width as nat),
                right_width as nat,
            ),
    );
    let mut out: Vec<String> = Vec::new();
    let mut row: usize = 0;
    while row < height
        invariant
            row <= height,
            height == (if left.len() >= right.len() {
                left.len()
            } else {
                right.len()
            }),
            rows.len() == height,
            rows == Seq::new(
                height as nat,
                |row: int|
                    pad_to_width_spec(column_cell(views(left@), row, left_width as nat), left_width as nat)
                        + "  "@ + pad_to_width_spec(
                        column_cell(views(right@), row, right_width as nat),
                        right_width as nat,
                    ),
            ),
            views(out@) == rows.take(row as int),
        decreases height - row,
    {
        let left_line = if row < left.len() {
            left[row].clone()
        } else {
            repeat_char(' ', left_width)
        };
        let right_line = if row < right.len() {
            right[row].clone()
        } else {
            repeat_char(' ', right_width)
        };
        assert(left_line@ == column_cell(views(left@), row as int, left_width as nat));
        assert(right_line@ == column_cell(views(right@), row as int, right_width as nat));
        let mut line = pad_to_width(left_line.as_str(), left_width);
        line.append("  ");
        line.append(pad_to_width(right_line.as_str(), right_width).as_str());
        let ghost before = views(out@);
        out.push(line);
        assert(views(out@) =~= before.push(rows[row as int]));
        assert(rows.take(row + 1) =~= rows.take(row as int).push(rows[row as int]));
        row += 1;
    }
    assert(rows.take(height as int) =~= rows);
    join_strings(&out, "\n")
}

// ---------------------------------------------------------------------------
// The init screen
// ---------------------------------------------------------------------------

/// `Project: name (summary)`.
pub open spec fn project_line(p: ProjectContext) -> Seq<char> {
    "Project: "@ + p.name@ + " ("@ + summary_spec(p) + ")"@
}

fn project_line_text(p: &ProjectContext) -> (r: String)
    ensures
        r@ == project_line(*p),
{
    let mut s = concat_str("Project: ", p.name.as_str());
    s.append(" (");
    s.append(p.summary().as_str());
    s.append(")");
    s
}

/// A generated file as `[action] path`, the action coloured.
pub open spec fn init_file_line(f: GeneratedFile, color: bool) -> Seq<char> {
    "["@ + match f.action {
        FileAction::Created => paint_spec(color, "92"@, "created"@),
        FileAction::Updated => paint_spec(color, "92"@, "updated"@),
        FileAction::Skipped => paint_spec(color, "93"@, "skipped"@),
    } + "] "@ + f.path@
}

pub open spec fn init_file_lines(files: Seq<GeneratedFile>, color: bool) -> Seq<Seq<char>> {
    if files.len() == 0 {
        seq!["No files were generated."@]
    } else {
        files.map_values(|f: GeneratedFile| init_file_line(f, color))
    }
}

/// The init screen: the project, the files and what to run next, each in a
/// box `width` columns wide.
pub open spec fn render_init_spec(report: InitReport, color: bool, width: nat) -> Seq<char> {
    join_seq(
        seq![
            box_spec(
                width,
                paint_spec(color, "1;94"@, "OSSIFY INIT"@),
                seq![
                    project_line(report.project),
                    "Target: "@ + report.target@,
                    "Mode: "@ + mode_str(report.mode),
                ],
                false,
            ),
            box_spec(width, "Files"@, init_file_lines(report.files@, color), false),
            box_spec(
                width,
                "Next Move"@,
                seq!["Run `ossify audit "@ + report.target@ + "` to inspect the result."@],
                false,
            ),
        ],
        "\n\n"@,
    )
}

pub fn render_init(report: &InitReport, color: bool, width: usize) -> (r: String)
    ensures
        r@ == render_init_spec(*report, color, width as nat),
{
    let style = ReportStyle { enabled: color };
    let mut hero_lines: Vec<String> = Vec::new();
    hero_lines.push(project_line_text(&report.project));
    hero_lines.push(concat_str("Target: ", report.target.as_str()));
    hero_lines.push(concat_str("Mode: ", report.mode.as_str()));
    let badge = style.paint("1;94", "OSSIFY INIT");
    let mut sections: Vec<String> = Vec::new();
    sections.push(box_section(width, badge.as_str(), &hero_lines));
    let mut file_lines: Vec<String> = Vec::new();
    if report.files.len() == 0 {
        file_lines.push(String::from_str("No files were generated."));
    } else {
        let mut i: usize = 0;
        while i < report.files.len()
            invariant
                i <= report.files.len(),
                style.enabled == color,
                views(file_lines@) == report.files@.take(i as int).map_values(
                    |f: GeneratedFile| init_file_line(f, color),
                ),
            decreases report.files.len() - i,
        {
            let f = &report.files[i];
            let label = match f.action {
                FileAction::Created => style.good("created"),
                FileAction::Updated => style.good("updated"),
                FileAction::Skipped => style.warn("skipped"),
            };
            let mut line = concat_str("[", label.as_str());
            line.append("] ");
            line.append(f.path.as_str());
            let ghost before = views(file_lines@);
            file_lines.push(line);
            assert(views(file_lines@) =~= before.push(init_file_line(report.files@[i as int], color)));
            assert(report.files@.take(i + 1).map_values(|f: GeneratedFile| init_file_line(f, color))
                =~= report.files@.take(i as int).map_values(
                |f: GeneratedFile| init_file_line(f, color),
            ).push(init_file_line(report.files@[i as int], color)));
            i += 1;
        }
        assert(report.files@.take(report.files.len() as int) =~= report.files@);
    }
    assert(views(file_lines@) == init_file_lines(report.files@, color));
    sections.push(box_section(width, "Files", &file_lines));
    let mut next = concat_str("Run `ossify audit ", report.target.as_str());
    next.append("` to inspect the result.");
    let mut next_lines: Vec<String> = Vec::new();
    next_lines.push(next);
    sections.push(box_section(width, "Next Move", &next_lines));
    assert(views(hero_lines@) =~= seq![
        project_line(report.project),
        "Target: "@ + report.target@,
        "Mode: "@ + mode_str(report.mode),
    ]);
    assert(views(next_lines@) =~= seq!["Run `ossify audit "@ + report.target@ + "` to inspect the result."@]);
    assert(views(sections@) =~= seq![
        box_spec(
            width as nat,
            paint_spec(color, "1;94"@, "OSSIFY INIT"@),
            views(hero_lines@),
            false,
        ),
        box_spec(width as nat, "Files"@, views(file_lines@), false),
        box_spec(width as nat, "Next Move"@, views(next_lines@), false),
    ]);
    join_strings(&sections, "\n\n")
}

/// The init screen as the `init` command prints it.
pub fn render_init_report(report: &InitReport, color: bool, width: usize) -> (r: String)
    ensures
        r@ == render_init_spec(*report, color, width as nat),
{
    render_init(report, color, width)
}

// ---------------------------------------------------------------------------
// The prompt screen
// ---------------------------------------------------------------------------

/// An issue on one line: status, rule, category, fixability, gap and
/// whether it blocks.
pub open spec fn issue_line_spec(i: PromptIssue) -> Seq<char> {
    status_str(i.status) + " | "@ + i.rule_label@ + " | "@ + category_str(i.category) + " | "@
        + fixability_str(i.fixability) + " | gap "@ + decimal(i.gap as nat) + if i.blocking {
        " | blocking"@
    } else {
        ""@
    }
}

pub fn render_prompt_issue_line(issue: &PromptIssue) -> (r: String)
    ensures
        r@ == issue_line_spec(*issue),
{
    let mut s = concat_str(issue.status.as_str(), " | ");
    s.append(issue.rule_label.as_str());
    s.append(" | ");
    s.append(issue.category.as_str());
    s.append(" | ");
    s.append(issue.fixability.as_str());
    s.append(" | gap ");
    s.append(decimal_string(issue.gap as u64).as_str());
    let ghost head = s@;
    if issue.blocking {
        s.append(" | blocking");
    } else {
        proof {
            reveal_strlit("");
        }
        assert(s@ =~= head + ""@);
    }
    assert(s@ =~= issue_line_spec(*issue));
    s
}

pub open spec fn prompt_hero_lines(report: BugPromptReport, p: GeneratedBugPrompt, color: bool) -> Seq<
    Seq<char>,
> {
    seq![
        project_line(report.project),
        "Target: "@ + report.target@,
        "Score: "@ + score_text_spec(color, Some(report.score)) + "   Tier: "@ + tier_text_spec(
            color,
            report.readiness,
        ),
        "Prompt style: "@ + paint_spec(color, "96"@, strategy_str(p.strategy))
            + "   Issues in scope: "@ + decimal(p.issue_count as nat),
    ]
}

fn prompt_hero(report: &BugPromptReport, p: &GeneratedBugPrompt, color: bool) -> (r: Vec<String>)
    ensures
        views(r@) == prompt_hero_lines(*report, *p, color),
{
    let style = ReportStyle { enabled: color };
    let mut lines: Vec<String> = Vec::new();
    lines.push(project_line_text(&report.project));
    lines.push(concat_str("Target: ", report.target.as_str()));
    let mut score = concat_str("Score: ", style.score(Some(report.score)).as_str());
    score.append("   Tier: ");
    score.append(style.tier(report.readiness).as_str());
    lines.push(score);
    let mut strategy = concat_str("Prompt style: ", style.accent(p.strategy.as_str()).as_str());
    strategy.append("   Issues in scope: ");
    strategy.append(decimal_string(p.issue_count as u64).as_str());
    lines.push(strategy);
    assert(views(lines@) =~= prompt_hero_lines(*report, *p, color));
    lines
}

pub open spec fn prompt_scope_lines(report: BugPromptReport, p: GeneratedBugPrompt) -> Seq<Seq<char>> {
    seq![
        "Fixability mix: automatic "@ + decimal(p.automatic_count as nat) + " | guided "@ + decimal(
            p.guided_count as nat,
        ) + " | manual "@ + decimal(p.manual_count as nat),
        "Selected rules: "@ + if p.selected_rules.len() == 0 {
            "none"@
        } else {
            join_seq(views(p.selected_rules@), ", "@)
        },
        "Signal mix: "@ + decimal(report.strong_count as nat) + " strong | "@ + decimal(
            report.partial_count as nat,
        ) + " partial | "@ + decimal(report.missing_count as nat) + " missing"@,
        "Copy the full prompt below into your coding assistant or a teammate issue."@,
    ]
}

fn prompt_scope(report: &BugPromptReport, p: &GeneratedBugPrompt) -> (r: Vec<String>)
    ensures
        views(r@) == prompt_scope_lines(*report, *p),
{
    let mut lines: Vec<String> = Vec::new();
    let mut mix = concat_str(
        "Fixability mix: automatic ",
        decimal_string(p.automatic_count as u64).as_str(),
    );
    mix.append(" | guided ");
    mix.append(decimal_string(p.guided_count as u64).as_str());
    mix.append(" | manual ");
    mix.append(decimal_string(p.manual_count as u64).as_str());
    lines.push(mix);
    let rules = if p.selected_rules.len() == 0 {
        String::from_str("none")
    } else {
        join_strings(&p.selected_rules, ", ")
    };
    lines.push(concat_str("Selected rules: ", rules.as_str()));
    let mut signals = concat_str("Signal mix: ", decimal_string(report.strong_count as u64).as_str());
    signals.append(" strong | ");
    signals.append(decimal_string(report.partial_count as u64).as_str());
    signals.append(" partial | ");
    signals.append(decimal_string(report.missing_count as u64).as_str());
    signals.append(" missing");
    lines.push(signals);
    lines.push(
        String::from_str("Copy the full prompt below into your coding assistant or a teammate issue."),
    );
    assert(views(lines@) =~= prompt_scope_lines(*report, *p));
    lines
}

/// The first six issues in scope, one line each.
pub open spec fn prompt_issue_lines(p: GeneratedBugPrompt) -> Seq<Seq<char>> {
    (if p.issues.len() > 6 {
        p.issues@.take(6)
    } else {
        p.issues@
    }).map_values(|i: PromptIssue| issue_line_spec(i))
}

fn prompt_issues(p: &GeneratedBugPrompt) -> (r: Vec<String>)
    ensures
        views(r@) == prompt_issue_lines(*p),
{
    let n: usize = if p.issues.len() > 6 {
        6
    } else {
        p.issues.len()
    };
    let ghost shown = if p.issues.len() > 6 {
        p.issues@.take(6)
    } else {
        p.issues@
    };
    assert(shown =~= p.issues@.take(n as int));
    let mut lines: Vec<String> = Vec::new();
    let mut i: usize = 0;
    while i < n
        invariant
            i <= n <= p.issues.len(),
            views(lines@) == p.issues@.take(i as int).map_values(|i: PromptIssue| issue_line_spec(i)),
        decreases n - i,
    {
        let ghost before = views(lines@);
        lines.push(render_prompt_issue_line(&p.issues[i]));
        assert(views(lines@) =~= before.push(issue_line_spec(p.issues@[i as int])));
        assert(p.issues@.take(i + 1).map_values(|i: PromptIssue| issue_line_spec(i)) =~= p.issues@.take(
            i as int,
        ).map_values(|i: PromptIssue| issue_line_spec(i)).push(issue_line_spec(p.issues@[i as int])));
        i += 1;
    }
    lines
}

/// The strong signals to keep, or a note that there are none.
pub open spec fn preserve_lines(p: GeneratedBugPrompt) -> Seq<Seq<char>> {
    if p.preserve.len() == 0 {
        seq!["No strong signals were captured; focus on the gaps in scope."@]
    } else {
        views(p.preserve@)
    }
}

fn preserve_text(p: &GeneratedBugPrompt) -> (r: Vec<String>)
    ensures
        views(r@) == preserve_lines(*p),
{
    if p.preserve.len() == 0 {
        let mut lines: Vec<String> = Vec::new();
        lines.push(String::from_str("No strong signals were captured; focus on the gaps in scope."));
        assert(views(lines@) =~= preserve_lines(*p));
        lines
    } else {
        p.preserve.clone()
    }
}

pub open spec fn prompt_badge(color: bool) -> Seq<char> {
    paint_spec(color, "1;94"@, "OSSIFY PROMPT"@)
}

/// The width a prompt screen takes: at least 72 columns.
pub open spec fn prompt_width(width: nat) -> nat {
    if width < 72 {
        72
    } else {
        width
    }
}

/// The prompt screen in one column: project, scope, issues, signals to keep
/// and the prompt.
pub open spec fn prompt_narrow_spec(
    report: BugPromptReport,
    p: GeneratedBugPrompt,
    color: bool,
    w: nat,
) -> Seq<char> {
    join_seq(
        seq![
            box_spec(w, prompt_badge(color), prompt_hero_lines(report, p, color), false),
            box_spec(w, "Prompt Scope"@, prompt_scope_lines(report, p), false),
            box_spec(w, "Issues In Scope"@, prompt_issue_lines(p), false),
            box_spec(w, "Protect These Signals"@, preserve_lines(p), false),
            box_spec(w, "Copy/Paste Prompt"@, lines_of(p.prompt@), true),
        ],
        "\n\n"@,
    )
}

/// The prompt screen with scope and signals to keep left of the issues.
pub open spec fn prompt_wide_spec(
    report: BugPromptReport,
    p: GeneratedBugPrompt,
    color: bool,
    w: nat,
) -> Seq<char> {
    let half = (w / 2 - 1) as nat;
    join_seq(
        seq![
            box_spec(w, prompt_badge(color), prompt_hero_lines(report, p, color), false),
            columns_spec(
                stacked(
                    seq![
                        box_spec(half, "Prompt Scope"@, prompt_scope_lines(report, p), false),
                        box_spec(half, "Protect These Signals"@, preserve_lines(p), false),
                    ],
                ),
                stacked(seq![box_spec(half, "Issues In Scope"@, prompt_issue_lines(p), false)]),
                half,
                half,
            ),
            box_spec(w, "Copy/Paste Prompt"@, lines_of(p.prompt@), true),
        ],
        "\n\n"@,
    )
}

/// The prompt screen: the first prompt's project, scope, issues, signals to
/// keep and the prompt itself, in boxes at least 72 columns wide; from 112
/// columns on, scope and signals stand left of the issues.
pub open spec fn render_prompt_spec(report: BugPromptReport, color: bool, width: nat) -> Seq<char> {
    let w = prompt_width(width);
    if report.prompts.len() == 0 {
        box_spec(
            w,
            prompt_badge(color),
            seq!["No bug prompt could be generated for this repository."@],
            false,
        )
    } else if w < 112 {
        prompt_narrow_spec(report, report.prompts[0], color, w)
    } else {
        prompt_wide_spec(report, report.prompts[0], color, w)
    }
}

fn prompt_narrow(report: &BugPromptReport, p: &GeneratedBugPrompt, color: bool, w: usize) -> (r:
    String)
    ensures
        r@ == prompt_narrow_spec(*report, *p, color, w as nat),
{
    let style = ReportStyle { enabled: color };
    let badge = style.paint("1;94", "OSSIFY PROMPT");
    let mut sections: Vec<String> = Vec::new();
    sections.push(box_section(w, badge.as_str(), &prompt_hero(report, p, color)));
    sections.push(box_section(w, "Prompt Scope", &prompt_scope(report, p)));
    sections.push(box_section(w, "Issues In Scope", &prompt_issues(p)));
    sections.push(box_section(w, "Protect These Signals", &preserve_text(p)));
    sections.push(box_section_verbatim(w, "Copy/Paste Prompt", &lines(p.prompt.as_str())));
    assert(views(sections@) =~= seq![
        box_spec(w as nat, prompt_badge(color), prompt_hero_lines(*report, *p, color), false),
        box_spec(w as nat, "Prompt Scope"@, prompt_scope_lines(*report, *p), false),
        box_spec(w as nat, "Issues In Scope"@, prompt_issue_lines(*p), false),
        box_spec(w as nat, "Protect These Signals"@, preserve_lines(*p), false),
        box_spec(w as nat, "Copy/Paste Prompt"@, lines_of(p.prompt@), true),
    ]);
    join_strings(&sections, "\n\n")
}

fn prompt_wide(report: &BugPromptReport, p: &GeneratedBugPrompt, color: bool, w: usize) -> (r: String)
    requires
        w >= 2,
    ensures
        r@ == prompt_wide_spec(*report, *p, color, w as nat),
{
    let style = ReportStyle { enabled: color };
    let badge = style.paint("1;94", "OSSIFY PROMPT");
    let half = w / 2 - 1;
    let mut left_boxes: Vec<String> = Vec::new();
    left_boxes.push(box_section(half, "Prompt Scope", &prompt_scope(report, p)));
    left_boxes.push(box_section(half, "Protect These Signals", &preserve_text(p)));
    let mut right_boxes: Vec<String> = Vec::new();
    right_boxes.push(box_section(half, "Issues In Scope", &prompt_issues(p)));
    let ghost h = half as nat;
    assert(views(left_boxes@) =~= seq![
        box_spec(h, "Prompt Scope"@, prompt_scope_lines(*report, *p), false),
        box_spec(h, "Protect These Signals"@, preserve_lines(*p), false),
    ]);
    assert(views(right_boxes@) =~= seq![box_spec(h, "Issues In Scope"@, prompt_issue_lines(*p), false)]);
    let left = stack_sections(&left_boxes);
    let right = stack_sections(&right_boxes);
    let mut sections: Vec<String> = Vec::new();
    sections.push(box_section(w, badge.as_str(), &prompt_hero(report, p, color)));
    sections.push(join_columns(&left, &right, half, half));
    sections.push(box_section_verbatim(w, "Copy/Paste Prompt", &lines(p.prompt.as_str())));
    assert(views(sections@) =~= seq![
        box_spec(w as nat, prompt_badge(color), prompt_hero_lines(*report, *p, color), false),
        columns_spec(views(left@), views(right@), h, h),
        box_spec(w as nat, "Copy/Paste Prompt"@, lines_of(p.prompt@), true),
    ]);
    join_strings(&sections, "\n\n")
}

pub fn render_prompt(report: &BugPromptReport, color: bool, width: usize) -> (r: String)
    ensures
        r@ == render_prompt_spec(*report, color, width as nat),
{
    let w: usize = if width < 72 {
        72
    } else {
        width
    };
    if report.prompts.len() == 0 {
        let style = ReportStyle { enabled: color };
        let badge = style.paint("1;94", "OSSIFY PROMPT");
        let mut lines: Vec<String> = Vec::new();
        lines.push(String::from_str("No bug prompt could be generated for this repository."));
        assert(views(lines@) =~= seq!["No bug prompt could be generated for this repository."@]);
        return box_section(w, badge.as_str(), &lines);
    }
    if w < 112 {
        prompt_narrow(report, &report.prompts[0], color, w)
    } else {
        prompt_wide(report, &report.prompts[0], color, w)
    }
}

/// The prompt screen as the `prompt` command prints it.
pub fn render_prompt_report(report: &BugPromptReport, color: bool, width: usize) -> (r: String)
    ensures
        r@ == render_prompt_spec(*report, color, width as nat),
{
    render_prompt(report, color, width)
}

} // verus!
