//! Terminal text: ANSI styling, the width a styled text takes on screen,
//! and word wrapping to a width.
use vstd::prelude::*;
use crate::audit::{tier_str, ReadinessTier};
use crate::doctor::DoctorSeverity;
use crate::text::{
    chars_of, concat_str, decimal, decimal_string, push_char, string_from_chars, views, words,
    words_of,
};

verus! {

pub open spec fn esc() -> char {
    '\u{1b}'
}

/// The width of `s` from position `i` on: every character counts one,
/// except the escape sequences (ESC `[` … a final byte between `@` and `~`),
/// which count nothing.
pub open spec fn vis_at(s: Seq<char>, i: int, in_csi: bool) -> nat
    decreases s.len() - i,
{
    if i >= s.len() || i < 0 {
        0
    } else if in_csi {
        if '@' <= s[i] && s[i] <= '~' {
            vis_at(s, i + 1, false)
        } else {
            vis_at(s, i + 1, true)
        }
    } else if s[i] == esc() && i + 1 < s.len() && s[i + 1] == '[' {
        vis_at(s, i + 2, true)
    } else {
        1 + vis_at(s, i + 1, false)
    }
}

/// The width a text takes on screen.
pub open spec fn visible_width_spec(s: Seq<char>) -> nat {
    vis_at(s, 0, false)
}

pub proof fn lemma_vis_at_bound(s: Seq<char>, i: int, in_csi: bool)
    requires
        0 <= i <= s.len(),
    ensures
        vis_at(s, i, in_csi) <= s.len() - i,
    decreases s.len() - i,
{
    if i < s.len() {
        if in_csi {
            lemma_vis_at_bound(s, i + 1, !('@' <= s[i] && s[i] <= '~'));
        } else if s[i] == esc() && i + 1 < s.len() && s[i + 1] == '[' {
            lemma_vis_at_bound(s, i + 2, true);
        } else {
            lemma_vis_at_bound(s, i + 1, false);
        }
    }
}

/// The width a text takes on screen, escape sequences left out.
pub fn visible_width(message: &str) -> (w: usize)
    ensures
        w == visible_width_spec(message@),
{
    let v = chars_of(message);
    let mut width: usize = 0;
    let mut in_csi = false;
    let mut i: usize = 0;
    while i < v.len()
        invariant
            i <= v.len(),
            v@ == message@,
            width <= i,
            width + vis_at(v@, i as int, in_csi) == vis_at(v@, 0, false),
        decreases v.len() - i,
    {
        let c = v[i];
        if in_csi {
            if '@' <= c && c <= '~' {
                in_csi = false;
            }
            i += 1;
        } else if c == '\u{1b}' && i + 1 < v.len() && v[i + 1] == '[' {
            in_csi = true;
            i += 2;
        } else {
            width += 1;
            i += 1;
        }
    }
    width
}

/// The longest prefix, taken character by character, whose width stays
/// within `width`: the position of the first character that would pass it.
pub open spec fn first_over(s: Seq<char>, i: int, width: nat) -> int
    decreases s.len() - i,
{
    if i >= s.len() || i < 0 {
        s.len() as int
    } else if visible_width_spec(s.take(i + 1)) > width {
        i
    } else {
        first_over(s, i + 1, width)
    }
}

pub proof fn lemma_first_over_range(s: Seq<char>, i: int, width: nat)
    requires
        0 <= i <= s.len(),
    ensures
        i <= first_over(s, i, width) <= s.len(),
    decreases s.len() - i,
{
    if i < s.len() && visible_width_spec(s.take(i + 1)) <= width {
        lemma_first_over_range(s, i + 1, width);
    }
}

/// The text cut where its width would pass `width`.
pub open spec fn truncate_visible_spec(s: Seq<char>, width: nat) -> Seq<char> {
    s.take(first_over(s, 0, width))
}

pub fn truncate_visible(message: &str, width: usize) -> (r: String)
    ensures
        r@ == truncate_visible_spec(message@, width as nat),
{
    let v = chars_of(message);
    let mut out: Vec<char> = Vec::new();
    let mut i: usize = 0;
    proof {
        lemma_first_over_range(v@, 0, width as nat);
    }
    while i < v.len()
        invariant
            i <= v.len(),
            v@ == message@,
            out@ == v@.take(i as int),
            first_over(v@, i as int, width as nat) == first_over(v@, 0, width as nat),
        ensures
            i <= v.len(),
            out@ == v@.take(i as int),
            first_over(v@, 0, width as nat) == i,
        decreases v.len() - i,
    {
        let mut candidate = out.clone();
        candidate.push(v[i]);
        assert(candidate@ =~= v@.take(i + 1));
        let s = string_from_chars(&candidate);
        if visible_width(s.as_str()) > width {
            break;
        }
        out = candidate;
        i += 1;
    }
    string_from_chars(&out)
}

/// A text cut with `first_over` from a position whose prefix fits keeps
/// fitting.
pub proof fn lemma_first_over_fits(s: Seq<char>, i: int, width: nat)
    requires
        0 <= i <= s.len(),
        visible_width_spec(s.take(i)) <= width,
    ensures
        visible_width_spec(s.take(first_over(s, i, width))) <= width,
    decreases s.len() - i,
{
    if i < s.len() && visible_width_spec(s.take(i + 1)) <= width {
        lemma_first_over_fits(s, i + 1, width);
    }
}

/// A truncated text fits the width.
pub proof fn lemma_truncate_fits(s: Seq<char>, width: nat)
    ensures
        visible_width_spec(truncate_visible_spec(s, width)) <= width,
{
    assert(s.take(0) =~= Seq::<char>::empty());
    lemma_first_over_fits(s, 0, width);
}

// ---------------------------------------------------------------------------
// Wrapping
// ---------------------------------------------------------------------------

/// Lines so far and the line being filled.
pub type WrapState = (Seq<Seq<char>>, Seq<char>);

/// One word added to the line being filled: kept on it while the line fits,
/// else the line is closed and the word starts the next one (cut to the
/// width when it alone does not fit).
pub open spec fn wrap_step(st: WrapState, word: Seq<char>, width: nat) -> WrapState {
    let (lines, current) = st;
    let candidate = if current.len() == 0 {
        word
    } else {
        current + " "@ + word
    };
    if visible_width_spec(candidate) <= width {
        (lines, candidate)
    } else {
        let closed = if current.len() > 0 {
            lines.push(current)
        } else {
            lines
        };
        if visible_width_spec(word) > width {
            (closed.push(truncate_visible_spec(word, width)), Seq::empty())
        } else {
            (closed, word)
        }
    }
}

pub open spec fn wrap_fold(ws: Seq<Seq<char>>, width: nat) -> WrapState
    decreases ws.len(),
{
    if ws.len() == 0 {
        (Seq::empty(), Seq::empty())
    } else {
        wrap_step(wrap_fold(ws.drop_last(), width), ws.last(), width)
    }
}

/// The text as lines of at most `width` columns, broken between words; a
/// text that fits stays one line.
pub open spec fn wrap_words_spec(s: Seq<char>, width: nat) -> Seq<Seq<char>> {
    if visible_width_spec(s) <= width {
        seq![s]
    } else {
        let (lines, current) = wrap_fold(words_of(s), width);
        if current.len() > 0 {
            lines.push(current)
        } else {
            lines
        }
    }
}

/// Every closed line and the line being filled fit the width.
pub open spec fn wrap_state_fits(st: WrapState, width: nat) -> bool {
    &&& forall|k: int| 0 <= k < st.0.len() ==> visible_width_spec(#[trigger] st.0[k]) <= width
    &&& visible_width_spec(st.1) <= width
}

pub proof fn lemma_wrap_fold_fits(ws: Seq<Seq<char>>, width: nat)
    ensures
        wrap_state_fits(wrap_fold(ws, width), width),
    decreases ws.len(),
{
    if ws.len() == 0 {
        assert(visible_width_spec(Seq::<char>::empty()) == 0);
    } else {
        lemma_wrap_fold_fits(ws.drop_last(), width);
        let st = wrap_fold(ws.drop_last(), width);
        let word = ws.last();
        lemma_truncate_fits(word, width);
        let (lines, current) = st;
        let closed = if current.len() > 0 {
            lines.push(current)
        } else {
            lines
        };
        assert forall|k: int| 0 <= k < closed.len() implies visible_width_spec(#[trigger] closed[k])
            <= width by {
            if k < lines.len() {
                assert(closed[k] == lines[k]);
            }
        }
        let t = truncate_visible_spec(word, width);
        assert forall|k: int| 0 <= k < closed.push(t).len() implies visible_width_spec(
            #[trigger] closed.push(t)[k],
        ) <= width by {
            if k < closed.len() {
                assert(closed.push(t)[k] == closed[k]);
            }
        }
        assert(visible_width_spec(Seq::<char>::empty()) == 0);
    }
}

pub fn wrap_words(message: &str, width: usize) -> (r: Vec<String>)
    ensures
        views(r@) == wrap_words_spec(message@, width as nat),
{
    if visible_width(message) <= width {
        let mut r: Vec<String> = Vec::new();
        r.push(message.to_owned());
        assert(views(r@) =~= seq![message@]);
        return r;
    }
    let ws = words(message);
    let mut lines: Vec<String> = Vec::new();
    let mut current = String::new();
    let mut i: usize = 0;
    while i < ws.len()
        invariant
            i <= ws.len(),
            views(ws@) == words_of(message@),
            (views(lines@), current@) == wrap_fold(views(ws@).take(i as int), width as nat),
        decreases ws.len() - i,
    {
        assert(views(ws@).take(i + 1).drop_last() =~= views(ws@).take(i as int));
        assert(views(ws@).take(i + 1).last() == ws@[i as int]@);
        let word = ws[i].as_str();
        let candidate = if current.as_str().is_empty() {
            word.to_owned()
        } else {
            let mut c = concat_str(current.as_str(), " ");
            c.append(word);
            c
        };
        if visible_width(candidate.as_str()) <= width {
            current = candidate;
        } else {
            if !current.as_str().is_empty() {
                let ghost before = views(lines@);
                lines.push(current);
                proof {
                    assert(views(lines@) =~= before.push(lines@[lines@.len() - 1]@));
                }
            }
            if visible_width(word) > width {
                let ghost before = views(lines@);
                lines.push(truncate_visible(word, width));
                proof {
                    assert(views(lines@) =~= before.push(lines@[lines@.len() - 1]@));
                }
                current = String::new();
            } else {
                current = word.to_owned();
            }
        }
        i += 1;
    }
    assert(views(ws@).take(ws.len() as int) =~= views(ws@));
    if !current.as_str().is_empty() {
        let ghost before = views(lines@);
        let ghost c = current@;
        lines.push(current);
        assert(views(lines@) =~= before.push(c));
    }
    lines
}

/// The text wrapped to what is left of `width` after the indent (at least
/// 24 columns), each line indented.
pub open spec fn wrap_prefixed_spec(s: Seq<char>, indent: Seq<char>, width: nat, indent_bytes: nat) -> Seq<
    Seq<char>,
> {
    let available = if width >= indent_bytes {
        (width - indent_bytes) as nat
    } else {
        0
    };
    let available = if available < 24 {
        24
    } else {
        available
    };
    wrap_words_spec(s, available).map_values(|l: Seq<char>| indent + l)
}

pub fn wrap_prefixed(message: &str, indent: &str, width: usize) -> (r: Vec<String>)
    ensures
        views(r@) == wrap_prefixed_spec(message@, indent@, width as nat, indent.len() as nat),
{
    let n = indent.len();
    let mut available: usize = if width >= n {
        width - n
    } else {
        0
    };
    if available < 24 {
        available = 24;
    }
    let wrapped = wrap_words(message, available);
    let mut lines: Vec<String> = Vec::new();
    let mut i: usize = 0;
    while i < wrapped.len()
        invariant
            i <= wrapped.len(),
            views(lines@) == views(wrapped@).take(i as int).map_values(|l: Seq<char>| indent@ + l),
        decreases wrapped.len() - i,
    {
        let ghost before = views(lines@);
        lines.push(concat_str(indent, wrapped[i].as_str()));
        assert(views(lines@) =~= before.push(indent@ + wrapped@[i as int]@));
        assert(views(wrapped@).take(i + 1).map_values(|l: Seq<char>| indent@ + l) =~= views(
            wrapped@,
        ).take(i as int).map_values(|l: Seq<char>| indent@ + l).push(indent@ + wrapped@[i as int]@));
        i += 1;
    }
    assert(views(wrapped@).take(wrapped.len() as int) =~= views(wrapped@));
    lines
}

// ---------------------------------------------------------------------------
// Styling
// ---------------------------------------------------------------------------

/// Paint `text` with an ANSI style `code` when styling is on.
pub open spec fn paint_spec(enabled: bool, code: Seq<char>, text: Seq<char>) -> Seq<char> {
    if enabled {
        seq![esc(), '['] + code + "m"@ + text + seq![esc(), '['] + "0m"@
    } else {
        text
    }
}

/// ANSI styles for the report, or none.
#[derive(Debug, Clone, Copy)]
pub struct ReportStyle {
    pub enabled: bool,
}

pub open spec fn severity_color(s: DoctorSeverity) -> Seq<char> {
    match s {
        DoctorSeverity::Error => "91"@,
        DoctorSeverity::Warning => "93"@,
        DoctorSeverity::Info => "94"@,
    }
}

pub open spec fn severity_short(s: DoctorSeverity) -> Seq<char> {
    match s {
        DoctorSeverity::Error => "err "@,
        DoctorSeverity::Warning => "warn "@,
        DoctorSeverity::Info => "info "@,
    }
}

pub open spec fn score_text_spec(enabled: bool, score: Option<u8>) -> Seq<char> {
    match score {
        Some(v) => paint_spec(
            enabled,
            if v >= 85 {
                "92"@
            } else if v >= 60 {
                "93"@
            } else {
                "91"@
            },
            decimal(v as nat) + "/100"@,
        ),
        None => paint_spec(enabled, "90"@, "unavailable"@),
    }
}

pub open spec fn tier_text_spec(enabled: bool, tier: ReadinessTier) -> Seq<char> {
    paint_spec(
        enabled,
        match tier {
            ReadinessTier::LaunchReady => "92"@,
            ReadinessTier::Promising => "93"@,
            ReadinessTier::Rough => "91"@,
        },
        tier_str(tier),
    )
}

impl ReportStyle {
    pub fn paint(&self, code: &str, text: &str) -> (r: String)
        ensures
            r@ == paint_spec(self.enabled, code@, text@),
    {
        if self.enabled {
            let mut s = String::new();
            push_char(&mut s, '\u{1b}');
            push_char(&mut s, '[');
            s.append(code);
            s.append("m");
            s.append(text);
            push_char(&mut s, '\u{1b}');
            push_char(&mut s, '[');
            s.append("0m");
            assert(s@ =~= seq![esc(), '['] + code@ + "m"@ + text@ + seq![esc(), '['] + "0m"@);
            s
        } else {
            text.to_owned()
        }
    }

    /// A field label.
    pub fn label(&self, text: &str) -> (r: String)
        ensures
            r@ == paint_spec(self.enabled, "90"@, text@),
    {
        self.paint("90", text)
    }

    /// A section heading.
    pub fn section(&self, text: &str) -> (r: String)
        ensures
            r@ == paint_spec(self.enabled, "1;90"@, text@),
    {
        self.paint("1;90", text)
    }

    /// A file name.
    pub fn file(&self, text: &str) -> (r: String)
        ensures
            r@ == paint_spec(self.enabled, "1;97"@, text@),
    {
        self.paint("1;97", text)
    }

    /// Secondary text.
    pub fn muted(&self, text: &str) -> (r: String)
        ensures
            r@ == paint_spec(self.enabled, "90"@, text@),
    {
        self.paint("90", text)
    }

    /// Good news.
    pub fn good(&self, text: &str) -> (r: String)
        ensures
            r@ == paint_spec(self.enabled, "92"@, text@),
    {
        self.paint("92", text)
    }

    /// Bad news.
    pub fn bad(&self, text: &str) -> (r: String)
        ensures
            r@ == paint_spec(self.enabled, "91"@, text@),
    {
        self.paint("91", text)
    }

    /// A warning.
    pub fn warn(&self, text: &str) -> (r: String)
        ensures
            r@ == paint_spec(self.enabled, "93"@, text@),
    {
        self.paint("93", text)
    }

    /// A note.
    pub fn info(&self, text: &str) -> (r: String)
        ensures
            r@ == paint_spec(self.enabled, "94"@, text@),
    {
        self.paint("94", text)
    }

    /// A highlighted value.
    pub fn accent(&self, text: &str) -> (r: String)
        ensures
            r@ == paint_spec(self.enabled, "96"@, text@),
    {
        self.paint("96", text)
    }

    /// A readiness tier: launch-ready green, promising yellow, rough red.
    pub fn tier(&self, tier: ReadinessTier) -> (r: String)
        ensures
            r@ == tier_text_spec(self.enabled, tier),
    {
        match tier {
            ReadinessTier::LaunchReady => self.good(tier.as_str()),
            ReadinessTier::Promising => self.warn(tier.as_str()),
            ReadinessTier::Rough => self.bad(tier.as_str()),
        }
    }

    /// A bold or plain badge in colour `color`.
    pub fn badge(&self, text: &str, color: u8, bold: bool) -> (r: String)
        ensures
            r@ == paint_spec(
                self.enabled,
                if bold {
                    "1;"@ + decimal(color as nat)
                } else {
                    decimal(color as nat)
                },
                text@,
            ),
    {
        let code = if bold {
            concat_str("1;", decimal_string(color as u64).as_str())
        } else {
            decimal_string(color as u64)
        };
        self.paint(code.as_str(), text)
    }

    /// A severity as a coloured dot.
    pub fn dot(&self, severity: DoctorSeverity) -> (r: String)
        ensures
            r@ == paint_spec(self.enabled, severity_color(severity), "●"@),
    {
        let code = match severity {
            DoctorSeverity::Error => "91",
            DoctorSeverity::Warning => "93",
            DoctorSeverity::Info => "94",
        };
        self.paint(code, "●")
    }

    /// A severity and a count, such as `warn 2`.
    pub fn severity_badge(&self, severity: DoctorSeverity, count: usize) -> (r: String)
        ensures
            r@ == paint_spec(
                self.enabled,
                severity_color(severity),
                severity_short(severity) + decimal(count as nat),
            ),
    {
        let (code, prefix) = match severity {
            DoctorSeverity::Error => ("91", "err "),
            DoctorSeverity::Warning => ("93", "warn "),
            DoctorSeverity::Info => ("94", "info "),
        };
        let text = concat_str(prefix, decimal_string(count as u64).as_str());
        self.paint(code, text.as_str())
    }

    /// A score out of 100, green from 85, yellow from 60, else red.
    pub fn score(&self, score: Option<u8>) -> (r: String)
        ensures
            r@ == score_text_spec(self.enabled, score),
    {
        match score {
            Some(v) => {
                let code = if v >= 85 {
                    "92"
                } else if v >= 60 {
                    "93"
                } else {
                    "91"
                };
                let text = concat_str(decimal_string(v as u64).as_str(), "/100");
                self.paint(code, text.as_str())
            },
            None => self.paint("90", "unavailable"),
        }
    }
}

/// Severity counts as badges, errors first, or `clean`.
pub open spec fn severity_counts_spec(enabled: bool, warnings: nat, infos: nat, errors: nat) -> Seq<char> {
    let parts = (if errors > 0 {
        seq![paint_spec(enabled, "91"@, "err "@ + decimal(errors))]
    } else {
        Seq::empty()
    }) + (if warnings > 0 {
        seq![paint_spec(enabled, "93"@, "warn "@ + decimal(warnings))]
    } else {
        Seq::empty()
    }) + (if infos > 0 {
        seq![paint_spec(enabled, "94"@, "info "@ + decimal(infos))]
    } else {
        Seq::empty()
    });
    if parts.len() == 0 {
        paint_spec(enabled, "92"@, "clean"@)
    } else {
        crate::text::join_seq(parts, " "@)
    }
}

pub fn format_severity_counts(style: &ReportStyle, warnings: usize, infos: usize, errors: usize) -> (r:
    String)
    ensures
        r@ == severity_counts_spec(style.enabled, warnings as nat, infos as nat, errors as nat),
{
    let mut parts: Vec<String> = Vec::new();
    if errors > 0 {
        parts.push(style.severity_badge(DoctorSeverity::Error, errors));
    }
    if warnings > 0 {
        parts.push(style.severity_badge(DoctorSeverity::Warning, warnings));
    }
    if infos > 0 {
        parts.push(style.severity_badge(DoctorSeverity::Info, infos));
    }
    proof {
        reveal_strlit("err ");
        reveal_strlit("warn ");
        reveal_strlit("info ");
    }
    assert(views(parts@) =~= (if errors > 0 {
        seq![paint_spec(style.enabled, "91"@, "err "@ + decimal(errors as nat))]
    } else {
        Seq::empty()
    }) + (if warnings > 0 {
        seq![paint_spec(style.enabled, "93"@, "warn "@ + decimal(warnings as nat))]
    } else {
        Seq::empty()
    }) + (if infos > 0 {
        seq![paint_spec(style.enabled, "94"@, "info "@ + decimal(infos as nat))]
    } else {
        Seq::empty()
    }));
    if parts.len() == 0 {
        style.paint("92", "clean")
    } else {
        crate::text::join_strings(&parts, " ")
    }
}

/// The rank of a severity in the report: errors, warnings, notes.
pub fn workflow_severity_rank(severity: DoctorSeverity) -> (r: u8)
    ensures
        r == crate::doctor::severity_rank(severity),
{
    match severity {
        DoctorSeverity::Error => 0,
        DoctorSeverity::Warning => 1,
        DoctorSeverity::Info => 2,
    }
}

} // verus!
