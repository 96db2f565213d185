use vstd::prelude::*;

verus! {

// ---------------------------------------------------------------------------
// Character classes
// ---------------------------------------------------------------------------

/// ASCII letters and digits.
pub open spec fn is_ascii_alnum(c: char) -> bool {
    ('0' <= c && c <= '9') || ('a' <= c && c <= 'z') || ('A' <= c && c <= 'Z')
}

/// ASCII hexadecimal digits.
pub open spec fn is_ascii_hex(c: char) -> bool {
    ('0' <= c && c <= '9') || ('a' <= c && c <= 'f') || ('A' <= c && c <= 'F')
}

/// ASCII lowercasing: `A..=Z` map to `a..=z`, everything else is kept.
pub open spec fn ascii_lower(c: char) -> char {
    if 'A' <= c && c <= 'Z' {
        ((c as u32) + 32) as char
    } else {
        c
    }
}

pub fn is_ascii_alnum_char(c: char) -> (b: bool)
    ensures
        b == is_ascii_alnum(c),
{
    ('0' <= c && c <= '9') || ('a' <= c && c <= 'z') || ('A' <= c && c <= 'Z')
}

pub fn is_ascii_hex_char(c: char) -> (b: bool)
    ensures
        b == is_ascii_hex(c),
{
    ('0' <= c && c <= '9') || ('a' <= c && c <= 'f') || ('A' <= c && c <= 'F')
}

pub fn ascii_lower_char(c: char) -> (r: char)
    ensures
        r == ascii_lower(c),
{
    if 'A' <= c && c <= 'Z' {
        ((c as u8) + 32) as char
    } else {
        c
    }
}

} // verus!

verus! {

// ---------------------------------------------------------------------------
// Conversions between text and character vectors
// ---------------------------------------------------------------------------

/// The characters of `s`, in order.
pub fn chars_of(s: &str) -> (v: Vec<char>)
    ensures
        v@ == s@,
{
    let mut v: Vec<char> = Vec::new();
    for c in it: s.chars()
        invariant
            v@ == it.seq().take(it.index() as int),
            it.seq() == s@,
    {
        v.push(c);
    }
    v
}

/// Appends one character to a `String` (`String::push`).
#[verifier::external_body]
pub fn push_char(s: &mut String, c: char)
    ensures
        final(s)@ == old(s)@.push(c),
{
    s.push(c);
}

/// The `String` made of the characters of `v`.
pub fn string_from_chars(v: &Vec<char>) -> (s: String)
    ensures
        s@ == v@,
{
    let mut s = String::new();
    let mut i: usize = 0;
    while i < v.len()
        invariant
            i <= v.len(),
            s@ == v@.take(i as int),
        decreases v.len() - i,
    {
        push_char(&mut s, v[i]);
        assert(v@.take(i + 1) =~= v@.take(i as int).push(v@[i as int]));
        i += 1;
    }
    assert(v@.take(v.len() as int) =~= v@);
    s
}

/// Concatenation of two strings into a new `String`.
pub fn concat_str(a: &str, b: &str) -> (s: String)
    ensures
        s@ == a@ + b@,
{
    let mut s = a.to_owned();
    s.append(b);
    s
}

// ---------------------------------------------------------------------------
// Prefixes, suffixes and substrings
// ---------------------------------------------------------------------------

pub open spec fn starts_with(s: Seq<char>, p: Seq<char>) -> bool {
    p.len() <= s.len() && s.subrange(0, p.len() as int) == p
}

pub open spec fn ends_with(s: Seq<char>, p: Seq<char>) -> bool {
    p.len() <= s.len() && s.subrange(s.len() - p.len(), s.len() as int) == p
}

/// `p` occurs in `s` starting at index `i`.
pub open spec fn occurs_at(s: Seq<char>, p: Seq<char>, i: int) -> bool {
    0 <= i && i + p.len() <= s.len() && s.subrange(i, i + p.len()) == p
}

/// `p` occurs somewhere in `s` (the empty pattern occurs everywhere).
pub open spec fn contains(s: Seq<char>, p: Seq<char>) -> bool {
    exists|i: int| #[trigger] occurs_at(s, p, i)
}

/// Does `p` occur in `s` at index `i`?
pub fn occurs_at_exec(s: &Vec<char>, p: &Vec<char>, i: usize) -> (b: bool)
    ensures
        b == occurs_at(s@, p@, i as int),
{
    if i > s.len() || p.len() > s.len() - i {
        return false;
    }
    let mut j: usize = 0;
    while j < p.len()
        invariant
            i + p.len() <= s.len(),
            j <= p.len(),
            forall|k: int| 0 <= k < j ==> s@[i + k] == p@[k],
        decreases p.len() - j,
    {
        if s[i + j] != p[j] {
            assert(s@.subrange(i as int, i + p.len())[j as int] != p@[j as int]);
            return false;
        }
        j += 1;
    }
    assert(s@.subrange(i as int, i + p.len()) =~= p@);
    true
}

/// First index at which `p` occurs in `s`.
pub fn find_chars(s: &Vec<char>, p: &Vec<char>) -> (r: Option<usize>)
    ensures
        match r {
            Some(i) => occurs_at(s@, p@, i as int) && forall|k: int|
                0 <= k < i ==> !#[trigger] occurs_at(s@, p@, k),
            None => !contains(s@, p@),
        },
{
    if p.len() > s.len() {
        return None;
    }
    let last = s.len() - p.len();
    let mut i: usize = 0;
    while i <= last
        invariant
            p.len() <= s.len(),
            last == s.len() - p.len(),
            i <= last + 1,
            forall|k: int| 0 <= k < i ==> !#[trigger] occurs_at(s@, p@, k),
        decreases last + 1 - i,
    {
        if occurs_at_exec(s, p, i) {
            return Some(i);
        }
        if i == last {
            assert forall|k: int| #[trigger] occurs_at(s@, p@, k) implies false by {
                assert(0 <= k < i + 1);
            }
            return None;
        }
        i += 1;
    }
    None
}

pub fn contains_chars(s: &Vec<char>, p: &Vec<char>) -> (b: bool)
    ensures
        b == contains(s@, p@),
{
    match find_chars(s, p) {
        Some(_) => true,
        None => false,
    }
}

pub fn starts_with_chars(s: &Vec<char>, p: &Vec<char>) -> (b: bool)
    ensures
        b == starts_with(s@, p@),
{
    occurs_at_exec(s, p, 0)
}

pub fn ends_with_chars(s: &Vec<char>, p: &Vec<char>) -> (b: bool)
    ensures
        b == ends_with(s@, p@),
{
    if p.len() > s.len() {
        return false;
    }
    occurs_at_exec(s, p, s.len() - p.len())
}

/// `str::contains` with a string pattern.
pub fn str_contains(s: &str, p: &str) -> (b: bool)
    ensures
        b == contains(s@, p@),
{
    contains_chars(&chars_of(s), &chars_of(p))
}

/// `str::starts_with` with a string pattern.
pub fn str_starts_with(s: &str, p: &str) -> (b: bool)
    ensures
        b == starts_with(s@, p@),
{
    starts_with_chars(&chars_of(s), &chars_of(p))
}

/// `str::ends_with` with a string pattern.
pub fn str_ends_with(s: &str, p: &str) -> (b: bool)
    ensures
        b == ends_with(s@, p@),
{
    ends_with_chars(&chars_of(s), &chars_of(p))
}

/// Equality of two strings.
pub fn str_eq(a: &str, b: &str) -> (r: bool)
    ensures
        r == (a@ == b@),
{
    let x = chars_of(a);
    let y = chars_of(b);
    if x.len() != y.len() {
        return false;
    }
    let r = occurs_at_exec(&x, &y, 0);
    proof {
        if r {
            assert(x@.subrange(0, y@.len() as int) =~= x@);
        } else {
            if a@ == b@ {
                assert(x@.subrange(0, y@.len() as int) =~= x@);
            }
        }
    }
    r
}

} // verus!

verus! {

// ---------------------------------------------------------------------------
// Unicode character properties
// ---------------------------------------------------------------------------

/// The Unicode `White_Space` property (PropList.txt), which is what
/// `char::is_whitespace` tests.
pub open spec fn unicode_white_space(c: char) -> bool {
    let u = c as u32;
    (0x09 <= u && u <= 0x0d) || u == 0x20 || u == 0x85 || u == 0xa0 || u == 0x1680 || (0x2000
        <= u && u <= 0x200a) || u == 0x2028 || u == 0x2029 || u == 0x202f || u == 0x205f || u
        == 0x3000
}

/// True exactly for the characters with the Unicode `White_Space`
/// property, as `char::is_whitespace` answers.
pub fn is_whitespace_char(c: char) -> (b: bool)
    ensures
        b == unicode_white_space(c),
{
    let u = c as u32;
    (0x09 <= u && u <= 0x0d) || u == 0x20 || u == 0x85 || u == 0xa0 || u == 0x1680 || (0x2000 <= u
        && u <= 0x200a) || u == 0x2028 || u == 0x2029 || u == 0x202f || u == 0x205f || u == 0x3000
}

/// What `char::is_alphanumeric` answers: the Unicode `Alphabetic` or `Numeric`
/// property of `c`.
pub uninterp spec fn char_alphanumeric(c: char) -> bool;

/// `char::is_alphanumeric`.  Its answer is a fixed function of the character;
/// on ASCII characters it holds exactly for letters and digits.
#[verifier::external_body]
pub fn is_alphanumeric_char(c: char) -> (b: bool)
    ensures
        b == char_alphanumeric(c),
        (c as u32) < 128 ==> (b == is_ascii_alnum(c)),
{
    c.is_alphanumeric()
}

/// What `char::to_lowercase` yields for `c`: its full Unicode lowercase mapping.
pub uninterp spec fn char_lowercase(c: char) -> Seq<char>;

/// `char::to_lowercase`, collected.  The mapping is a fixed function of the
/// character; an ASCII character maps to its ASCII lowercase form.
#[verifier::external_body]
pub fn lowercase_char(c: char) -> (r: Vec<char>)
    ensures
        r@ == char_lowercase(c),
        (c as u32) < 128 ==> r@ == seq![ascii_lower(c)],
{
    c.to_lowercase().collect()
}

/// The characters of a string are all ASCII.
pub open spec fn all_ascii(s: Seq<char>) -> bool {
    forall|i: int| 0 <= i < s.len() ==> (#[trigger] s[i] as u32) < 128
}

/// ASCII lowercasing of every character.
pub open spec fn ascii_lowercase(s: Seq<char>) -> Seq<char> {
    s.map_values(|c: char| ascii_lower(c))
}

/// What `str::to_lowercase` yields for `s` (the Unicode lowercase mapping of
/// the whole string).
pub uninterp spec fn str_lowercase(s: Seq<char>) -> Seq<char>;

/// `str::to_lowercase`.  The result is a fixed function of the string; on an
/// all-ASCII string it is the ASCII lowercasing of each character.
#[verifier::external_body]
pub fn to_lowercase(s: &str) -> (r: String)
    ensures
        r@ == str_lowercase(s@),
        all_ascii(s@) ==> r@ == ascii_lowercase(s@),
{
    s.to_lowercase()
}

/// `str::to_ascii_lowercase`, written out.
pub fn to_ascii_lowercase(s: &str) -> (r: String)
    ensures
        r@ == ascii_lowercase(s@),
{
    let v = chars_of(s);
    let mut out: Vec<char> = Vec::new();
    let mut i: usize = 0;
    while i < v.len()
        invariant
            i <= v.len(),
            v@ == s@,
            out@ == v@.take(i as int).map_values(|c: char| ascii_lower(c)),
        decreases v.len() - i,
    {
        out.push(ascii_lower_char(v[i]));
        assert(v@.take(i + 1).map_values(|c: char| ascii_lower(c)) =~= v@.take(i as int).map_values(
            |c: char| ascii_lower(c),
        ).push(ascii_lower(v@[i as int])));
        i += 1;
    }
    assert(v@.take(v.len() as int) =~= v@);
    string_from_chars(&out)
}

// ---------------------------------------------------------------------------
// Trimming
// ---------------------------------------------------------------------------

pub open spec fn trim_start_seq(s: Seq<char>) -> Seq<char>
    decreases s.len(),
{
    if s.len() > 0 && unicode_white_space(s[0]) {
        trim_start_seq(s.drop_first())
    } else {
        s
    }
}

pub open spec fn trim_end_seq(s: Seq<char>) -> Seq<char>
    decreases s.len(),
{
    if s.len() > 0 && unicode_white_space(s.last()) {
        trim_end_seq(s.drop_last())
    } else {
        s
    }
}

/// `str::trim`: leading and trailing whitespace removed.
pub open spec fn trim_seq(s: Seq<char>) -> Seq<char> {
    trim_end_seq(trim_start_seq(s))
}

/// Index of the first non-whitespace character of `v` at or after `from`.
fn skip_whitespace(v: &Vec<char>, from: usize) -> (i: usize)
    requires
        from <= v.len(),
    ensures
        from <= i <= v.len(),
        trim_start_seq(v@.subrange(from as int, v.len() as int)) == v@.subrange(
            i as int,
            v.len() as int,
        ),
        forall|k: int| from <= k < i ==> unicode_white_space(#[trigger] v@[k]),
        i < v.len() ==> !unicode_white_space(v@[i as int]),
{
    let mut i = from;
    while i < v.len() && is_whitespace_char(v[i])
        invariant
            from <= i <= v.len(),
            trim_start_seq(v@.subrange(from as int, v.len() as int)) == trim_start_seq(
                v@.subrange(i as int, v.len() as int),
            ),
            forall|k: int| from <= k < i ==> unicode_white_space(#[trigger] v@[k]),
        decreases v.len() - i,
    {
        assert(v@.subrange(i + 1, v.len() as int) =~= v@.subrange(i as int, v.len() as int).drop_first());
        i += 1;
    }
    i
}

/// Characters of `v[from..to]` with trailing whitespace dropped: the new end.
fn trim_end_index(v: &Vec<char>, from: usize, to: usize) -> (j: usize)
    requires
        from <= to <= v.len(),
    ensures
        from <= j <= to,
        trim_end_seq(v@.subrange(from as int, to as int)) == v@.subrange(from as int, j as int),
{
    let mut j = to;
    while j > from && is_whitespace_char(v[j - 1])
        invariant
            from <= j <= to <= v.len(),
            trim_end_seq(v@.subrange(from as int, to as int)) == trim_end_seq(
                v@.subrange(from as int, j as int),
            ),
        decreases j,
    {
        assert(v@.subrange(from as int, j - 1) =~= v@.subrange(from as int, j as int).drop_last());
        j -= 1;
    }
    j
}

/// `str::trim`.
pub fn trim(s: &str) -> (r: String)
    ensures
        r@ == trim_seq(s@),
{
    let v = chars_of(s);
    let i = skip_whitespace(&v, 0);
    assert(v@.subrange(0, v.len() as int) =~= v@);
    let j = trim_end_index(&v, i, v.len());
    let mut out: Vec<char> = Vec::new();
    let mut k: usize = i;
    while k < j
        invariant
            i <= k <= j <= v.len(),
            out@ == v@.subrange(i as int, k as int),
        decreases j - k,
    {
        out.push(v[k]);
        assert(v@.subrange(i as int, k + 1) =~= v@.subrange(i as int, k as int).push(v@[k as int]));
        k += 1;
    }
    string_from_chars(&out)
}

/// `str::trim_start`.
pub fn trim_start(s: &str) -> (r: String)
    ensures
        r@ == trim_start_seq(s@),
{
    let v = chars_of(s);
    let i = skip_whitespace(&v, 0);
    assert(v@.subrange(0, v.len() as int) =~= v@);
    let mut out: Vec<char> = Vec::new();
    let mut k: usize = i;
    while k < v.len()
        invariant
            i <= k <= v.len(),
            out@ == v@.subrange(i as int, k as int),
        decreases v.len() - k,
    {
        out.push(v[k]);
        assert(v@.subrange(i as int, k + 1) =~= v@.subrange(i as int, k as int).push(v@[k as int]));
        k += 1;
    }
    string_from_chars(&out)
}

// ---------------------------------------------------------------------------
// Decimal numbers
// ---------------------------------------------------------------------------

pub open spec fn digit_char(d: nat) -> char {
    (('0' as u32) + d) as char
}

/// Decimal digits of `n`, most significant first, without leading zeros.
pub open spec fn decimal(n: nat) -> Seq<char>
    decreases n,
{
    if n < 10 {
        seq![digit_char(n)]
    } else {
        decimal(n / 10).push(digit_char(n % 10))
    }
}

/// `n.to_string()` for an unsigned integer.
pub fn decimal_string(n: u64) -> (s: String)
    ensures
        s@ == decimal(n as nat),
    decreases n,
{
    let d: u8 = (n % 10) as u8;
    let c: char = (d + 48u8) as char;
    assert(c == digit_char((n % 10) as nat));
    if n < 10 {
        let mut s = String::new();
        push_char(&mut s, c);
        assert(s@ =~= seq![c]);
        s
    } else {
        let mut s = decimal_string(n / 10);
        push_char(&mut s, c);
        s
    }
}

// ---------------------------------------------------------------------------
// Joining
// ---------------------------------------------------------------------------

/// The views of a vector of strings.
pub open spec fn views(v: Seq<String>) -> Seq<Seq<char>> {
    v.map_values(|s: String| s@)
}

/// `parts` joined with `sep` between consecutive parts (`[T]::join`).
pub open spec fn join_seq(parts: Seq<Seq<char>>, sep: Seq<char>) -> Seq<char>
    decreases parts.len(),
{
    if parts.len() == 0 {
        Seq::empty()
    } else if parts.len() == 1 {
        parts[0]
    } else {
        join_seq(parts.drop_last(), sep) + sep + parts.last()
    }
}

/// `parts.join(sep)`.
pub fn join_strings(parts: &Vec<String>, sep: &str) -> (r: String)
    ensures
        r@ == join_seq(views(parts@), sep@),
{
    let mut r = String::new();
    let mut i: usize = 0;
    while i < parts.len()
        invariant
            i <= parts.len(),
            r@ == join_seq(views(parts@).take(i as int), sep@),
        decreases parts.len() - i,
    {
        let ghost before = views(parts@).take(i as int);
        let ghost after = views(parts@).take(i + 1);
        assert(after.drop_last() =~= before);
        assert(after.last() == parts@[i as int]@);
        if i > 0 {
            r.append(sep);
        } else {
            assert(r@ + parts@[i as int]@ =~= parts@[i as int]@);
        }
        r.append(parts[i].as_str());
        i += 1;
    }
    assert(views(parts@).take(parts.len() as int) =~= views(parts@));
    r
}

} // verus!

verus! {

// ---------------------------------------------------------------------------
// Lines and words
// ---------------------------------------------------------------------------

/// A line with the `\r` of a `\r\n` ending removed.
pub open spec fn strip_cr(line: Seq<char>) -> Seq<char> {
    if line.len() > 0 && line.last() == '\r' {
        line.drop_last()
    } else {
        line
    }
}

/// Lines of `s`, where `cur` holds the part of the current line read so far.
pub open spec fn split_lines(s: Seq<char>, cur: Seq<char>) -> Seq<Seq<char>>
    decreases s.len(),
{
    if s.len() == 0 {
        if cur.len() == 0 {
            Seq::empty()
        } else {
            seq![cur]
        }
    } else if s[0] == '\n' {
        seq![strip_cr(cur)] + split_lines(s.drop_first(), Seq::empty())
    } else {
        split_lines(s.drop_first(), cur.push(s[0]))
    }
}

/// `str::lines`: the text split at `\n`, a `\r` right before a `\n` dropped,
/// and no empty last line after a final `\n`.
pub open spec fn lines_of(s: Seq<char>) -> Seq<Seq<char>> {
    split_lines(s, Seq::empty())
}

/// `str::lines`, collected.
pub fn lines(s: &str) -> (r: Vec<String>)
    ensures
        views(r@) == lines_of(s@),
{
    let v = chars_of(s);
    let mut out: Vec<String> = Vec::new();
    let mut cur: Vec<char> = Vec::new();
    let mut i: usize = 0;
    assert(v@.subrange(0, v.len() as int) =~= v@);
    while i < v.len()
        invariant
            i <= v.len(),
            v@ == s@,
            views(out@) + split_lines(v@.subrange(i as int, v.len() as int), cur@) == lines_of(s@),
        decreases v.len() - i,
    {
        let ghost rest = v@.subrange(i as int, v.len() as int);
        assert(rest.drop_first() =~= v@.subrange(i + 1, v.len() as int));
        let c = v[i];
        if c == '\n' {
            let mut line = cur;
            if line.len() > 0 && line[line.len() - 1] == '\r' {
                line.pop();
            }
            assert(line@ =~= strip_cr(cur@));
            let ls = string_from_chars(&line);
            let ghost old_out = views(out@);
            out.push(ls);
            assert(views(out@) =~= old_out.push(ls@));
            assert(old_out + (seq![strip_cr(cur@)] + split_lines(rest.drop_first(), Seq::empty()))
                =~= old_out.push(ls@) + split_lines(rest.drop_first(), Seq::empty()));
            cur = Vec::new();
            assert(cur@ =~= Seq::<char>::empty());
        } else {
            cur.push(c);
        }
        i += 1;
    }
    assert(v@.subrange(i as int, v.len() as int) =~= Seq::<char>::empty());
    if cur.len() > 0 {
        let ls = string_from_chars(&cur);
        let ghost old_out = views(out@);
        out.push(ls);
        assert(views(out@) =~= old_out + seq![cur@]);
    } else {
        assert(views(out@) + Seq::<Seq<char>>::empty() =~= views(out@));
    }
    out
}

/// Words of `s` (maximal runs without whitespace), where `cur` holds the
/// part of the current word read so far.
pub open spec fn split_words(s: Seq<char>, cur: Seq<char>) -> Seq<Seq<char>>
    decreases s.len(),
{
    if s.len() == 0 {
        if cur.len() == 0 {
            Seq::empty()
        } else {
            seq![cur]
        }
    } else if unicode_white_space(s[0]) {
        (if cur.len() == 0 {
            Seq::empty()
        } else {
            seq![cur]
        }) + split_words(s.drop_first(), Seq::empty())
    } else {
        split_words(s.drop_first(), cur.push(s[0]))
    }
}

/// `str::split_whitespace`: the non-empty runs between whitespace.
pub open spec fn words_of(s: Seq<char>) -> Seq<Seq<char>> {
    split_words(s, Seq::empty())
}

/// `str::split_whitespace`, collected.
pub fn words(s: &str) -> (r: Vec<String>)
    ensures
        views(r@) == words_of(s@),
{
    let v = chars_of(s);
    let mut out: Vec<String> = Vec::new();
    let mut cur: Vec<char> = Vec::new();
    let mut i: usize = 0;
    assert(v@.subrange(0, v.len() as int) =~= v@);
    while i < v.len()
        invariant
            i <= v.len(),
            v@ == s@,
            views(out@) + split_words(v@.subrange(i as int, v.len() as int), cur@) == words_of(s@),
        decreases v.len() - i,
    {
        let ghost rest = v@.subrange(i as int, v.len() as int);
        assert(rest.drop_first() =~= v@.subrange(i + 1, v.len() as int));
        let c = v[i];
        if is_whitespace_char(c) {
            if cur.len() > 0 {
                let w = string_from_chars(&cur);
                let ghost old_out = views(out@);
                out.push(w);
                assert(views(out@) =~= old_out.push(w@));
                assert(old_out + (seq![cur@] + split_words(rest.drop_first(), Seq::empty()))
                    =~= old_out.push(w@) + split_words(rest.drop_first(), Seq::empty()));
            } else {
                assert(Seq::<Seq<char>>::empty() + split_words(rest.drop_first(), Seq::empty())
                    =~= split_words(rest.drop_first(), Seq::empty()));
            }
            cur = Vec::new();
            assert(cur@ =~= Seq::<char>::empty());
        } else {
            cur.push(c);
        }
        i += 1;
    }
    assert(v@.subrange(i as int, v.len() as int) =~= Seq::<char>::empty());
    if cur.len() > 0 {
        let w = string_from_chars(&cur);
        let ghost old_out = views(out@);
        out.push(w);
        assert(views(out@) =~= old_out + seq![cur@]);
    } else {
        assert(views(out@) + Seq::<Seq<char>>::empty() =~= views(out@));
    }
    out
}

} // verus!

verus! {

/// The characters of `s` from index `start` on.
pub fn suffix_from(s: &str, start: usize) -> (r: String)
    requires
        start <= s@.len(),
    ensures
        r@ == s@.subrange(start as int, s@.len() as int),
{
    let v = chars_of(s);
    let mut out: Vec<char> = Vec::new();
    let mut k: usize = start;
    while k < v.len()
        invariant
            start <= k <= v.len(),
            v@ == s@,
            out@ == v@.subrange(start as int, k as int),
        decreases v.len() - k,
    {
        out.push(v[k]);
        assert(v@.subrange(start as int, k + 1) =~= v@.subrange(start as int, k as int).push(
            v@[k as int],
        ));
        k += 1;
    }
    string_from_chars(&out)
}

/// The characters of `s` before index `end`.
pub fn prefix_until(s: &str, end: usize) -> (r: String)
    requires
        end <= s@.len(),
    ensures
        r@ == s@.subrange(0, end as int),
{
    let v = chars_of(s);
    let mut out: Vec<char> = Vec::new();
    let mut k: usize = 0;
    while k < end
        invariant
            k <= end <= v.len(),
            v@ == s@,
            out@ == v@.subrange(0, k as int),
        decreases end - k,
    {
        out.push(v[k]);
        assert(v@.subrange(0, k + 1) =~= v@.subrange(0, k as int).push(v@[k as int]));
        k += 1;
    }
    string_from_chars(&out)
}

/// `str::strip_prefix`.
pub open spec fn strip_prefix_seq(s: Seq<char>, p: Seq<char>) -> Option<Seq<char>> {
    if starts_with(s, p) {
        Some(s.subrange(p.len() as int, s.len() as int))
    } else {
        None
    }
}

pub fn strip_prefix(s: &str, p: &str) -> (r: Option<String>)
    ensures
        match r {
            Some(t) => strip_prefix_seq(s@, p@) == Some(t@),
            None => strip_prefix_seq(s@, p@).is_none(),
        },
{
    if str_starts_with(s, p) {
        Some(suffix_from(s, p.unicode_len()))
    } else {
        None
    }
}

} // verus!

verus! {

// ---------------------------------------------------------------------------
// Finding characters
// ---------------------------------------------------------------------------

/// Index of the first occurrence of `c` in `s`.
pub open spec fn first_index_of(s: Seq<char>, c: char) -> Option<int>
    decreases s.len(),
{
    if s.len() == 0 {
        None
    } else if s[0] == c {
        Some(0)
    } else {
        match first_index_of(s.drop_first(), c) {
            Some(i) => Some(i + 1),
            None => None,
        }
    }
}

/// Index of the last occurrence of `c` in `s`.
pub open spec fn last_index_of(s: Seq<char>, c: char) -> Option<int>
    decreases s.len(),
{
    if s.len() == 0 {
        None
    } else if s.last() == c {
        Some(s.len() - 1)
    } else {
        last_index_of(s.drop_last(), c)
    }
}

pub fn find_char(s: &str, c: char) -> (r: Option<usize>)
    ensures
        match r {
            Some(i) => first_index_of(s@, c) == Some(i as int) && i < s@.len(),
            None => first_index_of(s@, c).is_none(),
        },
{
    let v = chars_of(s);
    let mut i: usize = 0;
    assert(v@.subrange(0, v@.len() as int) =~= v@);
    while i < v.len()
        invariant
            i <= v.len(),
            v@ == s@,
            first_index_of(s@, c) == (match first_index_of(v@.subrange(i as int, v@.len() as int), c) {
                Some(j) => Some(j + i),
                None => None,
            }),
        decreases v.len() - i,
    {
        let ghost rest = v@.subrange(i as int, v@.len() as int);
        assert(rest.drop_first() =~= v@.subrange(i + 1, v@.len() as int));
        if v[i] == c {
            return Some(i);
        }
        i += 1;
    }
    None
}

pub fn rfind_char(s: &str, c: char) -> (r: Option<usize>)
    ensures
        match r {
            Some(i) => last_index_of(s@, c) == Some(i as int) && i < s@.len(),
            None => last_index_of(s@, c).is_none(),
        },
{
    let v = chars_of(s);
    let mut j: usize = v.len();
    assert(v@.subrange(0, v@.len() as int) =~= v@);
    while j > 0
        invariant
            j <= v.len(),
            v@ == s@,
            last_index_of(s@, c) == last_index_of(v@.subrange(0, j as int), c),
        decreases j,
    {
        let ghost pre = v@.subrange(0, j as int);
        assert(pre.drop_last() =~= v@.subrange(0, j - 1));
        if v[j - 1] == c {
            return Some(j - 1);
        }
        j -= 1;
    }
    None
}

// ---------------------------------------------------------------------------
// Trimming a given character
// ---------------------------------------------------------------------------

pub open spec fn trim_start_char(s: Seq<char>, c: char) -> Seq<char>
    decreases s.len(),
{
    if s.len() > 0 && s[0] == c {
        trim_start_char(s.drop_first(), c)
    } else {
        s
    }
}

pub open spec fn trim_end_char(s: Seq<char>, c: char) -> Seq<char>
    decreases s.len(),
{
    if s.len() > 0 && s.last() == c {
        trim_end_char(s.drop_last(), c)
    } else {
        s
    }
}

/// `str::trim_matches(c)`.
pub open spec fn trim_char_seq(s: Seq<char>, c: char) -> Seq<char> {
    trim_end_char(trim_start_char(s, c), c)
}

pub fn trim_char(v: &Vec<char>, c: char) -> (r: Vec<char>)
    ensures
        r@ == trim_char_seq(v@, c),
{
    let mut i: usize = 0;
    assert(v@.subrange(0, v@.len() as int) =~= v@);
    while i < v.len() && v[i] == c
        invariant
            i <= v.len(),
            trim_start_char(v@, c) == trim_start_char(v@.subrange(i as int, v@.len() as int), c),
        decreases v.len() - i,
    {
        assert(v@.subrange(i + 1, v@.len() as int) =~= v@.subrange(i as int, v@.len() as int).drop_first());
        i += 1;
    }
    let mut j: usize = v.len();
    while j > i && v[j - 1] == c
        invariant
            i <= j <= v.len(),
            trim_end_char(v@.subrange(i as int, v@.len() as int), c) == trim_end_char(
                v@.subrange(i as int, j as int),
                c,
            ),
        decreases j,
    {
        assert(v@.subrange(i as int, j - 1) =~= v@.subrange(i as int, j as int).drop_last());
        j -= 1;
    }
    let mut out: Vec<char> = Vec::new();
    let mut k: usize = i;
    while k < j
        invariant
            i <= k <= j <= v.len(),
            out@ == v@.subrange(i as int, k as int),
        decreases j - k,
    {
        out.push(v[k]);
        assert(v@.subrange(i as int, k + 1) =~= v@.subrange(i as int, k as int).push(v@[k as int]));
        k += 1;
    }
    out
}

} // verus!

verus! {

/// `v[from..to]` as a new vector.
pub fn subvec(v: &Vec<char>, from: usize, to: usize) -> (r: Vec<char>)
    requires
        from <= to <= v.len(),
    ensures
        r@ == v@.subrange(from as int, to as int),
{
    let mut out: Vec<char> = Vec::new();
    let mut k: usize = from;
    while k < to
        invariant
            from <= k <= to <= v.len(),
            out@ == v@.subrange(from as int, k as int),
        decreases to - k,
    {
        out.push(v[k]);
        assert(v@.subrange(from as int, k + 1) =~= v@.subrange(from as int, k as int).push(
            v@[k as int],
        ));
        k += 1;
    }
    out
}

} // verus!

verus! {

/// Index of the first occurrence of `p` in `s`.
pub open spec fn find_seq(s: Seq<char>, p: Seq<char>) -> Option<int> {
    if contains(s, p) {
        Some(choose|i: int| occurs_at(s, p, i) && forall|k: int| 0 <= k < i ==> !#[trigger] occurs_at(s, p, k))
    } else {
        None
    }
}

/// Where `p` occurs in `s` at `i`, it occurs a first time at or before `i`.
pub proof fn lemma_first_occurrence(s: Seq<char>, p: Seq<char>, i: int)
    requires
        occurs_at(s, p, i),
    ensures
        exists|j: int| occurs_at(s, p, j) && forall|k: int| 0 <= k < j ==> !#[trigger] occurs_at(s, p, k),
    decreases i,
{
    if exists|k: int| 0 <= k < i && #[trigger] occurs_at(s, p, k) {
        let k = choose|k: int| 0 <= k < i && #[trigger] occurs_at(s, p, k);
        lemma_first_occurrence(s, p, k);
    } else {
        assert(forall|k: int| 0 <= k < i ==> !#[trigger] occurs_at(s, p, k));
    }
}

/// `str::find` with a string pattern, as a character index.
pub fn find_str(s: &str, p: &str) -> (r: Option<usize>)
    ensures
        match r {
            Some(i) => find_seq(s@, p@) == Some(i as int) && i + p@.len() <= s@.len(),
            None => find_seq(s@, p@).is_none(),
        },
{
    let sv = chars_of(s);
    let pv = chars_of(p);
    match find_chars(&sv, &pv) {
        Some(i) => {
            proof {
                lemma_first_occurrence(s@, p@, i as int);
                let j = choose|j: int| occurs_at(s@, p@, j) && forall|k: int| 0 <= k < j ==> !#[trigger] occurs_at(s@, p@, k);
                if j < i {
                    assert(!occurs_at(s@, p@, j));
                }
                if i < j {
                    assert(!occurs_at(s@, p@, i as int));
                }
            }
            Some(i)
        },
        None => None,
    }
}

/// `str::replace` of one character by another.
pub open spec fn replace_char_seq(s: Seq<char>, from: char, to: char) -> Seq<char> {
    s.map_values(|c: char| if c == from { to } else { c })
}

pub fn replace_char(s: &str, from: char, to: char) -> (r: String)
    ensures
        r@ == replace_char_seq(s@, from, to),
{
    let v = chars_of(s);
    let mut out: Vec<char> = Vec::new();
    let mut i: usize = 0;
    while i < v.len()
        invariant
            i <= v.len(),
            v@ == s@,
            out@ == replace_char_seq(v@.take(i as int), from, to),
        decreases v.len() - i,
    {
        let c = v[i];
        out.push(if c == from { to } else { c });
        assert(replace_char_seq(v@.take(i + 1), from, to) =~= replace_char_seq(v@.take(i as int), from, to).push(
            if c == from { to } else { c },
        ));
        i += 1;
    }
    assert(v@.take(v.len() as int) =~= v@);
    string_from_chars(&out)
}

} // verus!

verus! {

/// `str::trim_end`.
pub fn trim_end(s: &str) -> (r: String)
    ensures
        r@ == trim_end_seq(s@),
{
    let v = chars_of(s);
    let mut j: usize = v.len();
    assert(v@.subrange(0, v@.len() as int) =~= v@);
    while j > 0 && is_whitespace_char(v[j - 1])
        invariant
            j <= v.len(),
            v@ == s@,
            trim_end_seq(s@) == trim_end_seq(v@.subrange(0, j as int)),
        decreases j,
    {
        assert(v@.subrange(0, j - 1) =~= v@.subrange(0, j as int).drop_last());
        j -= 1;
    }
    string_from_chars(&subvec(&v, 0, j))
}

/// `str::trim_end_matches(c)` for one character.
pub fn trim_end_matches_char(s: &str, c: char) -> (r: String)
    ensures
        r@ == trim_end_char(s@, c),
{
    let v = chars_of(s);
    let mut j: usize = v.len();
    assert(v@.subrange(0, v@.len() as int) =~= v@);
    while j > 0 && v[j - 1] == c
        invariant
            j <= v.len(),
            v@ == s@,
            trim_end_char(s@, c) == trim_end_char(v@.subrange(0, j as int), c),
        decreases j,
    {
        assert(v@.subrange(0, j - 1) =~= v@.subrange(0, j as int).drop_last());
        j -= 1;
    }
    string_from_chars(&subvec(&v, 0, j))
}

} // verus!

verus! {

/// Lexicographic order of strings by code point, which is the order of
/// their UTF-8 bytes (the order of `str` and `String`).
pub open spec fn seq_lt(a: Seq<char>, b: Seq<char>) -> bool
    decreases a.len(),
{
    if a.len() == 0 {
        b.len() > 0
    } else if b.len() == 0 {
        false
    } else if a[0] != b[0] {
        a[0] < b[0]
    } else {
        seq_lt(a.drop_first(), b.drop_first())
    }
}

pub fn str_less(a: &str, b: &str) -> (r: bool)
    ensures
        r == seq_lt(a@, b@),
{
    let x = chars_of(a);
    let y = chars_of(b);
    let mut i: usize = 0;
    assert(x@.subrange(0, x@.len() as int) =~= x@);
    assert(y@.subrange(0, y@.len() as int) =~= y@);
    while i < x.len() && i < y.len() && x[i] == y[i]
        invariant
            i <= x.len(),
            i <= y.len(),
            seq_lt(a@, b@) == seq_lt(
                x@.subrange(i as int, x@.len() as int),
                y@.subrange(i as int, y@.len() as int),
            ),
            x@ == a@,
            y@ == b@,
        decreases x.len() - i,
    {
        assert(x@.subrange(i + 1, x@.len() as int) =~= x@.subrange(i as int, x@.len() as int).drop_first());
        assert(y@.subrange(i + 1, y@.len() as int) =~= y@.subrange(i as int, y@.len() as int).drop_first());
        i += 1;
    }
    if i == x.len() {
        i < y.len()
    } else if i == y.len() {
        false
    } else {
        x[i] < y[i]
    }
}

/// Byte length of a character in UTF-8.
pub open spec fn utf8_len(c: char) -> nat {
    let u = c as u32;
    if u < 0x80 {
        1
    } else if u < 0x800 {
        2
    } else if u < 0x10000 {
        3
    } else {
        4
    }
}

/// Byte length of a string in UTF-8.
pub open spec fn utf8_bytes(s: Seq<char>) -> nat
    decreases s.len(),
{
    if s.len() == 0 {
        0
    } else {
        utf8_bytes(s.drop_last()) + utf8_len(s.last())
    }
}

/// `&s[..n]` where `n` bytes end on a character boundary, else the whole
/// string (`s.get(..n).unwrap_or(s)`).
pub open spec fn byte_prefix_or_all(s: Seq<char>, n: nat) -> Seq<char> {
    if exists|k: int| 0 <= k <= s.len() && utf8_bytes(#[trigger] s.take(k)) == n {
        s.take(choose|k: int| 0 <= k <= s.len() && utf8_bytes(#[trigger] s.take(k)) == n)
    } else {
        s
    }
}

pub proof fn lemma_utf8_prefix_strict(s: Seq<char>, k: int, m: int)
    requires
        0 <= k < m <= s.len(),
    ensures
        utf8_bytes(s.take(k)) < utf8_bytes(s.take(m)),
    decreases m - k,
{
    assert(s.take(m).drop_last() =~= s.take(m - 1));
    if k < m - 1 {
        lemma_utf8_prefix_strict(s, k, m - 1);
    }
}

/// The UTF-8 byte length of a string (`str::len`).
pub fn utf8_byte_len(s: &str) -> (n: u128)
    ensures
        n == utf8_bytes(s@),
{
    let v = chars_of(s);
    let mut bytes: u128 = 0;
    let mut k: usize = 0;
    while k < v.len()
        invariant
            k <= v.len(),
            v@ == s@,
            bytes == utf8_bytes(v@.take(k as int)),
            bytes <= 4 * k,
        decreases v.len() - k,
    {
        assert(v@.take(k + 1).drop_last() =~= v@.take(k as int));
        let u = v[k] as u32;
        let w: u128 = if u < 0x80 {
            1
        } else if u < 0x800 {
            2
        } else if u < 0x10000 {
            3
        } else {
            4
        };
        bytes = bytes + w;
        k += 1;
    }
    assert(v@.take(v.len() as int) =~= v@);
    bytes
}

pub fn get_prefix_or_all(s: &str, n: usize) -> (r: String)
    ensures
        r@ == byte_prefix_or_all(s@, n as nat),
{
    let v = chars_of(s);
    let mut bytes: u128 = 0;
    let mut k: usize = 0;
    while k < v.len() && bytes < n as u128
        invariant
            k <= v.len(),
            v@ == s@,
            bytes == utf8_bytes(v@.take(k as int)),
            bytes <= n + 3,
            k > 0 ==> utf8_bytes(v@.take(k - 1)) < n,
        decreases v.len() - k,
    {
        assert(v@.take(k + 1).drop_last() =~= v@.take(k as int));
        let u = v[k] as u32;
        let w: u128 = if u < 0x80 {
            1
        } else if u < 0x800 {
            2
        } else if u < 0x10000 {
            3
        } else {
            4
        };
        bytes = bytes + w;
        k += 1;
    }
    if bytes == n as u128 {
        proof {
            assert(utf8_bytes(s@.take(k as int)) == n);
            let j = choose|j: int| 0 <= j <= s@.len() && utf8_bytes(#[trigger] s@.take(j)) == n;
            if j < k {
                lemma_utf8_prefix_strict(s@, j, k as int);
            }
            if k < j {
                lemma_utf8_prefix_strict(s@, k as int, j);
            }
        }
        string_from_chars(&subvec(&v, 0, k))
    } else {
        proof {
            assert forall|j: int| 0 <= j <= s@.len() implies utf8_bytes(#[trigger] s@.take(j)) != n by {
                if j < k - 1 {
                    lemma_utf8_prefix_strict(s@, j, k - 1);
                } else if k < j {
                    lemma_utf8_prefix_strict(s@, k as int, j);
                }
            }
        }
        s.to_owned()
    }
}

} // verus!

verus! {

// ---------------------------------------------------------------------------
// Ordering and sorting strings
// ---------------------------------------------------------------------------

pub proof fn lemma_seq_lt_irreflexive(a: Seq<char>)
    ensures
        !seq_lt(a, a),
    decreases a.len(),
{
    if a.len() > 0 {
        lemma_seq_lt_irreflexive(a.drop_first());
    }
}

pub proof fn lemma_seq_lt_asymmetric(a: Seq<char>, b: Seq<char>)
    ensures
        seq_lt(a, b) ==> !seq_lt(b, a),
    decreases a.len(),
{
    if a.len() > 0 && b.len() > 0 && a[0] == b[0] {
        lemma_seq_lt_asymmetric(a.drop_first(), b.drop_first());
    }
}

pub proof fn lemma_seq_lt_transitive(a: Seq<char>, b: Seq<char>, c: Seq<char>)
    requires
        seq_lt(a, b),
        seq_lt(b, c),
    ensures
        seq_lt(a, c),
    decreases a.len(),
{
    if a.len() > 0 && b.len() > 0 && c.len() > 0 && a[0] == b[0] && b[0] == c[0] {
        lemma_seq_lt_transitive(a.drop_first(), b.drop_first(), c.drop_first());
    }
}

pub proof fn lemma_seq_lt_total(a: Seq<char>, b: Seq<char>)
    ensures
        a == b || seq_lt(a, b) || seq_lt(b, a),
    decreases a.len(),
{
    if a.len() == 0 && b.len() == 0 {
        assert(a =~= b);
    } else if a.len() == 0 {
        assert(seq_lt(a, b));
    } else if b.len() == 0 {
        assert(seq_lt(b, a));
    } else if a[0] != b[0] {
        if a[0] < b[0] {
            assert(seq_lt(a, b));
        } else {
            assert(seq_lt(b, a));
        }
    } else {
        lemma_seq_lt_total(a.drop_first(), b.drop_first());
        if a.drop_first() == b.drop_first() {
            assert(a =~= seq![a[0]] + a.drop_first());
            assert(b =~= seq![b[0]] + b.drop_first());
            assert(a =~= b);
        } else if seq_lt(a.drop_first(), b.drop_first()) {
            assert(seq_lt(a, b));
        } else {
            assert(seq_lt(b, a));
        }
    }
}

/// No later string comes strictly before an earlier one.
pub open spec fn sorted_strs(s: Seq<Seq<char>>) -> bool {
    forall|i: int, j: int| 0 <= i < j < s.len() ==> !seq_lt(#[trigger] s[j], #[trigger] s[i])
}

/// Each string comes strictly before every later one.
pub open spec fn strictly_sorted_strs(s: Seq<Seq<char>>) -> bool {
    forall|i: int, j: int| 0 <= i < j < s.len() ==> seq_lt(#[trigger] s[i], #[trigger] s[j])
}

/// The strings in ascending order (`slice::sort` on strings).
pub fn sort_strings(v: Vec<String>) -> (r: Vec<String>)
    ensures
        sorted_strs(views(r@)),
        views(r@).to_multiset() == views(v@).to_multiset(),
{
    let mut r: Vec<String> = Vec::new();
    let mut i: usize = 0;
    assert(views(r@) =~= views(v@).take(0));
    while i < v.len()
        invariant
            i <= v.len(),
            sorted_strs(views(r@)),
            views(r@).to_multiset() == views(v@).take(i as int).to_multiset(),
        decreases v.len() - i,
    {
        let x = &v[i];
        let mut p: usize = 0;
        while p < r.len() && !str_less(x.as_str(), r[p].as_str())
            invariant
                p <= r.len(),
                forall|k: int| 0 <= k < p ==> !seq_lt(x@, #[trigger] views(r@)[k]),
            decreases r.len() - p,
        {
            assert(views(r@)[p as int] == r@[p as int]@);
            p += 1;
        }
        let ghost old_r = views(r@);
        proof {
            if p < r.len() {
                assert(views(r@)[p as int] == r@[p as int]@);
                assert(seq_lt(x@, old_r[p as int]));
                assert forall|k: int| p <= k < old_r.len() implies seq_lt(x@, #[trigger] old_r[k]) by {
                    if k > p {
                        assert(!seq_lt(old_r[k], old_r[p as int]));
                        lemma_seq_lt_total(old_r[k], old_r[p as int]);
                        if old_r[k] != old_r[p as int] {
                            lemma_seq_lt_transitive(x@, old_r[p as int], old_r[k]);
                        }
                    }
                }
            }
        }
        r.insert(p, x.clone());
        let ghost new_r = views(r@);
        assert(new_r =~= old_r.insert(p as int, x@));
        assert(views(v@).take(i + 1) =~= views(v@).take(i as int).push(x@));
        proof {
            vstd::seq_lib::to_multiset_insert(old_r, p as int, x@);
            vstd::seq_lib::to_multiset_build(views(v@).take(i as int), x@);
        }
        assert forall|a: int, b: int| 0 <= a < b < new_r.len() implies !seq_lt(
            #[trigger] new_r[b],
            #[trigger] new_r[a],
        ) by {
            if a < p && b == p {
                lemma_seq_lt_total(x@, old_r[a]);
                lemma_seq_lt_asymmetric(old_r[a], x@);
            } else if a == p && b > p {
                assert(new_r[b] == old_r[b - 1]);
                lemma_seq_lt_asymmetric(x@, old_r[b - 1]);
            } else if a < p && b > p {
                assert(new_r[b] == old_r[b - 1]);
            } else if a > p {
                assert(new_r[a] == old_r[a - 1]);
                assert(new_r[b] == old_r[b - 1]);
            }
        }
        i += 1;
    }
    assert(views(v@).take(v.len() as int) =~= views(v@));
    r
}

/// The distinct strings in ascending order (a `BTreeSet` of strings).
pub fn sorted_unique_strings(v: Vec<String>) -> (r: Vec<String>)
    ensures
        strictly_sorted_strs(views(r@)),
        forall|x: Seq<char>| views(r@).contains(x) <==> views(v@).contains(x),
{
    let mut r: Vec<String> = Vec::new();
    let mut i: usize = 0;
    while i < v.len()
        invariant
            i <= v.len(),
            strictly_sorted_strs(views(r@)),
            forall|x: Seq<char>| views(r@).contains(x) <==> views(v@).take(i as int).contains(x),
        decreases v.len() - i,
    {
        let x = &v[i];
        let mut p: usize = 0;
        while p < r.len() && str_less(r[p].as_str(), x.as_str())
            invariant
                p <= r.len(),
                forall|k: int| 0 <= k < p ==> seq_lt(#[trigger] views(r@)[k], x@),
            decreases r.len() - p,
        {
            assert(views(r@)[p as int] == r@[p as int]@);
            p += 1;
        }
        let ghost old_r = views(r@);
        let ghost t0 = views(v@).take(i as int);
        let ghost t1 = views(v@).take(i + 1);
        assert(t1 =~= t0.push(x@));
        if p < r.len() && str_eq(r[p].as_str(), x.as_str()) {
            assert(old_r[p as int] == x@);
            assert forall|y: Seq<char>| old_r.contains(y) <==> t1.contains(y) by {
                if y == x@ {
                    assert(old_r.contains(y));
                    assert(t1[i as int] == y);
                }
                if t1.contains(y) && y != x@ {
                    let k = choose|k: int| 0 <= k < i + 1 && t1[k] == y;
                    assert(t0[k] == y);
                }
                if old_r.contains(y) {
                    assert(t0.contains(y));
                    let k = choose|k: int| 0 <= k < i && t0[k] == y;
                    assert(t1[k] == y);
                }
            }
        } else {
            proof {
                if p < r.len() {
                    assert(views(r@)[p as int] == r@[p as int]@);
                    lemma_seq_lt_total(old_r[p as int], x@);
                    assert(seq_lt(x@, old_r[p as int]));
                    assert forall|k: int| p <= k < old_r.len() implies seq_lt(x@, #[trigger] old_r[k]) by {
                        if k > p {
                            lemma_seq_lt_transitive(x@, old_r[p as int], old_r[k]);
                        }
                    }
                }
            }
            r.insert(p, x.clone());
            let ghost new_r = views(r@);
            assert(new_r =~= old_r.insert(p as int, x@));
            assert forall|a: int, b: int| 0 <= a < b < new_r.len() implies seq_lt(
                #[trigger] new_r[a],
                #[trigger] new_r[b],
            ) by {
                if a < p && b > p {
                    assert(new_r[b] == old_r[b - 1]);
                    lemma_seq_lt_transitive(old_r[a], x@, old_r[b - 1]);
                } else if a == p && b > p {
                    assert(new_r[b] == old_r[b - 1]);
                } else if a > p {
                    assert(new_r[a] == old_r[a - 1]);
                    assert(new_r[b] == old_r[b - 1]);
                }
            }
            assert forall|y: Seq<char>| new_r.contains(y) <==> t1.contains(y) by {
                if new_r.contains(y) {
                    let k = choose|k: int| 0 <= k < new_r.len() && new_r[k] == y;
                    if k == p {
                        assert(t1[i as int] == y);
                    } else if k < p {
                        assert(old_r[k] == y);
                        assert(old_r.contains(y));
                        let m = choose|m: int| 0 <= m < i && t0[m] == y;
                        assert(t1[m] == y);
                    } else {
                        assert(old_r[k - 1] == y);
                        assert(old_r.contains(y));
                        let m = choose|m: int| 0 <= m < i && t0[m] == y;
                        assert(t1[m] == y);
                    }
                }
                if t1.contains(y) {
                    let k = choose|k: int| 0 <= k < i + 1 && t1[k] == y;
                    if k == i {
                        assert(new_r[p as int] == y);
                    } else {
                        assert(t0[k] == y);
                        assert(old_r.contains(y));
                        let m = choose|m: int| 0 <= m < old_r.len() && old_r[m] == y;
                        if m < p {
                            assert(new_r[m] == y);
                        } else {
                            assert(new_r[m + 1] == y);
                        }
                    }
                }
            }
        }
        i += 1;
    }
    assert(views(v@).take(v.len() as int) =~= views(v@));
    r
}

} // verus!

verus! {

/// The strings of `s` in ascending order.
pub open spec fn sorted_seq(s: Seq<Seq<char>>) -> Seq<Seq<char>> {
    choose|q: Seq<Seq<char>>| sorted_strs(q) && q.to_multiset() == s.to_multiset()
}

/// The distinct strings of `s` in ascending order.
pub open spec fn sorted_distinct(s: Seq<Seq<char>>) -> Seq<Seq<char>> {
    choose|q: Seq<Seq<char>>|
        strictly_sorted_strs(q) && forall|x: Seq<char>| q.contains(x) <==> s.contains(x)
}

/// Two sorted lists with the same elements, counted with multiplicity,
/// are equal.
pub proof fn lemma_sorted_unique(a: Seq<Seq<char>>, b: Seq<Seq<char>>)
    requires
        sorted_strs(a),
        sorted_strs(b),
        a.to_multiset() == b.to_multiset(),
    ensures
        a == b,
    decreases a.len(),
{
    broadcast use vstd::seq_lib::group_to_multiset_ensures;

    if a.len() == 0 {
        vstd::seq_lib::to_multiset_len(a);
        vstd::seq_lib::to_multiset_len(b);
        assert(b.len() == 0);
        assert(a =~= b);
    } else {
        vstd::seq_lib::to_multiset_len(a);
        vstd::seq_lib::to_multiset_len(b);
        assert(b.len() == a.len());
        vstd::seq_lib::to_multiset_contains(a, a[0]);
        vstd::seq_lib::to_multiset_contains(b, a[0]);
        vstd::seq_lib::to_multiset_contains(b, b[0]);
        vstd::seq_lib::to_multiset_contains(a, b[0]);
        assert(a.contains(a[0]));
        assert(a.to_multiset().count(a[0]) > 0);
        assert(b.contains(a[0]));
        let k = choose|k: int| 0 <= k < b.len() && b[k] == a[0];
        assert(b.to_multiset().count(b[0]) > 0);
        assert(a.contains(b[0]));
        let m = choose|m: int| 0 <= m < a.len() && a[m] == b[0];
        if k > 0 {
            assert(!seq_lt(b[k], b[0]));
        }
        if m > 0 {
            assert(!seq_lt(a[m], a[0]));
        }
        lemma_seq_lt_total(a[0], b[0]);
        assert(a[0] == b[0]);
        vstd::seq_lib::to_multiset_remove(a, 0);
        vstd::seq_lib::to_multiset_remove(b, 0);
        assert(a.remove(0) =~= a.drop_first());
        assert(b.remove(0) =~= b.drop_first());
        lemma_sorted_unique(a.drop_first(), b.drop_first());
        assert(a =~= seq![a[0]] + a.drop_first());
        assert(b =~= seq![b[0]] + b.drop_first());
    }
}

/// Two strictly sorted lists with the same elements are equal.
pub proof fn lemma_strictly_sorted_unique(a: Seq<Seq<char>>, b: Seq<Seq<char>>)
    requires
        strictly_sorted_strs(a),
        strictly_sorted_strs(b),
        forall|x: Seq<char>| a.contains(x) <==> b.contains(x),
    ensures
        a == b,
    decreases a.len(),
{
    if a.len() == 0 {
        if b.len() > 0 {
            assert(b.contains(b[0]));
        }
        assert(a =~= b);
    } else {
        assert(a.contains(a[0]));
        let k = choose|k: int| 0 <= k < b.len() && b[k] == a[0];
        assert(b.contains(b[0]));
        let m = choose|m: int| 0 <= m < a.len() && a[m] == b[0];
        if k > 0 {
            assert(seq_lt(b[0], b[k]));
        }
        if m > 0 {
            assert(seq_lt(a[0], a[m]));
        }
        if k > 0 && m > 0 {
            lemma_seq_lt_asymmetric(b[0], a[0]);
        }
        assert(a[0] == b[0]) by {
            if k > 0 && m == 0 {
                lemma_seq_lt_irreflexive(a[0]);
            }
            if m > 0 && k == 0 {
                lemma_seq_lt_irreflexive(a[0]);
            }
        }
        let a1 = a.drop_first();
        let b1 = b.drop_first();
        assert forall|x: Seq<char>| a1.contains(x) <==> b1.contains(x) by {
            if a1.contains(x) {
                let i = choose|i: int| 0 <= i < a1.len() && a1[i] == x;
                assert(a[i + 1] == x);
                assert(seq_lt(a[0], x));
                lemma_seq_lt_irreflexive(x);
                assert(b.contains(x));
                let j = choose|j: int| 0 <= j < b.len() && b[j] == x;
                assert(j != 0);
                assert(b1[j - 1] == x);
            }
            if b1.contains(x) {
                let i = choose|i: int| 0 <= i < b1.len() && b1[i] == x;
                assert(b[i + 1] == x);
                assert(seq_lt(b[0], x));
                lemma_seq_lt_irreflexive(x);
                assert(a.contains(x));
                let j = choose|j: int| 0 <= j < a.len() && a[j] == x;
                assert(j != 0);
                assert(a1[j - 1] == x);
            }
        }
        lemma_strictly_sorted_unique(a1, b1);
        assert(a =~= seq![a[0]] + a1);
        assert(b =~= seq![b[0]] + b1);
    }
}

/// `v` sorted ascending.
pub fn sorted_strings(v: Vec<String>) -> (r: Vec<String>)
    ensures
        views(r@) == sorted_seq(views(v@)),
{
    let ghost input = views(v@);
    let r = sort_strings(v);
    proof {
        let q = sorted_seq(input);
        assert(sorted_strs(q) && q.to_multiset() == input.to_multiset());
        lemma_sorted_unique(views(r@), q);
    }
    r
}

/// The distinct strings of `v`, ascending.
pub fn distinct_sorted_strings(v: Vec<String>) -> (r: Vec<String>)
    ensures
        views(r@) == sorted_distinct(views(v@)),
{
    let ghost input = views(v@);
    let r = sorted_unique_strings(v);
    proof {
        let q = sorted_distinct(input);
        assert(strictly_sorted_strs(q) && forall|x: Seq<char>| q.contains(x) <==> input.contains(x));
        lemma_strictly_sorted_unique(views(r@), q);
    }
    r
}

} // verus!

verus! {

/// `n.to_string()` for a 128-bit unsigned integer.
pub fn decimal_u128(n: u128) -> (s: String)
    ensures
        s@ == decimal(n as nat),
    decreases n,
{
    let d: u8 = (n % 10) as u8;
    let c: char = (d + 48u8) as char;
    assert(c == digit_char((n % 10) as nat));
    if n < 10 {
        let mut s = String::new();
        push_char(&mut s, c);
        assert(s@ =~= seq![c]);
        s
    } else {
        let mut s = decimal_u128(n / 10);
        push_char(&mut s, c);
        s
    }
}

} // verus!
