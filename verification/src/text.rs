//! Text primitives over sequences of characters.
//!
//! Every algorithm of the crate that looks inside a string works on a
//! `Vec<char>` and is specified over `Seq<char>`. Three facts about the
//! standard library are taken on trust here: what `str::to_lowercase` and
//! `str::to_uppercase` return is given a name, and `String::push` appends one
//! character.

use vstd::prelude::*;

verus! {

/// The text that `str::to_lowercase` returns for `text`: its Unicode
/// lower-case form. The mapping is fixed by the Unicode tables that the
/// standard library carries, so it depends on `text` alone.
pub uninterp spec fn lowercase_of(text: Seq<char>) -> Seq<char>;

/// `str::to_lowercase` is not proved: its result is only named, by
/// [`lowercase_of`].
pub assume_specification[ str::to_lowercase ](s: &str) -> (lowered: String)
    ensures
        lowered@ == lowercase_of(s@),
;

/// The text that `str::to_uppercase` returns for `text`: its Unicode
/// upper-case form, which depends on `text` alone.
pub uninterp spec fn uppercase_of(text: Seq<char>) -> Seq<char>;

/// `str::to_uppercase` is not proved: its result is only named, by
/// [`uppercase_of`].
pub assume_specification[ str::to_uppercase ](s: &str) -> (raised: String)
    ensures
        raised@ == uppercase_of(s@),
;

/// `String::push` is not proved: it is taken to append `ch` at the end and to
/// leave the rest of the string as it was.
pub assume_specification[ String::push ](s: &mut String, ch: char)
    ensures
        final(s)@ == old(s)@.push(ch),
;

/// `pat` stands in `text` at position `at`.
pub open spec fn occurs_at(text: Seq<char>, pat: Seq<char>, at: int) -> bool {
    &&& 0 <= at
    &&& at + pat.len() <= text.len()
    &&& text.subrange(at, at + pat.len()) == pat
}

/// `text` begins with `pat`.
pub open spec fn spec_starts_with(text: Seq<char>, pat: Seq<char>) -> bool {
    occurs_at(text, pat, 0)
}

/// `pat` stands somewhere in `text`.
pub open spec fn spec_contains(text: Seq<char>, pat: Seq<char>) -> bool {
    exists|at: int| occurs_at(text, pat, at)
}

/// The position of the first `ch` in `text` at or after `from`, or the length
/// of `text` where there is none.
pub open spec fn spec_position(text: Seq<char>, ch: char, from: int) -> int
    decreases text.len() - from,
{
    if from < 0 || from >= text.len() {
        text.len() as int
    } else if text[from] == ch {
        from
    } else {
        spec_position(text, ch, from + 1)
    }
}

/// The part of `text` before its first `ch`; all of `text` where it holds no
/// `ch`.
pub open spec fn spec_before(text: Seq<char>, ch: char) -> Seq<char> {
    text.subrange(0, spec_position(text, ch, 0))
}

/// `text` from position `from` on, with every occurrence of `pat` replaced by
/// `with`. Occurrences are taken from the left and do not overlap; what was
/// put in is not searched again. An empty `pat` occurs nowhere.
pub open spec fn spec_replace_from(
    text: Seq<char>,
    pat: Seq<char>,
    with: Seq<char>,
    from: int,
) -> Seq<char>
    decreases text.len() - from,
{
    if from < 0 || from >= text.len() {
        Seq::empty()
    } else if pat.len() > 0 && occurs_at(text, pat, from) {
        with + spec_replace_from(text, pat, with, from + pat.len())
    } else {
        seq![text[from]] + spec_replace_from(text, pat, with, from + 1)
    }
}

/// `text` with every occurrence of `pat` replaced by `with`.
pub open spec fn spec_replace(text: Seq<char>, pat: Seq<char>, with: Seq<char>) -> Seq<char> {
    spec_replace_from(text, pat, with, 0)
}

/// The characters of a string.
pub fn chars_of(s: &str) -> (chars: Vec<char>)
    ensures
        chars@ == s@,
{
    let mut chars: Vec<char> = Vec::new();
    for c in it: s.chars()
        invariant
            it.seq() == s@,
            chars@ == s@.subrange(0, it.index() as int),
    {
        chars.push(c);
    }
    chars
}

/// Whether two strings hold the same text. The strings are compared byte by
/// byte; equal encodings decode to equal texts.
pub fn same_text(a: &str, b: &str) -> (same: bool)
    ensures
        same == (a@ == b@),
{
    let x = a.as_bytes();
    let y = b.as_bytes();
    proof {
        vstd::utf8::encode_utf8_decode_utf8(a@);
        vstd::utf8::encode_utf8_decode_utf8(b@);
    }
    if x.len() != y.len() {
        return false;
    }
    let mut i: usize = 0;
    while i < x.len()
        invariant
            i <= x.len(),
            x.len() == y.len(),
            x@ == vstd::utf8::encode_utf8(a@),
            y@ == vstd::utf8::encode_utf8(b@),
            forall|j: int| 0 <= j < i ==> x@[j] == y@[j],
        decreases x.len() - i,
    {
        if x[i] != y[i] {
            return false;
        }
        i = i + 1;
    }
    assert(x@ =~= y@);
    true
}

/// Whether `text` is the text of the string `wanted`.
pub fn is_text(text: &Vec<char>, wanted: &str) -> (same: bool)
    ensures
        same == (text@ == wanted@),
{
    let other = chars_of(wanted);
    if text.len() != other.len() {
        return false;
    }
    let mut i: usize = 0;
    while i < text.len()
        invariant
            i <= text.len(),
            text.len() == other.len(),
            other@ == wanted@,
            forall|j: int| 0 <= j < i ==> text@[j] == other@[j],
        decreases text.len() - i,
    {
        if text[i] != other[i] {
            return false;
        }
        i = i + 1;
    }
    assert(text@ =~= other@);
    true
}

/// The string made of the characters `chars[from..to]`.
pub fn string_of_range(chars: &Vec<char>, from: usize, to: usize) -> (s: String)
    requires
        from <= to <= chars.len(),
    ensures
        s@ == chars@.subrange(from as int, to as int),
{
    let mut s = String::new();
    let mut i: usize = from;
    while i < to
        invariant
            from <= i <= to <= chars.len(),
            s@ == chars@.subrange(from as int, i as int),
        decreases to - i,
    {
        s.push(chars[i]);
        i = i + 1;
    }
    s
}

/// The string made of `chars`.
pub fn string_of(chars: &Vec<char>) -> (s: String)
    ensures
        s@ == chars@,
{
    string_of_range(chars, 0, chars.len())
}

/// Whether `pat` stands in `text` at position `at`.
pub fn matches_at(text: &Vec<char>, pat: &Vec<char>, at: usize) -> (found: bool)
    ensures
        found == occurs_at(text@, pat@, at as int),
{
    if pat.len() > text.len() || at > text.len() - pat.len() {
        return false;
    }
    let mut k: usize = 0;
    while k < pat.len()
        invariant
            k <= pat.len(),
            at + pat.len() <= text.len(),
            forall|j: int| 0 <= j < k ==> text@[at + j] == pat@[j],
        decreases pat.len() - k,
    {
        if text[at + k] != pat[k] {
            return false;
        }
        k = k + 1;
    }
    assert(text@.subrange(at as int, at + pat.len()) =~= pat@);
    true
}

/// Whether `text` begins with `pat`.
pub fn starts_with(text: &Vec<char>, pat: &Vec<char>) -> (found: bool)
    ensures
        found == spec_starts_with(text@, pat@),
{
    matches_at(text, pat, 0)
}

/// The first position at or after `from` where `pat` stands in `text`.
pub fn find_from(text: &Vec<char>, pat: &Vec<char>, from: usize) -> (at: Option<usize>)
    ensures
        match at {
            Some(p) => {
                &&& from <= p
                &&& occurs_at(text@, pat@, p as int)
                &&& forall|j: int| from <= j < p ==> !occurs_at(text@, pat@, j)
            },
            None => forall|j: int| from <= j ==> !occurs_at(text@, pat@, j),
        },
{
    if pat.len() > text.len() {
        return None;
    }
    let last: usize = text.len() - pat.len();
    let mut p: usize = from;
    while p <= last
        invariant
            from <= p,
            last == text.len() - pat.len(),
            pat.len() <= text.len(),
            forall|j: int| from <= j < p ==> !occurs_at(text@, pat@, j),
        decreases last - p,
    {
        if matches_at(text, pat, p) {
            return Some(p);
        }
        if p == last {
            return None;
        }
        p = p + 1;
    }
    None
}

/// Whether `pat` stands somewhere in `text`.
pub fn contains(text: &Vec<char>, pat: &Vec<char>) -> (found: bool)
    ensures
        found == spec_contains(text@, pat@),
{
    match find_from(text, pat, 0) {
        Some(p) => {
            true
        },
        None => {
            assert forall|at: int| !occurs_at(text@, pat@, at) by {}
            false
        },
    }
}

/// The position of the first `ch` in `text` at or after `from`; the length of
/// `text` where there is none.
pub fn position(text: &Vec<char>, ch: char, from: usize) -> (at: usize)
    ensures
        at == spec_position(text@, ch, from as int),
        at <= text.len(),
        from <= text.len() ==> from <= at,
{
    let mut p: usize = from;
    while p < text.len()
        invariant
            from <= p,
            spec_position(text@, ch, from as int) == spec_position(text@, ch, p as int),
        decreases text.len() - p,
    {
        if text[p] == ch {
            return p;
        }
        p = p + 1;
    }
    text.len()
}

/// The characters `text[from..to]`.
pub fn slice_of(text: &Vec<char>, from: usize, to: usize) -> (part: Vec<char>)
    requires
        from <= to <= text.len(),
    ensures
        part@ == text@.subrange(from as int, to as int),
{
    let mut part: Vec<char> = Vec::new();
    let mut i: usize = from;
    while i < to
        invariant
            from <= i <= to <= text.len(),
            part@ == text@.subrange(from as int, i as int),
        decreases to - i,
    {
        part.push(text[i]);
        i = i + 1;
    }
    part
}

/// Appends `more` to `text`.
pub fn extend(text: &mut Vec<char>, more: &Vec<char>)
    ensures
        final(text)@ == old(text)@ + more@,
{
    let mut i: usize = 0;
    while i < more.len()
        invariant
            i <= more.len(),
            text@ == old(text)@ + more@.subrange(0, i as int),
        decreases more.len() - i,
    {
        text.push(more[i]);
        i = i + 1;
    }
}

/// `text` with every occurrence of `pat` replaced by `with`, the occurrences
/// taken from the left without overlap.
pub fn replace(text: &Vec<char>, pat: &Vec<char>, with: &Vec<char>) -> (out: Vec<char>)
    ensures
        out@ == spec_replace(text@, pat@, with@),
{
    let mut out: Vec<char> = Vec::new();
    let mut i: usize = 0;
    while i < text.len()
        invariant
            out@ + spec_replace_from(text@, pat@, with@, i as int) == spec_replace(
                text@,
                pat@,
                with@,
            ),
        decreases text.len() - i,
    {
        let ghost rest = spec_replace_from(text@, pat@, with@, i as int);
        let ghost before = out@;
        if pat.len() > 0 && matches_at(text, pat, i) {
            extend(&mut out, with);
            i = i + pat.len();
        } else {
            out.push(text[i]);
            i = i + 1;
        }
    }
    out
}

/// Whether `c` is white space: one of the characters that Unicode gives the
/// property White_Space.
pub open spec fn spec_is_space(c: char) -> bool {
    let u = c as u32;
    ||| 0x09 <= u <= 0x0D
    ||| u == 0x20
    ||| u == 0x85
    ||| u == 0xA0
    ||| u == 0x1680
    ||| 0x2000 <= u <= 0x200A
    ||| u == 0x2028
    ||| u == 0x2029
    ||| u == 0x202F
    ||| u == 0x205F
    ||| u == 0x3000
}

/// The first position at or after `from` that holds no white space; the
/// length of `text` where all the rest is white space.
pub open spec fn spec_skip_spaces(text: Seq<char>, from: int) -> int
    decreases text.len() - from,
{
    if from < 0 || from >= text.len() {
        text.len() as int
    } else if !spec_is_space(text[from]) {
        from
    } else {
        spec_skip_spaces(text, from + 1)
    }
}

/// The end of `text[..to]` without the white space at its end.
pub open spec fn spec_trimmed_end(text: Seq<char>, to: int) -> int
    decreases to,
{
    if to <= 0 || to > text.len() {
        0
    } else if !spec_is_space(text[to - 1]) {
        to
    } else {
        spec_trimmed_end(text, to - 1)
    }
}

/// `text` without the white space at its start.
pub open spec fn spec_trim_start(text: Seq<char>) -> Seq<char> {
    text.subrange(spec_skip_spaces(text, 0), text.len() as int)
}

/// `text` without the white space at its start and at its end.
pub open spec fn spec_trim(text: Seq<char>) -> Seq<char> {
    let start = spec_skip_spaces(text, 0);
    let end = spec_trimmed_end(text, text.len() as int);
    if start < end {
        text.subrange(start, end)
    } else {
        Seq::empty()
    }
}

/// The number of words that begin in `text[..upto]`: a word begins where a
/// character that is no white space stands at the start or behind white
/// space.
pub open spec fn spec_word_count(text: Seq<char>, upto: int) -> nat
    decreases upto,
{
    if upto <= 0 || upto > text.len() {
        0
    } else {
        let before = spec_word_count(text, upto - 1);
        if !spec_is_space(text[upto - 1]) && (upto == 1 || spec_is_space(text[upto - 2])) {
            before + 1
        } else {
            before
        }
    }
}

/// The number of times that `ch` stands in `text[..upto]`.
pub open spec fn spec_count_char(text: Seq<char>, ch: char, upto: int) -> nat
    decreases upto,
{
    if upto <= 0 || upto > text.len() {
        0
    } else if text[upto - 1] == ch {
        spec_count_char(text, ch, upto - 1) + 1
    } else {
        spec_count_char(text, ch, upto - 1)
    }
}

/// The lines of `text` from position `from` on. A line ends at a line feed,
/// or at the end of the text; the line feed is no part of it, nor is a
/// carriage return that stands directly before the line feed. Behind the last
/// line feed no empty line follows.
pub open spec fn spec_lines_from(text: Seq<char>, from: int) -> Seq<Seq<char>>
    decreases text.len() - from,
{
    if from < 0 || from >= text.len() {
        Seq::empty()
    } else {
        let feed = spec_position(text, '\n', from);
        let end = if from < feed < text.len() && text[feed - 1] == '\r' {
            feed - 1
        } else {
            feed
        };
        let next = if from <= feed < text.len() {
            feed + 1
        } else {
            text.len() as int
        };
        seq![text.subrange(from, end)] + spec_lines_from(text, next)
    }
}

/// The lines of `text`.
pub open spec fn spec_lines(text: Seq<char>) -> Seq<Seq<char>> {
    spec_lines_from(text, 0)
}

/// The decimal digit for `d`.
pub open spec fn spec_digit(d: nat) -> char {
    if d == 0 {
        '0'
    } else if d == 1 {
        '1'
    } else if d == 2 {
        '2'
    } else if d == 3 {
        '3'
    } else if d == 4 {
        '4'
    } else if d == 5 {
        '5'
    } else if d == 6 {
        '6'
    } else if d == 7 {
        '7'
    } else if d == 8 {
        '8'
    } else {
        '9'
    }
}

/// The number `n` written in decimal digits.
pub open spec fn spec_decimal(n: nat) -> Seq<char>
    decreases n,
{
    if n < 10 {
        seq![spec_digit(n)]
    } else {
        spec_decimal(n / 10).push(spec_digit(n % 10))
    }
}

/// The texts of `parts[..upto]`, one after the other, with `sep` between
/// each two.
pub open spec fn spec_join(parts: Seq<Seq<char>>, sep: Seq<char>, upto: int) -> Seq<char>
    decreases upto,
{
    if upto <= 0 || upto > parts.len() {
        Seq::empty()
    } else if upto == 1 {
        parts[0]
    } else {
        spec_join(parts, sep, upto - 1) + sep + parts[upto - 1]
    }
}

/// The views of a list of texts.
pub open spec fn chars_view(list: Seq<Vec<char>>) -> Seq<Seq<char>> {
    Seq::new(list.len(), |i: int| list[i]@)
}

/// Whether `c` is white space.
pub fn is_space(c: char) -> (space: bool)
    ensures
        space == spec_is_space(c),
{
    let u: u32 = c as u32;
    (0x09 <= u && u <= 0x0D) || u == 0x20 || u == 0x85 || u == 0xA0 || u == 0x1680 || (0x2000 <= u
        && u <= 0x200A) || u == 0x2028 || u == 0x2029 || u == 0x202F || u == 0x205F || u
        == 0x3000
}

/// The first position at or after `from` that holds no white space.
pub fn skip_spaces(text: &Vec<char>, from: usize) -> (at: usize)
    ensures
        at == spec_skip_spaces(text@, from as int),
        at <= text.len(),
        from <= text.len() ==> from <= at,
{
    let mut p: usize = from;
    while p < text.len()
        invariant
            from <= p,
            spec_skip_spaces(text@, from as int) == spec_skip_spaces(text@, p as int),
        decreases text.len() - p,
    {
        if !is_space(text[p]) {
            return p;
        }
        p = p + 1;
    }
    text.len()
}

/// The end of `text[..to]` without the white space at its end.
pub fn trimmed_end(text: &Vec<char>, to: usize) -> (end: usize)
    requires
        to <= text.len(),
    ensures
        end == spec_trimmed_end(text@, to as int),
        end <= to,
{
    let mut p: usize = to;
    while p > 0
        invariant
            p <= to <= text.len(),
            spec_trimmed_end(text@, to as int) == spec_trimmed_end(text@, p as int),
        decreases p,
    {
        if !is_space(text[p - 1]) {
            return p;
        }
        p = p - 1;
    }
    0
}

/// `text` without the white space at its start.
pub fn trim_start(text: &Vec<char>) -> (out: Vec<char>)
    ensures
        out@ == spec_trim_start(text@),
{
    let start = skip_spaces(text, 0);
    slice_of(text, start, text.len())
}

/// `text` without the white space at its start and at its end.
pub fn trim(text: &Vec<char>) -> (out: Vec<char>)
    ensures
        out@ == spec_trim(text@),
{
    let start = skip_spaces(text, 0);
    let end = trimmed_end(text, text.len());
    if start < end {
        slice_of(text, start, end)
    } else {
        Vec::new()
    }
}

/// The number of words in `text`.
pub fn word_count(text: &Vec<char>) -> (count: usize)
    ensures
        count == spec_word_count(text@, text.len() as int),
{
    let mut count: usize = 0;
    let mut i: usize = 0;
    while i < text.len()
        invariant
            i <= text.len(),
            count == spec_word_count(text@, i as int),
            count <= i,
        decreases text.len() - i,
    {
        if !is_space(text[i]) && (i == 0 || is_space(text[i - 1])) {
            count = count + 1;
        }
        i = i + 1;
    }
    count
}

/// The number of times that `ch` stands in `text`.
pub fn count_char(text: &Vec<char>, ch: char) -> (count: usize)
    ensures
        count == spec_count_char(text@, ch, text.len() as int),
{
    let mut count: usize = 0;
    let mut i: usize = 0;
    while i < text.len()
        invariant
            i <= text.len(),
            count == spec_count_char(text@, ch, i as int),
            count <= i,
        decreases text.len() - i,
    {
        if text[i] == ch {
            count = count + 1;
        }
        i = i + 1;
    }
    count
}

/// The lines of `text`.
pub fn lines_of(text: &Vec<char>) -> (lines: Vec<Vec<char>>)
    ensures
        chars_view(lines@) == spec_lines(text@),
{
    let mut lines: Vec<Vec<char>> = Vec::new();
    let mut from: usize = 0;
    while from < text.len()
        invariant
            chars_view(lines@) + spec_lines_from(text@, from as int) == spec_lines(text@),
        decreases text.len() - from,
    {
        let feed = position(text, '\n', from);
        let end = if from < feed && feed < text.len() && text[feed - 1] == '\r' {
            feed - 1
        } else {
            feed
        };
        lines.push(slice_of(text, from, end));
        if feed >= text.len() {
            from = text.len();
        } else {
            from = feed + 1;
        }
    }
    lines
}

/// The decimal digit for `d`.
fn digit(d: usize) -> (c: char)
    requires
        d < 10,
    ensures
        c == spec_digit(d as nat),
{
    if d == 0 {
        '0'
    } else if d == 1 {
        '1'
    } else if d == 2 {
        '2'
    } else if d == 3 {
        '3'
    } else if d == 4 {
        '4'
    } else if d == 5 {
        '5'
    } else if d == 6 {
        '6'
    } else if d == 7 {
        '7'
    } else if d == 8 {
        '8'
    } else {
        '9'
    }
}

/// The number `n` written in decimal digits.
pub fn decimal(n: usize) -> (digits: Vec<char>)
    ensures
        digits@ == spec_decimal(n as nat),
    decreases n,
{
    if n < 10 {
        let mut digits: Vec<char> = Vec::new();
        digits.push(digit(n));
        digits
    } else {
        let mut digits = decimal(n / 10);
        digits.push(digit(n % 10));
        digits
    }
}

/// The texts of `parts`, one after the other, with `sep` between each two.
pub fn join(parts: &Vec<Vec<char>>, sep: &Vec<char>) -> (out: Vec<char>)
    ensures
        out@ == spec_join(chars_view(parts@), sep@, parts.len() as int),
{
    let mut out: Vec<char> = Vec::new();
    let ghost all = chars_view(parts@);
    let mut i: usize = 0;
    while i < parts.len()
        invariant
            i <= parts.len(),
            all == chars_view(parts@),
            out@ == spec_join(all, sep@, i as int),
        decreases parts.len() - i,
    {
        if i > 0 {
            extend(&mut out, sep);
        }
        extend(&mut out, &parts[i]);
        i = i + 1;
    }
    out
}

/// Whether the string `text` contains the string `pat`.
pub fn text_contains(text: &str, pat: &str) -> (found: bool)
    ensures
        found == spec_contains(text@, pat@),
{
    let t = chars_of(text);
    let p = chars_of(pat);
    contains(&t, &p)
}

/// Whether the string `text` begins with the string `pat`.
pub fn text_starts_with(text: &str, pat: &str) -> (found: bool)
    ensures
        found == spec_starts_with(text@, pat@),
{
    let t = chars_of(text);
    let p = chars_of(pat);
    starts_with(&t, &p)
}

/// The first position at or after `from` where `pat` stands in `text`.
pub open spec fn spec_find_from(text: Seq<char>, pat: Seq<char>, from: int) -> Option<int>
    decreases text.len() + 1 - from,
{
    if from < 0 || from + pat.len() > text.len() {
        None
    } else if occurs_at(text, pat, from) {
        Some(from)
    } else {
        spec_find_from(text, pat, from + 1)
    }
}

/// The position of the last `ch` in `text[..upto]`, or -1 where there is
/// none.
pub open spec fn spec_last_position(text: Seq<char>, ch: char, upto: int) -> int
    decreases upto,
{
    if upto <= 0 || upto > text.len() {
        -1
    } else if text[upto - 1] == ch {
        upto - 1
    } else {
        spec_last_position(text, ch, upto - 1)
    }
}

/// The first position at or after `from` that does not hold `ch`; the length
/// of `text` where all the rest does.
pub open spec fn spec_skip_char(text: Seq<char>, ch: char, from: int) -> int
    decreases text.len() - from,
{
    if from < 0 || from >= text.len() {
        text.len() as int
    } else if text[from] != ch {
        from
    } else {
        spec_skip_char(text, ch, from + 1)
    }
}

/// The end of `text[..to]` without every `ch` at its end.
pub open spec fn spec_end_without(text: Seq<char>, ch: char, to: int) -> int
    decreases to,
{
    if to <= 0 || to > text.len() {
        0
    } else if text[to - 1] != ch {
        to
    } else {
        spec_end_without(text, ch, to - 1)
    }
}

/// What `spec_find_from` finds is the first occurrence at or after `from`.
pub proof fn lemma_find_from(text: Seq<char>, pat: Seq<char>, from: int)
    requires
        0 <= from,
    ensures
        match spec_find_from(text, pat, from) {
            Some(p) => {
                &&& from <= p
                &&& occurs_at(text, pat, p)
                &&& forall|j: int| from <= j < p ==> !occurs_at(text, pat, j)
            },
            None => forall|j: int| from <= j ==> !occurs_at(text, pat, j),
        },
    decreases text.len() + 1 - from,
{
    if from + pat.len() <= text.len() && !occurs_at(text, pat, from) {
        lemma_find_from(text, pat, from + 1);
    }
}

/// The first position at or after `from` where `pat` stands in `text`.
pub fn first_occurrence(text: &Vec<char>, pat: &Vec<char>, from: usize) -> (at: Option<usize>)
    ensures
        match at {
            Some(p) => spec_find_from(text@, pat@, from as int) == Some(p as int) && p
                + pat.len() <= text.len(),
            None => spec_find_from(text@, pat@, from as int) is None,
        },
{
    proof {
        lemma_find_from(text@, pat@, from as int);
    }
    find_from(text, pat, from)
}

/// The position of the last `ch` in `text`.
pub fn last_position(text: &Vec<char>, ch: char) -> (at: Option<usize>)
    ensures
        match at {
            Some(p) => p < text.len() && spec_last_position(text@, ch, text.len() as int) == p,
            None => spec_last_position(text@, ch, text.len() as int) == -1,
        },
{
    let mut p: usize = text.len();
    while p > 0
        invariant
            p <= text.len(),
            spec_last_position(text@, ch, text.len() as int) == spec_last_position(
                text@,
                ch,
                p as int,
            ),
        decreases p,
    {
        if text[p - 1] == ch {
            return Some(p - 1);
        }
        p = p - 1;
    }
    None
}

/// The first position at or after `from` that does not hold `ch`.
pub fn skip_char(text: &Vec<char>, ch: char, from: usize) -> (at: usize)
    ensures
        at == spec_skip_char(text@, ch, from as int),
        at <= text.len(),
        from <= text.len() ==> from <= at,
{
    let mut p: usize = from;
    while p < text.len()
        invariant
            from <= p,
            spec_skip_char(text@, ch, from as int) == spec_skip_char(text@, ch, p as int),
        decreases text.len() - p,
    {
        if text[p] != ch {
            return p;
        }
        p = p + 1;
    }
    text.len()
}

/// The end of `text[..to]` without every `ch` at its end.
pub fn end_without(text: &Vec<char>, ch: char, to: usize) -> (end: usize)
    requires
        to <= text.len(),
    ensures
        end == spec_end_without(text@, ch, to as int),
        end <= to,
{
    let mut p: usize = to;
    while p > 0
        invariant
            p <= to <= text.len(),
            spec_end_without(text@, ch, to as int) == spec_end_without(text@, ch, p as int),
        decreases p,
    {
        if text[p - 1] != ch {
            return p;
        }
        p = p - 1;
    }
    0
}

} // verus!
