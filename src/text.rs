//! Character classes and scanning helpers over sequences of characters.
use vstd::prelude::*;

verus! {

/// The classes of characters that the version grammars scan over.
#[derive(Clone, Copy, Debug, PartialEq, Eq)]
pub enum CharClass {
    /// Unicode `White_Space`, as accepted by `char::is_whitespace` and by `str::trim`.
    Space,
    /// What may lead a version: white space, ASCII letters, `-`, `"` and `'`.
    Lead,
    /// A decimal digit of any script (general category `Nd`), as the `\d` class accepts.
    Digit,
    /// A full stop.
    Dot,
    /// What a version written in a manifest is made of: digits, `|` and `.`.
    VersionChar,
    /// Anything but a line feed.
    NotNewline,
}

pub open spec fn is_space(c: char) -> bool {
    ('\u{9}' <= c && c <= '\u{d}') || c == ' ' || c == '\u{85}' || c == '\u{a0}' || c
        == '\u{1680}' || ('\u{2000}' <= c && c <= '\u{200a}') || c == '\u{2028}' || c
        == '\u{2029}' || c == '\u{202f}' || c == '\u{205f}' || c == '\u{3000}'
}

pub open spec fn is_digit(c: char) -> bool {
    '0' <= c && c <= '9'
}

/// The decimal digits of Unicode 15.0 (general category `Nd`): 64 runs of code points.
pub open spec fn is_decimal_digit(c: char) -> bool {
    ('0' <= c && c <= '9')
        || ('\u{660}' <= c && c <= '\u{669}')
        || ('\u{6f0}' <= c && c <= '\u{6f9}')
        || ('\u{7c0}' <= c && c <= '\u{7c9}')
        || ('\u{966}' <= c && c <= '\u{96f}')
        || ('\u{9e6}' <= c && c <= '\u{9ef}')
        || ('\u{a66}' <= c && c <= '\u{a6f}')
        || ('\u{ae6}' <= c && c <= '\u{aef}')
        || ('\u{b66}' <= c && c <= '\u{b6f}')
        || ('\u{be6}' <= c && c <= '\u{bef}')
        || ('\u{c66}' <= c && c <= '\u{c6f}')
        || ('\u{ce6}' <= c && c <= '\u{cef}')
        || ('\u{d66}' <= c && c <= '\u{d6f}')
        || ('\u{de6}' <= c && c <= '\u{def}')
        || ('\u{e50}' <= c && c <= '\u{e59}')
        || ('\u{ed0}' <= c && c <= '\u{ed9}')
        || ('\u{f20}' <= c && c <= '\u{f29}')
        || ('\u{1040}' <= c && c <= '\u{1049}')
        || ('\u{1090}' <= c && c <= '\u{1099}')
        || ('\u{17e0}' <= c && c <= '\u{17e9}')
        || ('\u{1810}' <= c && c <= '\u{1819}')
        || ('\u{1946}' <= c && c <= '\u{194f}')
        || ('\u{19d0}' <= c && c <= '\u{19d9}')
        || ('\u{1a80}' <= c && c <= '\u{1a89}')
        || ('\u{1a90}' <= c && c <= '\u{1a99}')
        || ('\u{1b50}' <= c && c <= '\u{1b59}')
        || ('\u{1bb0}' <= c && c <= '\u{1bb9}')
        || ('\u{1c40}' <= c && c <= '\u{1c49}')
        || ('\u{1c50}' <= c && c <= '\u{1c59}')
        || ('\u{a620}' <= c && c <= '\u{a629}')
        || ('\u{a8d0}' <= c && c <= '\u{a8d9}')
        || ('\u{a900}' <= c && c <= '\u{a909}')
        || ('\u{a9d0}' <= c && c <= '\u{a9d9}')
        || ('\u{a9f0}' <= c && c <= '\u{a9f9}')
        || ('\u{aa50}' <= c && c <= '\u{aa59}')
        || ('\u{abf0}' <= c && c <= '\u{abf9}')
        || ('\u{ff10}' <= c && c <= '\u{ff19}')
        || ('\u{104a0}' <= c && c <= '\u{104a9}')
        || ('\u{10d30}' <= c && c <= '\u{10d39}')
        || ('\u{11066}' <= c && c <= '\u{1106f}')
        || ('\u{110f0}' <= c && c <= '\u{110f9}')
        || ('\u{11136}' <= c && c <= '\u{1113f}')
        || ('\u{111d0}' <= c && c <= '\u{111d9}')
        || ('\u{112f0}' <= c && c <= '\u{112f9}')
        || ('\u{11450}' <= c && c <= '\u{11459}')
        || ('\u{114d0}' <= c && c <= '\u{114d9}')
        || ('\u{11650}' <= c && c <= '\u{11659}')
        || ('\u{116c0}' <= c && c <= '\u{116c9}')
        || ('\u{11730}' <= c && c <= '\u{11739}')
        || ('\u{118e0}' <= c && c <= '\u{118e9}')
        || ('\u{11950}' <= c && c <= '\u{11959}')
        || ('\u{11c50}' <= c && c <= '\u{11c59}')
        || ('\u{11d50}' <= c && c <= '\u{11d59}')
        || ('\u{11da0}' <= c && c <= '\u{11da9}')
        || ('\u{11f50}' <= c && c <= '\u{11f59}')
        || ('\u{16a60}' <= c && c <= '\u{16a69}')
        || ('\u{16ac0}' <= c && c <= '\u{16ac9}')
        || ('\u{16b50}' <= c && c <= '\u{16b59}')
        || ('\u{1d7ce}' <= c && c <= '\u{1d7ff}')
        || ('\u{1e140}' <= c && c <= '\u{1e149}')
        || ('\u{1e2f0}' <= c && c <= '\u{1e2f9}')
        || ('\u{1e4f0}' <= c && c <= '\u{1e4f9}')
        || ('\u{1e950}' <= c && c <= '\u{1e959}')
        || ('\u{1fbf0}' <= c && c <= '\u{1fbf9}')
}

pub fn is_decimal_digit_exec(c: char) -> (r: bool)
    ensures
        r == is_decimal_digit(c),
{
    ('0' <= c && c <= '9')
        || ('\u{660}' <= c && c <= '\u{669}')
        || ('\u{6f0}' <= c && c <= '\u{6f9}')
        || ('\u{7c0}' <= c && c <= '\u{7c9}')
        || ('\u{966}' <= c && c <= '\u{96f}')
        || ('\u{9e6}' <= c && c <= '\u{9ef}')
        || ('\u{a66}' <= c && c <= '\u{a6f}')
        || ('\u{ae6}' <= c && c <= '\u{aef}')
        || ('\u{b66}' <= c && c <= '\u{b6f}')
        || ('\u{be6}' <= c && c <= '\u{bef}')
        || ('\u{c66}' <= c && c <= '\u{c6f}')
        || ('\u{ce6}' <= c && c <= '\u{cef}')
        || ('\u{d66}' <= c && c <= '\u{d6f}')
        || ('\u{de6}' <= c && c <= '\u{def}')
        || ('\u{e50}' <= c && c <= '\u{e59}')
        || ('\u{ed0}' <= c && c <= '\u{ed9}')
        || ('\u{f20}' <= c && c <= '\u{f29}')
        || ('\u{1040}' <= c && c <= '\u{1049}')
        || ('\u{1090}' <= c && c <= '\u{1099}')
        || ('\u{17e0}' <= c && c <= '\u{17e9}')
        || ('\u{1810}' <= c && c <= '\u{1819}')
        || ('\u{1946}' <= c && c <= '\u{194f}')
        || ('\u{19d0}' <= c && c <= '\u{19d9}')
        || ('\u{1a80}' <= c && c <= '\u{1a89}')
        || ('\u{1a90}' <= c && c <= '\u{1a99}')
        || ('\u{1b50}' <= c && c <= '\u{1b59}')
        || ('\u{1bb0}' <= c && c <= '\u{1bb9}')
        || ('\u{1c40}' <= c && c <= '\u{1c49}')
        || ('\u{1c50}' <= c && c <= '\u{1c59}')
        || ('\u{a620}' <= c && c <= '\u{a629}')
        || ('\u{a8d0}' <= c && c <= '\u{a8d9}')
        || ('\u{a900}' <= c && c <= '\u{a909}')
        || ('\u{a9d0}' <= c && c <= '\u{a9d9}')
        || ('\u{a9f0}' <= c && c <= '\u{a9f9}')
        || ('\u{aa50}' <= c && c <= '\u{aa59}')
        || ('\u{abf0}' <= c && c <= '\u{abf9}')
        || ('\u{ff10}' <= c && c <= '\u{ff19}')
        || ('\u{104a0}' <= c && c <= '\u{104a9}')
        || ('\u{10d30}' <= c && c <= '\u{10d39}')
        || ('\u{11066}' <= c && c <= '\u{1106f}')
        || ('\u{110f0}' <= c && c <= '\u{110f9}')
        || ('\u{11136}' <= c && c <= '\u{1113f}')
        || ('\u{111d0}' <= c && c <= '\u{111d9}')
        || ('\u{112f0}' <= c && c <= '\u{112f9}')
        || ('\u{11450}' <= c && c <= '\u{11459}')
        || ('\u{114d0}' <= c && c <= '\u{114d9}')
        || ('\u{11650}' <= c && c <= '\u{11659}')
        || ('\u{116c0}' <= c && c <= '\u{116c9}')
        || ('\u{11730}' <= c && c <= '\u{11739}')
        || ('\u{118e0}' <= c && c <= '\u{118e9}')
        || ('\u{11950}' <= c && c <= '\u{11959}')
        || ('\u{11c50}' <= c && c <= '\u{11c59}')
        || ('\u{11d50}' <= c && c <= '\u{11d59}')
        || ('\u{11da0}' <= c && c <= '\u{11da9}')
        || ('\u{11f50}' <= c && c <= '\u{11f59}')
        || ('\u{16a60}' <= c && c <= '\u{16a69}')
        || ('\u{16ac0}' <= c && c <= '\u{16ac9}')
        || ('\u{16b50}' <= c && c <= '\u{16b59}')
        || ('\u{1d7ce}' <= c && c <= '\u{1d7ff}')
        || ('\u{1e140}' <= c && c <= '\u{1e149}')
        || ('\u{1e2f0}' <= c && c <= '\u{1e2f9}')
        || ('\u{1e4f0}' <= c && c <= '\u{1e4f9}')
        || ('\u{1e950}' <= c && c <= '\u{1e959}')
        || ('\u{1fbf0}' <= c && c <= '\u{1fbf9}')
}

pub open spec fn is_quote(c: char) -> bool {
    c == '"' || c == '\''
}

pub open spec fn in_class(k: CharClass, c: char) -> bool {
    match k {
        CharClass::Space => is_space(c),
        CharClass::Lead => is_space(c) || ('a' <= c && c <= 'z') || ('A' <= c && c <= 'Z') || c
            == '-' || is_quote(c),
        CharClass::Digit => is_decimal_digit(c),
        CharClass::Dot => c == '.',
        CharClass::VersionChar => is_digit(c) || c == '|' || c == '.',
        CharClass::NotNewline => c != '\n',
    }
}

/// The end of the longest run of characters of class `k` that starts at `i`.
pub open spec fn skip_while(s: Seq<char>, i: int, k: CharClass) -> int
    decreases s.len() - i,
{
    if 0 <= i < s.len() && in_class(k, s[i]) {
        skip_while(s, i + 1, k)
    } else {
        i
    }
}

/// The start of the longest run of characters of class `k` that ends at `j`, not before `lo`.
pub open spec fn back_while(s: Seq<char>, lo: int, j: int, k: CharClass) -> int
    decreases j - lo,
{
    if lo < j && j <= s.len() && in_class(k, s[j - 1]) {
        back_while(s, lo, j - 1, k)
    } else {
        j
    }
}

/// `s` without leading and trailing white space.
pub open spec fn trim(s: Seq<char>) -> Seq<char> {
    let a = skip_while(s, 0, CharClass::Space);
    s.subrange(a, back_while(s, a, s.len() as int, CharClass::Space))
}

pub proof fn lemma_skip_bounds(s: Seq<char>, i: int, k: CharClass)
    requires
        0 <= i <= s.len(),
    ensures
        i <= skip_while(s, i, k) <= s.len(),
        forall|j: int| i <= j < skip_while(s, i, k) ==> in_class(k, #[trigger] s[j]),
        skip_while(s, i, k) < s.len() ==> !in_class(k, s[skip_while(s, i, k)]),
    decreases s.len() - i,
{
    if i < s.len() && in_class(k, s[i]) {
        lemma_skip_bounds(s, i + 1, k);
    }
}

/// A run of class `k` from `i` that stops at `j` ends at `j`.
pub proof fn lemma_skip_run(s: Seq<char>, i: int, j: int, k: CharClass)
    requires
        0 <= i <= j <= s.len(),
        forall|m: int| i <= m < j ==> in_class(k, #[trigger] s[m]),
        j == s.len() || !in_class(k, s[j]),
    ensures
        skip_while(s, i, k) == j,
    decreases j - i,
{
    if i < j {
        lemma_skip_run(s, i + 1, j, k);
    }
}

pub fn in_class_exec(k: CharClass, c: char) -> (r: bool)
    ensures
        r == in_class(k, c),
{
    let space = ('\u{9}' <= c && c <= '\u{d}') || c == ' ' || c == '\u{85}' || c == '\u{a0}'
        || c == '\u{1680}' || ('\u{2000}' <= c && c <= '\u{200a}') || c == '\u{2028}' || c
        == '\u{2029}' || c == '\u{202f}' || c == '\u{205f}' || c == '\u{3000}';
    let digit = '0' <= c && c <= '9';
    match k {
        CharClass::Space => space,
        CharClass::Lead => space || ('a' <= c && c <= 'z') || ('A' <= c && c <= 'Z') || c == '-'
            || c == '"' || c == '\'',
        CharClass::Digit => is_decimal_digit_exec(c),
        CharClass::Dot => c == '.',
        CharClass::VersionChar => digit || c == '|' || c == '.',
        CharClass::NotNewline => c != '\n',
    }
}

/// Index just past the run of class `k` that starts at `start`.
pub fn skip_class(s: &Vec<char>, start: usize, k: CharClass) -> (r: usize)
    requires
        start <= s.len(),
    ensures
        r as int == skip_while(s@, start as int, k),
        start <= r <= s.len(),
{
    let mut i: usize = start;
    while i < s.len() && in_class_exec(k, s[i])
        invariant
            start <= i <= s.len(),
            skip_while(s@, start as int, k) == skip_while(s@, i as int, k),
        decreases s.len() - i,
    {
        i += 1;
    }
    i
}

/// Index where the run of class `k` that ends at `end` starts, not before `lo`.
pub fn back_class(s: &Vec<char>, lo: usize, end: usize, k: CharClass) -> (r: usize)
    requires
        lo <= end <= s.len(),
    ensures
        r as int == back_while(s@, lo as int, end as int, k),
        lo <= r <= end,
{
    let mut j: usize = end;
    while lo < j && in_class_exec(k, s[j - 1])
        invariant
            lo <= j <= end <= s.len(),
            back_while(s@, lo as int, end as int, k) == back_while(s@, lo as int, j as int, k),
        decreases j - lo,
    {
        j -= 1;
    }
    j
}

/// The characters of `s` from `lo` up to `hi`.
pub fn slice_of(s: &Vec<char>, lo: usize, hi: usize) -> (r: Vec<char>)
    requires
        lo <= hi <= s.len(),
    ensures
        r@ == s@.subrange(lo as int, hi as int),
{
    let mut r: Vec<char> = Vec::new();
    let mut i: usize = lo;
    while i < hi
        invariant
            lo <= i <= hi <= s.len(),
            r@ == s@.subrange(lo as int, i as int),
        decreases hi - i,
    {
        r.push(s[i]);
        i += 1;
    }
    r
}

/// Copies the characters of `s` into a vector.
pub fn chars_of(s: &str) -> (r: Vec<char>)
    ensures
        r@ == s@,
{
    let mut r: Vec<char> = Vec::new();
    for c in it: s.chars()
        invariant
            r@ == it.seq().subrange(0, it.index() as int),
    {
        r.push(c);
    }
    r
}

/// `s` without leading and trailing white space.
pub fn trimmed(s: &Vec<char>) -> (r: Vec<char>)
    ensures
        r@ == trim(s@),
{
    let a = skip_class(s, 0, CharClass::Space);
    let b = back_class(s, a, s.len(), CharClass::Space);
    slice_of(s, a, b)
}

} // verus!
