//! The two small grammars that turn a version hint into an Elixir package name.
//!
//! A manifest declares its Elixir requirement on a line such as `elixir: "~> 1.13"`;
//! the version written there, or the text of an override or of a pin file, is then
//! read as a major and a minor number and looked up in a table of supported releases.
use vstd::prelude::*;
use crate::text::{
    CharClass, in_class, is_quote, skip_while, trim, skip_class, back_class, slice_of, trimmed,
    chars_of, in_class_exec, lemma_skip_bounds, lemma_skip_run, back_while, is_digit,
};

verus! {

/// The package used when no supported version can be read.
pub const DEFAULT_ELIXIR_PKG_NAME: &'static str = "elixir";

pub open spec fn default_package() -> Seq<char> {
    DEFAULT_ELIXIR_PKG_NAME@
}

/// Whether `elixir:` followed by one white-space character starts at `i`.
pub open spec fn keyword_at(s: Seq<char>, i: int) -> bool {
    &&& 0 <= i
    &&& i + 8 <= s.len()
    &&& s[i] == 'e'
    &&& s[i + 1] == 'l'
    &&& s[i + 2] == 'i'
    &&& s[i + 3] == 'x'
    &&& s[i + 4] == 'i'
    &&& s[i + 5] == 'r'
    &&& s[i + 6] == ':'
    &&& in_class(CharClass::Space, s[i + 7])
}

pub open spec fn is_marker(c: char) -> bool {
    c == '>' || c == ' '
}

/// The last position in `lo .. hi` that holds `>` or a space.
pub open spec fn last_marker(s: Seq<char>, lo: int, hi: int) -> Option<int>
    decreases hi - lo,
{
    if lo < hi && hi <= s.len() {
        if is_marker(s[hi - 1]) {
            Some(hi - 1)
        } else {
            last_marker(s, lo, hi - 1)
        }
    } else {
        None
    }
}

/// Where a declaration that starts at `i` puts its version: just after the last `>`
/// or space on the line that follows the keyword.
pub open spec fn marker_at(s: Seq<char>, i: int) -> Option<int> {
    if keyword_at(s, i) {
        last_marker(s, i + 8, skip_while(s, i + 8, CharClass::NotNewline))
    } else {
        None
    }
}

/// The marker of the first declaration that starts at `i` or later.
pub open spec fn first_marker(s: Seq<char>, i: int) -> Option<int>
    decreases s.len() - i,
{
    if 0 <= i < s.len() {
        match marker_at(s, i) {
            Some(p) => Some(p),
            None => first_marker(s, i + 1),
        }
    } else {
        None
    }
}

/// The version that a manifest declares for Elixir: the run of digits, `|` and `.`
/// after the marker of the first declaration, or nothing when there is none.
pub open spec fn manifest_hint(s: Seq<char>) -> Option<Seq<char>> {
    match first_marker(s, 0) {
        Some(p) => Some(s.subrange(p + 1, skip_while(s, p + 1, CharClass::VersionChar))),
        None => None,
    }
}

/// Major and minor number of a trimmed version text: optional leading letters, white
/// space, hyphens and quotes, then decimal digits (of any script), dots, decimal
/// digits, then an optional third part (dots, decimal digits), then an optional
/// closing quote, and nothing more.
/// Either number may be empty, standing for a wildcard.
pub open spec fn version_pair(s: Seq<char>) -> Option<(Seq<char>, Seq<char>)> {
    let a = skip_while(s, 0, CharClass::Lead);
    let b = skip_while(s, a, CharClass::Digit);
    let c = skip_while(s, b, CharClass::Dot);
    let d = skip_while(s, c, CharClass::Digit);
    let e = skip_while(s, d, CharClass::Dot);
    let f = skip_while(s, e, CharClass::Digit);
    let g = if f < s.len() && is_quote(s[f]) {
        f + 1
    } else {
        f
    };
    if g == s.len() {
        Some((s.subrange(a, b), s.subrange(c, d)))
    } else {
        None
    }
}

/// The supported releases and their packages. Release 1.14 is what the generic
/// package tracks, so it maps to the unsuffixed name.
pub open spec fn table_package(major: Seq<char>, minor: Seq<char>) -> Option<Seq<char>> {
    if major == seq!['1'] {
        if minor == seq!['9'] {
            Some("elixir_1_9"@)
        } else if minor == seq!['1', '0'] {
            Some("elixir_1_10"@)
        } else if minor == seq!['1', '1'] {
            Some("elixir_1_11"@)
        } else if minor == seq!['1', '2'] {
            Some("elixir_1_12"@)
        } else if minor == seq!['1', '3'] {
            Some("elixir_1_13"@)
        } else if minor == seq!['1', '4'] {
            Some("elixir"@)
        } else if minor == seq!['1', '5'] {
            Some("elixir_1_15"@)
        } else {
            None
        }
    } else {
        None
    }
}

/// The package for a (major, minor) pair: its table entry, or the default.
pub open spec fn pair_package(major: Seq<char>, minor: Seq<char>) -> Seq<char> {
    match table_package(major, minor) {
        Some(p) => p,
        None => default_package(),
    }
}

/// The package that a version hint selects; no hint, or one that does not read as a
/// version, selects the default.
pub open spec fn hint_package(hint: Option<Seq<char>>) -> Seq<char> {
    match hint {
        None => default_package(),
        Some(h) => match version_pair(trim(h)) {
            Some((major, minor)) => pair_package(major, minor),
            None => default_package(),
        },
    }
}

fn keyword_at_exec(s: &Vec<char>, i: usize) -> (r: bool)
    ensures
        r == keyword_at(s@, i as int),
        r ==> i + 8 <= s.len(),
{
    if i > s.len() || s.len() - i < 8 {
        return false;
    }
    s[i] == 'e' && s[i + 1] == 'l' && s[i + 2] == 'i' && s[i + 3] == 'x' && s[i + 4] == 'i'
        && s[i + 5] == 'r' && s[i + 6] == ':' && in_class_exec(CharClass::Space, s[i + 7])
}

fn last_marker_exec(s: &Vec<char>, lo: usize, hi: usize) -> (r: Option<usize>)
    requires
        lo <= hi <= s.len(),
    ensures
        r matches Some(p) ==> last_marker(s@, lo as int, hi as int) == Some(p as int),
        r is None ==> last_marker(s@, lo as int, hi as int) is None,
{
    let mut j: usize = hi;
    while lo < j
        invariant
            lo <= j <= hi <= s.len(),
            last_marker(s@, lo as int, hi as int) == last_marker(s@, lo as int, j as int),
        decreases j - lo,
    {
        if s[j - 1] == '>' || s[j - 1] == ' ' {
            return Some(j - 1);
        }
        j -= 1;
    }
    None
}

fn marker_at_exec(s: &Vec<char>, i: usize) -> (r: Option<usize>)
    ensures
        r matches Some(p) ==> marker_at(s@, i as int) == Some(p as int),
        r is None ==> marker_at(s@, i as int) is None,
{
    if !keyword_at_exec(s, i) {
        return None;
    }
    let end = skip_class(s, i + 8, CharClass::NotNewline);
    last_marker_exec(s, i + 8, end)
}

/// Range of the version that a manifest declares for Elixir.
pub fn manifest_hint_range(s: &Vec<char>) -> (r: Option<(usize, usize)>)
    ensures
        r matches Some((lo, hi)) ==> lo <= hi <= s.len() && manifest_hint(s@) == Some(
            s@.subrange(lo as int, hi as int),
        ),
        r is None ==> manifest_hint(s@) is None,
{
    let mut i: usize = 0;
    while i < s.len()
        invariant
            i <= s.len(),
            first_marker(s@, 0) == first_marker(s@, i as int),
        decreases s.len() - i,
    {
        match marker_at_exec(s, i) {
            Some(p) => {
                proof {
                    lemma_last_marker_bounds(s@, i as int + 8, skip_while(s@, i as int + 8, CharClass::NotNewline));
                    lemma_skip_bounds(s@, i as int + 8, CharClass::NotNewline);
                }
                let end = skip_class(s, p + 1, CharClass::VersionChar);
                return Some((p + 1, end));
            },
            None => {
                i += 1;
            },
        }
    }
    None
}

pub proof fn lemma_last_marker_bounds(s: Seq<char>, lo: int, hi: int)
    ensures
        last_marker(s, lo, hi) matches Some(p) ==> lo <= p < hi,
    decreases hi - lo,
{
    if lo < hi && hi <= s.len() && !is_marker(s[hi - 1]) {
        lemma_last_marker_bounds(s, lo, hi - 1);
    }
}

/// The major and minor number of a version text, once trimmed.
pub fn parse_version(hint: &Vec<char>) -> (r: Option<(Vec<char>, Vec<char>)>)
    ensures
        r matches Some((major, minor)) ==> version_pair(trim(hint@)) == Some((major@, minor@)),
        r is None ==> version_pair(trim(hint@)) is None,
{
    let s = trimmed(hint);
    let a = skip_class(&s, 0, CharClass::Lead);
    let b = skip_class(&s, a, CharClass::Digit);
    let c = skip_class(&s, b, CharClass::Dot);
    let d = skip_class(&s, c, CharClass::Digit);
    let e = skip_class(&s, d, CharClass::Dot);
    let f = skip_class(&s, e, CharClass::Digit);
    let g = if f < s.len() && (s[f] == '"' || s[f] == '\'') {
        f + 1
    } else {
        f
    };
    if g == s.len() {
        Some((slice_of(&s, a, b), slice_of(&s, c, d)))
    } else {
        None
    }
}

/// The package that the table gives a (major, minor) pair, if any.
pub fn table_lookup(major: &Vec<char>, minor: &Vec<char>) -> (r: Option<String>)
    ensures
        r matches Some(p) ==> table_package(major@, minor@) == Some(p@),
        r is None ==> table_package(major@, minor@) is None,
{
    if !(major.len() == 1 && major[0] == '1') {
        return None;
    }
    assert(major@ =~= seq!['1']);
    if minor.len() == 1 && minor[0] == '9' {
        assert(minor@ =~= seq!['9']);
        return Some(String::from_str("elixir_1_9"));
    }
    if !(minor.len() == 2 && minor[0] == '1') {
        return None;
    }
    let c = minor[1];
    if c == '0' {
        assert(minor@ =~= seq!['1', '0']);
        Some(String::from_str("elixir_1_10"))
    } else if c == '1' {
        assert(minor@ =~= seq!['1', '1']);
        Some(String::from_str("elixir_1_11"))
    } else if c == '2' {
        assert(minor@ =~= seq!['1', '2']);
        Some(String::from_str("elixir_1_12"))
    } else if c == '3' {
        assert(minor@ =~= seq!['1', '3']);
        Some(String::from_str("elixir_1_13"))
    } else if c == '4' {
        assert(minor@ =~= seq!['1', '4']);
        Some(String::from_str("elixir"))
    } else if c == '5' {
        assert(minor@ =~= seq!['1', '5']);
        Some(String::from_str("elixir_1_15"))
    } else {
        None
    }
}

/// The package for a (major, minor) pair: its table entry, or the default.
pub fn package_for_pair(major: &Vec<char>, minor: &Vec<char>) -> (r: String)
    ensures
        r@ == pair_package(major@, minor@),
{
    match table_lookup(major, minor) {
        Some(p) => p,
        None => String::from_str(DEFAULT_ELIXIR_PKG_NAME),
    }
}

/// The package that a version hint selects.
pub fn package_for_hint(hint: &str) -> (r: String)
    ensures
        r@ == hint_package(Some(hint@)),
{
    package_for_chars(&chars_of(hint))
}

/// The package that a version hint, given as characters, selects.
pub fn package_for_chars(hint: &Vec<char>) -> (r: String)
    ensures
        r@ == hint_package(Some(hint@)),
{
    match parse_version(hint) {
        Some((major, minor)) => package_for_pair(&major, &minor),
        None => String::from_str(DEFAULT_ELIXIR_PKG_NAME),
    }
}

/// A hint that reads as (major, minor) selects the table's package for the pair where
/// the table lists it, and the default package for every other pair, among them any
/// pair with a missing (wildcard) number.
pub proof fn law_pair_selects_package(hint: Seq<char>, major: Seq<char>, minor: Seq<char>)
    requires
        version_pair(trim(hint)) == Some((major, minor)),
    ensures
        table_package(major, minor) matches Some(p) ==> hint_package(Some(hint)) == p,
        table_package(major, minor) is None ==> hint_package(Some(hint)) == default_package(),
        major.len() == 0 || minor.len() == 0 ==> hint_package(Some(hint)) == default_package(),
{
}

/// Written as `major.minor`, two digit sequences read as exactly that pair, so the
/// hint selects the package of the pair.
pub proof fn law_dotted_hint(major: Seq<char>, minor: Seq<char>)
    requires
        major.len() > 0,
        minor.len() > 0,
        forall|i: int| 0 <= i < major.len() ==> is_digit(#[trigger] major[i]),
        forall|i: int| 0 <= i < minor.len() ==> is_digit(#[trigger] minor[i]),
    ensures
        version_pair(trim(major + seq!['.'] + minor)) == Some((major, minor)),
        hint_package(Some(major + seq!['.'] + minor)) == pair_package(major, minor),
{
    let s = major + seq!['.'] + minor;
    let n = s.len() as int;
    let b = major.len() as int;
    assert(forall|i: int| 0 <= i < b ==> s[i] == major[i]);
    assert(s[b] == '.');
    assert(forall|i: int| b < i < n ==> s[i] == minor[i - b - 1]);
    assert(skip_while(s, 0, CharClass::Space) == 0);
    assert(back_while(s, 0, n, CharClass::Space) == n);
    assert(trim(s) =~= s);
    assert(skip_while(s, 0, CharClass::Lead) == 0);
    lemma_skip_run(s, 0, b, CharClass::Digit);
    lemma_skip_run(s, b, b + 1, CharClass::Dot);
    lemma_skip_run(s, b + 1, n, CharClass::Digit);
    lemma_skip_run(s, n, n, CharClass::Dot);
    lemma_skip_run(s, n, n, CharClass::Digit);
    assert(s.subrange(0, b) =~= major);
    assert(s.subrange(b + 1, n) =~= minor);
}

} // verus!
