//! Character-sequence utilities used throughout the library.
//!
//! Text is handled as sequences of `char` (the view of `str` and `String`).
//! Each executable helper here is proved against a spec function that says
//! what the result is.

use vstd::prelude::*;

verus! {

// ---------------------------------------------------------------------------
// Conversions between strings and character vectors (std, trusted)
// ---------------------------------------------------------------------------

/// The characters of a string slice, in order.
///
/// Calls `str::chars` and collects; the contract states that the vector
/// holds exactly the characters of `s`.
#[verifier::external_body]
pub fn chars_of(s: &str) -> (v: Vec<char>)
    ensures
        v@ == s@,
{
    s.chars().collect()
}

/// A string made of the given characters.
///
/// Collects the characters into a `String`; the contract states that its
/// characters are exactly `v`.
#[verifier::external_body]
pub fn string_of(v: &[char]) -> (s: String)
    ensures
        s@ == v@,
{
    v.iter().collect()
}

/// The lowercase form of a string, as `str::to_lowercase` defines it
/// (Unicode lowercase mapping).
pub uninterp spec fn unicode_lowercase(s: Seq<char>) -> Seq<char>;

/// The uppercase form of a string, as `str::to_uppercase` defines it.
pub uninterp spec fn unicode_uppercase(s: Seq<char>) -> Seq<char>;

/// The text that `{:?}` prints for a string slice (quoted and escaped).
pub uninterp spec fn debug_form(s: Seq<char>) -> Seq<char>;

/// Every character is ASCII.
pub open spec fn all_ascii(s: Seq<char>) -> bool {
    forall|i: int| 0 <= i < s.len() ==> (#[trigger] s[i] as u32) < 128
}

pub open spec fn ascii_upper(c: char) -> char {
    if 'a' <= c && c <= 'z' {
        ((c as u32) - 32) as char
    } else {
        c
    }
}

pub open spec fn ascii_upper_seq(s: Seq<char>) -> Seq<char> {
    s.map_values(|c: char| ascii_upper(c))
}

/// Printable ASCII other than `"` and `\`, which `{:?}` writes as it is.
pub open spec fn plain_printable(s: Seq<char>) -> bool {
    forall|i: int|
        0 <= i < s.len() ==> 0x20 <= (#[trigger] s[i] as u32) <= 0x7e && s[i] != '"' && s[i]
            != '\\'
}

/// Calls `str::to_lowercase`.  The result is named: it is the Unicode
/// lowercase mapping of the argument, a function of it alone; on ASCII text
/// it maps `A`-`Z` to `a`-`z` and keeps every other character.
#[verifier::external_body]
pub fn to_lowercase(s: &[char]) -> (r: Vec<char>)
    ensures
        r@ == unicode_lowercase(s@),
        all_ascii(s@) ==> r@ == ascii_lower_seq(s@),
{
    let st: String = s.iter().collect();
    st.to_lowercase().chars().collect()
}

/// Calls `str::to_uppercase`.  The result is named: the Unicode uppercase
/// mapping of the argument; on ASCII text it maps `a`-`z` to `A`-`Z` and
/// keeps every other character.
#[verifier::external_body]
pub fn to_uppercase(s: &[char]) -> (r: Vec<char>)
    ensures
        r@ == unicode_uppercase(s@),
        all_ascii(s@) ==> r@ == ascii_upper_seq(s@),
{
    let st: String = s.iter().collect();
    st.to_uppercase().chars().collect()
}

/// Formats a string slice with `{:?}`.  The result is named: it depends on
/// the argument alone; text of printable ASCII without `"` or a backslash is
/// written as it is, between double quotes.
#[verifier::external_body]
pub fn debug_quoted(s: &[char]) -> (r: Vec<char>)
    ensures
        r@ == debug_form(s@),
        plain_printable(s@) ==> r@ == seq!['"'] + s@ + seq!['"'],
{
    let st: String = s.iter().collect();
    format!("{:?}", st).chars().collect()
}

// ---------------------------------------------------------------------------
// Whitespace and trimming
// ---------------------------------------------------------------------------

/// Unicode `White_Space`, the property that `char::is_whitespace` tests.
pub open spec fn is_ws(c: char) -> bool {
    ||| ('\u{9}' <= c && c <= '\u{d}')
    ||| c == ' '
    ||| c == '\u{85}'
    ||| c == '\u{a0}'
    ||| c == '\u{1680}'
    ||| ('\u{2000}' <= c && c <= '\u{200a}')
    ||| c == '\u{2028}'
    ||| c == '\u{2029}'
    ||| c == '\u{202f}'
    ||| c == '\u{205f}'
    ||| c == '\u{3000}'
}

pub fn is_whitespace(c: char) -> (r: bool)
    ensures
        r == is_ws(c),
{
    ('\u{9}' <= c && c <= '\u{d}') || c == ' ' || c == '\u{85}' || c == '\u{a0}' || c
        == '\u{1680}' || ('\u{2000}' <= c && c <= '\u{200a}') || c == '\u{2028}' || c
        == '\u{2029}' || c == '\u{202f}' || c == '\u{205f}' || c == '\u{3000}'
}

/// Number of leading whitespace characters.
pub open spec fn leading_ws(s: Seq<char>) -> nat
    decreases s.len(),
{
    if s.len() > 0 && is_ws(s[0]) {
        1 + leading_ws(s.drop_first())
    } else {
        0
    }
}

/// Number of trailing whitespace characters.
pub open spec fn trailing_ws(s: Seq<char>) -> nat
    decreases s.len(),
{
    if s.len() > 0 && is_ws(s.last()) {
        1 + trailing_ws(s.drop_last())
    } else {
        0
    }
}

pub open spec fn trim_start(s: Seq<char>) -> Seq<char> {
    s.skip(leading_ws(s) as int)
}

pub open spec fn trim_end(s: Seq<char>) -> Seq<char> {
    s.take(s.len() - trailing_ws(s))
}

/// `str::trim`: leading and trailing whitespace removed.
pub open spec fn trim(s: Seq<char>) -> Seq<char> {
    trim_end(trim_start(s))
}

pub proof fn lemma_leading_ws_bound(s: Seq<char>)
    ensures
        leading_ws(s) <= s.len(),
    decreases s.len(),
{
    if s.len() > 0 && is_ws(s[0]) {
        lemma_leading_ws_bound(s.drop_first());
    }
}

pub proof fn lemma_trailing_ws_bound(s: Seq<char>)
    ensures
        trailing_ws(s) <= s.len(),
    decreases s.len(),
{
    if s.len() > 0 && is_ws(s.last()) {
        lemma_trailing_ws_bound(s.drop_last());
    }
}

proof fn lemma_leading_ws_is(s: Seq<char>, i: int)
    requires
        0 <= i <= s.len(),
        forall|j: int| 0 <= j < i ==> is_ws(#[trigger] s[j]),
        i == s.len() || !is_ws(s[i]),
    ensures
        leading_ws(s) == i,
    decreases i,
{
    if i > 0 {
        lemma_leading_ws_is(s.drop_first(), i - 1);
    }
}

proof fn lemma_trailing_ws_is(s: Seq<char>, k: int)
    requires
        0 <= k <= s.len(),
        forall|j: int| s.len() - k <= j < s.len() ==> is_ws(#[trigger] s[j]),
        k == s.len() || !is_ws(s[s.len() - k - 1]),
    ensures
        trailing_ws(s) == k,
    decreases k,
{
    if k > 0 {
        let t = s.drop_last();
        assert forall|j: int| t.len() - (k - 1) <= j < t.len() implies is_ws(#[trigger] t[j]) by {
            assert(t[j] == s[j]);
        }
        if k - 1 < t.len() {
            assert(t[t.len() - (k - 1) - 1] == s[s.len() - k - 1]);
        }
        lemma_trailing_ws_is(t, k - 1);
    }
}

/// Index of the first non-whitespace character (or the length).
pub fn first_non_ws(s: &[char]) -> (i: usize)
    ensures
        i == leading_ws(s@),
        i <= s.len(),
{
    let mut i: usize = 0;
    while i < s.len() && is_whitespace(s[i])
        invariant
            i <= s.len(),
            forall|j: int| 0 <= j < i ==> is_ws(#[trigger] s@[j]),
        decreases s.len() - i,
    {
        i = i + 1;
    }
    proof {
        lemma_leading_ws_is(s@, i as int);
    }
    i
}

/// One past the index of the last non-whitespace character at or after `lo`.
fn last_non_ws_end(s: &[char], lo: usize) -> (e: usize)
    requires
        lo <= s.len(),
    ensures
        lo <= e <= s.len(),
        forall|j: int| e <= j < s.len() ==> is_ws(#[trigger] s@[j]),
        e == lo || !is_ws(s@[e - 1]),
{
    let mut e: usize = s.len();
    while e > lo && is_whitespace(s[e - 1])
        invariant
            lo <= e <= s.len(),
            forall|j: int| e <= j < s.len() ==> is_ws(#[trigger] s@[j]),
        decreases e,
    {
        e = e - 1;
    }
    e
}

/// `str::trim` on characters.
pub fn trim_chars(s: &[char]) -> (r: Vec<char>)
    ensures
        r@ == trim(s@),
{
    let a = first_non_ws(s);
    let e = last_non_ws_end(s, a);
    let ghost t = s@.skip(a as int);
    proof {
        let k = s.len() - e;
        assert forall|j: int| t.len() - k <= j < t.len() implies is_ws(#[trigger] t[j]) by {
            assert(t[j] == s@[j + a]);
        }
        if k < t.len() {
            assert(t[t.len() - k - 1] == s@[e - 1]);
        }
        lemma_trailing_ws_is(t, k as int);
    }
    let r = slice_range(s, a, e);
    assert(r@ =~= trim(s@));
    r
}

/// The characters `s[from..to]` as a vector.
pub fn slice_range(s: &[char], from: usize, to: usize) -> (r: Vec<char>)
    requires
        from <= to <= s.len(),
    ensures
        r@ == s@.subrange(from as int, to as int),
{
    let mut r: Vec<char> = Vec::new();
    let mut i = from;
    while i < to
        invariant
            from <= i <= to <= s.len(),
            r@ == s@.subrange(from as int, i as int),
        decreases to - i,
    {
        r.push(s[i]);
        i = i + 1;
        assert(r@ =~= s@.subrange(from as int, i as int));
    }
    r
}

// ---------------------------------------------------------------------------
// Prefixes, suffixes, substrings
// ---------------------------------------------------------------------------

pub open spec fn has_prefix(s: Seq<char>, p: Seq<char>) -> bool {
    p.len() <= s.len() && s.take(p.len() as int) == p
}

pub open spec fn has_suffix(s: Seq<char>, p: Seq<char>) -> bool {
    p.len() <= s.len() && s.skip(s.len() - p.len()) == p
}

/// `p` occurs in `s` starting at index `i`.
pub open spec fn occurs_at(s: Seq<char>, p: Seq<char>, i: int) -> bool {
    0 <= i && i + p.len() <= s.len() && s.subrange(i, i + p.len()) == p
}

pub open spec fn contains_seq(s: Seq<char>, p: Seq<char>) -> bool {
    exists|i: int| #[trigger] occurs_at(s, p, i)
}

/// Equality of two character slices.
pub fn chars_equal(a: &[char], b: &[char]) -> (r: bool)
    ensures
        r == (a@ == b@),
{
    if a.len() != b.len() {
        return false;
    }
    let mut i: usize = 0;
    while i < a.len()
        invariant
            a.len() == b.len(),
            i <= a.len(),
            a@.take(i as int) == b@.take(i as int),
        decreases a.len() - i,
    {
        if a[i] != b[i] {
            assert(a@[i as int] != b@[i as int]);
            return false;
        }
        i = i + 1;
        assert(a@.take(i as int) =~= b@.take(i as int)) by {
            assert(a@.take(i as int) =~= a@.take(i - 1).push(a@[i - 1]));
            assert(b@.take(i as int) =~= b@.take(i - 1).push(b@[i - 1]));
        }
    }
    assert(a@ =~= a@.take(a.len() as int));
    assert(b@ =~= b@.take(b.len() as int));
    true
}

/// Whether `p` occurs in `s` at index `i`.
pub fn matches_at(s: &[char], p: &[char], i: usize) -> (r: bool)
    ensures
        r == occurs_at(s@, p@, i as int),
{
    if i > s.len() || p.len() > s.len() - i {
        return false;
    }
    let mut k: usize = 0;
    while k < p.len()
        invariant
            i + p.len() <= s.len(),
            k <= p.len(),
            forall|j: int| 0 <= j < k ==> s@[i + j] == p@[j],
        decreases p.len() - k,
    {
        if s[i + k] != p[k] {
            assert(s@.subrange(i as int, i + p.len())[k as int] != p@[k as int]);
            return false;
        }
        k = k + 1;
    }
    assert(s@.subrange(i as int, i + p.len()) =~= p@);
    true
}

pub fn starts_with(s: &[char], p: &[char]) -> (r: bool)
    ensures
        r == has_prefix(s@, p@),
{
    let r = matches_at(s, p, 0);
    proof {
        if p@.len() <= s@.len() {
            assert(s@.take(p@.len() as int) =~= s@.subrange(0, p@.len() as int));
        }
    }
    r
}

pub fn ends_with(s: &[char], p: &[char]) -> (r: bool)
    ensures
        r == has_suffix(s@, p@),
{
    if p.len() > s.len() {
        return false;
    }
    let r = matches_at(s, p, s.len() - p.len());
    proof {
        assert(s@.skip(s@.len() - p@.len()) =~= s@.subrange(
            s@.len() - p@.len(),
            s@.len() as int,
        ));
    }
    r
}

/// First index at or after `from` where `p` occurs.
pub open spec fn first_occurrence_from(s: Seq<char>, p: Seq<char>, from: int) -> Option<int> {
    if exists|i: int| from <= i && #[trigger] occurs_at(s, p, i) {
        Some(
            choose|i: int|
                from <= i && #[trigger] occurs_at(s, p, i) && forall|j: int|
                    from <= j < i ==> !occurs_at(s, p, j),
        )
    } else {
        None
    }
}

/// `str::find` with a string pattern, counted in characters.
pub open spec fn find_seq(s: Seq<char>, p: Seq<char>) -> Option<int> {
    first_occurrence_from(s, p, 0)
}

pub fn find_from(s: &[char], p: &[char], from: usize) -> (r: Option<usize>)
    ensures
        r matches Some(i) ==> from <= i && occurs_at(s@, p@, i as int) && forall|j: int|
            from <= j < i ==> !occurs_at(s@, p@, j),
        r is None ==> forall|j: int| from <= j ==> !occurs_at(s@, p@, j),
        first_occurrence_from(s@, p@, from as int) == (match r {
            Some(i) => Some(i as int),
            None => None::<int>,
        }),
{
    if from > s.len() {
        return None;
    }
    let mut i = from;
    loop
        invariant
            from <= i <= s.len(),
            forall|j: int| from <= j < i ==> !occurs_at(s@, p@, j),
        ensures
            i == s.len(),
            forall|j: int| from <= j <= i ==> !occurs_at(s@, p@, j),
        decreases s.len() - i,
    {
        if matches_at(s, p, i) {
            proof {
                assert(from <= i && occurs_at(s@, p@, i as int) && forall|j: int|
                    from <= j < i ==> !occurs_at(s@, p@, j));
                let w = choose|w: int|
                    from <= w && #[trigger] occurs_at(s@, p@, w) && forall|j: int|
                        from <= j < w ==> !occurs_at(s@, p@, j);
                if w < i {
                    assert(!occurs_at(s@, p@, w));
                } else if w > i {
                    assert(!occurs_at(s@, p@, i as int));
                }
            }
            return Some(i);
        }
        if i == s.len() {
            break;
        }
        i = i + 1;
    }
    assert forall|j: int| from <= j implies !occurs_at(s@, p@, j) by {
        if j > i {
            assert(j + p@.len() > s@.len());
        }
    }
    None
}

pub fn contains(s: &[char], p: &[char]) -> (r: bool)
    ensures
        r == contains_seq(s@, p@),
{
    match find_from(s, p, 0) {
        Some(i) => {
            assert(occurs_at(s@, p@, i as int));
            true
        },
        None => {
            assert forall|j: int| !#[trigger] occurs_at(s@, p@, j) by {
                if j < 0 {
                }
            }
            false
        },
    }
}

/// Whether the character `c` occurs in `s`.
pub fn contains_char(s: &[char], c: char) -> (r: bool)
    ensures
        r == s@.contains(c),
{
    let mut i: usize = 0;
    while i < s.len()
        invariant
            i <= s.len(),
            forall|j: int| 0 <= j < i ==> s@[j] != c,
        decreases s.len() - i,
    {
        if s[i] == c {
            assert(s@[i as int] == c);
            return true;
        }
        i = i + 1;
    }
    false
}

// ---------------------------------------------------------------------------
// ASCII case mapping
// ---------------------------------------------------------------------------

pub open spec fn ascii_lower(c: char) -> char {
    if 'A' <= c && c <= 'Z' {
        ((c as u32) + 32) as char
    } else {
        c
    }
}

pub open spec fn ascii_lower_seq(s: Seq<char>) -> Seq<char> {
    s.map_values(|c: char| ascii_lower(c))
}

pub fn to_ascii_lower_char(c: char) -> (r: char)
    ensures
        r == ascii_lower(c),
{
    if 'A' <= c && c <= 'Z' {
        let v: u32 = (c as u32) + 32;
        assert(0x61 <= v <= 0x7a);
        char_from_ascii(v)
    } else {
        c
    }
}

/// The character with the given ASCII code.
fn char_from_ascii(v: u32) -> (c: char)
    requires
        v < 128,
    ensures
        c == v as char,
{
    let b: u8 = v as u8;
    b as char
}

/// `str::to_ascii_lowercase`.
pub fn to_ascii_lowercase(s: &[char]) -> (r: Vec<char>)
    ensures
        r@ == ascii_lower_seq(s@),
{
    let mut r: Vec<char> = Vec::new();
    let mut i: usize = 0;
    while i < s.len()
        invariant
            i <= s.len(),
            r@ == ascii_lower_seq(s@.take(i as int)),
        decreases s.len() - i,
    {
        r.push(to_ascii_lower_char(s[i]));
        i = i + 1;
        assert(r@ =~= ascii_lower_seq(s@.take(i as int)));
    }
    assert(s@.take(s.len() as int) =~= s@);
    r
}

// ---------------------------------------------------------------------------
// Replacing and splitting
// ---------------------------------------------------------------------------

/// `str::replace` of a character by a string.
pub open spec fn replace_char(s: Seq<char>, c: char, by: Seq<char>) -> Seq<char>
    decreases s.len(),
{
    if s.len() == 0 {
        Seq::empty()
    } else {
        replace_char(s.drop_last(), c, by) + if s.last() == c {
            by
        } else {
            seq![s.last()]
        }
    }
}

pub fn replace_char_by(s: &[char], c: char, by: &[char]) -> (r: Vec<char>)
    ensures
        r@ == replace_char(s@, c, by@),
{
    let mut r: Vec<char> = Vec::new();
    let mut i: usize = 0;
    while i < s.len()
        invariant
            i <= s.len(),
            r@ == replace_char(s@.take(i as int), c, by@),
        decreases s.len() - i,
    {
        let ghost before = r@;
        if s[i] == c {
            let mut k: usize = 0;
            while k < by.len()
                invariant
                    k <= by.len(),
                    r@ == before + by@.take(k as int),
                decreases by.len() - k,
            {
                r.push(by[k]);
                k = k + 1;
                assert(r@ =~= before + by@.take(k as int));
            }
            assert(by@.take(by.len() as int) =~= by@);
        } else {
            r.push(s[i]);
        }
        i = i + 1;
        assert(s@.take(i as int).drop_last() =~= s@.take(i - 1));
        assert(r@ =~= replace_char(s@.take(i as int), c, by@));
    }
    assert(s@.take(s.len() as int) =~= s@);
    r
}

/// `str::replace` of a character by another character.
pub fn replace_char_with(s: &[char], c: char, by: char) -> (r: Vec<char>)
    ensures
        r@ == replace_char(s@, c, seq![by]),
{
    let b = vec![by];
    assert(b@ =~= seq![by]);
    replace_char_by(s, c, b.as_slice())
}

/// `s` with every occurrence of `c` removed.
pub fn remove_char(s: &[char], c: char) -> (r: Vec<char>)
    ensures
        r@ == replace_char(s@, c, Seq::empty()),
{
    let b: Vec<char> = Vec::new();
    assert(b@ =~= Seq::<char>::empty());
    replace_char_by(s, c, b.as_slice())
}

/// Index of the first occurrence of `c` in `s` at or after `from`.
pub open spec fn first_char_from(s: Seq<char>, c: char, from: int) -> int
    decreases s.len() - from,
{
    if from >= s.len() {
        s.len() as int
    } else if s[from] == c {
        from
    } else {
        first_char_from(s, c, from + 1)
    }
}

/// `str::split` by a character, from index `from`.
pub open spec fn split_from(s: Seq<char>, c: char, from: int) -> Seq<Seq<char>>
    decreases s.len() - from,
{
    let e = first_char_from(s, c, from);
    if 0 <= from && e < s.len() && from <= e {
        seq![s.subrange(from, e)] + split_from(s, c, e + 1)
    } else {
        seq![s.subrange(from, s.len() as int)]
    }
}

/// `str::split` by a character.
pub open spec fn split_char(s: Seq<char>, c: char) -> Seq<Seq<char>> {
    split_from(s, c, 0)
}

pub proof fn lemma_first_char_from(s: Seq<char>, c: char, from: int)
    requires
        0 <= from <= s.len(),
    ensures
        from <= first_char_from(s, c, from) <= s.len(),
        forall|j: int| from <= j < first_char_from(s, c, from) ==> s[j] != c,
        first_char_from(s, c, from) < s.len() ==> s[first_char_from(s, c, from)] == c,
    decreases s.len() - from,
{
    if from < s.len() && s[from] != c {
        lemma_first_char_from(s, c, from + 1);
    }
}

pub proof fn lemma_first_char_is(s: Seq<char>, c: char, from: int, e: int)
    requires
        0 <= from <= e <= s.len(),
        forall|j: int| from <= j < e ==> s[j] != c,
        e < s.len() ==> s[e] == c,
    ensures
        first_char_from(s, c, from) == e,
    decreases e - from,
{
    if from < e {
        lemma_first_char_is(s, c, from + 1, e);
    }
}

/// Index of the first occurrence of `c` at or after `from`, or the length.
pub fn find_char_from(s: &[char], c: char, from: usize) -> (e: usize)
    requires
        from <= s.len(),
    ensures
        e == first_char_from(s@, c, from as int),
        from <= e <= s.len(),
{
    let mut e = from;
    while e < s.len() && s[e] != c
        invariant
            from <= e <= s.len(),
            forall|j: int| from <= j < e ==> s@[j] != c,
        decreases s.len() - e,
    {
        e = e + 1;
    }
    proof {
        lemma_first_char_is(s@, c, from as int, e as int);
    }
    e
}

/// `str::split` by a character, each piece as a vector.
pub fn split_by_char(s: &[char], c: char) -> (r: Vec<Vec<char>>)
    ensures
        r@.len() == split_char(s@, c).len(),
        forall|i: int| 0 <= i < r@.len() ==> #[trigger] r@[i]@ == split_char(s@, c)[i],
{
    let mut r: Vec<Vec<char>> = Vec::new();
    let mut from: usize = 0;
    loop
        invariant
            from <= s.len(),
            r@.len() + split_from(s@, c, from as int).len() == split_char(s@, c).len(),
            forall|i: int| 0 <= i < r@.len() ==> #[trigger] r@[i]@ == split_char(s@, c)[i],
            forall|i: int|
                0 <= i < split_from(s@, c, from as int).len() ==> #[trigger] split_from(
                    s@,
                    c,
                    from as int,
                )[i] == split_char(s@, c)[r@.len() + i],
        decreases s.len() - from,
    {
        let e = find_char_from(s, c, from);
        let piece = slice_range(s, from, e);
        proof {
            lemma_first_char_from(s@, c, from as int);
        }
        if e < s.len() {
            let ghost n: int = r@.len() as int;
            let ghost old_from = from as int;
            let ghost rest = split_from(s@, c, e + 1);
            assert(split_from(s@, c, old_from) =~= seq![s@.subrange(old_from, e as int)] + rest);
            assert(split_from(s@, c, old_from)[0] == split_char(s@, c)[n + 0]);
            r.push(piece);
            from = e + 1;
            assert forall|i: int| 0 <= i < split_from(s@, c, from as int).len() implies #[trigger] split_from(
                s@,
                c,
                from as int,
            )[i] == split_char(s@, c)[r@.len() + i] by {
                assert(split_from(s@, c, old_from)[i + 1] == rest[i]);
                assert(split_from(s@, c, old_from)[i + 1] == split_char(s@, c)[n + (i + 1)]);
            }
            assert forall|i: int| 0 <= i < r@.len() implies #[trigger] r@[i]@ == split_char(s@, c)[i] by {
                if i == n {
                    assert(r@[i]@ == s@.subrange(old_from, e as int));
                }
            }
        } else {
            let ghost n: int = r@.len() as int;
            assert(split_from(s@, c, from as int) =~= seq![s@.subrange(from as int, s@.len() as int)]);
            assert(split_from(s@, c, from as int)[0] == split_char(s@, c)[n + 0]);
            r.push(piece);
            assert forall|i: int| 0 <= i < r@.len() implies #[trigger] r@[i]@ == split_char(s@, c)[i] by {
                if i == n {
                    assert(r@[i]@ == s@.subrange(from as int, s@.len() as int));
                }
            }
            return r;
        }
    }
}


pub proof fn lemma_split_from_nonempty(s: Seq<char>, c: char, from: int)
    ensures
        split_from(s, c, from).len() >= 1,
    decreases s.len() - from,
{
    let e = first_char_from(s, c, from);
    if 0 <= from && e < s.len() && from <= e {
        lemma_split_from_nonempty(s, c, e + 1);
    }
}

// ---------------------------------------------------------------------------
// Lines
// ---------------------------------------------------------------------------

/// A line without its trailing carriage return, if it has one.
pub open spec fn strip_cr(l: Seq<char>) -> Seq<char> {
    if l.len() > 0 && l.last() == '\r' {
        l.drop_last()
    } else {
        l
    }
}

/// The pieces between line feeds, without the empty piece after a final one.
pub open spec fn line_pieces(s: Seq<char>) -> Seq<Seq<char>> {
    let parts = split_char(s, '\n');
    if parts.len() > 0 && parts.last().len() == 0 {
        parts.drop_last()
    } else {
        parts
    }
}

/// `str::lines`: the text split at line feeds, each line without a trailing
/// carriage return, and no empty line after a final line feed.
pub open spec fn str_lines(s: Seq<char>) -> Seq<Seq<char>> {
    line_pieces(s).map_values(|l: Seq<char>| strip_cr(l))
}

/// The lines of `s`, as `str::lines` yields them.
pub fn lines_of(s: &[char]) -> (r: Vec<Vec<char>>)
    ensures
        r@.len() == str_lines(s@).len(),
        forall|i: int| 0 <= i < r@.len() ==> #[trigger] r@[i]@ == str_lines(s@)[i],
{
    let parts = split_by_char(s, '\n');
    proof {
        lemma_split_from_nonempty(s@, '\n', 0);
    }
    let mut n = parts.len();
    if n > 0 && parts[n - 1].len() == 0 {
        n = n - 1;
    }
    assert(n == line_pieces(s@).len());
    let mut r: Vec<Vec<char>> = Vec::new();
    let mut i: usize = 0;
    while i < n
        invariant
            i <= n,
            n <= parts@.len(),
            n == line_pieces(s@).len(),
            parts@.len() == split_char(s@, '\n').len(),
            forall|k: int| 0 <= k < parts@.len() ==> #[trigger] parts@[k]@ == split_char(s@, '\n')[k],
            r@.len() == i,
            forall|k: int| 0 <= k < i ==> #[trigger] r@[k]@ == str_lines(s@)[k],
        decreases n - i,
    {
        let p = &parts[i];
        assert(p@ == line_pieces(s@)[i as int]);
        let len = p.len();
        let l = if len > 0 && p[len - 1] == '\r' {
            slice_range(p.as_slice(), 0, len - 1)
        } else {
            slice_range(p.as_slice(), 0, len)
        };
        assert(l@ =~= strip_cr(p@));
        r.push(l);
        i = i + 1;
    }
    r
}

// ---------------------------------------------------------------------------
// Stripping repeated prefixes
// ---------------------------------------------------------------------------

/// `str::trim_start_matches` with a non-empty pattern: every leading
/// repetition of `p` removed.
pub open spec fn strip_all_prefix(s: Seq<char>, p: Seq<char>) -> Seq<char>
    decreases s.len(),
{
    if p.len() > 0 && has_prefix(s, p) {
        strip_all_prefix(s.skip(p.len() as int), p)
    } else {
        s
    }
}

/// `str::trim_start_matches` on characters.
pub fn trim_start_matches(s: &[char], p: &[char]) -> (r: Vec<char>)
    ensures
        r@ == strip_all_prefix(s@, p@),
{
    let mut i: usize = 0;
    assert(s@.skip(0) =~= s@);
    while p.len() > 0 && matches_at(s, p, i)
        invariant
            i <= s.len(),
            strip_all_prefix(s@.skip(i as int), p@) == strip_all_prefix(s@, p@),
        decreases s.len() - i,
    {
        proof {
            let t = s@.skip(i as int);
            assert(t.take(p@.len() as int) =~= s@.subrange(i as int, i + p@.len()));
            assert(t.skip(p@.len() as int) =~= s@.skip(i + p@.len()));
        }
        i = i + p.len();
    }
    proof {
        let t = s@.skip(i as int);
        if p@.len() > 0 && has_prefix(t, p@) {
            assert(t.take(p@.len() as int) =~= s@.subrange(i as int, i + p@.len()));
        }
    }
    let r = slice_range(s, i, s.len());
    assert(r@ =~= s@.skip(i as int));
    r
}

/// `str::trim_start` on characters.
pub fn trim_start_chars(s: &[char]) -> (r: Vec<char>)
    ensures
        r@ == trim_start(s@),
{
    let a = first_non_ws(s);
    slice_range(s, a, s.len())
}

/// Whether the characters equal the string.
pub fn chars_eq_str(a: &[char], b: &str) -> (r: bool)
    ensures
        r == (a@ == b@),
{
    let v = chars_of(b);
    chars_equal(a, v.as_slice())
}

// ---------------------------------------------------------------------------
// Concatenation and substring replacement
// ---------------------------------------------------------------------------

/// `a` followed by `b`.
pub fn concat(a: &[char], b: &[char]) -> (r: Vec<char>)
    ensures
        r@ == a@ + b@,
{
    let mut r = slice_range(a, 0, a.len());
    let mut i: usize = 0;
    while i < b.len()
        invariant
            i <= b.len(),
            r@ == a@ + b@.take(i as int),
        decreases b.len() - i,
    {
        r.push(b[i]);
        i = i + 1;
        assert(r@ =~= a@ + b@.take(i as int));
    }
    assert(b@.take(b.len() as int) =~= b@);
    assert(a@.subrange(0, a@.len() as int) =~= a@);
    r
}

/// The characters of `a` followed by those of `b`.
pub fn concat_str(a: &[char], b: &str) -> (r: Vec<char>)
    ensures
        r@ == a@ + b@,
{
    let v = chars_of(b);
    concat(a, v.as_slice())
}

/// `str::replace` of a non-empty pattern: every non-overlapping occurrence,
/// found left to right, replaced by `by`.
pub open spec fn replace_all(s: Seq<char>, p: Seq<char>, by: Seq<char>) -> Seq<char>
    decreases s.len(),
{
    if s.len() == 0 {
        Seq::empty()
    } else if p.len() > 0 && has_prefix(s, p) {
        by + replace_all(s.skip(p.len() as int), p, by)
    } else {
        seq![s[0]] + replace_all(s.drop_first(), p, by)
    }
}

pub fn replace_str(s: &[char], p: &[char], by: &[char]) -> (r: Vec<char>)
    requires
        p.len() > 0,
    ensures
        r@ == replace_all(s@, p@, by@),
{
    let mut r: Vec<char> = Vec::new();
    let mut i: usize = 0;
    assert(s@.skip(0) =~= s@);
    while i < s.len()
        invariant
            i <= s.len(),
            p.len() > 0,
            r@ + replace_all(s@.skip(i as int), p@, by@) == replace_all(s@, p@, by@),
        decreases s.len() - i,
    {
        let ghost t = s@.skip(i as int);
        let ghost rest = replace_all(t, p@, by@);
        if matches_at(s, p, i) {
            proof {
                assert(t.take(p@.len() as int) =~= s@.subrange(i as int, i + p@.len()));
                assert(t.skip(p@.len() as int) =~= s@.skip(i + p@.len()));
            }
            let ghost before = r@;
            let mut k: usize = 0;
            while k < by.len()
                invariant
                    k <= by.len(),
                    r@ == before + by@.take(k as int),
                decreases by.len() - k,
            {
                r.push(by[k]);
                k = k + 1;
                assert(r@ =~= before + by@.take(k as int));
            }
            assert(by@.take(by.len() as int) =~= by@);
            i = i + p.len();
            assert(before + rest =~= r@ + replace_all(s@.skip(i as int), p@, by@));
        } else {
            proof {
                if p@.len() <= t.len() {
                    assert(t.take(p@.len() as int) =~= s@.subrange(i as int, i + p@.len()));
                }
                assert(t.drop_first() =~= s@.skip(i + 1));
            }
            let ghost before = r@;
            r.push(s[i]);
            i = i + 1;
            assert(before + rest =~= r@ + replace_all(s@.skip(i as int), p@, by@));
        }
    }
    assert(s@.skip(s.len() as int) =~= Seq::<char>::empty());
    assert(r@ + Seq::<char>::empty() =~= r@);
    r
}

/// Every trailing occurrence of `c` removed.
pub open spec fn strip_char_end(s: Seq<char>, c: char) -> Seq<char>
    decreases s.len(),
{
    if s.len() > 0 && s.last() == c {
        strip_char_end(s.drop_last(), c)
    } else {
        s
    }
}

/// `str::trim_matches` with a character: leading and trailing occurrences removed.
pub open spec fn trim_matches_char(s: Seq<char>, c: char) -> Seq<char> {
    strip_char_end(strip_all_prefix(s, seq![c]), c)
}

pub fn trim_matches(s: &[char], c: char) -> (r: Vec<char>)
    ensures
        r@ == trim_matches_char(s@, c),
{
    let cv = vec![c];
    assert(cv@ =~= seq![c]);
    let a = trim_start_matches(s, cv.as_slice());
    let mut e = a.len();
    assert(a@.take(e as int) =~= a@);
    while e > 0 && a[e - 1] == c
        invariant
            e <= a@.len(),
            strip_char_end(a@.take(e as int), c) == strip_char_end(a@, c),
        decreases e,
    {
        assert(a@.take(e as int).drop_last() =~= a@.take(e - 1));
        e = e - 1;
    }
    let r = slice_range(a.as_slice(), 0, e);
    assert(a@.take(a@.len() as int) =~= a@);
    assert(r@ =~= a@.take(e as int));
    r
}

/// Every leading occurrence of `a` or `b` removed.
pub open spec fn strip_start_either(s: Seq<char>, a: char, b: char) -> Seq<char>
    decreases s.len(),
{
    if s.len() > 0 && (s[0] == a || s[0] == b) {
        strip_start_either(s.drop_first(), a, b)
    } else {
        s
    }
}

/// Every trailing occurrence of `a` or `b` removed.
pub open spec fn strip_end_either(s: Seq<char>, a: char, b: char) -> Seq<char>
    decreases s.len(),
{
    if s.len() > 0 && (s.last() == a || s.last() == b) {
        strip_end_either(s.drop_last(), a, b)
    } else {
        s
    }
}

/// `str::trim_matches` with a pattern that matches `a` or `b`.
pub open spec fn trim_either(s: Seq<char>, a: char, b: char) -> Seq<char> {
    strip_end_either(strip_start_either(s, a, b), a, b)
}

pub fn trim_matches_either(s: &[char], a: char, b: char) -> (r: Vec<char>)
    ensures
        r@ == trim_either(s@, a, b),
{
    let mut i: usize = 0;
    assert(s@.skip(0) =~= s@);
    while i < s.len() && (s[i] == a || s[i] == b)
        invariant
            i <= s@.len(),
            strip_start_either(s@, a, b) == strip_start_either(s@.skip(i as int), a, b),
        decreases s.len() - i,
    {
        assert(s@.skip(i as int).drop_first() =~= s@.skip(i + 1));
        i = i + 1;
    }
    assert(strip_start_either(s@.skip(i as int), a, b) == s@.skip(i as int));
    let mut e: usize = s.len();
    assert(s@.subrange(i as int, e as int) =~= s@.skip(i as int));
    while e > i && (s[e - 1] == a || s[e - 1] == b)
        invariant
            i <= e <= s@.len(),
            strip_end_either(s@.subrange(i as int, e as int), a, b) == trim_either(s@, a, b),
        decreases e,
    {
        assert(s@.subrange(i as int, e as int).drop_last() =~= s@.subrange(i as int, e - 1));
        e = e - 1;
    }
    let r = slice_range(s, i, e);
    r
}

// ---------------------------------------------------------------------------
// Decimal numbers
// ---------------------------------------------------------------------------

pub open spec fn digit_char(d: nat) -> char {
    (('0' as u32) + d) as char
}

/// Decimal digits of a natural number, most significant first.
pub open spec fn decimal(n: nat) -> Seq<char>
    decreases n,
{
    if n < 10 {
        seq![digit_char(n)]
    } else {
        decimal(n / 10).push(digit_char(n % 10))
    }
}

fn digit_of(d: u64) -> (c: char)
    requires
        d < 10,
    ensures
        c == digit_char(d as nat),
{
    match d {
        0 => '0',
        1 => '1',
        2 => '2',
        3 => '3',
        4 => '4',
        5 => '5',
        6 => '6',
        7 => '7',
        8 => '8',
        _ => '9',
    }
}

/// The decimal digits of `n`, as `u64::to_string` writes them.
pub fn u64_to_decimal(n: u64) -> (r: Vec<char>)
    ensures
        r@ == decimal(n as nat),
    decreases n,
{
    let c = digit_of(n % 10);
    if n < 10 {
        vec![c]
    } else {
        let mut r = u64_to_decimal(n / 10);
        r.push(c);
        r
    }
}

/// The decimal digits of `n`, as `usize::to_string` writes them.
pub fn usize_to_decimal(n: usize) -> (r: Vec<char>)
    ensures
        r@ == decimal(n as nat),
{
    u64_to_decimal(n as u64)
}

pub open spec fn is_digit(c: char) -> bool {
    '0' <= c && c <= '9'
}

pub open spec fn digit_value(c: char) -> nat {
    ((c as u32) - ('0' as u32)) as nat
}

/// The number a string of decimal digits denotes.
pub open spec fn digits_value(s: Seq<char>) -> nat
    decreases s.len(),
{
    if s.len() == 0 {
        0
    } else {
        digits_value(s.drop_last()) * 10 + digit_value(s.last())
    }
}

/// The digits part of a number: without a leading `+`.
pub open spec fn unsigned_digits(s: Seq<char>) -> Seq<char> {
    if s.len() > 0 && s[0] == '+' {
        s.drop_first()
    } else {
        s
    }
}

pub open spec fn all_digits(d: Seq<char>) -> bool {
    forall|i: int| 0 <= i < d.len() ==> is_digit(#[trigger] d[i])
}

/// What `str::parse::<u64>` accepts: an optional `+`, then one or more
/// decimal digits whose value fits in 64 bits.
pub open spec fn parse_u64_spec(s: Seq<char>) -> Option<u64> {
    let d = unsigned_digits(s);
    if d.len() > 0 && all_digits(d) && digits_value(d) <= u64::MAX {
        Some(digits_value(d) as u64)
    } else {
        None
    }
}

/// `str::parse::<u64>` on characters.
pub fn parse_u64(s: &[char]) -> (r: Option<u64>)
    ensures
        r == parse_u64_spec(s@),
{
    let start: usize = if s.len() > 0 && s[0] == '+' {
        1
    } else {
        0
    };
    let ghost d = unsigned_digits(s@);
    assert(d =~= s@.skip(start as int));
    if start >= s.len() {
        return None;
    }
    let mut val: u64 = 0;
    let mut i: usize = start;
    while i < s.len()
        invariant
            start <= i <= s.len(),
            d == s@.skip(start as int),
            d == unsigned_digits(s@),
            forall|k: int| 0 <= k < i - start ==> is_digit(#[trigger] d[k]),
            val as nat == digits_value(d.take(i - start)),
        decreases s.len() - i,
    {
        let c = s[i];
        if !('0' <= c && c <= '9') {
            assert(!is_digit(d[i - start]));
            assert(!all_digits(d));
            return None;
        }
        assert(d.take(i - start + 1).drop_last() =~= d.take(i - start));
        assert(d.take(i - start + 1).last() == c);
        let dv: u64 = ((c as u32) - ('0' as u32)) as u64;
        assert(digits_value(d.take(i - start + 1)) == digits_value(d.take(i - start)) * 10 + dv);
        match val.checked_mul(10) {
            Some(m) => match m.checked_add(dv) {
                Some(v) => {
                    val = v;
                },
                None => {
                    proof {
                        lemma_digits_value_prefix_le(d, i - start + 1);
                    }
                    return None;
                },
            },
            None => {
                proof {
                    lemma_digits_value_prefix_le(d, i - start + 1);
                }
                return None;
            },
        }
        i = i + 1;
    }
    assert(d.take(d.len() as int) =~= d);
    Some(val)
}

/// A prefix of a digit string is worth no more than the whole.
proof fn lemma_digits_value_prefix_le(d: Seq<char>, k: int)
    requires
        0 <= k <= d.len(),
    ensures
        digits_value(d.take(k)) <= digits_value(d),
    decreases d.len() - k,
{
    if k < d.len() {
        lemma_digits_value_prefix_le(d, k + 1);
        assert(d.take(k + 1).drop_last() =~= d.take(k));
    } else {
        assert(d.take(k) =~= d);
    }
}

proof fn lemma_digit_char_value(k: nat)
    requires
        k < 10,
    ensures
        digit_value(digit_char(k)) == k,
        is_digit(digit_char(k)),
        digit_char(k) != '+',
{
    assert(('0' as u32) == 48);
    assert((48 + k) as char as u32 == 48 + k);
}

/// Parsing the decimal form of a number gives the number back.
pub proof fn lemma_parse_decimal(n: u64)
    ensures
        parse_u64_spec(decimal(n as nat)) == Some(n),
{
    lemma_decimal_digits(n as nat);
}

pub proof fn lemma_decimal_digits(n: nat)
    ensures
        decimal(n).len() > 0,
        decimal(n)[0] != '+',
        forall|i: int| 0 <= i < decimal(n).len() ==> is_digit(#[trigger] decimal(n)[i]),
        digits_value(decimal(n)) == n,
    decreases n,
{
    lemma_digit_char_value((n % 10) as nat);
    if n < 10 {
        let d = decimal(n);
        assert(d.drop_last() =~= Seq::<char>::empty());
        assert(digits_value(Seq::<char>::empty()) == 0);
        assert(d.last() == digit_char(n));
        assert(digits_value(d) == digits_value(d.drop_last()) * 10 + digit_value(d.last()));
    }
    if n >= 10 {
        lemma_decimal_digits(n / 10);
        let d = decimal(n);
        assert(d.drop_last() =~= decimal(n / 10));
        assert(d.last() == digit_char((n % 10) as nat));
        assert(digits_value(d) == digits_value(d.drop_last()) * 10 + digit_value(d.last()));
        assert(digits_value(d) == (n / 10) * 10 + n % 10);
        assert forall|i: int| 0 <= i < d.len() implies is_digit(#[trigger] d[i]) by {
            if i < d.len() - 1 {
                assert(d[i] == decimal(n / 10)[i]);
            }
        }
    }
}

// ---------------------------------------------------------------------------
// Words and pieces
// ---------------------------------------------------------------------------

/// Number of leading non-whitespace characters.
pub open spec fn leading_nonws(s: Seq<char>) -> nat
    decreases s.len(),
{
    if s.len() > 0 && !is_ws(s[0]) {
        1 + leading_nonws(s.drop_first())
    } else {
        0
    }
}

pub proof fn lemma_leading_nonws_bound(s: Seq<char>)
    ensures
        leading_nonws(s) <= s.len(),
        s.len() > 0 && !is_ws(s[0]) ==> leading_nonws(s) >= 1,
        forall|j: int| 0 <= j < leading_nonws(s) ==> !is_ws(#[trigger] s[j]),
        leading_nonws(s) < s.len() ==> is_ws(s[leading_nonws(s) as int]),
    decreases s.len(),
{
    if s.len() > 0 && !is_ws(s[0]) {
        lemma_leading_nonws_bound(s.drop_first());
        assert forall|j: int| 0 <= j < leading_nonws(s) implies !is_ws(#[trigger] s[j]) by {
            if j > 0 {
                assert(s[j] == s.drop_first()[j - 1]);
            }
        }
    }
}

/// `str::split_whitespace`: the maximal runs of non-whitespace characters.
pub open spec fn words(s: Seq<char>) -> Seq<Seq<char>>
    decreases s.len(),
{
    let t = trim_start(s);
    if t.len() == 0 || t.len() > s.len() {
        Seq::empty()
    } else {
        let k = leading_nonws(t);
        if k == 0 || k > t.len() {
            Seq::empty()
        } else {
            seq![t.take(k as int)] + words(t.skip(k as int))
        }
    }
}

pub proof fn lemma_trim_start_shape(s: Seq<char>)
    ensures
        trim_start(s).len() <= s.len(),
        trim_start(s).len() > 0 ==> !is_ws(trim_start(s)[0]),
{
    lemma_leading_ws_bound(s);
    let t = trim_start(s);
    if t.len() > 0 {
        lemma_leading_ws_is_first(s);
        assert(t[0] == s[leading_ws(s) as int]);
    }
}

proof fn lemma_leading_ws_is_first(s: Seq<char>)
    ensures
        leading_ws(s) < s.len() ==> !is_ws(s[leading_ws(s) as int]),
    decreases s.len(),
{
    if s.len() > 0 && is_ws(s[0]) {
        lemma_leading_ws_is_first(s.drop_first());
        if leading_ws(s) < s.len() {
            assert(s[leading_ws(s) as int] == s.drop_first()[leading_ws(s.drop_first()) as int]);
        }
    }
}

/// `str::split_whitespace` on characters.
pub fn split_whitespace(s: &[char]) -> (r: Vec<Vec<char>>)
    ensures
        r@.len() == words(s@).len(),
        forall|i: int| 0 <= i < r@.len() ==> #[trigger] r@[i]@ == words(s@)[i],
{
    let mut r: Vec<Vec<char>> = Vec::new();
    let mut rest = slice_range(s, 0, s.len());
    assert(rest@ =~= s@);
    loop
        invariant
            r@.len() + words(rest@).len() == words(s@).len(),
            forall|i: int| 0 <= i < r@.len() ==> #[trigger] r@[i]@ == words(s@)[i],
            forall|i: int| 0 <= i < words(rest@).len() ==> #[trigger] words(rest@)[i] == words(s@)[r@.len() + i],
        decreases rest@.len(),
    {
        let a = first_non_ws(rest.as_slice());
        let t = slice_range(rest.as_slice(), a, rest.len());
        assert(t@ =~= trim_start(rest@));
        proof {
            lemma_trim_start_shape(rest@);
            lemma_leading_nonws_bound(t@);
        }
        if t.len() == 0 {
            return r;
        }
        let mut k: usize = 0;
        while k < t.len() && !is_whitespace(t[k])
            invariant
                k <= t@.len(),
                forall|j: int| 0 <= j < k ==> !is_ws(#[trigger] t@[j]),
            decreases t.len() - k,
        {
            k = k + 1;
        }
        proof {
            lemma_leading_nonws_is(t@, k as int);
        }
        let w = slice_range(t.as_slice(), 0, k);
        let next = slice_range(t.as_slice(), k, t.len());
        let ghost n = r@.len() as int;
        let ghost old_rest = rest@;
        assert(words(old_rest) =~= seq![t@.take(k as int)] + words(t@.skip(k as int)));
        assert(w@ =~= t@.take(k as int));
        assert(next@ =~= t@.skip(k as int));
        assert(words(old_rest)[0] == words(s@)[n + 0]);
        r.push(w);
        rest = next;
        assert forall|i: int| 0 <= i < words(rest@).len() implies #[trigger] words(rest@)[i] == words(s@)[r@.len() + i] by {
            assert(words(old_rest)[i + 1] == words(rest@)[i]);
            assert(words(old_rest)[i + 1] == words(s@)[n + (i + 1)]);
        }
    }
}

proof fn lemma_leading_nonws_is(s: Seq<char>, k: int)
    requires
        0 <= k <= s.len(),
        forall|j: int| 0 <= j < k ==> !is_ws(#[trigger] s[j]),
        k < s.len() ==> is_ws(s[k]),
    ensures
        leading_nonws(s) == k,
    decreases k,
{
    if k > 0 {
        lemma_leading_nonws_is(s.drop_first(), k - 1);
    }
}

/// The first word, or the empty string.
pub open spec fn first_word(s: Seq<char>) -> Seq<char> {
    if words(s).len() > 0 {
        words(s)[0]
    } else {
        Seq::empty()
    }
}

/// The text before the first occurrence of `p` (all of it when `p` does not
/// occur): the first piece of `str::split(p)`.
pub open spec fn before_pattern(s: Seq<char>, p: Seq<char>) -> Seq<char> {
    match find_seq(s, p) {
        Some(i) => s.take(i),
        None => s,
    }
}

pub fn text_before(s: &[char], p: &[char]) -> (r: Vec<char>)
    ensures
        r@ == before_pattern(s@, p@),
{
    match find_from(s, p, 0) {
        Some(i) => {
            let r = slice_range(s, 0, i);
            assert(r@ =~= s@.take(i as int));
            r
        },
        None => slice_range(s, 0, s.len()),
    }
}

/// Index of the first character of `s` that is in `set` (or the length).
pub open spec fn first_in_set(s: Seq<char>, set: Seq<char>, from: int) -> int
    decreases s.len() - from,
{
    if from >= s.len() || from < 0 {
        s.len() as int
    } else if set.contains(s[from]) {
        from
    } else {
        first_in_set(s, set, from + 1)
    }
}

pub fn find_any_char(s: &[char], set: &[char]) -> (i: usize)
    ensures
        i == first_in_set(s@, set@, 0),
        i <= s.len(),
{
    let mut i: usize = 0;
    while i < s.len() && !contains_char(set, s[i])
        invariant
            i <= s.len(),
            first_in_set(s@, set@, 0) == first_in_set(s@, set@, i as int),
        decreases s.len() - i,
    {
        i = i + 1;
    }
    i
}

/// Whether the string `p` occurs in `s`.
pub fn contains_str(s: &[char], p: &str) -> (r: bool)
    ensures
        r == contains_seq(s@, p@),
{
    let v = chars_of(p);
    contains(s, v.as_slice())
}

/// Whether `s` starts with the string `p`.
pub fn starts_with_str(s: &[char], p: &str) -> (r: bool)
    ensures
        r == has_prefix(s@, p@),
{
    let v = chars_of(p);
    starts_with(s, v.as_slice())
}

/// Whether `s` ends with the string `p`.
pub fn ends_with_str(s: &[char], p: &str) -> (r: bool)
    ensures
        r == has_suffix(s@, p@),
{
    let v = chars_of(p);
    ends_with(s, v.as_slice())
}

/// The Unicode `Alphabetic` or `Numeric` property, as `char::is_alphanumeric` tests it.
pub uninterp spec fn unicode_alphanumeric(c: char) -> bool;

/// Calls `char::is_alphanumeric`; of an ASCII character, it holds of the
/// letters and digits.
#[verifier::external_body]
pub fn is_alphanumeric(c: char) -> (r: bool)
    ensures
        r == unicode_alphanumeric(c),
        (c as u32) < 128 ==> r == (('a' <= c && c <= 'z') || ('A' <= c && c <= 'Z') || ('0' <= c
            && c <= '9')),
{
    c.is_alphanumeric()
}

/// Trimming twice is trimming once.
pub proof fn lemma_trim_idempotent(s: Seq<char>)
    ensures
        trim(trim(s)) == trim(s),
{
    let t = trim(s);
    lemma_leading_ws_bound(s);
    let a = trim_start(s);
    lemma_trailing_ws_bound(a);
    if t.len() > 0 {
        lemma_leading_ws_is_first(s);
        assert(t[0] == s[leading_ws(s) as int]);
        assert(!is_ws(t[0]));
        assert(leading_ws(t) == 0);
        lemma_trailing_ws_last(a);
        assert(t.last() == a[a.len() - trailing_ws(a) - 1]);
        assert(trailing_ws(t.skip(0)) == 0) by {
            assert(t.skip(0) =~= t);
        }
        assert(trim(t) =~= t);
    } else {
        assert(trim(t) =~= t);
    }
}

proof fn lemma_trailing_ws_last(s: Seq<char>)
    ensures
        trailing_ws(s) < s.len() ==> !is_ws(s[s.len() - trailing_ws(s) - 1]),
    decreases s.len(),
{
    if s.len() > 0 && is_ws(s.last()) {
        lemma_trailing_ws_last(s.drop_last());
        if trailing_ws(s) < s.len() {
            let d = s.drop_last();
            assert(s[s.len() - trailing_ws(s) - 1] == d[d.len() - trailing_ws(d) - 1]);
        }
    }
}

/// The decimal form of an integer, with a `-` when it is negative.
pub open spec fn int_decimal(i: int) -> Seq<char> {
    if i < 0 {
        "-"@ + decimal((-i) as nat)
    } else {
        decimal(i as nat)
    }
}

/// The decimal digits of `n`, as `i32::to_string` writes them.
pub fn i32_to_decimal(n: i32) -> (r: Vec<char>)
    ensures
        r@ == int_decimal(n as int),
{
    if n < 0 {
        let m: i64 = -(n as i64);
        let d = u64_to_decimal(m as u64);
        concat(chars_of("-").as_slice(), d.as_slice())
    } else {
        u64_to_decimal(n as u64)
    }
}

/// The Unicode `Uppercase` property, as `char::is_uppercase` tests it.
pub uninterp spec fn unicode_upper_char(c: char) -> bool;

/// The Unicode numeric categories, as `char::is_numeric` tests them.
pub uninterp spec fn unicode_numeric(c: char) -> bool;

/// Calls `char::is_uppercase`; of an ASCII character, it holds of `A`-`Z`.
#[verifier::external_body]
pub fn is_uppercase(c: char) -> (r: bool)
    ensures
        r == unicode_upper_char(c),
        (c as u32) < 128 ==> r == ('A' <= c && c <= 'Z'),
{
    c.is_uppercase()
}

/// Calls `char::is_numeric`; of an ASCII character, it holds of `0`-`9`.
#[verifier::external_body]
pub fn is_numeric(c: char) -> (r: bool)
    ensures
        r == unicode_numeric(c),
        (c as u32) < 128 ==> r == ('0' <= c && c <= '9'),
{
    c.is_numeric()
}

} // verus!
