//! Character-sequence utilities that the rest of the library builds on.
//!
//! Strings are reasoned about through their view, the sequence of their
//! characters. The executable helpers here work on `&str`, `String` and
//! `Vec<char>` and state their results over that view.

use vstd::prelude::*;

verus! {

// ---------------------------------------------------------------------------
// Character classes
// ---------------------------------------------------------------------------

pub open spec fn is_ascii_char(c: char) -> bool {
    (c as u32) < 128
}

pub open spec fn is_ascii_seq(s: Seq<char>) -> bool {
    forall|i: int| 0 <= i < s.len() ==> is_ascii_char(#[trigger] s[i])
}

pub open spec fn is_ascii_upper(c: char) -> bool {
    'A' <= c <= 'Z'
}

pub open spec fn is_ascii_lower(c: char) -> bool {
    'a' <= c <= 'z'
}

pub open spec fn is_ascii_alpha(c: char) -> bool {
    is_ascii_upper(c) || is_ascii_lower(c)
}

pub open spec fn is_ascii_digit(c: char) -> bool {
    '0' <= c <= '9'
}

/// The ASCII lowercase of `c`: `A`..`Z` become `a`..`z`, everything else is kept.
pub open spec fn lower_char(c: char) -> char {
    if is_ascii_upper(c) {
        ((c as u32) + 32) as char
    } else {
        c
    }
}

/// The ASCII uppercase of `c`: `a`..`z` become `A`..`Z`, everything else is kept.
pub open spec fn upper_char(c: char) -> char {
    if is_ascii_lower(c) {
        ((c as u32) - 32) as char
    } else {
        c
    }
}

pub open spec fn ascii_lower(s: Seq<char>) -> Seq<char> {
    s.map_values(|c: char| lower_char(c))
}

pub open spec fn ascii_upper(s: Seq<char>) -> Seq<char> {
    s.map_values(|c: char| upper_char(c))
}

/// What `str::to_lowercase` gives: on ASCII text the ASCII lowercase, else
/// the full Unicode mapping.
pub open spec fn lowercase(s: Seq<char>) -> Seq<char> {
    if is_ascii_seq(s) {
        ascii_lower(s)
    } else {
        unicode_lower(s)
    }
}

/// What `str::to_uppercase` gives: on ASCII text the ASCII uppercase, else
/// the full Unicode mapping.
pub open spec fn uppercase(s: Seq<char>) -> Seq<char> {
    if is_ascii_seq(s) {
        ascii_upper(s)
    } else {
        unicode_upper(s)
    }
}

/// The Unicode `White_Space` property, as `char::is_whitespace` documents it.
pub open spec fn is_ws(c: char) -> bool {
    ||| c == ' '
    ||| ('\u{9}' <= c <= '\u{d}')
    ||| c == '\u{85}'
    ||| c == '\u{a0}'
    ||| c == '\u{1680}'
    ||| ('\u{2000}' <= c <= '\u{200a}')
    ||| c == '\u{2028}'
    ||| c == '\u{2029}'
    ||| c == '\u{202f}'
    ||| c == '\u{205f}'
    ||| c == '\u{3000}'
}

pub fn char_is_ws(c: char) -> (r: bool)
    ensures
        r == is_ws(c),
{
    c == ' ' || ('\u{9}' <= c && c <= '\u{d}') || c == '\u{85}' || c == '\u{a0}' || c
        == '\u{1680}' || ('\u{2000}' <= c && c <= '\u{200a}') || c == '\u{2028}' || c
        == '\u{2029}' || c == '\u{202f}' || c == '\u{205f}' || c == '\u{3000}'
}

pub fn char_is_ascii_digit(c: char) -> (r: bool)
    ensures
        r == is_ascii_digit(c),
{
    '0' <= c && c <= '9'
}

pub fn char_is_ascii_alpha(c: char) -> (r: bool)
    ensures
        r == is_ascii_alpha(c),
{
    ('A' <= c && c <= 'Z') || ('a' <= c && c <= 'z')
}

/// Whether `char::is_numeric` holds of a character (Unicode general categories
/// `Nd`, `Nl` and `No`).
pub uninterp spec fn numeric_char(c: char) -> bool;

/// `char::is_numeric`. Trusted: the result is `numeric_char(c)`, and on ASCII
/// characters it holds exactly of the decimal digits, as the Unicode tables give it.
#[verifier::external_body]
pub(crate) fn char_is_numeric(c: char) -> (r: bool)
    ensures
        r == numeric_char(c),
        is_ascii_char(c) ==> (r <==> is_ascii_digit(c)),
{
    c.is_numeric()
}

/// What `char::is_numeric` gives: on ASCII characters the decimal digits,
/// else `numeric_char`.
pub open spec fn is_numeric(c: char) -> bool {
    if is_ascii_char(c) {
        is_ascii_digit(c)
    } else {
        numeric_char(c)
    }
}

/// What `str::to_lowercase` gives for a string (full Unicode case mapping).
pub uninterp spec fn unicode_lower(s: Seq<char>) -> Seq<char>;

/// What `str::to_uppercase` gives for a string (full Unicode case mapping).
pub uninterp spec fn unicode_upper(s: Seq<char>) -> Seq<char>;

/// `str::to_lowercase`. Trusted: the result is `unicode_lower(s)`; on an ASCII
/// string it is the ASCII lowercase, since the Unicode mapping of ASCII letters
/// is the ASCII one and other ASCII characters have no case.
#[verifier::external_body]
pub(crate) fn to_lowercase(s: &str) -> (r: String)
    ensures
        r@ == unicode_lower(s@),
        is_ascii_seq(s@) ==> r@ == ascii_lower(s@),
{
    s.to_lowercase()
}

/// `str::to_uppercase`. Trusted: the result is `unicode_upper(s)`; on an ASCII
/// string it is the ASCII uppercase.
#[verifier::external_body]
pub(crate) fn to_uppercase(s: &str) -> (r: String)
    ensures
        r@ == unicode_upper(s@),
        is_ascii_seq(s@) ==> r@ == ascii_upper(s@),
{
    s.to_uppercase()
}

// ---------------------------------------------------------------------------
// Conversions between strings and character vectors
// ---------------------------------------------------------------------------

/// The characters of `s`, in order.
pub fn chars_of(s: &str) -> (v: Vec<char>)
    ensures
        v@ == s@,
{
    let n = s.unicode_len();
    let mut v: Vec<char> = Vec::new();
    let mut i: usize = 0;
    while i < n
        invariant
            n == s@.len(),
            i <= n,
            v@ == s@.subrange(0, i as int),
        decreases n - i,
    {
        let c = s.get_char(i);
        v.push(c);
        i = i + 1;
    }
    v
}

/// `String::push`.
#[verifier::external_body]
fn push_char(s: &mut String, c: char)
    ensures
        final(s)@ == old(s)@.push(c),
{
    s.push(c)
}

/// The string whose characters are `v`.
pub fn string_from(v: &[char]) -> (s: String)
    ensures
        s@ == v@,
{
    let mut s = String::new();
    let mut i: usize = 0;
    while i < v.len()
        invariant
            i <= v.len(),
            s@ == v@.subrange(0, i as int),
        decreases v.len() - i,
    {
        push_char(&mut s, v[i]);
        i = i + 1;
    }
    s
}

/// A copy of `s`.
pub fn copy_str(s: &str) -> (r: String)
    ensures
        r@ == s@,
{
    let v = chars_of(s);
    string_from(&v)
}

/// `a` followed by `b`.
pub fn concat(a: &str, b: &str) -> (r: String)
    ensures
        r@ == a@ + b@,
{
    let mut v = chars_of(a);
    let w = chars_of(b);
    let mut i: usize = 0;
    while i < w.len()
        invariant
            i <= w.len(),
            w@ == b@,
            v@ == a@ + b@.subrange(0, i as int),
        decreases w.len() - i,
    {
        v.push(w[i]);
        i = i + 1;
    }
    assert(b@.subrange(0, b@.len() as int) == b@);
    string_from(&v)
}

/// `a`, `b` and `c`, one after the other.
pub fn concat3(a: &str, b: &str, c: &str) -> (r: String)
    ensures
        r@ == a@ + b@ + c@,
{
    let ab = concat(a, b);
    concat(ab.as_str(), c)
}

/// Appends the characters of `b` to `v`.
pub fn extend_chars(v: &mut Vec<char>, b: &str)
    ensures
        final(v)@ == old(v)@ + b@,
{
    let w = chars_of(b);
    let mut i: usize = 0;
    while i < w.len()
        invariant
            i <= w.len(),
            w@ == b@,
            v@ == old(v)@ + b@.subrange(0, i as int),
        decreases w.len() - i,
    {
        v.push(w[i]);
        i = i + 1;
    }
    assert(b@.subrange(0, b@.len() as int) == b@);
}

/// Whether two strings have the same characters.
pub fn str_eq(a: &str, b: &str) -> (r: bool)
    ensures
        r == (a@ == b@),
{
    let x = chars_of(a);
    let y = chars_of(b);
    if x.len() != y.len() {
        return false;
    }
    let mut i: usize = 0;
    while i < x.len()
        invariant
            x@ == a@,
            y@ == b@,
            x.len() == y.len(),
            i <= x.len(),
            forall|j: int| 0 <= j < i ==> x@[j] == y@[j],
        decreases x.len() - i,
    {
        if x[i] != y[i] {
            return false;
        }
        i = i + 1;
    }
    assert(x@ == y@);
    true
}

/// The characters of `s` from position `from` up to, not including, `to`.
pub fn substring(s: &str, from: usize, to: usize) -> (r: String)
    requires
        from <= to <= s@.len(),
    ensures
        r@ == s@.subrange(from as int, to as int),
{
    let v = chars_of(s);
    let w = slice_chars(&v, from, to);
    string_from(&w)
}

/// The elements of `v` from `from` up to, not including, `to`.
pub fn slice_chars(v: &Vec<char>, from: usize, to: usize) -> (r: Vec<char>)
    requires
        from <= to <= v@.len(),
    ensures
        r@ == v@.subrange(from as int, to as int),
{
    let mut out: Vec<char> = Vec::new();
    let mut k: usize = from;
    while k < to
        invariant
            from <= k <= to <= v@.len(),
            out@ == v@.subrange(from as int, k as int),
        decreases to - k,
    {
        out.push(v[k]);
        k = k + 1;
    }
    out
}

// ---------------------------------------------------------------------------
// Searching
// ---------------------------------------------------------------------------

/// `p` occurs in `s` at position `i`.
pub open spec fn occurs_at(s: Seq<char>, p: Seq<char>, i: int) -> bool {
    &&& 0 <= i
    &&& i + p.len() <= s.len()
    &&& s.subrange(i, i + p.len()) == p
}

pub open spec fn contains(s: Seq<char>, p: Seq<char>) -> bool {
    exists|i: int| occurs_at(s, p, i)
}

pub open spec fn starts_with(s: Seq<char>, p: Seq<char>) -> bool {
    occurs_at(s, p, 0)
}

pub open spec fn ends_with(s: Seq<char>, p: Seq<char>) -> bool {
    p.len() <= s.len() && occurs_at(s, p, s.len() - p.len())
}

pub open spec fn has_char(s: Seq<char>, c: char) -> bool {
    exists|i: int| 0 <= i < s.len() && s[i] == c
}

/// The first position at which `p` occurs in `s`, if any.
pub open spec fn first_occurrence(s: Seq<char>, p: Seq<char>) -> Option<int> {
    if contains(s, p) {
        Some(choose|i: int| occurs_at(s, p, i) && forall|j: int| 0 <= j < i ==> !occurs_at(s, p, j))
    } else {
        None
    }
}

proof fn lemma_first_occurrence(s: Seq<char>, p: Seq<char>, i: int)
    requires
        occurs_at(s, p, i),
        forall|j: int| 0 <= j < i ==> !occurs_at(s, p, j),
    ensures
        first_occurrence(s, p) == Some(i),
{
    let w = choose|w: int| occurs_at(s, p, w) && forall|j: int| 0 <= j < w ==> !occurs_at(s, p, j);
    assert(occurs_at(s, p, w) && forall|j: int| 0 <= j < w ==> !occurs_at(s, p, j));
    if w < i {
        assert(!occurs_at(s, p, w));
    } else if w > i {
        assert(!occurs_at(s, p, i));
    }
}

pub fn occurs_at_exec(s: &Vec<char>, p: &Vec<char>, i: usize) -> (r: bool)
    ensures
        r == occurs_at(s@, p@, i as int),
{
    if i > s.len() || p.len() > s.len() - i {
        return false;
    }
    let mut k: usize = 0;
    while k < p.len()
        invariant
            i + p.len() <= s.len(),
            k <= p.len(),
            forall|j: int| 0 <= j < k ==> s@[i + j] == p@[j],
        decreases p.len() - k,
    {
        if s[i + k] != p[k] {
            assert(s@.subrange(i as int, i + p.len())[k as int] != p@[k as int]);
            return false;
        }
        k = k + 1;
    }
    assert(s@.subrange(i as int, i + p.len()) =~= p@);
    true
}

/// The first position at which `p` occurs in `s`.
pub fn find_seq(s: &Vec<char>, p: &Vec<char>) -> (r: Option<usize>)
    ensures
        r == (match first_occurrence(s@, p@) {
            Some(i) => Some(i as usize),
            None => None::<usize>,
        }),
        r matches Some(i) ==> occurs_at(s@, p@, i as int),
        r matches Some(i) ==> first_occurrence(s@, p@) == Some(i as int),
        r is None <==> !contains(s@, p@),
{
    let mut i: usize = 0;
    while i < s.len()
        invariant
            i <= s.len(),
            forall|j: int| 0 <= j < i ==> !occurs_at(s@, p@, j),
        decreases s.len() - i,
    {
        if occurs_at_exec(s, p, i) {
            proof {
                lemma_first_occurrence(s@, p@, i as int);
            }
            return Some(i);
        }
        i = i + 1;
    }
    if occurs_at_exec(s, p, i) {
        proof {
            lemma_first_occurrence(s@, p@, i as int);
        }
        return Some(i);
    }
    assert forall|j: int| !occurs_at(s@, p@, j) by {
        if 0 <= j && j <= s@.len() {
        }
    }
    None
}

/// The first position of `p` in `s`.
pub fn find_str(s: &str, p: &str) -> (r: Option<usize>)
    ensures
        r == (match first_occurrence(s@, p@) {
            Some(i) => Some(i as usize),
            None => None::<usize>,
        }),
        r matches Some(i) ==> occurs_at(s@, p@, i as int),
        r matches Some(i) ==> first_occurrence(s@, p@) == Some(i as int),
        r is None <==> !contains(s@, p@),
{
    let sv = chars_of(s);
    let pv = chars_of(p);
    find_seq(&sv, &pv)
}

pub fn str_contains(s: &str, p: &str) -> (r: bool)
    ensures
        r == contains(s@, p@),
{
    find_str(s, p).is_some()
}

pub fn str_starts_with(s: &str, p: &str) -> (r: bool)
    ensures
        r == starts_with(s@, p@),
{
    let sv = chars_of(s);
    let pv = chars_of(p);
    occurs_at_exec(&sv, &pv, 0)
}

pub fn str_ends_with(s: &str, p: &str) -> (r: bool)
    ensures
        r == ends_with(s@, p@),
{
    let sv = chars_of(s);
    let pv = chars_of(p);
    if pv.len() > sv.len() {
        return false;
    }
    occurs_at_exec(&sv, &pv, sv.len() - pv.len())
}

/// Whether the character `c` occurs in `s`.
pub fn str_has_char(s: &str, c: char) -> (r: bool)
    ensures
        r == has_char(s@, c),
{
    let v = chars_of(s);
    let mut i: usize = 0;
    while i < v.len()
        invariant
            v@ == s@,
            i <= v.len(),
            forall|j: int| 0 <= j < i ==> v@[j] != c,
        decreases v.len() - i,
    {
        if v[i] == c {
            return true;
        }
        i = i + 1;
    }
    false
}

/// The first position of `c` in `s`.
pub open spec fn first_index_of(s: Seq<char>, c: char) -> Option<int> {
    if has_char(s, c) {
        Some(choose|i: int| 0 <= i < s.len() && s[i] == c && forall|j: int| 0 <= j < i ==> s[j] != c)
    } else {
        None
    }
}

/// The last position of `c` in `s`.
pub open spec fn last_index_of(s: Seq<char>, c: char) -> Option<int> {
    if has_char(s, c) {
        Some(choose|i: int| 0 <= i < s.len() && s[i] == c && forall|j: int| i < j < s.len() ==> s[j] != c)
    } else {
        None
    }
}

pub fn find_char(s: &str, c: char) -> (r: Option<usize>)
    ensures
        r == (match first_index_of(s@, c) {
            Some(i) => Some(i as usize),
            None => None::<usize>,
        }),
        r matches Some(i) ==> i < s@.len() && s@[i as int] == c && forall|j: int| 0 <= j < i ==> s@[j] != c,
        r is None ==> !has_char(s@, c),
{
    let v = chars_of(s);
    let mut i: usize = 0;
    while i < v.len()
        invariant
            v@ == s@,
            i <= v.len(),
            forall|j: int| 0 <= j < i ==> v@[j] != c,
        decreases v.len() - i,
    {
        if v[i] == c {
            proof {
                let w = choose|w: int| 0 <= w < s@.len() && s@[w] == c && forall|j: int| 0 <= j < w ==> s@[j] != c;
                assert(0 <= i < s@.len() && s@[i as int] == c && forall|j: int| 0 <= j < i ==> s@[j] != c);
                if w < i {
                } else if w > i {
                }
            }
            return Some(i);
        }
        i = i + 1;
    }
    None
}

pub fn rfind_char(s: &str, c: char) -> (r: Option<usize>)
    ensures
        r == (match last_index_of(s@, c) {
            Some(i) => Some(i as usize),
            None => None::<usize>,
        }),
        r matches Some(i) ==> i < s@.len() && s@[i as int] == c && forall|j: int| i < j < s@.len() ==> s@[j] != c,
        r is None ==> !has_char(s@, c),
{
    let v = chars_of(s);
    let mut i: usize = v.len();
    while i > 0
        invariant
            v@ == s@,
            i <= v.len(),
            forall|j: int| i <= j < v.len() ==> v@[j] != c,
        decreases i,
    {
        if v[i - 1] == c {
            proof {
                let k = (i - 1) as int;
                let w = choose|w: int| 0 <= w < s@.len() && s@[w] == c && forall|j: int| w < j < s@.len() ==> s@[j] != c;
                assert(0 <= k < s@.len() && s@[k] == c && forall|j: int| k < j < s@.len() ==> s@[j] != c);
                if w < k {
                } else if w > k {
                }
            }
            return Some(i - 1);
        }
        i = i - 1;
    }
    None
}

// ---------------------------------------------------------------------------
// Replacing
// ---------------------------------------------------------------------------

/// `str::replace` with a non-empty pattern: every non-overlapping occurrence of
/// `p`, scanning from the left, is replaced by `r`.
pub open spec fn replace(s: Seq<char>, p: Seq<char>, r: Seq<char>) -> Seq<char>
    decreases s.len(),
{
    if p.len() == 0 || s.len() < p.len() {
        s
    } else if s.subrange(0, p.len() as int) == p {
        r + replace(s.skip(p.len() as int), p, r)
    } else {
        seq![s[0]] + replace(s.skip(1), p, r)
    }
}

proof fn lemma_replace_step(s: Seq<char>, p: Seq<char>, r: Seq<char>, i: int)
    requires
        p.len() > 0,
        0 <= i <= s.len(),
    ensures
        i + p.len() <= s.len() && occurs_at(s, p, i) ==> replace(s.skip(i), p, r) == r + replace(
            s.skip(i + p.len()),
            p,
            r,
        ),
        i < s.len() && !(i + p.len() <= s.len() && occurs_at(s, p, i)) ==> replace(s.skip(i), p, r)
            == seq![s[i]] + replace(s.skip(i + 1), p, r),
{
    let t = s.skip(i);
    if i + p.len() <= s.len() {
        assert(t.subrange(0, p.len() as int) =~= s.subrange(i, i + p.len()));
        assert(t.skip(p.len() as int) =~= s.skip(i + p.len()));
    } else if i < s.len() {
        assert(t.len() < p.len());
    }
    if i < s.len() {
        assert(t.skip(1) =~= s.skip(i + 1));
        assert(t[0] == s[i]);
    }
}

/// Replaces every occurrence of `p` in `s` by `r`.
pub fn replace_str(s: &str, p: &str, r: &str) -> (out: String)
    requires
        p@.len() > 0,
    ensures
        out@ == replace(s@, p@, r@),
{
    let sv = chars_of(s);
    let pv = chars_of(p);
    let rv = chars_of(r);
    let mut out: Vec<char> = Vec::new();
    let mut i: usize = 0;
    assert(sv@.skip(0) == sv@);
    while i < sv.len()
        invariant
            sv@ == s@,
            pv@ == p@,
            rv@ == r@,
            p@.len() > 0,
            i <= sv.len(),
            out@ + replace(sv@.skip(i as int), pv@, rv@) == replace(sv@, pv@, rv@),
        decreases sv.len() - i,
    {
        proof {
            lemma_replace_step(sv@, pv@, rv@, i as int);
        }
        if occurs_at_exec(&sv, &pv, i) {
            let mut k: usize = 0;
            let ghost o = out@;
            while k < rv.len()
                invariant
                    k <= rv.len(),
                    out@ == o + rv@.subrange(0, k as int),
                decreases rv.len() - k,
            {
                out.push(rv[k]);
                k = k + 1;
            }
            assert(rv@.subrange(0, rv@.len() as int) == rv@);
            assert(out@ + replace(sv@.skip(i + pv.len()), pv@, rv@) == o + (rv@ + replace(
                sv@.skip(i + pv.len()),
                pv@,
                rv@,
            )));
            i = i + pv.len();
        } else {
            let ghost o = out@;
            out.push(sv[i]);
            assert(out@ + replace(sv@.skip(i + 1), pv@, rv@) == o + (seq![sv@[i as int]] + replace(
                sv@.skip(i + 1),
                pv@,
                rv@,
            )));
            i = i + 1;
        }
    }
    assert(sv@.skip(i as int).len() == 0);
    assert(out@ + sv@.skip(i as int) == out@);
    string_from(&out)
}

/// Replaces every occurrence of the character `c` in `s` by `r`.
pub open spec fn replace_char(s: Seq<char>, c: char, r: char) -> Seq<char> {
    s.map_values(|x: char| if x == c { r } else { x })
}

pub fn replace_char_str(s: &str, c: char, r: char) -> (out: String)
    ensures
        out@ == replace_char(s@, c, r),
{
    let v = chars_of(s);
    let mut out: Vec<char> = Vec::new();
    let mut i: usize = 0;
    while i < v.len()
        invariant
            v@ == s@,
            i <= v.len(),
            out@ == replace_char(s@.subrange(0, i as int), c, r),
        decreases v.len() - i,
    {
        if v[i] == c {
            out.push(r);
        } else {
            out.push(v[i]);
        }
        proof {
            assert(s@.subrange(0, i + 1) =~= s@.subrange(0, i as int).push(s@[i as int]));
        }
        i = i + 1;
    }
    assert(s@.subrange(0, s@.len() as int) == s@);
    string_from(&out)
}

/// Removes every occurrence of the characters `-` and `_`.
pub open spec fn drop_separators(s: Seq<char>) -> Seq<char> {
    s.filter(|c: char| c != '-' && c != '_')
}

// ---------------------------------------------------------------------------
// Trimming and whitespace
// ---------------------------------------------------------------------------

/// `s` without its leading characters that satisfy `f`.
pub open spec fn trim_start_by(s: Seq<char>, f: spec_fn(char) -> bool) -> Seq<char>
    decreases s.len(),
{
    if s.len() > 0 && f(s[0]) {
        trim_start_by(s.skip(1), f)
    } else {
        s
    }
}

/// `s` without its trailing characters that satisfy `f`.
pub open spec fn trim_end_by(s: Seq<char>, f: spec_fn(char) -> bool) -> Seq<char>
    decreases s.len(),
{
    if s.len() > 0 && f(s.last()) {
        trim_end_by(s.drop_last(), f)
    } else {
        s
    }
}

pub open spec fn trim_by(s: Seq<char>, f: spec_fn(char) -> bool) -> Seq<char> {
    trim_end_by(trim_start_by(s, f), f)
}

pub open spec fn ws_pred() -> spec_fn(char) -> bool {
    |c: char| is_ws(c)
}

/// `str::trim`: leading and trailing whitespace removed.
pub open spec fn trim(s: Seq<char>) -> Seq<char> {
    trim_by(s, ws_pred())
}

proof fn lemma_trim_start_index(s: Seq<char>, f: spec_fn(char) -> bool, i: int)
    requires
        0 <= i <= s.len(),
        forall|j: int| 0 <= j < i ==> f(s[j]),
    ensures
        trim_start_by(s, f) == trim_start_by(s.skip(i), f),
    decreases i,
{
    if i > 0 {
        lemma_trim_start_index(s.skip(1), f, i - 1);
        assert(s.skip(1).skip(i - 1) =~= s.skip(i));
    } else {
        assert(s.skip(0) =~= s);
    }
}

proof fn lemma_trim_end_index(s: Seq<char>, f: spec_fn(char) -> bool, i: int)
    requires
        0 <= i <= s.len(),
        forall|j: int| i <= j < s.len() ==> f(s[j]),
    ensures
        trim_end_by(s, f) == trim_end_by(s.subrange(0, i), f),
    decreases s.len() - i,
{
    if i < s.len() {
        lemma_trim_end_index(s.drop_last(), f, i);
        assert(s.drop_last().subrange(0, i) =~= s.subrange(0, i));
    } else {
        assert(s.subrange(0, i) =~= s);
    }
}

/// The sequence `v` with the leading and trailing characters in `set` removed
/// (with `ws` also removing whitespace).
pub open spec fn trim_pred(ws: bool, set: Seq<char>) -> spec_fn(char) -> bool {
    |c: char| (ws && is_ws(c)) || set.contains(c)
}

pub fn trim_chars_vec(v: &Vec<char>, set: &Vec<char>, ws: bool) -> (r: Vec<char>)
    ensures
        r@ == trim_by(v@, trim_pred(ws, set@)),
{
    let ghost f = trim_pred(ws, set@);
    let mut start: usize = 0;
    while start < v.len() && in_trim_set(v[start], set, ws)
        invariant
            start <= v.len(),
            forall|j: int| 0 <= j < start ==> (ws && is_ws(v@[j])) || set@.contains(v@[j]),
        decreases v.len() - start,
    {
        start = start + 1;
    }
    proof {
        lemma_trim_start_index(v@, f, start as int);
    }
    let ghost rest = v@.skip(start as int);
    assert(trim_start_by(rest, f) == rest);
    let mut end: usize = v.len();
    while end > start && in_trim_set(v[end - 1], set, ws)
        invariant
            start <= end <= v.len(),
            forall|j: int| end <= j < v.len() ==> (ws && is_ws(v@[j])) || set@.contains(v@[j]),
        decreases end,
    {
        end = end - 1;
    }
    proof {
        lemma_trim_end_index(rest, f, end - start);
        assert forall|j: int| end - start <= j < rest.len() implies f(rest[j]) by {
            assert(rest[j] == v@[j + start]);
        }
        let part = rest.subrange(0, end - start);
        if part.len() > 0 {
            assert(part.last() == v@[end - 1]);
            assert(!f(part.last()));
        }
        assert(trim_end_by(part, f) == part);
    }
    let mut out: Vec<char> = Vec::new();
    let mut k: usize = start;
    while k < end
        invariant
            start <= k <= end <= v.len(),
            out@ == v@.subrange(start as int, k as int),
        decreases end - k,
    {
        out.push(v[k]);
        k = k + 1;
    }
    assert(out@ =~= rest.subrange(0, end - start));
    out
}

fn in_trim_set(c: char, set: &Vec<char>, ws: bool) -> (r: bool)
    ensures
        r == ((ws && is_ws(c)) || set@.contains(c)),
{
    if ws && char_is_ws(c) {
        return true;
    }
    let mut i: usize = 0;
    while i < set.len()
        invariant
            i <= set.len(),
            forall|j: int| 0 <= j < i ==> set@[j] != c,
        decreases set.len() - i,
    {
        if set[i] == c {
            assert(set@[i as int] == c);
            return true;
        }
        i = i + 1;
    }
    false
}

/// `str::trim`.
pub fn trim_str(s: &str) -> (r: String)
    ensures
        r@ == trim(s@),
{
    let v = chars_of(s);
    let empty: Vec<char> = Vec::new();
    let t = trim_chars_vec(&v, &empty, true);
    assert(trim_pred(true, empty@) =~= ws_pred()) by {
        assert forall|c: char| #[trigger] trim_pred(true, empty@)(c) == ws_pred()(c) by {
            assert(!empty@.contains(c));
        }
    }
    string_from(&t)
}

/// The words of `s` (maximal runs of non-whitespace characters), joined by
/// single spaces. Defined from the right: a character either extends the last
/// word or, after whitespace, starts a new one.
pub open spec fn squash_ws(s: Seq<char>) -> Seq<char>
    decreases s.len(),
{
    if s.len() == 0 {
        Seq::empty()
    } else if is_ws(s.last()) {
        squash_ws(s.drop_last())
    } else if squash_ws(s.drop_last()).len() > 0 && is_ws(s.drop_last().last()) {
        squash_ws(s.drop_last()).push(' ').push(s.last())
    } else {
        squash_ws(s.drop_last()).push(s.last())
    }
}

/// `split_whitespace` followed by `join(" ")`.
pub fn squash_ws_str(s: &str) -> (r: String)
    ensures
        r@ == squash_ws(s@),
{
    let v = chars_of(s);
    let mut out: Vec<char> = Vec::new();
    let mut i: usize = 0;
    while i < v.len()
        invariant
            v@ == s@,
            i <= v.len(),
            out@ == squash_ws(s@.subrange(0, i as int)),
        decreases v.len() - i,
    {
        let c = v[i];
        proof {
            let pre = s@.subrange(0, i + 1);
            assert(pre.drop_last() =~= s@.subrange(0, i as int));
            assert(pre.last() == c);
        }
        if char_is_ws(c) {
        } else if out.len() > 0 && char_is_ws(v[i - 1]) {
            proof {
                assert(s@.subrange(0, i as int).last() == v@[i - 1]);
            }
            out.push(' ');
            out.push(c);
        } else {
            proof {
                if out.len() > 0 {
                    assert(s@.subrange(0, i as int).last() == v@[i - 1]);
                }
            }
            out.push(c);
        }
        i = i + 1;
    }
    assert(s@.subrange(0, s@.len() as int) == s@);
    string_from(&out)
}

// ---------------------------------------------------------------------------
// Case mapping on ASCII letters
// ---------------------------------------------------------------------------

pub fn lower_char_exec(c: char) -> (r: char)
    ensures
        r == lower_char(c),
{
    if 'A' <= c && c <= 'Z' {
        let b: u8 = c as u8;
        assert(b == c as u32);
        (b + 32) as char
    } else {
        c
    }
}

pub fn upper_char_exec(c: char) -> (r: char)
    ensures
        r == upper_char(c),
{
    if 'a' <= c && c <= 'z' {
        let b: u8 = c as u8;
        assert(b == c as u32);
        (b - 32) as char
    } else {
        c
    }
}

} // verus!

verus! {

// ---------------------------------------------------------------------------
// Digits and numbers
// ---------------------------------------------------------------------------

/// `s` with `'0'`s added in front up to `width` characters (`format!("{:0>w$}")`).
pub open spec fn zero_pad(s: Seq<char>, width: nat) -> Seq<char> {
    if s.len() < width {
        Seq::new((width - s.len()) as nat, |_i: int| '0') + s
    } else {
        s
    }
}

pub fn zero_pad_str(s: &str, width: usize) -> (r: String)
    ensures
        r@ == zero_pad(s@, width as nat),
{
    let v = chars_of(s);
    if v.len() >= width {
        return string_from(&v);
    }
    let mut out: Vec<char> = Vec::new();
    let fill = width - v.len();
    let mut i: usize = 0;
    while i < fill
        invariant
            i <= fill,
            out@ == Seq::new(i as nat, |_i: int| '0'),
        decreases fill - i,
    {
        out.push('0');
        i = i + 1;
        assert(out@ =~= Seq::new(i as nat, |_i: int| '0'));
    }
    let mut k: usize = 0;
    let ghost pre = out@;
    while k < v.len()
        invariant
            k <= v.len(),
            v@ == s@,
            out@ == pre + s@.subrange(0, k as int),
        decreases v.len() - k,
    {
        out.push(v[k]);
        k = k + 1;
    }
    assert(s@.subrange(0, s@.len() as int) == s@);
    string_from(&out)
}

/// The characters of `s` for which `char::is_numeric` holds.
pub open spec fn numeric_only(s: Seq<char>) -> Seq<char> {
    s.filter(|c: char| is_numeric(c))
}

pub fn numeric_only_str(s: &str) -> (r: String)
    ensures
        r@ == numeric_only(s@),
{
    let v = chars_of(s);
    let mut out: Vec<char> = Vec::new();
    let mut i: usize = 0;
    while i < v.len()
        invariant
            v@ == s@,
            i <= v.len(),
            out@ == numeric_only(s@.subrange(0, i as int)),
        decreases v.len() - i,
    {
        let c = v[i];
        proof {
            let pre = s@.subrange(0, i + 1);
            assert(pre.drop_last() =~= s@.subrange(0, i as int));
            assert(pre.last() == c);
            reveal_with_fuel(Seq::filter, 1);
        }
        if char_is_numeric(c) {
            out.push(c);
        }
        i = i + 1;
    }
    assert(s@.subrange(0, s@.len() as int) == s@);
    string_from(&out)
}

/// `s` without its leading `'0'`s (`trim_start_matches('0')`).
pub open spec fn strip_leading_zeros(s: Seq<char>) -> Seq<char> {
    trim_start_by(s, |c: char| c == '0')
}

pub fn strip_leading_zeros_str(s: &str) -> (r: String)
    ensures
        r@ == strip_leading_zeros(s@),
{
    let v = chars_of(s);
    let mut i: usize = 0;
    while i < v.len() && v[i] == '0'
        invariant
            v@ == s@,
            i <= v.len(),
            forall|j: int| 0 <= j < i ==> v@[j] == '0',
        decreases v.len() - i,
    {
        i = i + 1;
    }
    proof {
        lemma_trim_start_index(s@, |c: char| c == '0', i as int);
    }
    let n = v.len();
    let w = slice_chars(&v, i, n);
    string_from(&w)
}

pub open spec fn digit_char(d: nat) -> char {
    if d == 0 { '0' }
    else if d == 1 { '1' }
    else if d == 2 { '2' }
    else if d == 3 { '3' }
    else if d == 4 { '4' }
    else if d == 5 { '5' }
    else if d == 6 { '6' }
    else if d == 7 { '7' }
    else if d == 8 { '8' }
    else { '9' }
}

pub open spec fn digit_value(c: char) -> nat {
    ((c as u32) - ('0' as u32)) as nat
}

/// The decimal digits of `n`, without leading zeros (`"0"` for zero).
pub open spec fn decimal(n: nat) -> Seq<char>
    decreases n,
{
    if n < 10 {
        seq![digit_char(n)]
    } else {
        decimal(n / 10).push(digit_char(n % 10))
    }
}

fn digit_char_exec(d: u64) -> (c: char)
    requires
        d < 10,
    ensures
        c == digit_char(d as nat),
{
    if d == 0 { '0' }
    else if d == 1 { '1' }
    else if d == 2 { '2' }
    else if d == 3 { '3' }
    else if d == 4 { '4' }
    else if d == 5 { '5' }
    else if d == 6 { '6' }
    else if d == 7 { '7' }
    else if d == 8 { '8' }
    else { '9' }
}

/// The decimal representation of `n` (`n.to_string()`).
pub fn decimal_str(n: u64) -> (r: String)
    ensures
        r@ == decimal(n as nat),
{
    let v = decimal_vec(n);
    string_from(&v)
}

fn decimal_vec(n: u64) -> (r: Vec<char>)
    ensures
        r@ == decimal(n as nat),
    decreases n,
{
    if n < 10 {
        let mut v = Vec::new();
        v.push(digit_char_exec(n));
        v
    } else {
        let mut v = decimal_vec(n / 10);
        v.push(digit_char_exec(n % 10));
        v
    }
}

/// The value of a run of ASCII decimal digits.
pub open spec fn digits_value(s: Seq<char>) -> nat
    decreases s.len(),
{
    if s.len() == 0 {
        0
    } else {
        digits_value(s.drop_last()) * 10 + digit_value(s.last())
    }
}

pub open spec fn all_ascii_digits(s: Seq<char>) -> bool {
    forall|i: int| 0 <= i < s.len() ==> is_ascii_digit(#[trigger] s[i])
}

/// What `str::parse` gives for an unsigned integer type with maximum `max`:
/// an optional `+`, then one or more ASCII digits, whose value fits.
pub open spec fn parse_unsigned(s: Seq<char>, max: nat) -> Option<nat> {
    let body = if s.len() > 0 && s[0] == '+' { s.skip(1) } else { s };
    if body.len() > 0 && all_ascii_digits(body) && digits_value(body) <= max {
        Some(digits_value(body))
    } else {
        None
    }
}

/// `str::parse::<u64>` written out: `None` where the standard parser fails.
pub fn parse_u64(s: &str) -> (r: Option<u64>)
    ensures
        r matches Some(n) ==> parse_unsigned(s@, u64::MAX as nat) == Some(n as nat),
        r is None ==> parse_unsigned(s@, u64::MAX as nat) is None,
{
    let v = chars_of(s);
    let start: usize = if v.len() > 0 && v[0] == '+' { 1 } else { 0 };
    let ghost body = if s@.len() > 0 && s@[0] == '+' { s@.skip(1) } else { s@ };
    assert(body =~= v@.skip(start as int));
    if start >= v.len() {
        return None;
    }
    let mut acc: u64 = 0;
    let mut i: usize = start;
    while i < v.len()
        invariant
            v@ == s@,
            start <= i <= v.len(),
            body == v@.skip(start as int),
            body == (if s@.len() > 0 && s@[0] == '+' { s@.skip(1) } else { s@ }),
            all_ascii_digits(v@.subrange(start as int, i as int)),
            acc as nat == digits_value(v@.subrange(start as int, i as int)),
        decreases v.len() - i,
    {
        let c = v[i];
        proof {
            let pre = v@.subrange(start as int, i + 1);
            assert(pre.drop_last() =~= v@.subrange(start as int, i as int));
            assert(pre.last() == c);
            assert(digits_value(pre) == digits_value(v@.subrange(start as int, i as int)) * 10 + digit_value(c));
        }
        if !char_is_ascii_digit(c) {
            proof {
                assert(body[i - start] == c);
                assert(!is_ascii_digit(body[i - start]));
                assert(!all_ascii_digits(body));
            }
            return None;
        }
        let d: u64 = (c as u32 - '0' as u32) as u64;
        if acc > (u64::MAX - d) / 10 {
            proof {
                let pre = v@.subrange(start as int, i + 1);
                assert(digits_value(pre) == acc * 10 + d);
                assert(acc * 10 + d > u64::MAX) by (nonlinear_arith)
                    requires acc > (u64::MAX - d) / 10, d < 10;
                lemma_digits_value_prefix_le(body, (i + 1 - start) as int);
                assert(pre =~= body.subrange(0, i + 1 - start));
                assert(digits_value(body) > u64::MAX);
            }
            return None;
        }
        assert(acc * 10 + d <= u64::MAX) by (nonlinear_arith)
            requires acc <= (u64::MAX - d) / 10, d < 10;
        acc = acc * 10 + d;
        i = i + 1;
        proof {
            assert forall|j: int| 0 <= j < v@.subrange(start as int, i as int).len() implies is_ascii_digit(
                #[trigger] v@.subrange(start as int, i as int)[j],
            ) by {
                if j < i - 1 - start {
                    assert(v@.subrange(start as int, i as int)[j] == v@.subrange(start as int, i - 1)[j]);
                }
            }
        }
    }
    assert(v@.subrange(start as int, v.len() as int) =~= body);
    Some(acc)
}

/// `k` zeros.
pub open spec fn zeros(k: nat) -> Seq<char> {
    Seq::new(k, |_i: int| '0')
}

proof fn lemma_digit_char_value(c: char)
    requires
        is_ascii_digit(c),
    ensures
        digit_value(c) < 10,
        digit_char(digit_value(c)) == c,
{
    let v = c as u32;
    assert(48 <= v <= 57);
    if v == 48 {
        assert(c == '0');
    } else if v == 49 {
        assert(c == '1');
    } else if v == 50 {
        assert(c == '2');
    } else if v == 51 {
        assert(c == '3');
    } else if v == 52 {
        assert(c == '4');
    } else if v == 53 {
        assert(c == '5');
    } else if v == 54 {
        assert(c == '6');
    } else if v == 55 {
        assert(c == '7');
    } else if v == 56 {
        assert(c == '8');
    } else {
        assert(c == '9');
    }
}

proof fn lemma_digits_value_positive(t: Seq<char>)
    requires
        t.len() >= 1,
        all_ascii_digits(t),
        t[0] != '0',
    ensures
        digits_value(t) >= 1,
    decreases t.len(),
{
    if t.len() == 1 {
        assert(t.drop_last().len() == 0);
        assert(t.last() == t[0]);
        assert(digit_value(t[0]) >= 1);
    } else {
        let u = t.drop_last();
        assert(u[0] == t[0]);
        assert(all_ascii_digits(u)) by {
            assert forall|i: int| 0 <= i < u.len() implies is_ascii_digit(#[trigger] u[i]) by {
                assert(u[i] == t[i]);
            }
        }
        lemma_digits_value_positive(u);
    }
}

/// The decimal text of the value of a digit string without leading zeros is
/// the string itself.
pub proof fn lemma_decimal_of_digits(t: Seq<char>)
    requires
        t.len() >= 1,
        all_ascii_digits(t),
        t[0] != '0',
    ensures
        decimal(digits_value(t)) == t,
    decreases t.len(),
{
    let c = t.last();
    assert(is_ascii_digit(c)) by {
        assert(c == t[t.len() - 1]);
    }
    lemma_digit_char_value(c);
    if t.len() == 1 {
        assert(t.drop_last().len() == 0);
        assert(digits_value(t.drop_last()) == 0);
        assert(digits_value(t) == digit_value(c));
        assert(t =~= seq![c]);
    } else {
        let u = t.drop_last();
        assert(u[0] == t[0]);
        assert(all_ascii_digits(u)) by {
            assert forall|i: int| 0 <= i < u.len() implies is_ascii_digit(#[trigger] u[i]) by {
                assert(u[i] == t[i]);
            }
        }
        lemma_decimal_of_digits(u);
        lemma_digits_value_positive(u);
        let n = digits_value(t);
        assert(n == digits_value(u) * 10 + digit_value(c));
        assert(n >= 10);
        assert(n / 10 == digits_value(u));
        assert(n % 10 == digit_value(c));
        assert(decimal(n) == decimal(n / 10).push(digit_char(n % 10)));
        assert(t =~= u.push(c));
    }
}

/// Zeros in front of a digit string change neither its value nor what is
/// left once leading zeros are stripped.
pub proof fn lemma_leading_zeros(k: nat, d: Seq<char>)
    ensures
        digits_value(zeros(k) + d) == digits_value(d),
        strip_leading_zeros(zeros(k) + d) == strip_leading_zeros(d),
    decreases d.len() + k,
{
    if d.len() > 0 {
        let e = d.drop_last();
        lemma_leading_zeros(k, e);
        assert((zeros(k) + d).drop_last() =~= zeros(k) + e);
        assert((zeros(k) + d).last() == d.last());
    } else {
        if k > 0 {
            lemma_leading_zeros((k - 1) as nat, d);
            assert((zeros(k) + d).drop_last() =~= zeros((k - 1) as nat) + d);
        } else {
            assert(zeros(k) + d =~= d);
        }
    }
    if k > 0 {
        lemma_leading_zeros((k - 1) as nat, d);
        let s = zeros(k) + d;
        assert(s.len() > 0 && s[0] == '0');
        assert(s.skip(1) =~= zeros((k - 1) as nat) + d);
        assert(strip_leading_zeros(s) == trim_start_by(s.skip(1), |c: char| c == '0'));
    } else {
        assert(zeros(k) + d =~= d);
    }
}

/// A digit string is its leading zeros followed by what is left once they
/// are stripped, which is empty or does not start with `0`.
pub proof fn lemma_strip_zeros_split(s: Seq<char>)
    ensures
        strip_leading_zeros(s).len() <= s.len(),
        s == zeros((s.len() - strip_leading_zeros(s).len()) as nat) + strip_leading_zeros(s),
        strip_leading_zeros(s).len() > 0 ==> strip_leading_zeros(s)[0] != '0',
    decreases s.len(),
{
    if s.len() > 0 && s[0] == '0' {
        lemma_strip_zeros_split(s.skip(1));
        assert(strip_leading_zeros(s) == strip_leading_zeros(s.skip(1)));
        let t = strip_leading_zeros(s);
        let k = (s.len() - t.len()) as nat;
        assert(s =~= seq!['0'] + s.skip(1));
        assert(zeros(k) =~= seq!['0'] + zeros((k - 1) as nat));
        assert(s =~= zeros(k) + t);
    } else {
        assert(strip_leading_zeros(s) == s);
        assert(zeros(0) + s =~= s);
    }
}

proof fn lemma_digits_value_prefix_le(s: Seq<char>, k: int)
    requires
        0 <= k <= s.len(),
    ensures
        digits_value(s.subrange(0, k)) <= digits_value(s),
    decreases s.len() - k,
{
    if k < s.len() {
        lemma_digits_value_prefix_le(s, k + 1);
        let a = s.subrange(0, k + 1);
        assert(a.drop_last() =~= s.subrange(0, k));
        assert(digits_value(a) == digits_value(s.subrange(0, k)) * 10 + digit_value(a.last()));
    } else {
        assert(s.subrange(0, k) =~= s);
    }
}

} // verus!

verus! {

// ---------------------------------------------------------------------------
// Splitting
// ---------------------------------------------------------------------------

/// `str::split_whitespace`: the maximal runs of non-whitespace characters, in
/// order. Defined from the right: a character either extends the last word or,
/// after whitespace (or at the start), begins a new one.
pub open spec fn words(s: Seq<char>) -> Seq<Seq<char>>
    decreases s.len(),
{
    if s.len() == 0 {
        Seq::empty()
    } else if is_ws(s.last()) {
        words(s.drop_last())
    } else if s.len() == 1 || is_ws(s.drop_last().last()) {
        words(s.drop_last()).push(seq![s.last()])
    } else {
        let w = words(s.drop_last());
        w.update(w.len() - 1, w.last().push(s.last()))
    }
}

proof fn lemma_words_nonempty(s: Seq<char>)
    requires
        s.len() > 0,
        !is_ws(s.last()),
    ensures
        words(s).len() > 0,
    decreases s.len(),
{
    if s.len() > 1 && !is_ws(s.drop_last().last()) {
        lemma_words_nonempty(s.drop_last());
    }
}

pub open spec fn views_of(v: Seq<String>) -> Seq<Seq<char>> {
    v.map_values(|s: String| s@)
}

/// `split_whitespace`, collected into owned strings.
pub fn split_whitespace_str(s: &str) -> (r: Vec<String>)
    ensures
        views_of(r@) == words(s@),
{
    let v = chars_of(s);
    let mut out: Vec<Vec<char>> = Vec::new();
    let mut i: usize = 0;
    while i < v.len()
        invariant
            v@ == s@,
            i <= v.len(),
            out@.map_values(|w: Vec<char>| w@) == words(s@.subrange(0, i as int)),
        decreases v.len() - i,
    {
        let c = v[i];
        let ghost pre = s@.subrange(0, i as int);
        let ghost next = s@.subrange(0, i + 1);
        proof {
            assert(next.drop_last() =~= pre);
            assert(next.last() == c);
        }
        if char_is_ws(c) {
        } else if i == 0 || char_is_ws(v[i - 1]) {
            proof {
                if i > 0 {
                    assert(pre.last() == v@[i - 1]);
                }
            }
            let mut w: Vec<char> = Vec::new();
            w.push(c);
            out.push(w);
            proof {
                assert(out@.map_values(|w: Vec<char>| w@) =~= words(pre).push(seq![c]));
            }
        } else {
            proof {
                assert(pre.last() == v@[i - 1]);
                lemma_words_nonempty(pre);
            }
            let k = out.len() - 1;
            let mut w = out.remove(k);
            let ghost before = out@;
            w.push(c);
            out.push(w);
            proof {
                let old_words = words(pre);
                assert(out@.map_values(|w: Vec<char>| w@) =~= old_words.update(
                    old_words.len() - 1,
                    old_words.last().push(c),
                ));
            }
        }
        i = i + 1;
    }
    assert(s@.subrange(0, s@.len() as int) == s@);
    let mut r: Vec<String> = Vec::new();
    let mut j: usize = 0;
    while j < out.len()
        invariant
            j <= out.len(),
            views_of(r@) == out@.map_values(|w: Vec<char>| w@).subrange(0, j as int),
        decreases out.len() - j,
    {
        let ghost o = r@;
        let x = string_from(&out[j]);
        r.push(x);
        proof {
            assert(views_of(r@) =~= views_of(o).push(x@));
            assert(out@.map_values(|w: Vec<char>| w@).subrange(0, j + 1) =~= out@.map_values(
                |w: Vec<char>| w@,
            ).subrange(0, j as int).push(out@[j as int]@));
        }
        j = j + 1;
    }
    assert(out@.map_values(|w: Vec<char>| w@).subrange(0, out@.len() as int) =~= out@.map_values(
        |w: Vec<char>| w@,
    ));
    r
}

/// `str::split(c)`: the pieces between occurrences of `c`, empty pieces
/// included. Defined from the right.
pub open spec fn split_on(s: Seq<char>, c: char) -> Seq<Seq<char>>
    decreases s.len(),
{
    if s.len() == 0 {
        seq![Seq::empty()]
    } else if s.last() == c {
        split_on(s.drop_last(), c).push(Seq::empty())
    } else {
        let p = split_on(s.drop_last(), c);
        p.update(p.len() - 1, p.last().push(s.last()))
    }
}

proof fn lemma_split_on_nonempty(s: Seq<char>, c: char)
    ensures
        split_on(s, c).len() > 0,
    decreases s.len(),
{
    if s.len() > 0 {
        lemma_split_on_nonempty(s.drop_last(), c);
    }
}

/// `s.split(c)`, collected into owned strings.
pub fn split_on_str(s: &str, c: char) -> (r: Vec<String>)
    ensures
        views_of(r@) == split_on(s@, c),
{
    let v = chars_of(s);
    let mut out: Vec<Vec<char>> = Vec::new();
    out.push(Vec::new());
    let mut i: usize = 0;
    assert(out@.map_values(|w: Vec<char>| w@) =~= split_on(s@.subrange(0, 0), c));
    while i < v.len()
        invariant
            v@ == s@,
            i <= v.len(),
            out@.map_values(|w: Vec<char>| w@) == split_on(s@.subrange(0, i as int), c),
        decreases v.len() - i,
    {
        let x = v[i];
        let ghost pre = s@.subrange(0, i as int);
        let ghost next = s@.subrange(0, i + 1);
        proof {
            assert(next.drop_last() =~= pre);
            assert(next.last() == x);
            lemma_split_on_nonempty(pre, c);
        }
        if x == c {
            out.push(Vec::new());
            proof {
                assert(out@.map_values(|w: Vec<char>| w@) =~= split_on(pre, c).push(Seq::empty()));
            }
        } else {
            let k = out.len() - 1;
            let mut w = out.remove(k);
            w.push(x);
            out.push(w);
            proof {
                let p = split_on(pre, c);
                assert(out@.map_values(|w: Vec<char>| w@) =~= p.update(p.len() - 1, p.last().push(x)));
            }
        }
        i = i + 1;
    }
    assert(s@.subrange(0, s@.len() as int) == s@);
    let mut r: Vec<String> = Vec::new();
    let mut j: usize = 0;
    while j < out.len()
        invariant
            j <= out.len(),
            views_of(r@) == out@.map_values(|w: Vec<char>| w@).subrange(0, j as int),
        decreases out.len() - j,
    {
        let ghost o = r@;
        let x = string_from(&out[j]);
        r.push(x);
        proof {
            assert(views_of(r@) =~= views_of(o).push(x@));
            assert(out@.map_values(|w: Vec<char>| w@).subrange(0, j + 1) =~= out@.map_values(
                |w: Vec<char>| w@,
            ).subrange(0, j as int).push(out@[j as int]@));
        }
        j = j + 1;
    }
    assert(out@.map_values(|w: Vec<char>| w@).subrange(0, out@.len() as int) =~= out@.map_values(
        |w: Vec<char>| w@,
    ));
    r
}

/// `s` without its last `n` characters (unchanged when it is shorter).
pub open spec fn drop_last_n(s: Seq<char>, n: nat) -> Seq<char> {
    if n <= s.len() {
        s.subrange(0, s.len() - n)
    } else {
        s
    }
}

pub fn drop_last_n_str(s: &str, n: usize) -> (r: String)
    ensures
        r@ == drop_last_n(s@, n as nat),
{
    let v = chars_of(s);
    if n <= v.len() {
        let w = slice_chars(&v, 0, v.len() - n);
        string_from(&w)
    } else {
        string_from(&v)
    }
}

/// `s` without its first `n` characters (empty when it is shorter).
pub fn skip_chars_str(s: &str, n: usize) -> (r: String)
    ensures
        r@ == (if n <= s@.len() { s@.skip(n as int) } else { Seq::<char>::empty() }),
{
    let v = chars_of(s);
    if n <= v.len() {
        let w = slice_chars(&v, n, v.len());
        string_from(&w)
    } else {
        String::new()
    }
}

/// The first `n` characters of `s`.
pub fn take_chars_str(s: &str, n: usize) -> (r: String)
    requires
        n <= s@.len(),
    ensures
        r@ == s@.take(n as int),
{
    let v = chars_of(s);
    let w = slice_chars(&v, 0, n);
    string_from(&w)
}

} // verus!
