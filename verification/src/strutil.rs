//! Verified helpers for working with strings as sequences of characters.
//!
//! Executable code in this crate manipulates text as `Vec<char>`, whose view
//! is the same `Seq<char>` that `String` and `&str` views use; the helpers
//! here convert between the two and give the usual searching, splitting and
//! trimming operations exact contracts.

use vstd::prelude::*;

verus! {

/// Whitespace, as the trimming helpers here understand it: the Unicode
/// White_Space set, the same characters `str::trim` trims.
pub open spec fn spec_is_ws(c: char) -> bool {
    ||| 9 <= c as u32 <= 13
    ||| c as u32 == 32
    ||| c as u32 == 133
    ||| c as u32 == 160
    ||| c as u32 == 5760
    ||| 8192 <= c as u32 <= 8202
    ||| c as u32 == 8232
    ||| c as u32 == 8233
    ||| c as u32 == 8239
    ||| c as u32 == 8287
    ||| c as u32 == 12288
}

/// Decides whitespace.
pub fn is_ws(c: char) -> (r: bool)
    ensures
        r == spec_is_ws(c),
{
    let n = c as u32;
    (9 <= n && n <= 13) || n == 32 || n == 133 || n == 160 || n == 5760 || (8192 <= n && n
        <= 8202) || n == 8232 || n == 8233 || n == 8239 || n == 8287 || n == 12288
}

/// Compares two string slices character by character.
pub fn str_eq(a: &str, b: &str) -> (r: bool)
    ensures
        r == (a@ == b@),
{
    let alen = a.unicode_len();
    let blen = b.unicode_len();
    if alen != blen {
        proof {
            if a@ == b@ {
                assert(a@.len() == b@.len());
            }
        }
        return false;
    }
    let mut i: usize = 0;
    while i < alen
        invariant
            i <= alen,
            alen == a@.len(),
            alen == b@.len(),
            forall|j: int| 0 <= j < i ==> a@[j] == b@[j],
        decreases alen - i,
    {
        if a.get_char(i) != b.get_char(i) {
            proof {
                if a@ == b@ {
                    assert(a@[i as int] == b@[i as int]);
                }
            }
            return false;
        }
        i += 1;
    }
    proof {
        assert(a@ =~= b@);
    }
    true
}

/// Collects the characters of a string slice into a vector.
pub fn str_to_chars(s: &str) -> (v: Vec<char>)
    ensures
        v@ == s@,
{
    let len = s.unicode_len();
    let mut v: Vec<char> = Vec::new();
    let mut i: usize = 0;
    while i < len
        invariant
            i <= len,
            len == s@.len(),
            v@ == s@.subrange(0, i as int),
        decreases len - i,
    {
        v.push(s.get_char(i));
        proof {
            assert(v@ =~= s@.subrange(0, i + 1 as int));
        }
        i += 1;
    }
    proof {
        assert(v@ =~= s@);
    }
    v
}

/// Builds a `String` from a vector of characters.
///
/// Relies on `String`'s `FromIterator<char>` implementation: collecting
/// characters yields the string of exactly those characters in order.
#[verifier::external_body]
pub fn chars_to_string(v: &Vec<char>) -> (s: String)
    ensures
        s@ == v@,
{
    v.iter().collect()
}

/// Appends the characters of a string slice to a vector.
pub fn push_str_chars(out: &mut Vec<char>, s: &str)
    ensures
        final(out)@ == old(out)@ + s@,
{
    let len = s.unicode_len();
    let mut i: usize = 0;
    while i < len
        invariant
            i <= len,
            len == s@.len(),
            out@ == old(out)@ + s@.subrange(0, i as int),
        decreases len - i,
    {
        out.push(s.get_char(i));
        proof {
            assert(out@ =~= old(out)@ + s@.subrange(0, i + 1 as int));
        }
        i += 1;
    }
    proof {
        assert(old(out)@ + s@.subrange(0, len as int) =~= old(out)@ + s@);
    }
}

/// Appends one character vector to another.
pub fn push_all(out: &mut Vec<char>, s: &Vec<char>)
    ensures
        final(out)@ == old(out)@ + s@,
{
    let len = s.len();
    let mut i: usize = 0;
    while i < len
        invariant
            i <= len,
            len == s@.len(),
            out@ == old(out)@ + s@.subrange(0, i as int),
        decreases len - i,
    {
        out.push(s[i]);
        proof {
            assert(out@ =~= old(out)@ + s@.subrange(0, i + 1 as int));
        }
        i += 1;
    }
    proof {
        assert(old(out)@ + s@.subrange(0, len as int) =~= old(out)@ + s@);
    }
}

/// Compares a character vector against a string slice.
pub fn chars_eq_str(v: &Vec<char>, s: &str) -> (r: bool)
    ensures
        r == (v@ == s@),
{
    let slen = s.unicode_len();
    if v.len() != slen {
        proof {
            if v@ == s@ {
                assert(v@.len() == s@.len());
            }
        }
        return false;
    }
    let mut i: usize = 0;
    while i < slen
        invariant
            i <= slen,
            slen == s@.len(),
            slen == v@.len(),
            forall|j: int| 0 <= j < i ==> v@[j] == s@[j],
        decreases slen - i,
    {
        if v[i] != s.get_char(i) {
            proof {
                if v@ == s@ {
                    assert(v@[i as int] == s@[i as int]);
                }
            }
            return false;
        }
        i += 1;
    }
    proof {
        assert(v@ =~= s@);
    }
    true
}

/// One sequence begins with another.
pub open spec fn spec_starts_with(s: Seq<char>, p: Seq<char>) -> bool {
    p.len() <= s.len() && s.subrange(0, p.len() as int) == p
}

/// One sequence ends with another.
pub open spec fn spec_ends_with(s: Seq<char>, p: Seq<char>) -> bool {
    p.len() <= s.len() && s.subrange(s.len() - p.len(), s.len() as int) == p
}

/// Tests whether a character vector begins with the given string.
pub fn starts_with_str(v: &Vec<char>, p: &str) -> (r: bool)
    ensures
        r == spec_starts_with(v@, p@),
{
    let plen = p.unicode_len();
    if plen > v.len() {
        return false;
    }
    let mut i: usize = 0;
    while i < plen
        invariant
            i <= plen,
            plen == p@.len(),
            plen <= v@.len(),
            forall|j: int| 0 <= j < i ==> v@[j] == p@[j],
        decreases plen - i,
    {
        if v[i] != p.get_char(i) {
            proof {
                if spec_starts_with(v@, p@) {
                    assert(v@.subrange(0, plen as int)[i as int] == p@[i as int]);
                }
            }
            return false;
        }
        i += 1;
    }
    proof {
        assert(v@.subrange(0, plen as int) =~= p@);
    }
    true
}

/// Tests whether a character vector ends with the given string.
pub fn ends_with_str(v: &Vec<char>, p: &str) -> (r: bool)
    ensures
        r == spec_ends_with(v@, p@),
{
    let plen = p.unicode_len();
    let vlen = v.len();
    if plen > vlen {
        return false;
    }
    let off = vlen - plen;
    let mut i: usize = 0;
    while i < plen
        invariant
            i <= plen,
            plen == p@.len(),
            plen <= vlen,
            vlen == v@.len(),
            off == vlen - plen,
            forall|j: int| 0 <= j < i ==> v@[off + j] == p@[j],
        decreases plen - i,
    {
        if v[off + i] != p.get_char(i) {
            proof {
                if spec_ends_with(v@, p@) {
                    assert(v@.subrange(v@.len() - p@.len(), v@.len() as int)[i as int] == p@[
                        i as int
                    ]);
                }
            }
            return false;
        }
        i += 1;
    }
    proof {
        assert(v@.subrange(v@.len() - p@.len(), v@.len() as int) =~= p@);
    }
    true
}

/// Copies the characters of `v` between the indices `i` and `j`.
pub fn subvec(v: &Vec<char>, i: usize, j: usize) -> (r: Vec<char>)
    requires
        i <= j <= v@.len(),
    ensures
        r@ == v@.subrange(i as int, j as int),
{
    let mut r: Vec<char> = Vec::new();
    let mut k: usize = i;
    while k < j
        invariant
            i <= k <= j <= v@.len(),
            r@ == v@.subrange(i as int, k as int),
        decreases j - k,
    {
        r.push(v[k]);
        proof {
            assert(r@ =~= v@.subrange(i as int, k + 1 as int));
        }
        k += 1;
    }
    r
}

/// The position of the first occurrence of a character.
pub open spec fn spec_find_first(s: Seq<char>, c: char) -> Option<int>
    decreases s.len(),
{
    if s.len() == 0 {
        None
    } else if s[0] == c {
        Some(0int)
    } else {
        match spec_find_first(s.drop_first(), c) {
            Some(i) => Some(i + 1),
            None => None,
        }
    }
}

/// The position of the last occurrence of a character.
pub open spec fn spec_find_last(s: Seq<char>, c: char) -> Option<int>
    decreases s.len(),
{
    if s.len() == 0 {
        None
    } else if s.last() == c {
        Some(s.len() - 1)
    } else {
        spec_find_last(s.drop_last(), c)
    }
}

/// `spec_find_first` points at the first occurrence, and is `None` exactly
/// when the character does not occur.
pub proof fn lemma_find_first(s: Seq<char>, c: char)
    ensures
        match spec_find_first(s, c) {
            Some(i) => 0 <= i < s.len() && s[i] == c && forall|j: int| 0 <= j < i ==> s[j] != c,
            None => forall|j: int| 0 <= j < s.len() ==> s[j] != c,
        },
    decreases s.len(),
{
    if s.len() > 0 && s[0] != c {
        lemma_find_first(s.drop_first(), c);
        assert forall|j: int| 1 <= j < s.len() implies s[j] == s.drop_first()[j - 1] by {}
    }
}

/// `spec_find_last` points at the last occurrence, and is `None` exactly
/// when the character does not occur.
pub proof fn lemma_find_last(s: Seq<char>, c: char)
    ensures
        match spec_find_last(s, c) {
            Some(i) => 0 <= i < s.len() && s[i] == c && forall|j: int| i < j < s.len() ==> s[j]
                != c,
            None => forall|j: int| 0 <= j < s.len() ==> s[j] != c,
        },
    decreases s.len(),
{
    if s.len() > 0 && s.last() != c {
        lemma_find_last(s.drop_last(), c);
        assert forall|j: int| 0 <= j < s.len() - 1 implies s[j] == s.drop_last()[j] by {}
    }
}

/// Finds the first occurrence of a character in a vector.
pub fn find_char(v: &Vec<char>, c: char) -> (r: Option<usize>)
    ensures
        match r {
            Some(i) => Some(i as int) == spec_find_first(v@, c),
            None => spec_find_first(v@, c) is None,
        },
{
    let len = v.len();
    let mut i: usize = 0;
    while i < len
        invariant
            i <= len,
            len == v@.len(),
            forall|j: int| 0 <= j < i ==> v@[j] != c,
        decreases len - i,
    {
        if v[i] == c {
            proof {
                lemma_find_first(v@, c);
            }
            return Some(i);
        }
        i += 1;
    }
    proof {
        lemma_find_first(v@, c);
    }
    None
}

/// Finds the last occurrence of a character in a vector.
pub fn rfind_char(v: &Vec<char>, c: char) -> (r: Option<usize>)
    ensures
        match r {
            Some(i) => Some(i as int) == spec_find_last(v@, c),
            None => spec_find_last(v@, c) is None,
        },
{
    let len = v.len();
    let mut i: usize = len;
    while i > 0
        invariant
            i <= len,
            len == v@.len(),
            forall|j: int| i <= j < len ==> v@[j] != c,
        decreases i,
    {
        i -= 1;
        if v[i] == c {
            proof {
                lemma_find_last(v@, c);
            }
            return Some(i);
        }
    }
    proof {
        lemma_find_last(v@, c);
    }
    None
}

/// The sequence with leading whitespace removed.
pub open spec fn spec_trim_start(s: Seq<char>) -> Seq<char>
    decreases s.len(),
{
    if s.len() > 0 && spec_is_ws(s[0]) {
        spec_trim_start(s.drop_first())
    } else {
        s
    }
}

/// The sequence with trailing whitespace removed.
pub open spec fn spec_trim_end(s: Seq<char>) -> Seq<char>
    decreases s.len(),
{
    if s.len() > 0 && spec_is_ws(s.last()) {
        spec_trim_end(s.drop_last())
    } else {
        s
    }
}

/// The sequence with whitespace removed at both ends.
pub open spec fn spec_trim(s: Seq<char>) -> Seq<char> {
    spec_trim_start(spec_trim_end(s))
}

/// Removes leading whitespace.
pub fn trim_start(v: &Vec<char>) -> (r: Vec<char>)
    ensures
        r@ == spec_trim_start(v@),
{
    let len = v.len();
    proof {
        assert(v@.subrange(0, len as int) =~= v@);
    }
    let mut i: usize = 0;
    while i < len && is_ws(v[i])
        invariant
            i <= len,
            len == v@.len(),
            spec_trim_start(v@) == spec_trim_start(v@.subrange(i as int, len as int)),
        decreases len - i,
    {
        proof {
            let rest = v@.subrange(i as int, len as int);
            assert(rest.drop_first() =~= v@.subrange(i + 1 as int, len as int));
        }
        i += 1;
    }
    proof {
        let rest = v@.subrange(i as int, len as int);
        if i < len {
            assert(!spec_is_ws(rest[0]));
        }
        assert(spec_trim_start(rest) == rest);
    }
    subvec(v, i, len)
}

/// Removes trailing whitespace.
pub fn trim_end(v: &Vec<char>) -> (r: Vec<char>)
    ensures
        r@ == spec_trim_end(v@),
{
    let len = v.len();
    proof {
        assert(v@.subrange(0, len as int) =~= v@);
    }
    let mut j: usize = len;
    while j > 0 && is_ws(v[j - 1])
        invariant
            j <= len,
            len == v@.len(),
            spec_trim_end(v@) == spec_trim_end(v@.subrange(0, j as int)),
        decreases j,
    {
        proof {
            let rest = v@.subrange(0, j as int);
            assert(rest.drop_last() =~= v@.subrange(0, j - 1 as int));
        }
        j -= 1;
    }
    proof {
        let rest = v@.subrange(0, j as int);
        if j > 0 {
            assert(!spec_is_ws(rest.last()));
        }
        assert(spec_trim_end(rest) == rest);
    }
    subvec(v, 0, j)
}

/// Removes whitespace at both ends.
pub fn trim(v: &Vec<char>) -> (r: Vec<char>)
    ensures
        r@ == spec_trim(v@),
{
    let e = trim_end(v);
    trim_start(&e)
}

/// A decimal digit.
pub open spec fn spec_is_digit(c: char) -> bool {
    48 <= c as u32 <= 57
}

/// The value of a decimal digit.
pub open spec fn spec_digit_val(c: char) -> nat {
    (c as u32 - 48) as nat
}

/// Every character of the sequence is a decimal digit.
pub open spec fn spec_all_digits(s: Seq<char>) -> bool {
    forall|i: int| 0 <= i < s.len() ==> spec_is_digit(#[trigger] s[i])
}

/// The numeric value of a sequence of decimal digits.
pub open spec fn spec_digits_val(s: Seq<char>) -> nat
    decreases s.len(),
{
    if s.len() == 0 {
        0
    } else {
        spec_digits_val(s.drop_last()) * 10 + spec_digit_val(s.last())
    }
}

/// A digit sequence is worth at least as much as any of its prefixes.
pub proof fn lemma_digits_val_monotone(s: Seq<char>, i: int)
    requires
        0 <= i <= s.len(),
    ensures
        spec_digits_val(s.subrange(0, i)) <= spec_digits_val(s),
    decreases s.len(),
{
    if i == s.len() {
        assert(s.subrange(0, i) =~= s);
    } else {
        assert(s.subrange(0, i) =~= s.drop_last().subrange(0, i));
        lemma_digits_val_monotone(s.drop_last(), i);
    }
}

/// The value a string parses to as a `u32`: an optional leading `+`, then
/// one or more decimal digits whose value fits.
pub open spec fn spec_parse_u32(s: Seq<char>) -> Option<u32> {
    let t = if s.len() > 0 && s[0] == '+' {
        s.drop_first()
    } else {
        s
    };
    if t.len() > 0 && spec_all_digits(t) && spec_digits_val(t) <= u32::MAX {
        Some(spec_digits_val(t) as u32)
    } else {
        None
    }
}

/// The value of the first `n` digits of `v`, when it fits a `u32`.
fn digits_val_prefix(v: &Vec<char>, n: usize) -> (r: Option<u32>)
    requires
        n <= v@.len(),
        spec_all_digits(v@.subrange(0, n as int)),
    ensures
        match r {
            Some(x) => x == spec_digits_val(v@.subrange(0, n as int)) && spec_digits_val(
                v@.subrange(0, n as int),
            ) <= u32::MAX,
            None => spec_digits_val(v@.subrange(0, n as int)) > u32::MAX,
        },
    decreases n,
{
    if n == 0 {
        proof {
            assert(v@.subrange(0, 0) =~= Seq::<char>::empty());
        }
        return Some(0);
    }
    proof {
        assert(v@.subrange(0, n as int).drop_last() =~= v@.subrange(0, n - 1 as int));
        assert(v@.subrange(0, n as int).last() == v@[n - 1]);
    }
    match digits_val_prefix(v, n - 1) {
        None => None,
        Some(p) => {
            let c = v[n - 1];
            assert(spec_is_digit(c));
            let d: u32 = c as u32 - 48;
            let wide: u64 = (p as u64) * 10 + (d as u64);
            if wide > u32::MAX as u64 {
                None
            } else {
                Some(wide as u32)
            }
        },
    }
}

/// Parses a `u32` the way Rust's `str::parse::<u32>` reads decimal text.
pub fn parse_u32(v: &Vec<char>) -> (r: Option<u32>)
    ensures
        r == spec_parse_u32(v@),
{
    let t = if v.len() > 0 && v[0] == '+' {
        subvec(v, 1, v.len())
    } else {
        subvec(v, 0, v.len())
    };
    proof {
        if v@.len() > 0 && v@[0] == '+' {
            assert(t@ =~= v@.drop_first());
        } else {
            assert(t@ =~= v@);
        }
    }
    if t.len() == 0 {
        return None;
    }
    let mut i: usize = 0;
    let len = t.len();
    while i < len
        invariant
            i <= len,
            len == t@.len(),
            t@ == (if v@.len() > 0 && v@[0] == '+' {
                v@.drop_first()
            } else {
                v@
            }),
            forall|j: int| 0 <= j < i ==> spec_is_digit(#[trigger] t@[j]),
        decreases len - i,
    {
        let c = t[i];
        if (c as u32) < 48 || (c as u32) > 57 {
            proof {
                assert(!spec_is_digit(t@[i as int]));
                assert(!spec_all_digits(t@));
            }
            return None;
        }
        i += 1;
    }
    proof {
        assert(t@.subrange(0, len as int) =~= t@);
    }
    digits_val_prefix(&t, len)
}

/// An octal digit.
pub open spec fn spec_is_oct_digit(c: char) -> bool {
    48 <= c as u32 <= 55
}

/// The value of a sequence of octal digits.
pub open spec fn spec_oct_val(s: Seq<char>) -> nat
    decreases s.len(),
{
    if s.len() == 0 {
        0
    } else {
        spec_oct_val(s.drop_last()) * 8 + spec_digit_val(s.last())
    }
}

/// An octal digit sequence is worth at least as much as any of its prefixes.
pub proof fn lemma_oct_val_monotone(s: Seq<char>, i: int)
    requires
        0 <= i <= s.len(),
    ensures
        spec_oct_val(s.subrange(0, i)) <= spec_oct_val(s),
    decreases s.len(),
{
    if i == s.len() {
        assert(s.subrange(0, i) =~= s);
    } else {
        assert(s.subrange(0, i) =~= s.drop_last().subrange(0, i));
        lemma_oct_val_monotone(s.drop_last(), i);
    }
}

/// Every character of the sequence is an octal digit.
pub open spec fn spec_all_oct_digits(s: Seq<char>) -> bool {
    forall|i: int| 0 <= i < s.len() ==> spec_is_oct_digit(#[trigger] s[i])
}

/// The value an octal field parses to: one or more octal digits whose value
/// fits a `u32`.
pub open spec fn spec_parse_octal_u32(s: Seq<char>) -> Option<u32> {
    if s.len() > 0 && spec_all_oct_digits(s) && spec_oct_val(s) <= u32::MAX {
        Some(spec_oct_val(s) as u32)
    } else {
        None
    }
}

/// The value of the first `n` octal digits of `v`, when it fits a `u32`.
fn oct_val_prefix(v: &Vec<char>, n: usize) -> (r: Option<u32>)
    requires
        n <= v@.len(),
        spec_all_oct_digits(v@.subrange(0, n as int)),
    ensures
        match r {
            Some(x) => x == spec_oct_val(v@.subrange(0, n as int)) && spec_oct_val(
                v@.subrange(0, n as int),
            ) <= u32::MAX,
            None => spec_oct_val(v@.subrange(0, n as int)) > u32::MAX,
        },
    decreases n,
{
    if n == 0 {
        proof {
            assert(v@.subrange(0, 0) =~= Seq::<char>::empty());
        }
        return Some(0);
    }
    proof {
        assert(v@.subrange(0, n as int).drop_last() =~= v@.subrange(0, n - 1 as int));
        assert(v@.subrange(0, n as int).last() == v@[n - 1]);
    }
    match oct_val_prefix(v, n - 1) {
        None => None,
        Some(p) => {
            let c = v[n - 1];
            assert(spec_is_oct_digit(c));
            let d: u32 = c as u32 - 48;
            let wide: u64 = (p as u64) * 8 + (d as u64);
            if wide > u32::MAX as u64 {
                None
            } else {
                Some(wide as u32)
            }
        },
    }
}

/// Parses an octal number.
pub fn parse_octal_u32(v: &Vec<char>) -> (r: Option<u32>)
    ensures
        r == spec_parse_octal_u32(v@),
{
    if v.len() == 0 {
        return None;
    }
    let mut i: usize = 0;
    let len = v.len();
    while i < len
        invariant
            i <= len,
            len == v@.len(),
            forall|j: int| 0 <= j < i ==> spec_is_oct_digit(#[trigger] v@[j]),
        decreases len - i,
    {
        let c = v[i];
        if (c as u32) < 48 || (c as u32) > 55 {
            proof {
                assert(!spec_is_oct_digit(v@[i as int]));
                assert(!spec_all_oct_digits(v@));
            }
            return None;
        }
        i += 1;
    }
    proof {
        assert(v@.subrange(0, len as int) =~= v@);
    }
    oct_val_prefix(v, len)
}

/// A character that pads a fixed-width archive header field: a space or a
/// NUL byte.
pub open spec fn spec_is_field_pad(c: char) -> bool {
    c == ' ' || c == '\u{0}'
}

/// The sequence with leading field padding removed.
pub open spec fn spec_trim_field_start(s: Seq<char>) -> Seq<char>
    decreases s.len(),
{
    if s.len() > 0 && spec_is_field_pad(s[0]) {
        spec_trim_field_start(s.drop_first())
    } else {
        s
    }
}

/// The sequence with trailing field padding removed.
pub open spec fn spec_trim_field_end(s: Seq<char>) -> Seq<char>
    decreases s.len(),
{
    if s.len() > 0 && spec_is_field_pad(s.last()) {
        spec_trim_field_end(s.drop_last())
    } else {
        s
    }
}

/// The sequence with field padding removed at both ends.
pub open spec fn spec_trim_field(s: Seq<char>) -> Seq<char> {
    spec_trim_field_start(spec_trim_field_end(s))
}

/// Removes field padding (spaces and NUL bytes) at both ends.
pub fn trim_field(v: &Vec<char>) -> (r: Vec<char>)
    ensures
        r@ == spec_trim_field(v@),
{
    let len = v.len();
    proof {
        assert(v@.subrange(0, len as int) =~= v@);
    }
    let mut j: usize = len;
    while j > 0 && (v[j - 1] == ' ' || v[j - 1] == '\u{0}')
        invariant
            j <= len,
            len == v@.len(),
            spec_trim_field_end(v@) == spec_trim_field_end(v@.subrange(0, j as int)),
        decreases j,
    {
        proof {
            let rest = v@.subrange(0, j as int);
            assert(rest.drop_last() =~= v@.subrange(0, j - 1 as int));
        }
        j -= 1;
    }
    proof {
        let rest = v@.subrange(0, j as int);
        if j > 0 {
            assert(!spec_is_field_pad(rest.last()));
        }
        assert(spec_trim_field_end(rest) == rest);
    }
    let e = subvec(v, 0, j);
    proof {
        assert(e@.subrange(0, e@.len() as int) =~= e@);
    }
    let elen = e.len();
    let mut i: usize = 0;
    while i < elen && (e[i] == ' ' || e[i] == '\u{0}')
        invariant
            i <= elen,
            elen == e@.len(),
            spec_trim_field_start(e@) == spec_trim_field_start(e@.subrange(i as int, elen as int)),
        decreases elen - i,
    {
        proof {
            let rest = e@.subrange(i as int, elen as int);
            assert(rest.drop_first() =~= e@.subrange(i + 1 as int, elen as int));
        }
        i += 1;
    }
    proof {
        let rest = e@.subrange(i as int, elen as int);
        if i < elen {
            assert(!spec_is_field_pad(rest[0]));
        }
        assert(spec_trim_field_start(rest) == rest);
    }
    subvec(&e, i, elen)
}

/// The decimal representation of a number.
pub open spec fn spec_u32_chars(n: nat) -> Seq<char>
    decreases n,
{
    if n < 10 {
        seq![((48 + n) as u8) as char]
    } else {
        spec_u32_chars(n / 10).push(((48 + n % 10) as u8) as char)
    }
}

/// Writes a number in decimal.
pub fn u32_to_chars(n: u32) -> (r: Vec<char>)
    ensures
        r@ == spec_u32_chars(n as nat),
    decreases n,
{
    if n < 10 {
        let c = (48 + n as u8) as char;
        let mut r: Vec<char> = Vec::new();
        r.push(c);
        proof {
            assert(r@ =~= seq![((48 + n as nat) as u8) as char]);
        }
        r
    } else {
        let mut r = u32_to_chars(n / 10);
        let c = (48 + (n % 10) as u8) as char;
        r.push(c);
        r
    }
}

/// A line's optional trailing carriage return, removed.
pub open spec fn spec_strip_cr(s: Seq<char>) -> Seq<char> {
    if s.len() > 0 && s.last() == '\r' {
        s.drop_last()
    } else {
        s
    }
}

/// The lines of a text, the way Rust's `str::lines` cuts them: split at
/// `\n`, a trailing `\r` stripped from each piece, and no final empty line.
pub open spec fn spec_lines(s: Seq<char>) -> Seq<Seq<char>>
    decreases s.len(),
    via spec_lines_decreases
{
    if s.len() == 0 {
        Seq::empty()
    } else {
        match spec_find_first(s, '\n') {
            Some(i) => seq![spec_strip_cr(s.subrange(0, i))] + spec_lines(
                s.subrange(i + 1, s.len() as int),
            ),
            None => seq![spec_strip_cr(s)],
        }
    }
}

#[via_fn]
proof fn spec_lines_decreases(s: Seq<char>) {
    lemma_find_first(s, '\n');
}

/// Removes a trailing carriage return, if present.
fn strip_cr(v: Vec<char>) -> (r: Vec<char>)
    ensures
        r@ == spec_strip_cr(v@),
{
    if v.len() > 0 && v[v.len() - 1] == '\r' {
        proof {
            assert(v@.subrange(0, v@.len() - 1) =~= v@.drop_last());
        }
        subvec(&v, 0, v.len() - 1)
    } else {
        v
    }
}

/// Splits a text into lines, as `str::lines` does.
pub fn split_lines(v: &Vec<char>) -> (r: Vec<Vec<char>>)
    ensures
        r.deep_view() == spec_lines(v@),
{
    let mut out: Vec<Vec<char>> = Vec::new();
    let mut rest = subvec(v, 0, v.len());
    proof {
        assert(rest@ =~= v@);
    }
    loop
        invariant
            out.deep_view() + spec_lines(rest@) == spec_lines(v@),
        decreases rest@.len() + 1,
    {
        if rest.len() == 0 {
            proof {
                assert(out.deep_view() + spec_lines(rest@) =~= out.deep_view());
            }
            return out;
        }
        match find_char(&rest, '\n') {
            Some(i) => {
                proof {
                    lemma_find_first(rest@, '\n');
                }
                let ghost prev = out.deep_view();
                let line = strip_cr(subvec(&rest, 0, i));
                let next = subvec(&rest, i + 1, rest.len());
                out.push(line);
                proof {
                    assert(out.deep_view() =~~= prev.push(line@));
                    assert(prev.push(line@) =~= prev + seq![line@]);
                    assert(out.deep_view() + spec_lines(next@) =~= prev + (seq![line@]
                        + spec_lines(next@)));
                }
                rest = next;
            },
            None => {
                let ghost prev = out.deep_view();
                let line = strip_cr(rest);
                out.push(line);
                proof {
                    assert(out.deep_view() =~~= prev.push(line@));
                    assert(out.deep_view() =~~= prev + seq![line@]);
                }
                return out;
            },
        }
    }
}

/// The pieces of a sequence split at every occurrence of a separator, the
/// way Rust's `str::split` cuts them: empty pieces are kept, and a text with
/// no separator is one piece.
pub open spec fn spec_split(s: Seq<char>, c: char) -> Seq<Seq<char>>
    decreases s.len(),
    via spec_split_decreases
{
    match spec_find_first(s, c) {
        Some(i) => seq![s.subrange(0, i)] + spec_split(s.subrange(i + 1, s.len() as int), c),
        None => seq![s],
    }
}

#[via_fn]
proof fn spec_split_decreases(s: Seq<char>, c: char) {
    lemma_find_first(s, c);
}

/// Splits a vector at every occurrence of a separator, as `str::split` does.
pub fn split_on_char(v: &Vec<char>, c: char) -> (r: Vec<Vec<char>>)
    ensures
        r.deep_view() == spec_split(v@, c),
        r@.len() > 0,
{
    let mut out: Vec<Vec<char>> = Vec::new();
    let mut rest = subvec(v, 0, v.len());
    proof {
        assert(rest@ =~= v@);
    }
    loop
        invariant
            out.deep_view() + spec_split(rest@, c) == spec_split(v@, c),
        decreases rest@.len() + 1,
    {
        match find_char(&rest, c) {
            Some(i) => {
                proof {
                    lemma_find_first(rest@, c);
                }
                let ghost prev = out.deep_view();
                let piece = subvec(&rest, 0, i);
                let next = subvec(&rest, i + 1, rest.len());
                out.push(piece);
                proof {
                    assert(out.deep_view() =~~= prev.push(piece@));
                    assert(prev.push(piece@) =~= prev + seq![piece@]);
                    assert(out.deep_view() + spec_split(next@, c) =~= prev + (seq![piece@]
                        + spec_split(next@, c)));
                }
                rest = next;
            },
            None => {
                let ghost prev = out.deep_view();
                let ghost pushed = rest@;
                out.push(rest);
                proof {
                    assert(out.deep_view() =~~= prev + seq![pushed]);
                }
                return out;
            },
        }
    }
}

/// The position of the first occurrence of `p` as a contiguous part of
/// `s`.
pub open spec fn spec_find_sub(s: Seq<char>, p: Seq<char>) -> Option<int>
    decreases s.len(),
{
    if p.len() > s.len() {
        None
    } else if spec_starts_with(s, p) {
        Some(0int)
    } else if s.len() == 0 {
        None
    } else {
        match spec_find_sub(s.drop_first(), p) {
            Some(i) => Some(i + 1),
            None => None,
        }
    }
}

/// `spec_find_sub` points at the first occurrence, and is `None` exactly
/// when there is none.
pub proof fn lemma_find_sub(s: Seq<char>, p: Seq<char>)
    ensures
        match spec_find_sub(s, p) {
            Some(i) => 0 <= i && i + p.len() <= s.len() && s.subrange(i, i + p.len()) == p
                && forall|j: int|
                0 <= j < i ==> #[trigger] s.subrange(j, j + p.len() as int) != p,
            None => forall|j: int|
                0 <= j <= s.len() - p.len() ==> #[trigger] s.subrange(j, j + p.len() as int) != p,
        },
    decreases s.len(),
{
    if p.len() > s.len() {
    } else if spec_starts_with(s, p) {
    } else if s.len() == 0 {
    } else {
        lemma_find_sub(s.drop_first(), p);
        assert forall|j: int| 1 <= j && j + p.len() <= s.len() implies #[trigger] s.subrange(
            j,
            j + p.len() as int,
        ) == s.drop_first().subrange(j - 1, j - 1 + p.len() as int) by {
            assert(s.subrange(j, j + p.len() as int) =~= s.drop_first().subrange(
                j - 1,
                j - 1 + p.len() as int,
            ));
        }
    }
}

/// Finds the first occurrence of `p` as a contiguous part of `v`.
pub fn find_sub(v: &Vec<char>, p: &str) -> (r: Option<usize>)
    ensures
        match r {
            Some(i) => Some(i as int) == spec_find_sub(v@, p@),
            None => spec_find_sub(v@, p@) is None,
        },
{
    let plen = p.unicode_len();
    let len = v.len();
    if plen > len {
        proof {
            lemma_find_sub(v@, p@);
        }
        return None;
    }
    if plen == 0 {
        proof {
            assert(v@.subrange(0, 0) =~= p@);
        }
        return Some(0);
    }
    let mut i: usize = 0;
    while i <= len - plen
        invariant
            plen == p@.len(),
            len == v@.len(),
            0 < plen <= len,
            i <= len - plen + 1,
            forall|j: int| 0 <= j < i ==> #[trigger] v@.subrange(j, j + p@.len() as int) != p@,
        decreases len - plen + 1 - i,
    {
        let piece = subvec(v, i, i + plen);
        if chars_eq_str(&piece, p) {
            proof {
                lemma_find_sub(v@, p@);
            }
            return Some(i);
        }
        i += 1;
    }
    proof {
        lemma_find_sub(v@, p@);
    }
    None
}

/// The pieces of a sequence split at every occurrence of a separator text,
/// the way Rust's `str::split` cuts them; an empty separator makes the
/// whole text one piece.
pub open spec fn spec_split_str(s: Seq<char>, sep: Seq<char>) -> Seq<Seq<char>>
    decreases s.len(),
    via spec_split_str_decreases
{
    if sep.len() == 0 {
        seq![s]
    } else {
        match spec_find_sub(s, sep) {
            Some(i) => seq![s.subrange(0, i)] + spec_split_str(
                s.subrange(i + sep.len(), s.len() as int),
                sep,
            ),
            None => seq![s],
        }
    }
}

#[via_fn]
proof fn spec_split_str_decreases(s: Seq<char>, sep: Seq<char>) {
    lemma_find_sub(s, sep);
}

/// Splits a vector at every occurrence of a separator string.
pub fn split_on_str(v: &Vec<char>, sep: &str) -> (r: Vec<Vec<char>>)
    ensures
        r.deep_view() == spec_split_str(v@, sep@),
{
    let seplen = sep.unicode_len();
    let mut out: Vec<Vec<char>> = Vec::new();
    let mut rest = subvec(v, 0, v.len());
    proof {
        assert(rest@ =~= v@);
    }
    if seplen == 0 {
        let ghost piece = rest@;
        out.push(rest);
        proof {
            assert(out.deep_view() =~~= seq![piece]);
        }
        return out;
    }
    loop
        invariant
            seplen == sep@.len(),
            seplen > 0,
            out.deep_view() + spec_split_str(rest@, sep@) == spec_split_str(v@, sep@),
        decreases rest@.len() + 1,
    {
        match find_sub(&rest, sep) {
            Some(i) => {
                proof {
                    lemma_find_sub(rest@, sep@);
                    assert(i + seplen <= rest@.len());
                }
                let rlen = rest.len();
                let ghost prev = out.deep_view();
                let piece = subvec(&rest, 0, i);
                let next = subvec(&rest, i + seplen, rlen);
                out.push(piece);
                proof {
                    assert(out.deep_view() =~~= prev.push(rest@.subrange(0, i as int)));
                    assert(prev.push(rest@.subrange(0, i as int)) =~= prev + seq![
                        rest@.subrange(0, i as int),
                    ]);
                    assert(out.deep_view() + spec_split_str(next@, sep@) =~= prev + (seq![
                        rest@.subrange(0, i as int),
                    ] + spec_split_str(next@, sep@)));
                }
                rest = next;
            },
            None => {
                let ghost prev = out.deep_view();
                let ghost pushed = rest@;
                out.push(rest);
                proof {
                    assert(out.deep_view() =~~= prev + seq![pushed]);
                }
                return out;
            },
        }
    }
}

/// An upper-case ASCII letter mapped to lower case; all else unchanged.
pub open spec fn spec_lower_char(c: char) -> char {
    if 65 <= c as u32 <= 90 {
        ((c as u32 + 32) as u8) as char
    } else {
        c
    }
}

/// The sequence with ASCII letters mapped to lower case.
pub open spec fn spec_lower(s: Seq<char>) -> Seq<char> {
    Seq::new(s.len(), |i: int| spec_lower_char(s[i]))
}

/// Maps ASCII letters to lower case.
pub fn to_ascii_lower(v: &Vec<char>) -> (r: Vec<char>)
    ensures
        r@ == spec_lower(v@),
{
    let len = v.len();
    let mut r: Vec<char> = Vec::new();
    let mut i: usize = 0;
    while i < len
        invariant
            i <= len,
            len == v@.len(),
            r@ =~= spec_lower(v@).subrange(0, i as int),
        decreases len - i,
    {
        let c = v[i];
        let lc = if c as u32 >= 65 && c as u32 <= 90 {
            ((c as u32 + 32) as u8) as char
        } else {
            c
        };
        r.push(lc);
        proof {
            assert(r@ =~= spec_lower(v@).subrange(0, i + 1 as int));
        }
        i += 1;
    }
    proof {
        assert(r@ =~= spec_lower(v@));
    }
    r
}

} // verus!
