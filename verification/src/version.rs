//! Version and release normalization.
//!
//! Decoding splits a raw version string into an upstream version and a
//! release number and discards any epoch prefix. Encoding adjusts the pair
//! to a target format's version grammar: Debian restricts the character set
//! and demands a leading digit, rpm forbids `-` in versions.

use vstd::prelude::*;

use crate::model::PackageInfo;
use crate::strutil::{
    chars_to_string, find_char, parse_u32, push_str_chars, rfind_char, spec_find_first,
    spec_find_last, spec_is_digit, spec_parse_u32, str_to_chars, subvec,
};

verus! {

/// The version half of a raw version string: everything before the last
/// `-`, or the whole string when there is none, with an `epoch:` prefix
/// removed.
pub open spec fn spec_decoded_version(s: Seq<char>) -> Seq<char> {
    let v = match spec_find_last(s, '-') {
        Some(i) => s.subrange(0, i),
        None => s,
    };
    match spec_find_first(v, ':') {
        Some(i) => v.subrange(i + 1, v.len() as int),
        None => v,
    }
}

/// The release half of a raw version string: everything after the last
/// `-`, or `"1"` when there is none.
pub open spec fn spec_decoded_release(s: Seq<char>) -> Seq<char> {
    match spec_find_last(s, '-') {
        Some(i) => s.subrange(i + 1, s.len() as int),
        None => "1"@,
    }
}

/// Splits a raw version string into the model's version and release fields.
///
/// The version is everything before the last `-` and the release everything
/// after it; a string without `-` gets release `"1"`. An `epoch:` prefix of
/// the version is discarded.
pub fn set_version_and_release(info: &mut PackageInfo, version: &str)
    ensures
        *final(info) == (PackageInfo {
            version: final(info).version,
            release: final(info).release,
            ..*old(info)
        }),
        final(info).version@ == spec_decoded_version(version@),
        final(info).release@ == spec_decoded_release(version@),
{
    let raw = str_to_chars(version);
    let (v, r) = match rfind_char(&raw, '-') {
        Some(i) => {
            proof {
                crate::strutil::lemma_find_last(raw@, '-');
            }
            let v = subvec(&raw, 0, i);
            let r = subvec(&raw, i + 1, raw.len());
            (v, chars_to_string(&r))
        },
        None => {
            let mut one: Vec<char> = Vec::new();
            push_str_chars(&mut one, "1");
            proof {
                assert(Seq::<char>::empty() + "1"@ =~= "1"@);
            }
            (raw, chars_to_string(&one))
        },
    };
    let v = match find_char(&v, ':') {
        Some(i) => {
            proof {
                crate::strutil::lemma_find_first(v@, ':');
            }
            subvec(&v, i + 1, v.len())
        },
        None => v,
    };
    info.version = chars_to_string(&v);
    info.release = r;
}

/// A character Debian allows in a version string.
pub open spec fn spec_is_deb_version_char(c: char) -> bool {
    ||| c == '-'
    ||| c == '.'
    ||| c == '+'
    ||| c == '~'
    ||| c == ':'
    ||| 48 <= c as u32 <= 57
    ||| 65 <= c as u32 <= 90
    ||| 97 <= c as u32 <= 122
}

/// The sequence restricted to characters Debian allows in versions.
pub open spec fn spec_filter_deb_version(s: Seq<char>) -> Seq<char>
    decreases s.len(),
{
    if s.len() == 0 {
        Seq::empty()
    } else if spec_is_deb_version_char(s.last()) {
        spec_filter_deb_version(s.drop_last()).push(s.last())
    } else {
        spec_filter_deb_version(s.drop_last())
    }
}

/// A version made legal for the Debian grammar: disallowed characters are
/// dropped, and a version that does not begin with a digit gets a leading
/// `0`.
pub open spec fn spec_deb_version(s: Seq<char>) -> Seq<char> {
    if s.len() > 0 && spec_is_digit(s[0]) {
        spec_filter_deb_version(s)
    } else {
        seq!['0'] + spec_filter_deb_version(s)
    }
}

/// Tests whether Debian allows the character in a version string.
pub fn is_deb_version_char(c: char) -> (r: bool)
    ensures
        r == spec_is_deb_version_char(c),
{
    c == '-' || c == '.' || c == '+' || c == '~' || c == ':' || ((c as u32) >= 48 && (c as u32)
        <= 57) || ((c as u32) >= 65 && (c as u32) <= 90) || ((c as u32) >= 97 && (c as u32) <= 122)
}

/// Rewrites a version to satisfy the Debian version grammar.
pub fn deb_sanitize_version(version: &str) -> (r: String)
    ensures
        r@ == spec_deb_version(version@),
{
    let v = str_to_chars(version);
    let mut out: Vec<char> = Vec::new();
    if !(v.len() > 0 && v[0] as u32 >= 48 && v[0] as u32 <= 57) {
        out.push('0');
    }
    let ghost head = out@;
    let len = v.len();
    let mut i: usize = 0;
    while i < len
        invariant
            i <= len,
            len == v@.len(),
            out@ == head + spec_filter_deb_version(v@.subrange(0, i as int)),
        decreases len - i,
    {
        let c = v[i];
        proof {
            assert(v@.subrange(0, i + 1 as int).drop_last() =~= v@.subrange(0, i as int));
            assert(v@.subrange(0, i + 1 as int).last() == v@[i as int]);
        }
        if is_deb_version_char(c) {
            out.push(c);
        }
        i += 1;
    }
    proof {
        assert(v@.subrange(0, len as int) =~= v@);
        if v@.len() > 0 && spec_is_digit(v@[0]) {
            assert(head + spec_filter_deb_version(v@) =~= spec_filter_deb_version(v@));
        }
    }
    chars_to_string(&out)
}

/// A release made legal for the Debian grammar: one that is not a plain
/// number gets `-1` appended so that it contains digits.
pub open spec fn spec_deb_release(s: Seq<char>) -> Seq<char> {
    if spec_parse_u32(s) is Some {
        s
    } else {
        s + "-1"@
    }
}

/// Rewrites a release to satisfy the Debian release grammar.
pub fn deb_sanitize_release(release: &str) -> (r: String)
    ensures
        r@ == spec_deb_release(release@),
{
    let v = str_to_chars(release);
    match parse_u32(&v) {
        Some(_) => {
            let copy = subvec(&v, 0, v.len());
            proof {
                assert(copy@ =~= v@);
            }
            chars_to_string(&copy)
        },
        None => {
            let mut out = subvec(&v, 0, v.len());
            proof {
                assert(out@ =~= v@);
            }
            push_str_chars(&mut out, "-1");
            chars_to_string(&out)
        },
    }
}

/// A version with `-` replaced by `_`, as the rpm grammar demands.
pub open spec fn spec_rpm_version(s: Seq<char>) -> Seq<char> {
    Seq::new(
        s.len(),
        |i: int|
            if s[i] == '-' {
                '_'
            } else {
                s[i]
            },
    )
}

/// Rewrites a version to satisfy the rpm version grammar.
pub fn rpm_sanitize_version(version: &str) -> (r: String)
    ensures
        r@ == spec_rpm_version(version@),
{
    let v = str_to_chars(version);
    let len = v.len();
    let mut out: Vec<char> = Vec::new();
    let mut i: usize = 0;
    while i < len
        invariant
            i <= len,
            len == v@.len(),
            out@ =~= spec_rpm_version(v@).subrange(0, i as int),
        decreases len - i,
    {
        let c = v[i];
        if c == '-' {
            out.push('_');
        } else {
            out.push(c);
        }
        proof {
            assert(out@ =~= spec_rpm_version(v@).subrange(0, i + 1 as int));
        }
        i += 1;
    }
    proof {
        assert(out@ =~= spec_rpm_version(v@));
    }
    chars_to_string(&out)
}

} // verus!
