//! The container decoder: a verified reader for member archives (the flat
//! `ar` container a `.deb` is made of) and for tar streams, and the member
//! extraction that recognizes a compression codec by the member name's
//! suffix.
//!
//! This is the fallback used when no native packaging tool is available on
//! the host; the native path is driven outside the library and must yield
//! an equivalent result.

use vstd::prelude::*;

use crate::bytes::{
    bytes_as_chars, region_all_zero, spec_all_zero, spec_bytes_as_chars, spec_starts_with_u8,
    starts_with_bytes, subvec_u8,
};
use crate::outside::{bunzip2, bunzip2_of, gunzip, gunzip_of, unxz, unxz_of};
use crate::strutil::{
    parse_octal_u32, parse_u32, spec_parse_octal_u32, spec_parse_u32, spec_trim_field, trim_field,
};

verus! {

/// One named member of a member archive.
pub struct ArMember {
    /// The member's name, with header padding and a GNU-style trailing `/`
    /// removed.
    pub name: Vec<u8>,
    /// The member's bytes.
    pub data: Vec<u8>,
}

/// The mathematical value of a member.
pub struct ArMemberS {
    /// The member's name.
    pub name: Seq<u8>,
    /// The member's bytes.
    pub data: Seq<u8>,
}

impl ArMember {
    /// The member a vector element stands for.
    pub open spec fn view_s(self) -> ArMemberS {
        ArMemberS { name: self.name@, data: self.data@ }
    }
}

/// The members a vector of them stands for.
pub open spec fn ar_members_view(ms: Seq<ArMember>) -> Seq<ArMemberS> {
    Seq::new(ms.len(), |i: int| ms[i].view_s())
}

/// The global header that opens a member archive: `!<arch>\n`.
pub open spec fn spec_ar_magic() -> Seq<u8> {
    seq![33u8, 60u8, 97u8, 114u8, 99u8, 104u8, 62u8, 10u8]
}

/// The sequence with trailing spaces removed.
pub open spec fn spec_trim_spaces_u8(s: Seq<u8>) -> Seq<u8>
    decreases s.len(),
{
    if s.len() > 0 && s.last() == 32u8 {
        spec_trim_spaces_u8(s.drop_last())
    } else {
        s
    }
}

/// A member name read from its 16-byte header field: trailing spaces
/// removed, then one GNU-style trailing `/`.
pub open spec fn spec_ar_name(raw: Seq<u8>) -> Seq<u8> {
    let t = spec_trim_spaces_u8(raw);
    if t.len() > 0 && t.last() == 47u8 {
        t.drop_last()
    } else {
        t
    }
}

/// The size a member header declares, read from its 10-byte decimal field.
pub open spec fn spec_ar_size(raw: Seq<u8>) -> Option<u32> {
    spec_parse_u32(spec_trim_field(spec_bytes_as_chars(raw)))
}

/// The members encoded at a position inside a member archive: each entry is
/// a 60-byte header followed by the declared number of data bytes, padded
/// to an even offset.
pub open spec fn spec_ar_entries(b: Seq<u8>) -> Option<Seq<ArMemberS>>
    decreases b.len(),
{
    if b.len() == 0 {
        Some(Seq::empty())
    } else if b.len() < 60 {
        None
    } else {
        let name = spec_ar_name(b.subrange(0, 16));
        match spec_ar_size(b.subrange(48, 58)) {
            None => None,
            Some(sz) => if b.len() < 60 + sz {
                None
            } else {
                let data = b.subrange(60, 60 + sz);
                let step: int = 60 + sz + (
                if sz % 2 == 1 {
                    1int
                } else {
                    0int
                });
                let rest = if step <= b.len() {
                    b.skip(step)
                } else {
                    Seq::empty()
                };
                match spec_ar_entries(rest) {
                    None => None,
                    Some(ms) => Some(seq![ArMemberS { name, data }] + ms),
                }
            },
        }
    }
}

/// The members of a member archive: the global header followed by the
/// entries.
pub open spec fn spec_ar_parse(b: Seq<u8>) -> Option<Seq<ArMemberS>> {
    if b.len() >= 8 && b.subrange(0, 8) == spec_ar_magic() {
        spec_ar_entries(b.skip(8))
    } else {
        None
    }
}

/// Removes trailing spaces from a byte vector.
fn trim_spaces_u8(v: &Vec<u8>) -> (r: Vec<u8>)
    ensures
        r@ == spec_trim_spaces_u8(v@),
{
    let len = v.len();
    proof {
        assert(v@.subrange(0, len as int) =~= v@);
    }
    let mut j: usize = len;
    while j > 0 && v[j - 1] == 32
        invariant
            j <= len,
            len == v@.len(),
            spec_trim_spaces_u8(v@) == spec_trim_spaces_u8(v@.subrange(0, j as int)),
        decreases j,
    {
        proof {
            let rest = v@.subrange(0, j as int);
            assert(rest.drop_last() =~= v@.subrange(0, j - 1 as int));
        }
        j -= 1;
    }
    proof {
        let rest = v@.subrange(0, j as int);
        if j > 0 {
            assert(rest.last() != 32u8);
        }
        assert(spec_trim_spaces_u8(rest) == rest);
    }
    subvec_u8(v, 0, j)
}

/// Reads a member name from its header field.
fn ar_name(raw: &Vec<u8>) -> (r: Vec<u8>)
    ensures
        r@ == spec_ar_name(raw@),
{
    let t = trim_spaces_u8(raw);
    if t.len() > 0 && t[t.len() - 1] == 47 {
        proof {
            assert(t@.subrange(0, t@.len() - 1) =~= t@.drop_last());
        }
        subvec_u8(&t, 0, t.len() - 1)
    } else {
        t
    }
}

/// Lists the members of a member archive; `None` when the bytes are not a
/// well-formed archive.
pub fn ar_parse(data: &Vec<u8>) -> (r: Option<Vec<ArMember>>)
    ensures
        match r {
            Some(ms) => spec_ar_parse(data@) == Some(ar_members_view(ms@)),
            None => spec_ar_parse(data@) is None,
        },
{
    let len = data.len();
    if len < 8 || data[0] != 33 || data[1] != 60 || data[2] != 97 || data[3] != 114 || data[4]
        != 99 || data[5] != 104 || data[6] != 62 || data[7] != 10 {
        proof {
            if data@.len() >= 8 && data@.subrange(0, 8) == spec_ar_magic() {
                assert(data@.subrange(0, 8)[0] == 33u8);
                assert(data@.subrange(0, 8)[1] == 60u8);
                assert(data@.subrange(0, 8)[2] == 97u8);
                assert(data@.subrange(0, 8)[3] == 114u8);
                assert(data@.subrange(0, 8)[4] == 99u8);
                assert(data@.subrange(0, 8)[5] == 104u8);
                assert(data@.subrange(0, 8)[6] == 62u8);
                assert(data@.subrange(0, 8)[7] == 10u8);
            }
        }
        return None;
    }
    proof {
        assert(data@.subrange(0, 8) =~= spec_ar_magic());
    }
    let mut out: Vec<ArMember> = Vec::new();
    let mut pos: usize = 8;
    proof {
        assert(ar_members_view(out@) =~= Seq::<ArMemberS>::empty());
    }
    loop
        invariant
            8 <= pos <= len,
            len == data@.len(),
            data@.subrange(0, 8) == spec_ar_magic(),
            spec_ar_parse(data@) == (match spec_ar_entries(data@.skip(pos as int)) {
                None => None::<Seq<ArMemberS>>,
                Some(ms) => Some(ar_members_view(out@) + ms),
            }),
        decreases len - pos,
    {
        let ghost rest = data@.skip(pos as int);
        if pos == len {
            proof {
                assert(rest =~= Seq::<u8>::empty());
                assert(ar_members_view(out@) + Seq::<ArMemberS>::empty() =~= ar_members_view(
                    out@,
                ));
            }
            return Some(out);
        }
        if len - pos < 60 {
            return None;
        }
        let name_raw = subvec_u8(data, pos, pos + 16);
        let size_raw = subvec_u8(data, pos + 48, pos + 58);
        proof {
            assert(name_raw@ =~= rest.subrange(0, 16));
            assert(size_raw@ =~= rest.subrange(48, 58));
        }
        let name = ar_name(&name_raw);
        let size_field = trim_field(&bytes_as_chars(&size_raw));
        let sz32 = match parse_u32(&size_field) {
            Some(s) => s,
            None => {
                return None;
            },
        };
        let sz = sz32 as usize;
        if len - pos - 60 < sz {
            return None;
        }
        let member_data = subvec_u8(data, pos + 60, pos + 60 + sz);
        proof {
            assert(member_data@ =~= rest.subrange(60, 60 + sz32 as int));
        }
        let ghost prev = out@;
        out.push(ArMember { name, data: member_data });
        let step_end = pos + 60 + sz;
        let next = if sz % 2 == 1 {
            if step_end < len {
                step_end + 1
            } else {
                len
            }
        } else {
            step_end
        };
        proof {
            let spec_step: int = 60 + sz32 + (
            if sz32 % 2 == 1 {
                1int
            } else {
                0int
            });
            let spec_rest = if spec_step <= rest.len() {
                rest.skip(spec_step)
            } else {
                Seq::<u8>::empty()
            };
            assert(spec_rest =~= data@.skip(next as int));
            assert(ar_members_view(out@) =~= ar_members_view(prev).push(
                ArMemberS { name: name@, data: member_data@ },
            ));
            assert forall|ms: Seq<ArMemberS>| true implies ar_members_view(prev) + (seq![
                ArMemberS { name: name@, data: member_data@ },
            ] + ms) =~= ar_members_view(out@) + ms by {}
        }
        pos = next;
    }
}

/// One entry of a tar stream.
pub struct TarEntry {
    /// The entry's path, read from the header's name field.
    pub name: Vec<u8>,
    /// The entry's mode, when the header's octal mode field parses.
    pub mode: Option<u32>,
    /// The entry's type flag byte.
    pub typeflag: u8,
    /// The entry's bytes.
    pub data: Vec<u8>,
}

/// The mathematical value of a tar entry.
pub struct TarEntryS {
    /// The entry's path.
    pub name: Seq<u8>,
    /// The entry's mode, when its field parses.
    pub mode: Option<u32>,
    /// The entry's type flag byte.
    pub typeflag: u8,
    /// The entry's bytes.
    pub data: Seq<u8>,
}

impl TarEntry {
    /// The entry a vector element stands for.
    pub open spec fn view_s(self) -> TarEntryS {
        TarEntryS { name: self.name@, mode: self.mode, typeflag: self.typeflag, data: self.data@ }
    }
}

/// The entries a vector of them stands for.
pub open spec fn tar_entries_view(es: Seq<TarEntry>) -> Seq<TarEntryS> {
    Seq::new(es.len(), |i: int| es[i].view_s())
}

/// A name read from the header's 100-byte field: the bytes before the first
/// NUL.
pub open spec fn spec_tar_name(raw: Seq<u8>) -> Seq<u8>
    decreases raw.len(),
{
    if raw.len() == 0 {
        raw
    } else if raw[0] == 0u8 {
        Seq::empty()
    } else {
        seq![raw[0]] + spec_tar_name(raw.drop_first())
    }
}

/// An octal header field's value: padding trimmed, octal digits read.
pub open spec fn spec_tar_octal(raw: Seq<u8>) -> Option<u32> {
    spec_parse_octal_u32(spec_trim_field(spec_bytes_as_chars(raw)))
}

/// The entries encoded at a position inside a tar stream: 512-byte headers,
/// data padded to 512-byte blocks, ended by an all-zero block.
pub open spec fn spec_tar_entries(b: Seq<u8>) -> Option<Seq<TarEntryS>>
    decreases b.len(),
{
    if b.len() == 0 {
        Some(Seq::empty())
    } else if b.len() < 512 {
        None
    } else if spec_all_zero(b.subrange(0, 512)) {
        Some(Seq::empty())
    } else {
        let name = spec_tar_name(b.subrange(0, 100));
        let mode = spec_tar_octal(b.subrange(100, 108));
        match spec_tar_octal(b.subrange(124, 136)) {
            None => None,
            Some(sz) => if b.len() < 512 + sz {
                None
            } else {
                let data = b.subrange(512, 512 + sz);
                let padded: int = ((sz + 511) / 512) * 512;
                let rest = if 512 + padded <= b.len() {
                    b.skip(512 + padded)
                } else {
                    Seq::empty()
                };
                match spec_tar_entries(rest) {
                    None => None,
                    Some(es) => Some(
                        seq![TarEntryS { name, mode, typeflag: b[156], data }] + es,
                    ),
                }
            },
        }
    }
}

/// A compression codec recognized by a member name's suffix.
#[derive(Debug, Clone, Copy, PartialEq, Eq, Structural)]
pub enum Codec {
    /// No suffix: the member is already a plain nested archive.
    Plain,
    /// `.gz`.
    Gz,
    /// `.bz2`.
    Bz2,
    /// `.xz` or `.lzma`.
    Xz,
}

/// Why a member could not be extracted.
#[derive(Debug, Clone, Copy, PartialEq, Eq, Structural)]
pub enum MemberError {
    /// The archive or the member's compressed stream cannot be decoded.
    MalformedArchive,
    /// No member name starts with the requested prefix.
    MissingMember,
    /// The member name carries an unrecognized suffix.
    UnknownCodec,
}

/// The codec a member name's suffix (the part after the requested prefix)
/// stands for: none for an unrecognized suffix.
pub open spec fn spec_codec_of(ext: Seq<u8>) -> Option<Codec> {
    if ext.len() == 0 {
        Some(Codec::Plain)
    } else if ext == seq![46u8, 103u8, 122u8] {  // ".gz"
        Some(Codec::Gz)
    } else if ext == seq![46u8, 98u8, 122u8, 50u8] {  // ".bz2"
        Some(Codec::Bz2)
    } else if ext == seq![46u8, 120u8, 122u8] {  // ".xz"
        Some(Codec::Xz)
    } else if ext == seq![46u8, 108u8, 122u8, 109u8, 97u8] {  // ".lzma"
        Some(Codec::Xz)
    } else {
        None
    }
}

/// Recognizes a codec suffix.
pub fn codec_of(ext: &Vec<u8>) -> (r: Option<Codec>)
    ensures
        r == spec_codec_of(ext@),
{
    proof {
        if ext@ == seq![46u8, 103u8, 122u8] {
            assert(ext@.len() == 3 && ext@[0] == 46u8 && ext@[1] == 103u8 && ext@[2] == 122u8);
        }
        if ext@ == seq![46u8, 98u8, 122u8, 50u8] {
            assert(ext@.len() == 4 && ext@[0] == 46u8 && ext@[1] == 98u8 && ext@[2] == 122u8
                && ext@[3] == 50u8);
        }
        if ext@ == seq![46u8, 120u8, 122u8] {
            assert(ext@.len() == 3 && ext@[0] == 46u8 && ext@[1] == 120u8 && ext@[2] == 122u8);
        }
        if ext@ == seq![46u8, 108u8, 122u8, 109u8, 97u8] {
            assert(ext@.len() == 5 && ext@[0] == 46u8 && ext@[1] == 108u8 && ext@[2] == 122u8
                && ext@[3] == 109u8 && ext@[4] == 97u8);
        }
    }
    if ext.len() == 0 {
        Some(Codec::Plain)
    } else if ext.len() == 3 && ext[0] == 46 && ext[1] == 103 && ext[2] == 122 {
        proof {
            assert(ext@ =~= seq![46u8, 103u8, 122u8]);
        }
        Some(Codec::Gz)
    } else if ext.len() == 4 && ext[0] == 46 && ext[1] == 98 && ext[2] == 122 && ext[3] == 50 {
        proof {
            assert(ext@ =~= seq![46u8, 98u8, 122u8, 50u8]);
        }
        Some(Codec::Bz2)
    } else if ext.len() == 3 && ext[0] == 46 && ext[1] == 120 && ext[2] == 122 {
        proof {
            assert(ext@ =~= seq![46u8, 120u8, 122u8]);
        }
        Some(Codec::Xz)
    } else if ext.len() == 5 && ext[0] == 46 && ext[1] == 108 && ext[2] == 122 && ext[3] == 109
        && ext[4] == 97 {
        proof {
            assert(ext@ =~= seq![46u8, 108u8, 122u8, 109u8, 97u8]);
        }
        Some(Codec::Xz)
    } else {
        None
    }
}

/// The first member whose name starts with the prefix.
pub open spec fn spec_member_lookup(ms: Seq<ArMemberS>, prefix: Seq<u8>) -> Option<ArMemberS>
    decreases ms.len(),
{
    if ms.len() == 0 {
        None
    } else if spec_starts_with_u8(ms.first().name, prefix) {
        Some(ms.first())
    } else {
        spec_member_lookup(ms.drop_first(), prefix)
    }
}

/// What decoding a member's bytes under a codec yields, or `None` for an
/// invalid stream.
pub open spec fn spec_decoded_member(codec: Codec, data: Seq<u8>) -> Option<Seq<u8>> {
    match codec {
        Codec::Plain => Some(data),
        Codec::Gz => gunzip_of(data),
        Codec::Bz2 => bunzip2_of(data),
        Codec::Xz => unxz_of(data),
    }
}

/// Locates a member archive's member whose name starts with the given
/// prefix and returns its bytes fully decompressed, recognizing the codec
/// by the name's suffix.
///
/// Fails with `MissingMember` when no member name has the prefix, with
/// `UnknownCodec` when the suffix after the prefix is not a recognized
/// codec, and with `MalformedArchive` when the archive itself or the
/// member's compressed stream cannot be decoded; a member whose stream
/// decodes is always extracted.
#[verifier::rlimit(60)]
pub fn extract_member(archive: &Vec<u8>, prefix: &Vec<u8>) -> (r: Result<Vec<u8>, MemberError>)
    ensures
        match spec_ar_parse(archive@) {
            None => r == Err::<Vec<u8>, MemberError>(MemberError::MalformedArchive),
            Some(ms) => match spec_member_lookup(ms, prefix@) {
                None => r == Err::<Vec<u8>, MemberError>(MemberError::MissingMember),
                Some(m) => {
                    let ext = m.name.skip(prefix@.len() as int);
                    match spec_codec_of(ext) {
                        None => r == Err::<Vec<u8>, MemberError>(MemberError::UnknownCodec),
                        Some(codec) => match spec_decoded_member(codec, m.data) {
                            Some(out) => r matches Ok(d) && d@ == out,
                            None => r == Err::<Vec<u8>, MemberError>(
                                MemberError::MalformedArchive,
                            ),
                        },
                    }
                },
            },
        },
{
    let members = match ar_parse(archive) {
        Some(ms) => ms,
        None => {
            return Err(MemberError::MalformedArchive);
        },
    };
    let m = match member_lookup(&members, prefix) {
        Some(i) => &members[i],
        None => {
            return Err(MemberError::MissingMember);
        },
    };
    let ext = subvec_u8(&m.name, prefix.len(), m.name.len());
    proof {
        assert(ext@ =~= m.name@.skip(prefix@.len() as int));
    }
    let codec = match codec_of(&ext) {
        Some(c) => c,
        None => {
            return Err(MemberError::UnknownCodec);
        },
    };
    let decoded = match codec {
        Codec::Plain => {
            let d = subvec_u8(&m.data, 0, m.data.len());
            proof {
                assert(d@ =~= m.data@);
            }
            return Ok(d);
        },
        Codec::Gz => gunzip(&m.data),
        Codec::Bz2 => bunzip2(&m.data),
        Codec::Xz => unxz(&m.data),
    };
    match decoded {
        Some(d) => Ok(d),
        None => Err(MemberError::MalformedArchive),
    }
}

/// Finds the first member whose name starts with the prefix.
fn member_lookup(members: &Vec<ArMember>, prefix: &Vec<u8>) -> (r: Option<usize>)
    ensures
        match r {
            Some(i) => i < members@.len() && spec_member_lookup(ar_members_view(members@), prefix@)
                == Some(members@[i as int].view_s()) && spec_starts_with_u8(
                members@[i as int].name@,
                prefix@,
            ),
            None => spec_member_lookup(ar_members_view(members@), prefix@) is None,
        },
{
    let ghost all = ar_members_view(members@);
    let len = members.len();
    let mut i: usize = 0;
    proof {
        assert(all.skip(0) =~= all);
    }
    while i < len
        invariant
            i <= len,
            len == members@.len(),
            all == ar_members_view(members@),
            spec_member_lookup(all, prefix@) == spec_member_lookup(all.skip(i as int), prefix@),
        decreases len - i,
    {
        proof {
            assert(all.skip(i as int).first() == all[i as int]);
            assert(all.skip(i as int).drop_first() =~= all.skip(i + 1 as int));
            assert(all[i as int] == members@[i as int].view_s());
        }
        if starts_with_bytes(&members[i].name, prefix) {
            return Some(i);
        }
        i += 1;
    }
    proof {
        assert(all.skip(len as int) =~= Seq::<ArMemberS>::empty());
    }
    None
}

/// Reads a tar name field.
fn tar_name(raw: &Vec<u8>) -> (r: Vec<u8>)
    ensures
        r@ == spec_tar_name(raw@),
{
    let len = raw.len();
    proof {
        assert(raw@.subrange(0, len as int) =~= raw@);
        assert(raw@.subrange(0, 0) + spec_tar_name(raw@) =~= spec_tar_name(raw@));
    }
    let mut i: usize = 0;
    while i < len
        invariant
            i <= len,
            len == raw@.len(),
            forall|j: int| 0 <= j < i ==> raw@[j] != 0u8,
            spec_tar_name(raw@) == raw@.subrange(0, i as int) + spec_tar_name(
                raw@.subrange(i as int, len as int),
            ),
        decreases len - i,
    {
        proof {
            let tail = raw@.subrange(i as int, len as int);
            assert(tail.drop_first() =~= raw@.subrange(i + 1 as int, len as int));
            if raw@[i as int] != 0u8 {
                assert(raw@.subrange(0, i as int) + (seq![tail[0]] + tail.drop_first().subrange(
                    0,
                    0,
                )) =~= raw@.subrange(0, i + 1 as int));
                assert(raw@.subrange(0, i as int) + seq![tail[0]] =~= raw@.subrange(
                    0,
                    i + 1 as int,
                ));
            }
        }
        if raw[i] == 0 {
            proof {
                let tail = raw@.subrange(i as int, len as int);
                assert(spec_tar_name(tail) =~= Seq::<u8>::empty());
                assert(raw@.subrange(0, i as int) + Seq::<u8>::empty() =~= raw@.subrange(
                    0,
                    i as int,
                ));
            }
            return subvec_u8(raw, 0, i);
        }
        i += 1;
    }
    proof {
        assert(raw@.subrange(0, len as int) =~= raw@);
        assert(raw@.subrange(len as int, len as int) =~= Seq::<u8>::empty());
        assert(raw@ + Seq::<u8>::empty() =~= raw@);
    }
    subvec_u8(raw, 0, len)
}

/// Reads an octal header field.
fn tar_octal(raw: &Vec<u8>) -> (r: Option<u32>)
    ensures
        r == spec_tar_octal(raw@),
{
    parse_octal_u32(&trim_field(&bytes_as_chars(raw)))
}

/// Lists the entries of a tar stream; `None` when the bytes are not a
/// well-formed stream.
pub fn tar_parse(data: &Vec<u8>) -> (r: Option<Vec<TarEntry>>)
    ensures
        match r {
            Some(es) => spec_tar_entries(data@) == Some(tar_entries_view(es@)),
            None => spec_tar_entries(data@) is None,
        },
{
    let len = data.len();
    let mut out: Vec<TarEntry> = Vec::new();
    let mut pos: usize = 0;
    proof {
        assert(tar_entries_view(out@) =~= Seq::<TarEntryS>::empty());
        assert(data@.skip(0) =~= data@);
    }
    loop
        invariant
            pos <= len,
            len == data@.len(),
            spec_tar_entries(data@) == (match spec_tar_entries(data@.skip(pos as int)) {
                None => None::<Seq<TarEntryS>>,
                Some(es) => Some(tar_entries_view(out@) + es),
            }),
        decreases len - pos,
    {
        let ghost rest = data@.skip(pos as int);
        if pos == len {
            proof {
                assert(rest =~= Seq::<u8>::empty());
                assert(tar_entries_view(out@) + Seq::<TarEntryS>::empty() =~= tar_entries_view(
                    out@,
                ));
            }
            return Some(out);
        }
        if len - pos < 512 {
            return None;
        }
        if region_all_zero(data, pos, pos + 512) {
            proof {
                assert(rest.subrange(0, 512) =~= data@.subrange(pos as int, pos + 512 as int));
                assert(tar_entries_view(out@) + Seq::<TarEntryS>::empty() =~= tar_entries_view(
                    out@,
                ));
            }
            return Some(out);
        }
        proof {
            assert(rest.subrange(0, 512) =~= data@.subrange(pos as int, pos + 512 as int));
        }
        let name_raw = subvec_u8(data, pos, pos + 100);
        let mode_raw = subvec_u8(data, pos + 100, pos + 108);
        let size_raw = subvec_u8(data, pos + 124, pos + 136);
        proof {
            assert(name_raw@ =~= rest.subrange(0, 100));
            assert(mode_raw@ =~= rest.subrange(100, 108));
            assert(size_raw@ =~= rest.subrange(124, 136));
            assert(rest[156] == data@[pos + 156]);
        }
        let name = tar_name(&name_raw);
        let mode = tar_octal(&mode_raw);
        let typeflag = data[pos + 156];
        let sz32 = match tar_octal(&size_raw) {
            Some(s) => s,
            None => {
                return None;
            },
        };
        let sz = sz32 as usize;
        if len - pos - 512 < sz {
            return None;
        }
        let entry_data = subvec_u8(data, pos + 512, pos + 512 + sz);
        proof {
            assert(entry_data@ =~= rest.subrange(512, 512 + sz32 as int));
        }
        let ghost prev = out@;
        out.push(TarEntry { name, mode, typeflag, data: entry_data });
        let padded = (sz / 512) * 512 + (
        if sz % 512 == 0 {
            0
        } else {
            512
        });
        let next = if len - pos - 512 >= padded {
            pos + 512 + padded
        } else {
            len
        };
        proof {
            let spec_padded: int = ((sz32 + 511) / 512) * 512;
            assert(spec_padded == padded as int);
            let spec_rest = if 512 + spec_padded <= rest.len() {
                rest.skip(512 + spec_padded)
            } else {
                Seq::<u8>::empty()
            };
            assert(spec_rest =~= data@.skip(next as int));
            assert(tar_entries_view(out@) =~= tar_entries_view(prev).push(
                TarEntryS { name: name@, mode, typeflag, data: entry_data@ },
            ));
            assert forall|es: Seq<TarEntryS>| true implies tar_entries_view(prev) + (seq![
                TarEntryS { name: name@, mode, typeflag, data: entry_data@ },
            ] + es) =~= tar_entries_view(out@) + es by {}
        }
        pos = next;
    }
}

} // verus!
