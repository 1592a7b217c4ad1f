//! Trusted wrappers around the outside crates this library leans on: the
//! three compression codecs, base64, shell-unquoting, and the `String`
//! conversions vstd gives no specification for.
//!
//! Each wrapper's contract names or bounds exactly what the outside
//! function's documentation promises; nothing else in the crate is trusted.

use vstd::prelude::*;

use base64::Engine;
use std::io::Read;

verus! {

/// What gzip-decompressing a byte sequence yields, or `None` for an
/// invalid stream: a function of the bytes alone.
pub uninterp spec fn gunzip_of(data: Seq<u8>) -> Option<Seq<u8>>;

/// Relies on `flate2::read::GzDecoder`: decompressing a gzip stream is a
/// function of the input bytes alone — the bytes it yields, and whether it
/// fails.
#[verifier::external_body]
pub fn gunzip(data: &Vec<u8>) -> (r: Option<Vec<u8>>)
    ensures
        (match r {
            Some(out) => Some(out@),
            None => None::<Seq<u8>>,
        }) == gunzip_of(data@),
{
    let mut out = Vec::new();
    match flate2::read::GzDecoder::new(data.as_slice()).read_to_end(&mut out) {
        Ok(_) => Some(out),
        Err(_) => None,
    }
}

/// What bzip2-decompressing a byte sequence yields, or `None` for an
/// invalid stream: a function of the bytes alone.
pub uninterp spec fn bunzip2_of(data: Seq<u8>) -> Option<Seq<u8>>;

/// Relies on `bzip2::read::BzDecoder`: decompressing a bzip2 stream is a
/// function of the input bytes alone — the bytes it yields, and whether it
/// fails.
#[verifier::external_body]
pub fn bunzip2(data: &Vec<u8>) -> (r: Option<Vec<u8>>)
    ensures
        (match r {
            Some(out) => Some(out@),
            None => None::<Seq<u8>>,
        }) == bunzip2_of(data@),
{
    let mut out = Vec::new();
    match bzip2::read::BzDecoder::new(data.as_slice()).read_to_end(&mut out) {
        Ok(_) => Some(out),
        Err(_) => None,
    }
}

/// What xz/lzma-decompressing a byte sequence yields, or `None` for an
/// invalid stream: a function of the bytes alone.
pub uninterp spec fn unxz_of(data: Seq<u8>) -> Option<Seq<u8>>;

/// Relies on `liblzma::read::XzDecoder`: decompressing an xz or lzma
/// stream is a function of the input bytes alone — the bytes it yields,
/// and whether it fails.
#[verifier::external_body]
pub fn unxz(data: &Vec<u8>) -> (r: Option<Vec<u8>>)
    ensures
        (match r {
            Some(out) => Some(out@),
            None => None::<Seq<u8>>,
        }) == unxz_of(data@),
{
    let mut out = Vec::new();
    match liblzma::read::XzDecoder::new(data.as_slice()).read_to_end(&mut out) {
        Ok(_) => Some(out),
        Err(_) => None,
    }
}

/// What base64-encoding a byte sequence yields under the padded standard
/// alphabet: a function of the bytes alone.
pub uninterp spec fn base64_of(data: Seq<u8>) -> Seq<char>;

/// Relies on `base64`'s `STANDARD` engine: encoding is a function of the
/// input bytes alone, and the padded output holds four characters for every
/// started group of three input bytes.
#[verifier::external_body]
pub fn base64_encode(data: &Vec<u8>) -> (r: String)
    ensures
        r@ == base64_of(data@),
        r@.len() == 4 * ((data@.len() + 2) / 3),
{
    base64::engine::general_purpose::STANDARD.encode(data.as_slice())
}

/// What shell-unquoting a string yields, or `None` for a malformed
/// escape: a function of the characters alone.
pub uninterp spec fn unescaped_of(s: Seq<char>) -> Option<Seq<char>>;

/// Relies on `snailquote::unescape`: removing shell-style quotes and
/// resolving backslash escapes is a function of the input characters alone
/// — the text it yields, and whether an escape is malformed.
#[verifier::external_body]
pub fn shell_unescape(s: &str) -> (r: Option<String>)
    ensures
        (match r {
            Some(out) => Some(out@),
            None => None::<Seq<char>>,
        }) == unescaped_of(s@),
{
    match snailquote::unescape(s) {
        Ok(out) => Some(out),
        Err(_) => None,
    }
}

/// Relies on `String::from_utf8`: it succeeds exactly on valid UTF-8 and
/// yields the characters that byte sequence encodes.
#[verifier::external_body]
pub fn bytes_to_string(v: &Vec<u8>) -> (r: Option<String>)
    ensures
        match r {
            Some(s) => vstd::utf8::valid_utf8(v@) && s@ == vstd::utf8::decode_utf8(v@),
            None => !vstd::utf8::valid_utf8(v@),
        },
{
    match String::from_utf8(v.clone()) {
        Ok(s) => Some(s),
        Err(_) => None,
    }
}

} // verus!
