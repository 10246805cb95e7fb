//! Pure rules of the library indexer: which files count as music, and how
//! an extracted cover image is named.
//!
//! The directory walk, the tag reading and the file writes around these
//! rules are I/O and live outside this crate.

use vstd::prelude::*;

use vstd::string::StringSliceAdditionalSpecFns;
use vstd::string::StringExecFns;
use vstd::utf8::encode_utf8;

verus! {

/// ASCII lowercasing of one byte.  UTF-8 continuation bytes are all above
/// the ASCII range, so mapping bytes maps exactly the ASCII letters of
/// the text.
pub open spec fn lower_byte(b: u8) -> u8 {
    if 65 <= b <= 90 {
        (b + 32) as u8
    } else {
        b
    }
}

/// ASCII lowercasing of a byte sequence.
pub open spec fn lower_bytes(s: Seq<u8>) -> Seq<u8> {
    Seq::new(s.len(), |i: int| lower_byte(s[i]))
}

/// Whether a file extension, case-insensitively, names one of the audio
/// formats the indexer picks up.
pub open spec fn spec_is_music_extension(ext: Seq<char>) -> bool {
    ||| lower_bytes(encode_utf8(ext)) == encode_utf8("mp3"@)
    ||| lower_bytes(encode_utf8(ext)) == encode_utf8("flac"@)
    ||| lower_bytes(encode_utf8(ext)) == encode_utf8("wav"@)
    ||| lower_bytes(encode_utf8(ext)) == encode_utf8("m4a"@)
}

/// The image file extension used for an extracted cover with the given
/// MIME type; anything unrecognized lands in a `.bin` file.
pub open spec fn spec_cover_extension(mime: Seq<char>) -> Seq<char> {
    if mime == "image/png"@ {
        "png"@
    } else if mime == "image/jpeg"@ || mime == "image/jpg"@ {
        "jpg"@
    } else {
        "bin"@
    }
}

/// Byte-for-byte equality of two slices.
fn bytes_eq(a: &[u8], b: &[u8]) -> (r: bool)
    ensures
        r == (a@ == b@),
{
    if a.len() != b.len() {
        proof {
            assert(a@ != b@);
        }
        return false;
    }
    let n = a.len();
    let mut idx: usize = 0;
    while idx < n
        invariant
            idx <= n,
            n == a@.len(),
            n == b@.len(),
            forall|j: int| 0 <= j < idx ==> a@[j] == b@[j],
        decreases n - idx,
    {
        if a[idx] != b[idx] {
            return false;
        }
        idx = idx + 1;
    }
    proof {
        assert(a@ =~= b@);
    }
    true
}

/// Equality of two strings.
fn str_eq(a: &str, b: &str) -> (r: bool)
    ensures
        r == (a@ == b@),
{
    let equal = bytes_eq(a.as_bytes(), b.as_bytes());
    proof {
        if a.spec_bytes() == b.spec_bytes() {
            vstd::utf8::encode_utf8_decode_utf8(a@);
            vstd::utf8::encode_utf8_decode_utf8(b@);
        }
    }
    equal
}

/// The ASCII-lowercased bytes of `s`.
fn lower_ascii_bytes(s: &str) -> (r: Vec<u8>)
    ensures
        r@ == lower_bytes(s.spec_bytes()),
{
    let b = s.as_bytes();
    let n = b.len();
    let mut out: Vec<u8> = Vec::new();
    let mut idx: usize = 0;
    while idx < n
        invariant
            idx <= n,
            n == b@.len(),
            b@ == s.spec_bytes(),
            out@ =~= lower_bytes(b@.take(idx as int)),
        decreases n - idx,
    {
        let byte = b[idx];
        if 65 <= byte && byte <= 90 {
            out.push(byte + 32);
        } else {
            out.push(byte);
        }
        idx = idx + 1;
        proof {
            assert(out@ =~= lower_bytes(b@.take(idx as int)));
        }
    }
    proof {
        assert(b@.take(n as int) =~= b@);
    }
    out
}

/// Whether a file with extension `ext` (as it appears on disk, any case)
/// is picked up by the music scan.
pub fn is_music_extension(ext: &str) -> (r: bool)
    ensures
        r == spec_is_music_extension(ext@),
{
    let lowered = lower_ascii_bytes(ext);
    if bytes_eq(lowered.as_slice(), "mp3".as_bytes()) {
        true
    } else if bytes_eq(lowered.as_slice(), "flac".as_bytes()) {
        true
    } else if bytes_eq(lowered.as_slice(), "wav".as_bytes()) {
        true
    } else {
        bytes_eq(lowered.as_slice(), "m4a".as_bytes())
    }
}

/// The file extension an extracted cover of MIME type `mime` is stored
/// under.
pub fn cover_extension(mime: &str) -> (r: &str)
    ensures
        r@ == spec_cover_extension(mime@),
{
    if str_eq(mime, "image/png") {
        "png"
    } else if str_eq(mime, "image/jpeg") {
        "jpg"
    } else if str_eq(mime, "image/jpg") {
        "jpg"
    } else {
        "bin"
    }
}

/// The file name an extracted cover is written to: the track's base name
/// plus the extension its MIME type calls for.
pub fn cover_file_name(base_name: &str, mime: &str) -> (r: String)
    ensures
        r@ == base_name@ + "."@ + spec_cover_extension(mime@),
{
    let named = String::from_str(base_name).concat(".").concat(cover_extension(mime));
    proof {
        assert(named@ =~= base_name@ + "."@ + spec_cover_extension(mime@));
    }
    named
}

} // verus!
