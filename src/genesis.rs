//! The genesis source: how a fetched genesis document is encoded, and its
//! decompression to text.
use vstd::prelude::*;
use vstd::string::StrSliceExecFns;
use crate::error::SetupError;

verus! {

/// How a fetched genesis document is encoded.
#[derive(PartialEq, Eq, Structural, Clone, Copy, Debug)]
pub enum GenesisEncoding {
    /// Text as served.
    Plain,
    /// A gzip stream of the text.
    Gzip,
}

/// `url` names a gzip-compressed document.
pub open spec fn is_gzip_url(url: Seq<char>) -> bool {
    url.len() >= 3 && url.subrange(url.len() - 3, url.len() as int) == ".gz"@
}

/// How the genesis document at `url` is encoded; an empty URL means there is no source.
pub fn genesis_encoding(url: &str) -> (r: Result<GenesisEncoding, SetupError>)
    ensures
        url@.len() == 0 ==> r matches Err(SetupError::NoGenesisUrl),
        url@.len() > 0 && is_gzip_url(url@) ==> r == Ok::<GenesisEncoding, SetupError>(
            GenesisEncoding::Gzip,
        ),
        url@.len() > 0 && !is_gzip_url(url@) ==> r == Ok::<GenesisEncoding, SetupError>(
            GenesisEncoding::Plain,
        ),
{
    let n = url.unicode_len();
    if n == 0 {
        return Err(SetupError::NoGenesisUrl);
    }
    proof {
        reveal_strlit(".gz");
    }
    if n >= 3 && url.get_char(n - 3) == '.' && url.get_char(n - 2) == 'g' && url.get_char(n - 1)
        == 'z' {
        assert(url@.subrange(n - 3, n as int) =~= ".gz"@);
        Ok(GenesisEncoding::Gzip)
    } else {
        proof {
            if n >= 3 && is_gzip_url(url@) {
                assert(url@.subrange(n - 3, n as int)[0] == url@[n - 3]);
                assert(url@.subrange(n - 3, n as int)[1] == url@[n - 2]);
                assert(url@.subrange(n - 3, n as int)[2] == url@[n - 1]);
            }
        }
        Ok(GenesisEncoding::Plain)
    }
}

/// The text that a gzip stream decompresses to, where it is a valid stream of UTF-8 text.
pub uninterp spec fn gunzipped_text(compressed: Seq<u8>) -> Option<Seq<char>>;

/// Relies on flate2::read::GzDecoder read through std::io::Read::read_to_string:
/// it decodes one gzip member and yields its text, or fails on a corrupt stream or
/// on bytes that are not UTF-8; the outcome depends on the input bytes alone.
#[verifier::external_body]
fn gunzip_text(compressed: &[u8]) -> (r: Option<String>)
    ensures
        match gunzipped_text(compressed@) {
            Some(t) => r matches Some(s) && s@ == t,
            None => r is None,
        },
{
    let mut text = String::new();
    match std::io::Read::read_to_string(&mut flate2::read::GzDecoder::new(compressed), &mut text) {
        Ok(_) => Some(text),
        Err(_) => None,
    }
}

/// The genesis text for the outcome of a decompression: the text, or a decoding failure.
pub fn genesis_from_decoded(decoded: Option<String>) -> (r: Result<String, SetupError>)
    ensures
        match decoded {
            Some(t) => r matches Ok(s) && s@ == t@,
            None => r matches Err(SetupError::GenesisNotDecodable),
        },
{
    match decoded {
        Some(t) => Ok(t),
        None => Err(SetupError::GenesisNotDecodable),
    }
}

/// The genesis text of a compressed download `body`.
pub fn decompress_genesis(body: &[u8]) -> (r: Result<String, SetupError>)
    ensures
        match gunzipped_text(body@) {
            Some(t) => r matches Ok(s) && s@ == t,
            None => r matches Err(SetupError::GenesisNotDecodable),
        },
{
    genesis_from_decoded(gunzip_text(body))
}

} // verus!
