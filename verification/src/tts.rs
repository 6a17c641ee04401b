//! The text-to-speech cache's naming and encoding rules: which file caches
//! a term's audio, when a cached file is usable, and the data URLs handed to
//! the player.
use vstd::prelude::*;
use crate::text::{chars_of, owned, string_from_chars};

verus! {

/// A request to speak `text`, cached under `term`.
#[derive(Clone, Debug)]
pub struct TtsRequest {
    pub term: String,
    pub text: String,
}

/// Characters kept in a cache file name: ASCII letters and digits, `_` and `-`.
pub open spec fn is_file_safe(c: char) -> bool {
    ('a' <= c && c <= 'z') || ('A' <= c && c <= 'Z') || ('0' <= c && c <= '9') || c == '_' || c
        == '-'
}

pub open spec fn safe_char(c: char) -> char {
    if is_file_safe(c) {
        c
    } else {
        '_'
    }
}

/// The term with every character that is unsafe in a file name replaced by `_`.
pub fn safe_term(term: &str) -> (s: String)
    ensures
        s@ == term@.map_values(|c: char| safe_char(c)),
{
    let cs = chars_of(term);
    let mut out: Vec<char> = Vec::new();
    let mut i: usize = 0;
    while i < cs.len()
        invariant
            cs@ == term@,
            i <= cs.len(),
            out@ == cs@.take(i as int).map_values(|c: char| safe_char(c)),
        decreases cs.len() - i,
    {
        let c = cs[i];
        let safe = ('a' <= c && c <= 'z') || ('A' <= c && c <= 'Z') || ('0' <= c && c <= '9') || c
            == '_' || c == '-';
        out.push(if safe {
            c
        } else {
            '_'
        });
        i = i + 1;
        assert(out@ =~= cs@.take(i as int).map_values(|c: char| safe_char(c)));
    }
    assert(cs@.take(i as int) =~= cs@);
    string_from_chars(&out)
}

/// The cache file of a term: its safe form with the `.mp3` extension.
pub fn audio_file_name(term: &str) -> (s: String)
    ensures
        s@ == term@.map_values(|c: char| safe_char(c)) + ".mp3"@,
{
    let mut s = safe_term(term);
    s.append(".mp3");
    s
}

/// The temporary file a fresh download is written to before it is moved
/// into place (named after the raw term).
pub fn temp_file_name(term: &str) -> (s: String)
    ensures
        s@ == term@ + ".tmp.mp3"@,
{
    let mut s = owned(term);
    s.append(".tmp.mp3");
    s
}

/// A cached file is reused only when it is larger than 1000 bytes; smaller
/// files are taken as broken and generated again.
pub fn cached_audio_usable(file_size: u64) -> (b: bool)
    ensures
        b == (file_size > 1000),
{
    file_size > 1000
}

/// The standard base64 (RFC 4648, padded) text of `bytes`.
pub uninterp spec fn spec_base64(bytes: Seq<u8>) -> Seq<char>;

/// The bytes of a standard base64 text, when it is valid.
pub uninterp spec fn spec_unbase64(text: Seq<char>) -> Option<Seq<u8>>;

/// `base64::engine::general_purpose::STANDARD.encode(bytes)`; the text
/// depends on the bytes alone.
#[verifier::external_body]
fn base64_encode(bytes: &[u8]) -> (s: String)
    ensures
        s@ == spec_base64(bytes@),
{
    base64::Engine::encode(&base64::engine::general_purpose::STANDARD, bytes)
}

/// `base64::engine::general_purpose::STANDARD.decode(text)`, its error turned
/// into the error's message. On success the bytes depend on the text alone;
/// of the message nothing is stated.
#[verifier::external_body]
fn base64_decode(text: &str) -> (r: Result<Vec<u8>, String>)
    ensures
        r is Ok <==> spec_unbase64(text@) is Some,
        r matches Ok(b) ==> spec_unbase64(text@) == Some(b@),
{
    match base64::Engine::decode(&base64::engine::general_purpose::STANDARD, text) {
        Ok(b) => Ok(b),
        Err(e) => Err(e.to_string()),
    }
}

/// The data URL of cached audio bytes.
pub fn audio_data_url(bytes: &Vec<u8>) -> (s: String)
    ensures
        s@ == "data:audio/mp3;base64,"@ + spec_base64(bytes@),
{
    let encoded = base64_encode(bytes.as_slice());
    let mut s = owned("data:audio/mp3;base64,");
    s.append(encoded.as_str());
    s
}

/// The data URL of audio already encoded as base64 text.
pub fn data_url_for_content(content: &str) -> (s: String)
    ensures
        s@ == "data:audio/mp3;base64,"@ + content@,
{
    let mut s = owned("data:audio/mp3;base64,");
    s.append(content);
    s
}

/// The audio bytes of the proxy's base64 content, or the error the command
/// reports.
pub fn decode_audio_content(content: &str) -> (r: Result<Vec<u8>, String>)
    ensures
        r is Ok <==> spec_unbase64(content@) is Some,
        r matches Ok(b) ==> spec_unbase64(content@) == Some(b@),
        r matches Err(m) ==> exists|detail: Seq<char>| m@ == "Failed to decode base64: "@ + detail,
{
    match base64_decode(content) {
        Ok(b) => Ok(b),
        Err(e) => {
            let mut m = owned("Failed to decode base64: ");
            m.append(e.as_str());
            assert(m@ == "Failed to decode base64: "@ + e@);
            Err(m)
        },
    }
}

} // verus!
