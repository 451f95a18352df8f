//! Where a sound button's audio comes from: a file, or Base64 data inline.
use vstd::prelude::*;

use base64::{engine::general_purpose, Engine as _};

use crate::text::{
    chars_of, copy_range, find, find_chars, has_prefix, owned, starts_with, string_from_chars,
};

verus! {

#[verifier::external_type_specification]
#[verifier::external_body]
pub struct ExDecodeError(base64::DecodeError);

/// The bytes that standard (padded) Base64 text decodes to, as the `base64`
/// crate's `general_purpose::STANDARD` engine decodes it, or `None` where it refuses the text.
pub uninterp spec fn base64_standard_decoded(text: Seq<char>) -> Option<Seq<u8>>;

/// The error that `general_purpose::STANDARD.decode` reports for text that it refuses
/// (which character, at which offset, or what is wrong with the length or padding).
pub uninterp spec fn base64_decode_failure(text: Seq<char>) -> base64::DecodeError;

/// `general_purpose::STANDARD.decode` on the UTF-8 bytes of `text`: the decoded bytes,
/// or the error it reports.
#[verifier::external_body]
fn base64_decode(text: &str) -> (r: Result<Vec<u8>, base64::DecodeError>)
    ensures
        match r {
            Ok(bytes) => base64_standard_decoded(text@) == Some(bytes@),
            Err(e) => base64_standard_decoded(text@) is None && e == base64_decode_failure(text@),
        },
{
    general_purpose::STANDARD.decode(text)
}

/// The audio to play.
#[derive(Debug)]
pub enum SoundSource {
    /// Encoded audio bytes carried inline by a `data:audio` address.
    Encoded(Vec<u8>),
    /// A sound file on disk.
    File(String),
}

/// The Base64 part of a `data:audio` address: its second comma-separated piece.
pub open spec fn audio_payload(s: Seq<char>) -> Option<Seq<char>> {
    match find(s, ","@) {
        Some(i) => {
            let rest = s.skip(i + 1);
            match find(rest, ","@) {
                Some(j) => Some(rest.take(j)),
                None => Some(rest),
            }
        },
        None => None,
    }
}

/// Whether a sound is carried inline.
pub open spec fn is_inline_audio(s: Seq<char>) -> bool {
    has_prefix(s, "data:audio"@)
}

/// The part of `s` after its first comma, up to the next one.
fn audio_payload_of(s: &Vec<char>) -> (r: Option<Vec<char>>)
    ensures
        match r {
            Some(p) => audio_payload(s@) == Some(p@),
            None => audio_payload(s@) is None,
        },
{
    let comma = chars_of(",");
    proof {
        reveal_strlit(",");
    }
    assert(comma@.len() == 1);
    let found = find_chars(s, &comma);
    match found {
        Some(i) => {
            let n = s.len();
            assert(i + 1 <= n);
            let rest = copy_range(s, i + 1, n);
            assert(rest@ =~= s@.skip(i + 1));
            match find_chars(&rest, &comma) {
                Some(j) => {
                    let p = copy_range(&rest, 0, j);
                    assert(p@ =~= rest@.take(j as int));
                    Some(p)
                },
                None => Some(rest),
            }
        },
        None => None,
    }
}

/// Where a sound's audio comes from: for a `data:audio` address, the decoded
/// Base64 data after its first comma (an error when there is no comma, or the
/// decoder's message when the data is not Base64); otherwise the file at that path.
pub fn resolve_sound_source(sound: &str) -> (r: Result<SoundSource, String>)
    ensures
        !is_inline_audio(sound@) ==> (r matches Ok(SoundSource::File(p)) && p@ == sound@),
        is_inline_audio(sound@) ==> match audio_payload(sound@) {
            None => (r matches Err(e) && e@ == "Invalid audio data URL"@),
            Some(p) => match base64_standard_decoded(p) {
                Some(bytes) => (r matches Ok(SoundSource::Encoded(b)) && b@ == bytes),
                None => (r matches Err(m) && vstd::string::to_string_from_display_ensures::<
                    base64::DecodeError,
                >(&base64_decode_failure(p), m)),
            },
        },
{
    let s = chars_of(sound);
    if !starts_with(&s, &chars_of("data:audio")) {
        return Ok(SoundSource::File(owned(sound)));
    }
    let payload = match audio_payload_of(&s) {
        Some(p) => p,
        None => return Err(owned("Invalid audio data URL")),
    };
    let text = string_from_chars(payload.as_slice());
    match base64_decode(text.as_str()) {
        Ok(bytes) => Ok(SoundSource::Encoded(bytes)),
        Err(e) => Err(e.to_string()),
    }
}

} // verus!
