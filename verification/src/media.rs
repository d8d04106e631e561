use vstd::prelude::*;
use crate::text::{chars_of, contains, contains_str, lower_ascii};
use base64::Engine;

verus! {

broadcast use vstd::string::group_string_axioms;

/// A transport command for the media session.
#[derive(Clone, Copy, Debug, PartialEq, Eq)]
pub enum MediaAction {
    Play,
    Pause,
    PlayPause,
    Next,
    Previous,
}

/// The command an action name stands for; unknown names have none.
pub open spec fn action_of(name: Seq<char>) -> Option<MediaAction> {
    if name == "play"@ {
        Some(MediaAction::Play)
    } else if name == "pause"@ {
        Some(MediaAction::Pause)
    } else if name == "play_pause"@ {
        Some(MediaAction::PlayPause)
    } else if name == "next"@ {
        Some(MediaAction::Next)
    } else if name == "previous"@ {
        Some(MediaAction::Previous)
    } else {
        None
    }
}

/// The view of an action decision.
pub open spec fn action_view(r: Result<MediaAction, String>) -> Result<MediaAction, Seq<char>> {
    match r {
        Ok(a) => Ok(a),
        Err(e) => Err(e@),
    }
}

/// The command for an action name, or the error "Unknown action".
pub fn media_action(name: &str) -> (r: Result<MediaAction, String>)
    ensures
        action_view(r) == match action_of(name@) {
            Some(a) => Ok(a),
            None => Err("Unknown action"@),
        },
{
    let n = chars_of(name);
    if crate::text::chars_eq_str(&n, "play") {
        Ok(MediaAction::Play)
    } else if crate::text::chars_eq_str(&n, "pause") {
        Ok(MediaAction::Pause)
    } else if crate::text::chars_eq_str(&n, "play_pause") {
        Ok(MediaAction::PlayPause)
    } else if crate::text::chars_eq_str(&n, "next") {
        Ok(MediaAction::Next)
    } else if crate::text::chars_eq_str(&n, "previous") {
        Ok(MediaAction::Previous)
    } else {
        Err(String::from_str("Unknown action"))
    }
}

/// The Unicode lower-case mapping of a string, as `str::to_lowercase` gives it.
pub uninterp spec fn unicode_lower(s: Seq<char>) -> Seq<char>;

/// `str::to_lowercase`.  Claimed: the result is `unicode_lower` of the text,
/// and for an all-ASCII text it is the ASCII lower-casing (std documents that
/// ASCII letters map to their ASCII lower case).
#[verifier::external_body]
fn to_lower(s: &str) -> (r: String)
    ensures
        r@ == unicode_lower(s@),
        (forall|i: int| 0 <= i < s@.len() ==> (#[trigger] s@[i] as u32) < 128) ==> r@ == lower_ascii(s@),
{
    s.to_lowercase()
}

/// A media session belongs to Spotify: its app id, lower-cased, contains "spotify".
pub fn is_spotify_session(app_id: &str) -> (r: bool)
    ensures
        r == contains(unicode_lower(app_id@), "spotify"@),
{
    let l = to_lower(app_id);
    contains_str(&chars_of(l.as_str()), "spotify")
}

/// The largest thumbnail, in bytes, that is read.
pub const MAX_THUMBNAIL_BYTES: u32 = 2_000_000;

/// How many bytes of a thumbnail stream to read: the stream size taken as a
/// `u32` (its low 32 bits), unless that is zero or above 2_000_000.
pub fn thumbnail_read_len(size: u64) -> (r: Option<u32>)
    ensures
        r == (if size % 0x1_0000_0000 == 0 || size % 0x1_0000_0000 > 2_000_000 {
            None
        } else {
            Some((size % 0x1_0000_0000) as u32)
        }),
{
    let s: u32 = (size % 0x1_0000_0000) as u32;
    if s == 0 || s > MAX_THUMBNAIL_BYTES {
        None
    } else {
        Some(s)
    }
}

/// The standard base64 alphabet (RFC 4648): `A`-`Z`, `a`-`z`, `0`-`9`, `+`, `/`.
pub open spec fn b64_digit(v: int) -> char {
    if v < 26 {
        (65 + v) as char
    } else if v < 52 {
        (97 + v - 26) as char
    } else if v < 62 {
        (48 + v - 52) as char
    } else if v == 62 {
        '+'
    } else {
        '/'
    }
}

/// Standard base64 with `=` padding: each group of three bytes becomes four
/// characters; a final group of one or two bytes is padded.
pub open spec fn base64_standard(b: Seq<u8>) -> Seq<char>
    decreases b.len(),
{
    if b.len() == 0 {
        Seq::empty()
    } else if b.len() == 1 {
        seq![b64_digit(b[0] as int / 4), b64_digit((b[0] as int % 4) * 16), '=', '=']
    } else if b.len() == 2 {
        seq![
            b64_digit(b[0] as int / 4),
            b64_digit((b[0] as int % 4) * 16 + b[1] as int / 16),
            b64_digit((b[1] as int % 16) * 4),
            '=',
        ]
    } else {
        seq![
            b64_digit(b[0] as int / 4),
            b64_digit((b[0] as int % 4) * 16 + b[1] as int / 16),
            b64_digit((b[1] as int % 16) * 4 + b[2] as int / 64),
            b64_digit(b[2] as int % 64),
        ] + base64_standard(b.skip(3))
    }
}

/// `base64::engine::general_purpose::STANDARD.encode`.  Claimed: the result is
/// the standard, padded base64 encoding of the bytes.  `requires` leaves out
/// inputs whose encoded length overflows `usize`, on which the crate panics.
#[verifier::external_body]
fn base64_encode(bytes: &[u8]) -> (r: String)
    requires
        bytes@.len() <= usize::MAX / 2,
    ensures
        r@ == base64_standard(bytes@),
{
    base64::engine::general_purpose::STANDARD.encode(bytes)
}

/// The data URL of a JPEG thumbnail: "data:image/jpeg;base64," and the bytes in base64.
pub fn thumbnail_data_url(bytes: &[u8]) -> (r: String)
    requires
        bytes@.len() <= usize::MAX / 2,
    ensures
        r@ == "data:image/jpeg;base64,"@ + base64_standard(bytes@),
{
    let mut url = String::from_str("data:image/jpeg;base64,");
    let encoded = base64_encode(bytes);
    url.append(encoded.as_str());
    url
}

} // verus!
