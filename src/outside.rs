//! Calls into outside crates, each behind a contract that the rest of the
//! library relies on.

use vstd::prelude::*;

verus! {

/// The `application/x-www-form-urlencoded` text of a sequence of
/// name/value pairs, as serde_urlencoded writes it.
pub uninterp spec fn form_encoded(pairs: Seq<(Seq<char>, Seq<char>)>) -> Seq<char>;

/// Relies on `serde_urlencoded::to_string` over a slice of string pairs: a
/// sequence of pairs of strings is always accepted (its pair serializer
/// fails only on other shapes), and the text is a function of the pairs
/// alone.
#[verifier::external_body]
pub(crate) fn encode_form(pairs: &Vec<(String, String)>) -> (r: Option<String>)
    ensures
        r is Some,
        r matches Some(s) ==> s@ == form_encoded(pairs.deep_view()),
{
    serde_urlencoded::to_string(pairs.as_slice()).ok()
}

/// The lowercase hexadecimal SHA-256 digest of some bytes.
pub uninterp spec fn sha256_hex(bytes: Seq<u8>) -> Seq<char>;

/// Relies on `sha256::digest`, which hex-encodes (with `hex::encode`, in
/// lowercase) the 32-byte SHA-256 digest of its input: the text depends on
/// the bytes alone, and has 64 lowercase hexadecimal digits.
#[verifier::external_body]
pub(crate) fn digest_hex(bytes: &[u8; 32]) -> (r: String)
    ensures
        r@ == sha256_hex(bytes@),
        r@.len() == 64,
        forall|i: int| 0 <= i < 64 ==> ('0' <= #[trigger] r@[i] <= '9') || ('a' <= r@[i] <= 'f'),
{
    sha256::digest(bytes)
}

/// Relies on `rand::random`: 32 bytes drawn from the thread-local generator.
/// Nothing is known of their value.
#[verifier::external_body]
pub(crate) fn random_seed() -> (r: [u8; 32]) {
    rand::random::<[u8; 32]>()
}

/// The name/value pairs that serde_urlencoded reads from a form-encoded
/// text, or `None` where it refuses the text.
pub uninterp spec fn form_decoded(s: Seq<char>) -> Option<Seq<(Seq<char>, Seq<char>)>>;

/// Relies on `serde_urlencoded::from_str` into a list of string pairs: the
/// outcome depends on the text alone.
#[verifier::external_body]
pub(crate) fn decode_form(s: &String) -> (r: Option<Vec<(String, String)>>)
    ensures
        match r {
            Some(v) => form_decoded(s@) == Some(v.deep_view()),
            None => form_decoded(s@) is None,
        },
{
    serde_urlencoded::from_str::<Vec<(String, String)>>(s.as_str()).ok()
}

/// The text `YYYY-MM-DD HH:MM:SS` of a Unix time in UTC, as chrono formats
/// it, or `None` where chrono has no such date.
pub uninterp spec fn timestamp_text(secs: i64) -> Option<Seq<char>>;

/// Relies on chrono's `NaiveDateTime::from_timestamp_opt` (which gives `None`
/// more than about 262,000 years from the common era) and its `format`.
#[verifier::external_body]
pub(crate) fn format_timestamp(secs: i64) -> (r: Option<String>)
    ensures
        match r {
            Some(s) => timestamp_text(secs) == Some(s@),
            None => timestamp_text(secs) is None,
        },
{
    #[allow(deprecated)]
    let dt = chrono::NaiveDateTime::from_timestamp_opt(secs, 0);
    match dt {
        Some(d) => Some(d.format("%Y-%m-%d %H:%M:%S").to_string()),
        None => None,
    }
}

} // verus!
