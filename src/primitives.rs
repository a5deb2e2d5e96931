//! The calls this library makes into outside code, each with the contract it
//! relies on: HMAC-SHA256, bcrypt, the wall clock and UTF-8 validation.
use hmac::{Hmac, Mac};
use sha2::Sha256;
use vstd::prelude::*;
use vstd::utf8::{decode_utf8, valid_utf8};

verus! {

/// The HMAC-SHA256 tag of `msg` under `key`.
pub uninterp spec fn hmac_sha256(key: Seq<u8>, msg: Seq<u8>) -> Seq<u8>;

/// What `bcrypt::verify` answers for a password and a stored hash: whether
/// they match, or `None` where the hash cannot be read.
pub uninterp spec fn bcrypt_verdict(password: Seq<char>, hash: Seq<char>) -> Option<bool>;

#[verifier::external_type_specification]
#[verifier::external_body]
pub struct ExBcryptError(bcrypt::BcryptError);

/// Relies on hmac's `Hmac<Sha256>`: `new_from_slice` accepts a key of any
/// length, and `finalize` gives the 32-byte tag of what `update` was fed.
#[verifier::external_body]
pub(crate) fn hmac_tag(key: &[u8], msg: &[u8]) -> (r: Vec<u8>)
    ensures
        r@ == hmac_sha256(key@, msg@),
        r@.len() == 32,
{
    let mut mac = <Hmac<Sha256> as Mac>::new_from_slice(key).expect("HMAC takes keys of any length");
    mac.update(msg);
    mac.finalize().into_bytes().to_vec()
}

/// Relies on `Mac::verify_slice` of hmac's `Hmac<Sha256>`: `Ok` exactly when
/// `tag` equals the tag of `msg` under `key`, compared in constant time.
#[verifier::external_body]
pub(crate) fn hmac_tag_matches(key: &[u8], msg: &[u8], tag: &[u8]) -> (r: bool)
    ensures
        r == (tag@ == hmac_sha256(key@, msg@)),
{
    let mut mac = <Hmac<Sha256> as Mac>::new_from_slice(key).expect("HMAC takes keys of any length");
    mac.update(msg);
    mac.verify_slice(tag).is_ok()
}

/// Relies on `bcrypt::verify`: whether `password` matches the bcrypt `hash`,
/// or an error where the hash cannot be read.
#[verifier::external_body]
pub(crate) fn bcrypt_check(password: &str, hash: &str) -> (r: Result<bool, bcrypt::BcryptError>)
    ensures
        match r {
            Ok(m) => bcrypt_verdict(password@, hash@) == Some(m),
            Err(_) => bcrypt_verdict(password@, hash@) is None,
        },
{
    bcrypt::verify(password, hash)
}

/// Relies on `std::time::SystemTime::now` and chrono's
/// `DateTime::from_timestamp`: the current time in milliseconds since the Unix
/// epoch, or `None` where the system clock reads earlier than the epoch or
/// later than chrono can represent. Nothing is known of the value.
#[verifier::external_body]
pub(crate) fn now_millis() -> (r: Option<i64>) {
    let since = match std::time::SystemTime::now().duration_since(std::time::UNIX_EPOCH) {
        Ok(d) => d,
        Err(_) => return None,
    };
    match chrono::DateTime::<chrono::Utc>::from_timestamp(since.as_secs() as i64, since.subsec_nanos()) {
        Some(t) => Some(t.timestamp_millis()),
        None => None,
    }
}

/// Relies on `String::from_utf8`: it succeeds exactly on valid UTF-8, and the
/// string then holds the decoded characters.
#[verifier::external_body]
pub(crate) fn string_from_utf8(bytes: Vec<u8>) -> (r: Option<String>)
    ensures
        r is Some <==> valid_utf8(bytes@),
        r is Some ==> r->0@ == decode_utf8(bytes@),
{
    String::from_utf8(bytes).ok()
}

} // verus!
