//! Signed tokens on the wire.
//!
//! A token is `<payload>.<signature>`: the claims payload in lowercase hex,
//! a dot, and the HMAC-SHA256 tag of the payload text in lowercase hex.
use crate::claims::{decode_claims, decode_payload, encode_claims, encode_payload, ClaimsModel, TokenClaims};
use crate::hex::{decode_hex, encode_hex, hex_decode, hex_encode};
use crate::primitives::{hmac_sha256, hmac_tag, hmac_tag_matches, string_from_utf8};
use vstd::prelude::*;
use vstd::slice::{slice_subrange, slice_to_vec};
use vstd::utf8::*;

verus! {

/// The byte that separates the payload from the signature.
pub const SEPARATOR: u8 = 46;

/// The server's signing key.
pub struct Secret {
    key: Vec<u8>,
}

impl View for Secret {
    type V = Seq<u8>;

    closed spec fn view(&self) -> Seq<u8> {
        self.key@
    }
}

impl Secret {
    /// A key made of the UTF-8 bytes of `key`.
    pub fn new(key: &str) -> (r: Secret)
        ensures
            r@ == encode_utf8(key@),
    {
        Secret { key: slice_to_vec(key.as_bytes()) }
    }

    /// A key made of `key`.
    pub fn from_bytes(key: Vec<u8>) -> (r: Secret)
        ensures
            r@ == key@,
    {
        Secret { key }
    }

    fn key(&self) -> (r: &[u8])
        ensures
            r@ == self@,
    {
        self.key.as_slice()
    }
}

/// Why a token could not be verified. Callers outside the codec must not
/// tell the two apart.
#[derive(Clone, Copy, Debug, PartialEq, Eq, Structural)]
pub enum VerificationError {
    /// The token does not have the shape of a token.
    Malformed,
    /// The token has the right shape, but its signature is not the key's.
    SignatureMismatch,
}

/// The bytes of a string on the wire.
pub open spec fn wire(s: Seq<char>) -> Seq<u8> {
    encode_utf8(s)
}

/// A token made of a payload text and a tag.
pub open spec fn sealed(payload_text: Seq<u8>, tag: Seq<u8>) -> Seq<u8> {
    payload_text + seq![SEPARATOR] + hex_encode(tag)
}

/// The payload text of a set of claims.
pub open spec fn payload_text(c: ClaimsModel) -> Seq<u8> {
    hex_encode(encode_claims(c))
}

/// The token that `key` issues for `c`.
pub open spec fn token_text(key: Seq<u8>, c: ClaimsModel) -> Seq<u8> {
    sealed(payload_text(c), hmac_sha256(key, payload_text(c)))
}

/// The payload text and the signature tag of a token: the text before its
/// first separator, and the tag that the hex after it spells.
pub open spec fn token_parts(t: Seq<u8>) -> Option<(Seq<u8>, Seq<u8>)> {
    match t.index_of_first(SEPARATOR) {
        Some(k) => match hex_decode(t.subrange(k + 1, t.len() as int)) {
            Some(tag) => Some((t.subrange(0, k), tag)),
            None => None,
        },
        None => None,
    }
}

/// The claims a token states, before its signature is checked.
pub open spec fn token_claims(t: Seq<u8>) -> Option<ClaimsModel> {
    match token_parts(t) {
        Some((text, _)) => match hex_decode(text) {
            Some(payload) => decode_claims(payload),
            None => None,
        },
        None => None,
    }
}

/// What verifying the token `t` with `key` gives: its claims where it is well
/// formed and signed with `key`.
pub open spec fn verify_token(key: Seq<u8>, t: Seq<u8>) -> Result<ClaimsModel, VerificationError> {
    match (token_parts(t), token_claims(t)) {
        (Some((text, tag)), Some(c)) => if tag == hmac_sha256(key, text) {
            Ok(c)
        } else {
            Err(VerificationError::SignatureMismatch)
        },
        _ => Err(VerificationError::Malformed),
    }
}

/// Bytes below 128 are valid UTF-8 and spell the same characters.
proof fn lemma_ascii_valid_utf8(b: Seq<u8>)
    requires
        forall|i: int| 0 <= i < b.len() ==> #[trigger] b[i] < 128,
    ensures
        valid_utf8(b),
{
    assert(b.subrange(0, 0) =~= Seq::<u8>::empty());
    assert(partial_valid_utf8(b, 0));
    assert forall|i: int| 0 <= 0 <= i < b.len() <= b.len() implies #[trigger] is_leading_byte_width_1(
        b[i],
    ) by {}
    partial_valid_utf8_extend_ascii_block(b, 0, b.len() as int);
    assert(b.subrange(0, b.len() as int) =~= b);
}

proof fn lemma_hex_text_ascii(b: Seq<u8>)
    ensures
        forall|i: int| 0 <= i < hex_encode(b).len() ==> #[trigger] hex_encode(b)[i] < 128,
{
}

/// The payload text of a set of claims: lowercase hex throughout.
pub struct PayloadText {
    text: Vec<u8>,
}

impl View for PayloadText {
    type V = Seq<u8>;

    closed spec fn view(&self) -> Seq<u8> {
        self.text@
    }
}

impl PayloadText {
    #[verifier::type_invariant]
    spec fn well_formed(self) -> bool {
        forall|i: int| 0 <= i < self.text@.len() ==> #[trigger] self.text@[i] < 128
    }

    /// The payload text of `claims`.
    pub fn of_claims(claims: &TokenClaims) -> (r: PayloadText)
        ensures
            r@ == payload_text(claims@),
    {
        let text = encode_hex(encode_payload(claims).as_slice());
        proof {
            lemma_hex_text_ascii(encode_claims(claims@));
        }
        PayloadText { text }
    }

    /// The bytes of the text.
    pub fn as_bytes(&self) -> (r: &[u8])
        ensures
            r@ == self@,
    {
        self.text.as_slice()
    }

    /// Joins the text and the signature tag `tag` into a token.
    pub fn seal(self, tag: &[u8]) -> (r: String)
        ensures
            wire(r@) == sealed(self@, tag@),
    {
        proof {
            use_type_invariant(&self);
            lemma_hex_text_ascii(tag@);
        }
        let mut out = self.text;
        out.push(SEPARATOR);
        let mut signature = encode_hex(tag);
        out.append(&mut signature);
        assert(out@ =~= sealed(self@, tag@));
        proof {
            lemma_ascii_valid_utf8(out@);
            decode_utf8_encode_utf8(out@);
        }
        match string_from_utf8(out) {
            Some(s) => s,
            None => {
                proof {
                    assert(false);
                }
                String::new()
            },
        }
    }
}

/// Signs `claims` with `secret`.
pub fn issue(claims: &TokenClaims, secret: &Secret) -> (r: String)
    ensures
        wire(r@) == token_text(secret@, claims@),
{
    let text = PayloadText::of_claims(claims);
    let tag = hmac_tag(secret.key(), text.as_bytes());
    text.seal(tag.as_slice())
}

/// A token taken apart: its payload text, signature tag and stated claims.
#[derive(Debug)]
pub struct ParsedToken {
    pub payload_text: Vec<u8>,
    pub signature: Vec<u8>,
    pub claims: TokenClaims,
}

/// Takes a token apart, checking its shape but not its signature.
pub fn parse_token(t: &[u8]) -> (r: Result<ParsedToken, VerificationError>)
    ensures
        match token_claims(t@) {
            Some(c) => r is Ok && r->Ok_0.claims@ == c && token_parts(t@) == Some(
                (r->Ok_0.payload_text@, r->Ok_0.signature@),
            ),
            None => r == Err::<ParsedToken, VerificationError>(VerificationError::Malformed),
        },
{
    let n = t.len();
    let mut k: usize = 0;
    while k < n && t[k] != SEPARATOR
        invariant
            n == t@.len(),
            k <= n,
            forall|j: int| 0 <= j < k ==> t@[j] != SEPARATOR,
        decreases n - k,
    {
        k += 1;
    }
    proof {
        t@.index_of_first_ensures(SEPARATOR);
        if k < n {
            assert(t@.contains(SEPARATOR) && t@[k as int] == SEPARATOR);
        }
    }
    if k == n {
        return Err(VerificationError::Malformed);
    }
    assert(t@.index_of_first(SEPARATOR) == Some(k as int));
    let signature = match decode_hex(slice_subrange(t, k + 1, n)) {
        Some(s) => s,
        None => {
            return Err(VerificationError::Malformed);
        },
    };
    let text = slice_subrange(t, 0, k);
    let payload = match decode_hex(text) {
        Some(p) => p,
        None => {
            return Err(VerificationError::Malformed);
        },
    };
    match decode_payload(payload.as_slice()) {
        Some(claims) => Ok(ParsedToken { payload_text: slice_to_vec(text), signature, claims }),
        None => Err(VerificationError::Malformed),
    }
}

/// Verifies the token bytes `token` against `secret`, giving its claims where
/// it is well formed and carries the secret's signature.
pub fn verify_bytes(token: &[u8], secret: &Secret) -> (r: Result<TokenClaims, VerificationError>)
    ensures
        match verify_token(secret@, token@) {
            Ok(c) => r is Ok && r->Ok_0@ == c,
            Err(e) => r == Err::<TokenClaims, VerificationError>(e),
        },
{
    let parsed = match parse_token(token) {
        Ok(p) => p,
        Err(e) => {
            return Err(e);
        },
    };
    if hmac_tag_matches(secret.key(), parsed.payload_text.as_slice(), parsed.signature.as_slice()) {
        Ok(parsed.claims)
    } else {
        Err(VerificationError::SignatureMismatch)
    }
}

/// Verifies `token` against `secret`, giving its claims where it is well
/// formed and carries the secret's signature.
pub fn verify(token: &str, secret: &Secret) -> (r: Result<TokenClaims, VerificationError>)
    ensures
        match verify_token(secret@, wire(token@)) {
            Ok(c) => r is Ok && r->Ok_0@ == c,
            Err(e) => r == Err::<TokenClaims, VerificationError>(e),
        },
{
    verify_bytes(token.as_bytes(), secret)
}

} // verus!
