//! The signature authentication guard: proves an inbound request was signed
//! by the holder of the pre-shared key before anything downstream parses it.
//!
//! The scheme signs the exact byte string `timestamp ++ body`. The guard
//! rebuilds that string, verifies the detached signature against it, and on
//! success hands the original body bytes — and only them — back downstream.

use vstd::prelude::*;
use vstd::string::StringSliceAdditionalSpecFns;
use vstd::string::StrSliceExecFns;
use ed25519_dalek::Verifier;

verus! {

pub open spec fn is_hex_digit(c: char) -> bool {
    ||| 48 <= c as int <= 57
    ||| 97 <= c as int <= 102
    ||| 65 <= c as int <= 70
}

pub open spec fn hex_digit_value(c: char) -> int {
    if 48 <= c as int <= 57 {
        c as int - 48
    } else if 97 <= c as int <= 102 {
        c as int - 87
    } else {
        c as int - 55
    }
}

/// A well-formed hex string: even length, hex digits throughout, either
/// case.
pub open spec fn is_hex_string(s: Seq<char>) -> bool {
    s.len() % 2 == 0 && forall|i: int| 0 <= i < s.len() ==> is_hex_digit(#[trigger] s[i])
}

pub open spec fn hex_byte(hi: char, lo: char) -> u8 {
    (hex_digit_value(hi) * 16 + hex_digit_value(lo)) as u8
}

/// The bytes a hex string denotes, two digits each.
pub open spec fn hex_decoded(s: Seq<char>) -> Seq<u8> {
    Seq::new(s.len() / 2, |i: int| hex_byte(s[2 * i], s[2 * i + 1]))
}

/// One hex digit's value, either case.
fn hex_digit(c: char) -> (r: Option<u8>)
    ensures
        r is Some <==> is_hex_digit(c),
        r matches Some(v) ==> v as int == hex_digit_value(c),
{
    let u = c as u32;
    if 48 <= u && u <= 57 {
        Some((u - 48) as u8)
    } else if 97 <= u && u <= 102 {
        Some((u - 87) as u8)
    } else if 65 <= u && u <= 70 {
        Some((u - 55) as u8)
    } else {
        None
    }
}

/// Decodes a hex string, accepting exactly the well-formed ones.
pub fn decode_hex(s: &str) -> (r: Option<Vec<u8>>)
    ensures
        r is Some <==> is_hex_string(s@),
        r matches Some(b) ==> b@ == hex_decoded(s@),
{
    let len = s.unicode_len();
    if len % 2 != 0 {
        return None;
    }
    let mut out: Vec<u8> = Vec::new();
    let mut i: usize = 0;
    while i < len / 2
        invariant
            len == s@.len(),
            len % 2 == 0,
            0 <= i <= len / 2,
            out@.len() == i,
            forall|k: int| 0 <= k < 2 * i ==> is_hex_digit(#[trigger] s@[k]),
            forall|k: int|
                0 <= k < i ==> #[trigger] out@[k] == hex_byte(s@[2 * k], s@[2 * k + 1]),
        decreases len / 2 - i,
    {
        let hi = match hex_digit(s.get_char(2 * i)) {
            Some(v) => v,
            None => {
                return None;
            },
        };
        let lo = match hex_digit(s.get_char(2 * i + 1)) {
            Some(v) => v,
            None => {
                return None;
            },
        };
        out.push(hi * 16 + lo);
        i = i + 1;
    }
    proof {
        assert(out@ =~= hex_decoded(s@));
    }
    Some(out)
}

/// Whether the asymmetric scheme accepts `signature` over `message` under
/// `key` — the decision ed25519 verification makes. It depends on the three
/// byte strings alone.
pub uninterp spec fn ed25519_verifies(key: Seq<u8>, message: Seq<u8>, signature: Seq<u8>) -> bool;

/// Relies on ed25519_dalek::PublicKey::from_bytes, Signature::from_bytes and
/// Verifier::verify as ed25519_dalek implements them: the outcome is a
/// function of the key, message and signature bytes alone, and key or
/// signature bytes that the constructors refuse verify nothing.
#[verifier::external_body]
fn verify_detached(key: &Vec<u8>, message: &Vec<u8>, signature: &Vec<u8>) -> (r: bool)
    ensures
        r == ed25519_verifies(key@, message@, signature@),
{
    let pk = match ed25519_dalek::PublicKey::from_bytes(key.as_slice()) {
        Ok(pk) => pk,
        Err(_) => return false,
    };
    let sig = match ed25519_dalek::Signature::from_bytes(signature.as_slice()) {
        Ok(sig) => sig,
        Err(_) => return false,
    };
    pk.verify(message.as_slice(), &sig).is_ok()
}

/// Relies on ed25519_dalek::PublicKey::from_bytes: whether these bytes are
/// a well-formed public key (32 bytes naming a decompressible point) — a
/// function of the bytes alone.
#[verifier::external_body]
pub fn public_key_is_valid(key: &Vec<u8>) -> (r: bool)
    ensures
        r == ed25519_valid_key(key@),
{
    ed25519_dalek::PublicKey::from_bytes(key.as_slice()).is_ok()
}

/// Whether ed25519 accepts these bytes as a public key.
pub uninterp spec fn ed25519_valid_key(key: Seq<u8>) -> bool;

/// How the guard turns a request away: uniformly, disclosing nothing.
#[derive(Debug, Clone, Copy, PartialEq, Eq, Structural)]
pub enum ServiceError {
    Unauthorized,
}

impl ServiceError {
    /// The HTTP status the error surfaces as.
    pub fn status_code(&self) -> (r: u16)
        ensures
            r == 401,
    {
        401
    }

    /// The uniform response body: an empty JSON object.
    pub fn response_body(&self) -> (r: String)
        ensures
            r@ == "{}"@,
    {
        "{}".to_owned()
    }
}

/// The authentication guard, configured with the pre-shared public
/// verification key.
pub struct DiscordAuthorization {
    public_key: Vec<u8>,
}

impl DiscordAuthorization {
    /// The configured verification key's bytes.
    pub closed spec fn key(&self) -> Seq<u8> {
        self.public_key@
    }

    pub fn new(public_key: Vec<u8>) -> (r: Self)
        ensures
            r.key() == public_key@,
    {
        DiscordAuthorization { public_key }
    }

    /// The exact condition under which a request passes the guard: both
    /// headers present, the signature well-formed hex, and the scheme
    /// accepting it over `timestamp ++ body`.
    pub open spec fn authorizes(
        &self,
        signature_hex: Option<&str>,
        timestamp: Option<&str>,
        body: Seq<u8>,
    ) -> bool {
        &&& signature_hex matches Some(sig)
        &&& timestamp matches Some(ts)
        &&& is_hex_string(sig@)
        &&& ed25519_verifies(self.key(), ts.spec_bytes() + body, hex_decoded(sig@))
    }

    /// Checks one request against the configured key. On success the body
    /// handed back is the original body, byte for byte: the concatenation
    /// built for verification never leaks downstream. Every failure — a
    /// missing header, malformed hex, a failed verification — is turned
    /// away as the same opaque `Unauthorized`, before anything parses the
    /// body.
    pub fn check_request(
        &self,
        signature_hex: Option<&str>,
        timestamp: Option<&str>,
        body: Vec<u8>,
    ) -> (r: Result<Vec<u8>, ServiceError>)
        ensures
            r is Ok <==> self.authorizes(signature_hex, timestamp, body@),
            r matches Ok(b) ==> b@ == body@,
            r is Err ==> r == Err::<Vec<u8>, ServiceError>(ServiceError::Unauthorized),
    {
        let sig_hex = match signature_hex {
            Some(s) => s,
            None => {
                return Err(ServiceError::Unauthorized);
            },
        };
        let ts = match timestamp {
            Some(t) => t,
            None => {
                return Err(ServiceError::Unauthorized);
            },
        };
        let signature = match decode_hex(sig_hex) {
            Some(v) => v,
            None => {
                return Err(ServiceError::Unauthorized);
            },
        };
        // The byte string the signature covers: timestamp first, then the
        // body, with no separator.
        let mut message = ts.as_bytes_vec();
        let ts_len = message.len();
        let mut rest = body;
        message.append(&mut rest);
        if !verify_detached(&self.public_key, &message, &signature) {
            return Err(ServiceError::Unauthorized);
        }
        // Restore the original payload: everything after the timestamp
        // prefix is exactly the body that came in.
        let restored = message.split_off(ts_len);
        proof {
            assert(restored@ =~= body@);
        }
        Ok(restored)
    }
}

} // verus!
