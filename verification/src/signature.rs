//! Signature Verifier: checks that an inbound request body was signed by the
//! platform. The signed message is the raw timestamp header followed by the
//! raw body, and the signature arrives as a hex-encoded header.

use vstd::prelude::*;
use crate::SignatureCheck;

verus! {

/// Whether a byte is an ASCII hexadecimal digit.
pub open spec fn is_hex_digit(b: u8) -> bool {
    (48 <= b && b <= 57)  // '0'..'9'
    || (97 <= b && b <= 102)  // 'a'..'f'
    || (65 <= b && b <= 70)  // 'A'..'F'
}

/// The numeric value of an ASCII hexadecimal digit byte.
pub open spec fn hex_digit_value(b: u8) -> u8 {
    if 48 <= b && b <= 57 {
        (b - 48) as u8
    } else if 97 <= b && b <= 102 {
        (b - 87) as u8
    } else {
        (b - 55) as u8
    }
}

/// Whether a byte string is a well-formed hex encoding: even length, all
/// hexadecimal digits.
pub open spec fn is_hex(s: Seq<u8>) -> bool {
    s.len() % 2 == 0 && (forall|i: int| 0 <= i < s.len() ==> is_hex_digit(s[i]))
}

/// The bytes encoded by a hex string, two digits per byte, high digit first.
pub open spec fn hex_decoded(s: Seq<u8>) -> Seq<u8>
    decreases s.len(),
{
    if s.len() < 2 {
        Seq::empty()
    } else {
        seq![(hex_digit_value(s[0]) * 16 + hex_digit_value(s[1])) as u8] + hex_decoded(s.skip(2))
    }
}

/// Relies on hex::decode: it succeeds exactly on an even-length string of
/// ASCII hexadecimal digit bytes and returns the decoded bytes, two digits
/// per byte, high digit first.
#[verifier::external_body]
fn hex_decode(s: &[u8]) -> (r: Option<Vec<u8>>)
    ensures
        r is Some <==> is_hex(s@),
        r matches Some(v) ==> v@ == hex_decoded(s@),
{
    match hex::decode(s) {
        Ok(v) => Some(v),
        Err(_) => None,
    }
}

#[verifier::external_type_specification]
#[verifier::external_body]
pub struct ExVerifyingKey(ed25519_dalek::VerifyingKey);

/// Whether 32 bytes are a valid Ed25519 public-key encoding (a decompressible
/// curve point). Named after ed25519_dalek::VerifyingKey::from_bytes, whose
/// success depends on the bytes alone.
pub uninterp spec fn valid_key_bytes(bytes: Seq<u8>) -> bool;

/// Whether an Ed25519 signature over a message verifies under a public key.
/// Named after ed25519_dalek::VerifyingKey::verify, which is a deterministic
/// function of the key, message and signature bytes.
pub uninterp spec fn ed25519_verifies(key: Seq<u8>, msg: Seq<u8>, sig: Seq<u8>) -> bool;

/// The platform's public verification key: the 32 raw key bytes paired with
/// the parsed key value they encode.
pub struct PublicKey {
    bytes: Vec<u8>,
    key: ed25519_dalek::VerifyingKey,
}

impl View for PublicKey {
    type V = Seq<u8>;

    closed spec fn view(&self) -> Seq<u8> {
        self.bytes@
    }
}

impl PublicKey {
    /// Relies on ed25519_dalek::VerifyingKey::from_bytes: it succeeds exactly
    /// when the 32 bytes decompress to a curve point, and the resulting key
    /// verifies as those bytes do.
    #[verifier::external_body]
    pub fn from_bytes(bytes: &[u8]) -> (r: Option<PublicKey>)
        requires
            bytes@.len() == 32,
        ensures
            r is Some <==> valid_key_bytes(bytes@),
            r matches Some(k) ==> k@ == bytes@,
    {
        let arr: [u8; 32] = match bytes.try_into() {
            Ok(a) => a,
            Err(_) => {
                return None;
            },
        };
        match ed25519_dalek::VerifyingKey::from_bytes(&arr) {
            Ok(key) => Some(PublicKey { bytes: bytes.to_vec(), key }),
            Err(_) => None,
        }
    }

    /// Relies on ed25519_dalek::VerifyingKey::verify (with
    /// ed25519_dalek::Signature::from_bytes converting the 64 signature
    /// bytes): Ed25519 verification is deterministic in the key, message and
    /// signature bytes.
    #[verifier::external_body]
    pub fn verify(&self, msg: &[u8], sig: &[u8]) -> (r: bool)
        requires
            sig@.len() == 64,
        ensures
            r == ed25519_verifies(self@, msg@, sig@),
    {
        let arr: [u8; 64] = match sig.try_into() {
            Ok(a) => a,
            Err(_) => {
                return false;
            },
        };
        let signature = ed25519_dalek::Signature::from_bytes(&arr);
        ed25519_dalek::Verifier::verify(&self.key, msg, &signature).is_ok()
    }
}

/// Builds the platform's public key from its hex-encoded configuration value:
/// the encoding must be well-formed hex of exactly 32 bytes that decompress to
/// a curve point.
pub fn parse_public_key(key_hex: &[u8]) -> (r: Option<PublicKey>)
    ensures
        r is Some <==> is_hex(key_hex@) && hex_decoded(key_hex@).len() == 32 && valid_key_bytes(
            hex_decoded(key_hex@),
        ),
        r matches Some(k) ==> k@ == hex_decoded(key_hex@),
{
    let bytes = match hex_decode(key_hex) {
        Some(v) => v,
        None => {
            return None;
        },
    };
    if bytes.len() != 32 {
        return None;
    }
    PublicKey::from_bytes(bytes.as_slice())
}

/// What the Signature Verifier accepts: both headers present, the signature
/// header a well-formed hex encoding of exactly 64 bytes, and that signature
/// valid under the key over the timestamp header followed by the body.
pub open spec fn authentic_request(
    key: Seq<u8>,
    body: Seq<u8>,
    sig_header: Option<Seq<u8>>,
    ts_header: Option<Seq<u8>>,
) -> bool {
    &&& sig_header is Some
    &&& ts_header is Some
    &&& is_hex(sig_header->Some_0)
    &&& hex_decoded(sig_header->Some_0).len() == 64
    &&& ed25519_verifies(key, ts_header->Some_0 + body, hex_decoded(sig_header->Some_0))
}

/// Checks an inbound request's signature. A missing header, malformed hex, a
/// wrong-length signature, or a signature that does not verify over the
/// timestamp-then-body message all yield `Rejected`; there is no partial
/// trust.
pub fn validate_discord_signature(
    key: &PublicKey,
    body: &[u8],
    sig_header: Option<&Vec<u8>>,
    ts_header: Option<&Vec<u8>>,
) -> (r: SignatureCheck)
    ensures
        r == SignatureCheck::Authentic <==> authentic_request(
            key@,
            body@,
            match sig_header {
                Some(s) => Some(s@),
                None => None,
            },
            match ts_header {
                Some(t) => Some(t@),
                None => None,
            },
        ),
        r == SignatureCheck::Authentic || r == SignatureCheck::Rejected,
{
    let sig_hex = match sig_header {
        Some(s) => s,
        None => {
            return SignatureCheck::Rejected;
        },
    };
    let ts = match ts_header {
        Some(t) => t,
        None => {
            return SignatureCheck::Rejected;
        },
    };
    let sig = match hex_decode(sig_hex.as_slice()) {
        Some(v) => v,
        None => {
            return SignatureCheck::Rejected;
        },
    };
    if sig.len() != 64 {
        return SignatureCheck::Rejected;
    }
    let mut msg: Vec<u8> = Vec::new();
    let mut i: usize = 0;
    while i < ts.len()
        invariant
            i <= ts@.len(),
            msg@ == ts@.take(i as int),
        decreases ts@.len() - i,
    {
        msg.push(ts[i]);
        proof {
            assert(ts@.take(i + 1) =~= ts@.take(i as int).push(ts@[i as int]));
        }
        i = i + 1;
    }
    proof {
        assert(ts@.take(ts@.len() as int) =~= ts@);
    }
    let mut j: usize = 0;
    while j < body.len()
        invariant
            j <= body@.len(),
            msg@ == ts@ + body@.take(j as int),
        decreases body@.len() - j,
    {
        msg.push(body[j]);
        proof {
            assert(body@.take(j + 1) =~= body@.take(j as int).push(body@[j as int]));
            assert(ts@ + body@.take(j + 1) =~= (ts@ + body@.take(j as int)).push(body@[j as int]));
        }
        j = j + 1;
    }
    proof {
        assert(body@.take(body@.len() as int) =~= body@);
    }
    if key.verify(msg.as_slice(), sig.as_slice()) {
        SignatureCheck::Authentic
    } else {
        SignatureCheck::Rejected
    }
}

} // verus!
