//! The verdict on a public key that GenKey returned: keep it, generate
//! another, or give up.
use vstd::prelude::*;

verus! {

/// Keys generated at most before provisioning gives up.
pub const GENKEY_ATTEMPTS: u8 = 5;

/// The tag of an uncompressed SEC1 point.
pub const SEC1_UNCOMPRESSED: u8 = 0x04;

/// Whether `sec1` decodes as a P-256 public key that has a compact form.
pub uninterp spec fn compact_decodable(sec1: Seq<u8>) -> bool;

/// Relies on `TryFrom<&[u8]> for helium_crypto::ecc_compact::PublicKey`: it
/// decodes the bytes as a P-256 public key (a SEC1 point, or a 33-byte
/// compact key) and succeeds only for a key with a compact form; the outcome
/// depends on the bytes alone.
#[verifier::external_body]
fn is_compact_public_key(sec1: &[u8]) -> (r: bool)
    ensures
        r == compact_decodable(sec1@),
{
    helium_crypto::ecc_compact::PublicKey::try_from(sec1).is_ok()
}

/// What to do after a GenKey.
#[derive(Debug, PartialEq, Eq)]
pub enum KeyGenStep {
    /// Keep the key: its SEC1 encoding.
    Accept(Vec<u8>),
    /// Generate another key.
    Retry,
    /// Stop: every attempt gave a key without a compact form.
    GiveUp,
}

/// The SEC1 encoding of an X||Y point.
pub open spec fn sec1_of(point: Seq<u8>) -> Seq<u8> {
    seq![SEC1_UNCOMPRESSED] + point
}

/// Prefixes the uncompressed-point tag to an X||Y point.
pub fn sec1_point(point: &[u8]) -> (r: Vec<u8>)
    ensures
        r@ == sec1_of(point@),
{
    let mut r: Vec<u8> = Vec::new();
    r.push(SEC1_UNCOMPRESSED);
    let mut i: usize = 0;
    while i < point.len()
        invariant
            i <= point@.len(),
            r@ == seq![SEC1_UNCOMPRESSED] + point@.subrange(0, i as int),
        decreases point@.len() - i,
    {
        r.push(point[i]);
        proof {
            assert(point@.subrange(0, i + 1) =~= point@.subrange(0, i as int).push(point@[i as int]));
        }
        i = i + 1;
    }
    proof {
        assert(point@.subrange(0, point@.len() as int) =~= point@);
    }
    r
}

/// Decides on the key that attempt number `made` (counting from 1)
/// returned, given whether its SEC1 encoding has a compact form: a 64-byte
/// compact point is kept; otherwise another key is generated while fewer than
/// `GENKEY_ATTEMPTS` were made.
pub fn keygen_decide(made: u8, point: &[u8], compact: bool) -> (r: KeyGenStep)
    requires
        1 <= made <= GENKEY_ATTEMPTS,
    ensures
        r matches KeyGenStep::Accept(k) ==> point@.len() == 64 && compact && k@ == sec1_of(point@),
        r is Retry <==> !(point@.len() == 64 && compact) && made < GENKEY_ATTEMPTS,
        r is GiveUp <==> !(point@.len() == 64 && compact) && made == GENKEY_ATTEMPTS,
{
    if point.len() == 64 && compact {
        KeyGenStep::Accept(sec1_point(point))
    } else if made < GENKEY_ATTEMPTS {
        KeyGenStep::Retry
    } else {
        KeyGenStep::GiveUp
    }
}

/// Decides on the key that attempt number `made` generated.
pub fn keygen_step(made: u8, point: &[u8]) -> (r: KeyGenStep)
    requires
        1 <= made <= GENKEY_ATTEMPTS,
    ensures
        r matches KeyGenStep::Accept(k) ==> point@.len() == 64 && compact_decodable(sec1_of(point@))
            && k@ == sec1_of(point@),
        r is Retry <==> !(point@.len() == 64 && compact_decodable(sec1_of(point@))) && made
            < GENKEY_ATTEMPTS,
        r is GiveUp <==> !(point@.len() == 64 && compact_decodable(sec1_of(point@))) && made
            == GENKEY_ATTEMPTS,
{
    let sec1 = sec1_point(point);
    let compact = is_compact_public_key(sec1.as_slice());
    keygen_decide(made, point, compact)
}

} // verus!
