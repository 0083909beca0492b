//! Validation of a beacon round/value/signature triple, and derivation of a
//! winner seed from the accepted randomness.
//!
//! The beacon is an externally published random value: a round number, a
//! 32-byte randomness value, and a 96-byte group signature, all hex-encoded.
//! Acceptance checks, in order: the configured key must be the one recognized
//! network key; the encodings must be well-formed curve points; the round must
//! lie inside a freshness window around the round expected at the current
//! time; and the randomness must equal the hash of the signature bytes.

use vstd::prelude::*;
use vstd::slice::slice_index_get;
use vstd::string::StringSliceAdditionalSpecFns;

use sha2::Digest;

use crate::error::RaffleError;

verus! {

/// The recognized beacon network public key (compressed first-group point,
/// hex-encoded).
pub const DRAND_MAINNET_PUBKEY: &'static str =
    "868f005eb8e6e4ca0a47c8a77ceaa5309a47978a7c71bc5cce96366b5d7a569937c529eeda66c7293784a9402801af31";

/// The beacon network's genesis time, in seconds.
pub const DRAND_GENESIS_TIME: u64 = 1595431050;

/// Seconds between beacon rounds.
pub const DRAND_PERIOD: u64 = 30;

/// Rounds older than this many below the expected round are rejected.
pub const MAX_ROUND_AGE: u64 = 20;

/// Rounds further than this many above the expected round are rejected.
pub const MAX_FUTURE_ROUNDS: u64 = 10;

/// The value of one hex digit byte, or `None` for any other byte.
pub open spec fn hex_digit_value(b: u8) -> Option<u8> {
    if 48 <= b && b <= 57 {
        Some((b - 48) as u8)
    } else if 97 <= b && b <= 102 {
        Some((b - 97 + 10) as u8)
    } else if 65 <= b && b <= 70 {
        Some((b - 65 + 10) as u8)
    } else {
        None
    }
}

/// Whether a byte string is a well-formed hex encoding: even length, every
/// byte a hex digit (either case).
pub open spec fn hex_valid(s: Seq<u8>) -> bool {
    &&& s.len() % 2 == 0
    &&& forall|i: int| 0 <= i < s.len() ==> hex_digit_value(#[trigger] s[i]) is Some
}

/// The bytes a well-formed hex encoding denotes: one byte per digit pair.
pub open spec fn hex_decoded(s: Seq<u8>) -> Seq<u8>
    recommends
        hex_valid(s),
{
    Seq::new(
        s.len() / 2,
        |i: int| (hex_digit_value(s[2 * i]).unwrap() * 16 + hex_digit_value(
            s[2 * i + 1],
        ).unwrap()) as u8,
    )
}

/// Relies on hex::decode: pairs of hex digits become bytes, upper and lower
/// case both accepted; an odd length or a non-hex byte is an error.
#[verifier::external_body]
pub(crate) fn hex_decode(s: &str) -> (r: Option<Vec<u8>>)
    ensures
        r is Some <==> hex_valid(s.spec_bytes()),
        match r {
            Some(v) => v@ == hex_decoded(s.spec_bytes()),
            None => true,
        },
{
    match hex::decode(s) {
        Ok(v) => Some(v),
        Err(_) => None,
    }
}

/// The hash that binds a randomness value to its signature bytes. The digest
/// depends on the input bytes alone.
pub uninterp spec fn sha256_of(bytes: Seq<u8>) -> Seq<u8>;

/// Relies on sha2::Sha256: the digest is 32 bytes and is a function of the
/// input bytes alone.
#[verifier::external_body]
pub(crate) fn sha256_digest(bytes: &Vec<u8>) -> (r: Vec<u8>)
    ensures
        r@ == sha256_of(bytes@),
        r@.len() == 32,
{
    sha2::Sha256::digest(bytes.as_slice()).to_vec()
}

/// Whether 48 bytes are a valid compressed point of the signature curve's
/// first group: a function of the bytes alone.
pub uninterp spec fn g1_point_valid(bytes: Seq<u8>) -> bool;

/// Relies on bls12_381::G1Affine::from_compressed: validity of a compressed
/// first-group point is a function of the 48 bytes alone.
#[verifier::external_body]
pub(crate) fn g1_is_valid(bytes: &[u8]) -> (r: bool)
    requires
        bytes@.len() == 48,
    ensures
        r == g1_point_valid(bytes@),
{
    let mut arr = [0u8; 48];
    arr.copy_from_slice(bytes);
    bls12_381::G1Affine::from_compressed(&arr).into_option().is_some()
}

/// Whether 96 bytes are a valid compressed point of the signature curve's
/// second group: a function of the bytes alone.
pub uninterp spec fn g2_point_valid(bytes: Seq<u8>) -> bool;

/// Relies on bls12_381::G2Affine::from_compressed: validity of a compressed
/// second-group point is a function of the 96 bytes alone.
#[verifier::external_body]
pub(crate) fn g2_is_valid(bytes: &[u8]) -> (r: bool)
    requires
        bytes@.len() == 96,
    ensures
        r == g2_point_valid(bytes@),
{
    let mut arr = [0u8; 96];
    arr.copy_from_slice(bytes);
    bls12_381::G2Affine::from_compressed(&arr).into_option().is_some()
}

/// Byte-wise equality of two slices.
pub fn bytes_eq(a: &[u8], b: &[u8]) -> (r: bool)
    ensures
        r == (a@ == b@),
{
    if a.len() != b.len() {
        proof {
            assert(a@.len() != b@.len());
        }
        return false;
    }
    let n: usize = a.len();
    let mut i: usize = 0;
    while i < n
        invariant
            i <= n,
            n == a@.len() == b@.len(),
            forall|j: int| 0 <= j < i ==> a@[j] == b@[j],
        decreases n - i,
    {
        if *slice_index_get(a, i) != *slice_index_get(b, i) {
            return false;
        }
        i = i + 1;
    }
    proof {
        assert(a@ =~= b@);
    }
    true
}

/// The round the beacon network is expected to publish at `current_time`:
/// zero before genesis, and one more than the number of whole periods since
/// genesis otherwise.
pub open spec fn drand_round_at(current_time: u64, genesis_time: u64, period: u64) -> int
    recommends
        period > 0,
{
    if current_time < genesis_time {
        0
    } else {
        (current_time - genesis_time) / (period as int) + 1
    }
}

/// Calculate the current beacon round from the genesis time and period.
pub fn current_drand_round(current_time: u64, genesis_time: u64, period: u64) -> (round: u64)
    requires
        period > 0,
        drand_round_at(current_time, genesis_time, period) <= u64::MAX,
    ensures
        round == drand_round_at(current_time, genesis_time, period),
{
    if current_time < genesis_time {
        return 0;
    }
    ((current_time - genesis_time) / period) + 1
}

/// The byte at a position of the randomness value, zero past its end.
pub open spec fn seed_byte(s: Seq<u8>, j: int) -> u8 {
    if 0 <= j < s.len() {
        s[j]
    } else {
        0
    }
}

/// The 64-bit winner seed: the first eight bytes of the randomness value
/// read big-endian, zero-padded when fewer than eight bytes exist.
pub open spec fn seed_of(s: Seq<u8>) -> u64 {
    (((((((seed_byte(s, 0) * 256 + seed_byte(s, 1)) * 256 + seed_byte(s, 2)) * 256 + seed_byte(
        s,
        3,
    )) * 256 + seed_byte(s, 4)) * 256 + seed_byte(s, 5)) * 256 + seed_byte(s, 6)) * 256 + seed_byte(
        s,
        7,
    )) as u64
}

/// The byte of `bytes` at `j`, zero past the end.
fn seed_byte_at(bytes: &Vec<u8>, j: usize) -> (b: u8)
    ensures
        b == seed_byte(bytes@, j as int),
{
    if j < bytes.len() {
        bytes[j]
    } else {
        0
    }
}

/// Derive the 64-bit winner seed from the randomness bytes.
pub fn seed_from_randomness(bytes: &Vec<u8>) -> (seed: u64)
    ensures
        seed == seed_of(bytes@),
{
    let b0 = seed_byte_at(bytes, 0) as u64;
    let b1 = seed_byte_at(bytes, 1) as u64;
    let b2 = seed_byte_at(bytes, 2) as u64;
    let b3 = seed_byte_at(bytes, 3) as u64;
    let b4 = seed_byte_at(bytes, 4) as u64;
    let b5 = seed_byte_at(bytes, 5) as u64;
    let b6 = seed_byte_at(bytes, 6) as u64;
    let b7 = seed_byte_at(bytes, 7) as u64;
    ((((((b0 * 256 + b1) * 256 + b2) * 256 + b3) * 256 + b4) * 256 + b5) * 256 + b6) * 256 + b7
}

/// The byte string a character sequence occupies in memory.
pub open spec fn chars_bytes(s: Seq<char>) -> Seq<u8> {
    vstd::utf8::encode_utf8(s)
}

/// The key the verifier accepts, as its byte string.
pub open spec fn recognized_key_bytes() -> Seq<u8> {
    DRAND_MAINNET_PUBKEY.spec_bytes()
}

/// The outcome of beacon verification, over the byte strings of the three
/// hex-encoded inputs. `Ok(false)` reports a malformed triple without a
/// specific cause; every other rejection names its reason. Checks
/// short-circuit in this order.
pub open spec fn verify_beacon_spec(
    now_seconds: u64,
    pubkey: Seq<u8>,
    round: u64,
    randomness: Seq<u8>,
    signature: Seq<u8>,
) -> Result<bool, RaffleError> {
    let expected = drand_round_at(now_seconds, DRAND_GENESIS_TIME, DRAND_PERIOD);
    if pubkey.len() == 0 || randomness.len() == 0 || signature.len() == 0 {
        Ok(false)
    } else if pubkey != recognized_key_bytes() {
        Err(RaffleError::UnrecognizedBeaconKey)
    } else if randomness.len() != 64 {
        Ok(false)
    } else if !hex_valid(pubkey) {
        Err(RaffleError::BeaconKeyBadHex)
    } else if hex_decoded(pubkey).len() != 48 {
        Err(RaffleError::BeaconKeyBadLength)
    } else if !g1_point_valid(hex_decoded(pubkey)) {
        Err(RaffleError::BeaconKeyBadPoint)
    } else if !hex_valid(signature) {
        Err(RaffleError::SignatureBadHex)
    } else if hex_decoded(signature).len() != 96 {
        Err(RaffleError::SignatureBadLength)
    } else if !g2_point_valid(hex_decoded(signature)) {
        Err(RaffleError::SignatureBadPoint)
    } else if (round as int) < expected - (MAX_ROUND_AGE as int) {
        Err(RaffleError::RoundTooOld)
    } else if (round as int) > expected + (MAX_FUTURE_ROUNDS as int) {
        Err(RaffleError::RoundTooNew)
    } else if !hex_valid(randomness) {
        Err(RaffleError::RandomnessBadHex)
    } else if hex_decoded(randomness).len() != 32 {
        Err(RaffleError::RandomnessBadLength)
    } else if sha256_of(hex_decoded(signature)) != hex_decoded(randomness) {
        Err(RaffleError::RandomnessMismatch)
    } else {
        Ok(true)
    }
}

/// Validate a beacon triple against the recognized network key at the given
/// time. Returns `Ok(true)` exactly when every check passes; see
/// [`verify_beacon_spec`] for the order of the checks.
pub fn verify_drand_signature(
    now_seconds: u64,
    drand_pubkey: &str,
    drand_round: u64,
    randomness: &str,
    signature: &str,
) -> (r: Result<bool, RaffleError>)
    ensures
        r == verify_beacon_spec(
            now_seconds,
            drand_pubkey.spec_bytes(),
            drand_round,
            randomness.spec_bytes(),
            signature.spec_bytes(),
        ),
{
    if drand_pubkey.as_bytes().len() == 0 || randomness.as_bytes().len() == 0
        || signature.as_bytes().len() == 0 {
        return Ok(false);
    }
    if !bytes_eq(drand_pubkey.as_bytes(), DRAND_MAINNET_PUBKEY.as_bytes()) {
        return Err(RaffleError::UnrecognizedBeaconKey);
    }
    if randomness.as_bytes().len() != 64 {
        return Ok(false);
    }
    let pubkey_bytes = match hex_decode(drand_pubkey) {
        Some(v) => v,
        None => {
            return Err(RaffleError::BeaconKeyBadHex);
        },
    };
    if pubkey_bytes.len() != 48 {
        return Err(RaffleError::BeaconKeyBadLength);
    }
    if !g1_is_valid(pubkey_bytes.as_slice()) {
        return Err(RaffleError::BeaconKeyBadPoint);
    }
    let sig_bytes = match hex_decode(signature) {
        Some(v) => v,
        None => {
            return Err(RaffleError::SignatureBadHex);
        },
    };
    if sig_bytes.len() != 96 {
        return Err(RaffleError::SignatureBadLength);
    }
    if !g2_is_valid(sig_bytes.as_slice()) {
        return Err(RaffleError::SignatureBadPoint);
    }
    let expected_round = current_drand_round(now_seconds, DRAND_GENESIS_TIME, DRAND_PERIOD);
    if expected_round > MAX_ROUND_AGE && drand_round < expected_round - MAX_ROUND_AGE {
        return Err(RaffleError::RoundTooOld);
    }
    if expected_round <= u64::MAX - MAX_FUTURE_ROUNDS && drand_round > expected_round
        + MAX_FUTURE_ROUNDS {
        return Err(RaffleError::RoundTooNew);
    }
    let randomness_bytes = match hex_decode(randomness) {
        Some(v) => v,
        None => {
            return Err(RaffleError::RandomnessBadHex);
        },
    };
    if randomness_bytes.len() != 32 {
        return Err(RaffleError::RandomnessBadLength);
    }
    let computed = sha256_digest(&sig_bytes);
    if !bytes_eq(computed.as_slice(), randomness_bytes.as_slice()) {
        return Err(RaffleError::RandomnessMismatch);
    }
    Ok(true)
}

} // verus!
