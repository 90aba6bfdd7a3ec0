use vstd::prelude::*;

use crate::bigint::{be_less, be_val, is_zero_bytes, lemma_be_prefix_lt, lemma_be_val_zero};
use crate::curve::{
    curve_order, order_bytes, order_seq, point_valid65, standard_signature, valid_key_scalar,
};
use crate::errors::Error;

verus! {

/// Decoding a message digest: exactly 32 bytes, any content.
pub open spec fn decode_message(b: Seq<u8>) -> Result<Seq<u8>, Error> {
    if b.len() != 32 {
        Err(Error::WrongMessageSize)
    } else {
        Ok(b)
    }
}

/// Decoding a private key: exactly 32 bytes reading as a nonzero scalar
/// below the curve order; the size error is distinct from the content error.
pub open spec fn decode_private_key(b: Seq<u8>) -> Result<Seq<u8>, Error> {
    if b.len() != 32 {
        Err(Error::WrongPrivateKeySize)
    } else if !valid_key_scalar(b) {
        Err(Error::InvalidPrivateKey)
    } else {
        Ok(b)
    }
}

/// Decoding a tweak scalar: same range rule as a private key, but with its
/// own size error so a caller can tell which argument was too short.
pub open spec fn decode_tweak_key(b: Seq<u8>) -> Result<Seq<u8>, Error> {
    if b.len() != 32 {
        Err(Error::WrongTweakKeySize)
    } else if !valid_key_scalar(b) {
        Err(Error::InvalidPrivateKey)
    } else {
        Ok(b)
    }
}

/// Decoding an uncompressed public key: exactly 65 bytes naming a point on
/// the curve.
pub open spec fn decode_public_key(b: Seq<u8>) -> Result<Seq<u8>, Error> {
    if b.len() != 65 {
        Err(Error::WrongPublicKeySize)
    } else if !point_valid65(b) {
        Err(Error::InvalidPublicKey)
    } else {
        Ok(b)
    }
}

/// Decoding a compact signature: exactly 64 bytes whose r and s halves are
/// both scalars below the curve order.
pub open spec fn decode_signature(b: Seq<u8>) -> Result<Seq<u8>, Error> {
    if b.len() != 64 {
        Err(Error::WrongSignatureSize)
    } else if !standard_signature(b) {
        Err(Error::InvalidSignature)
    } else {
        Ok(b)
    }
}

/// Decoding a recovery id: an integer in {0, 1, 2, 3}.
pub open spec fn decode_recovery_id(v: u8) -> Result<u8, Error> {
    if v >= 4 {
        Err(Error::InvalidRecoveryId)
    } else {
        Ok(v)
    }
}

/// Decoding one half of a split signature: 32 bytes below the curve order
/// (zero is allowed here); `kind_error` tells r apart from s.
pub open spec fn decode_scalar(b: Seq<u8>, kind_error: Error) -> Result<Seq<u8>, Error> {
    if b.len() != 32 || be_val(b) >= curve_order() {
        Err(kind_error)
    } else {
        Ok(b)
    }
}

/// Checks that 32 bytes read as a valid private key or tweak scalar.
pub fn check_key_scalar(b: &[u8]) -> (r: bool)
    requires
        b@.len() == 32,
    ensures
        r == valid_key_scalar(b@),
{
    let order = order_bytes();
    let nonzero = !is_zero_bytes(b);
    nonzero && be_less(b, order.as_slice())
}

/// Checks that 32 bytes read as a scalar below the curve order.
pub fn check_scalar_range(b: &[u8]) -> (r: bool)
    requires
        b@.len() == 32,
    ensures
        r == (be_val(b@) < curve_order()),
{
    let order = order_bytes();
    be_less(b, order.as_slice())
}

/// The boundaries of the private-key range: the all-zero string and the
/// curve order itself are rejected as invalid content, while the largest
/// scalar below the order, `n - 1`, is accepted.
pub proof fn lemma_private_key_boundaries()
    ensures
        decode_private_key(Seq::new(32, |i: int| 0u8)) == Err::<Seq<u8>, Error>(
            Error::InvalidPrivateKey,
        ),
        decode_private_key(order_seq()) == Err::<Seq<u8>, Error>(Error::InvalidPrivateKey),
        decode_private_key(order_seq().update(31, 0x40u8)) is Ok,
{
    let zero = Seq::new(32, |i: int| 0u8);
    lemma_be_val_zero(zero);
    let omo = order_seq().update(31, 0x40u8);
    lemma_be_val_zero(omo);
    assert(omo[0] == 0xff);
    lemma_be_prefix_lt(omo, order_seq(), 31);
}

/// Decoding is a pure function of the input bytes: handing the same byte
/// string (or recovery id) to the same decoder twice yields the same
/// outcome both times — in particular, the same error for the same
/// malformed input.
pub proof fn lemma_decoding_deterministic(b1: Seq<u8>, b2: Seq<u8>, v1: u8, v2: u8)
    requires
        b1 == b2,
        v1 == v2,
    ensures
        decode_message(b1) == decode_message(b2),
        decode_private_key(b1) == decode_private_key(b2),
        decode_tweak_key(b1) == decode_tweak_key(b2),
        decode_public_key(b1) == decode_public_key(b2),
        decode_signature(b1) == decode_signature(b2),
        decode_recovery_id(v1) == decode_recovery_id(v2),
        decode_scalar(b1, Error::InvalidR) == decode_scalar(b2, Error::InvalidR),
        decode_scalar(b1, Error::InvalidS) == decode_scalar(b2, Error::InvalidS),
{
}

} // verus!
