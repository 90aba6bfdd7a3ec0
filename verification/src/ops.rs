use vstd::prelude::*;

use crate::bigint::{be_bytes, be_val, lemma_be_bytes_len, lemma_be_bytes_val, lemma_be_val_bound};
use crate::curve::{
    compressed65, curve_order, decompressed33, ec_compress, ec_decompress, ec_derive,
    ec_point_tweak_add, ec_point_tweak_mul, ec_point_valid65, ec_recover, ec_scalar_tweak_add,
    ec_scalar_tweak_mul, ec_sign, ec_verify, ecdsa_sig_of, order_seq, point_tweak_add,
    point_tweak_mul, pubkey_of, recovered_point, sig_matches, valid_key_scalar,
};
use crate::decode::{
    check_key_scalar, check_scalar_range, decode_message, decode_private_key, decode_public_key,
    decode_recovery_id, decode_scalar, decode_signature, decode_tweak_key,
};
use crate::errors::Error;

verus! {

// ---------------------------------------------------------------------------
// Operation-level specifications. Each operation returns exactly what its
// specification function computes from the input bytes: the decoders run in
// the order given here, the first failure wins, and the success payload is
// pinned by the specification.
// ---------------------------------------------------------------------------

pub open spec fn sign_spec(m: Seq<u8>, k: Seq<u8>) -> Result<(Seq<u8>, Seq<u8>, u8), Error> {
    match decode_message(m) {
        Err(e) => Err(e),
        Ok(_) => match decode_private_key(k) {
            Err(e) => Err(e),
            Ok(_) => Ok(ecdsa_sig_of(m, k)),
        },
    }
}

pub open spec fn sign_compact_spec(m: Seq<u8>, k: Seq<u8>) -> Result<(Seq<u8>, u8), Error> {
    match sign_spec(m, k) {
        Err(e) => Err(e),
        Ok(t) => Ok((t.0 + t.1, t.2)),
    }
}

pub open spec fn recover_spec(m: Seq<u8>, r: Seq<u8>, s: Seq<u8>, recid: u8) -> Result<
    Seq<u8>,
    Error,
> {
    match decode_scalar(r, Error::InvalidR) {
        Err(e) => Err(e),
        Ok(_) => match decode_scalar(s, Error::InvalidS) {
            Err(e) => Err(e),
            Ok(_) => match decode_message(m) {
                Err(e) => Err(e),
                Ok(_) => match decode_recovery_id(recid) {
                    Err(e) => Err(e),
                    Ok(_) => match recovered_point(m, r, s, recid) {
                        Some(p) => Ok(p),
                        None => Err(Error::RecoveryFailure),
                    },
                },
            },
        },
    }
}

pub open spec fn recover_compact_spec(m: Seq<u8>, sig: Seq<u8>, recid: u8) -> Result<
    Seq<u8>,
    Error,
> {
    match decode_message(m) {
        Err(e) => Err(e),
        Ok(_) => match decode_signature(sig) {
            Err(e) => Err(e),
            Ok(_) => match decode_recovery_id(recid) {
                Err(e) => Err(e),
                Ok(_) => match recovered_point(
                    m,
                    sig.subrange(0, 32),
                    sig.subrange(32, 64),
                    recid,
                ) {
                    Some(p) => Ok(p),
                    None => Err(Error::RecoveryFailure),
                },
            },
        },
    }
}

pub open spec fn create_public_key_spec(k: Seq<u8>) -> Result<Seq<u8>, Error> {
    match decode_private_key(k) {
        Err(e) => Err(e),
        Ok(_) => Ok(pubkey_of(k)),
    }
}

pub open spec fn verify_spec(m: Seq<u8>, sig: Seq<u8>, p: Seq<u8>) -> Result<(), Error> {
    match decode_message(m) {
        Err(e) => Err(e),
        Ok(_) => match decode_signature(sig) {
            Err(e) => Err(e),
            Ok(_) => match decode_public_key(p) {
                Err(e) => Err(e),
                Ok(_) => if sig_matches(m, sig, p) {
                    Ok(())
                } else {
                    Err(Error::FailedToVerify)
                },
            },
        },
    }
}

pub open spec fn public_key_tweak_add_spec(p: Seq<u8>, t: Seq<u8>) -> Result<Seq<u8>, Error> {
    match decode_public_key(p) {
        Err(e) => Err(e),
        Ok(_) => match decode_tweak_key(t) {
            Err(e) => Err(e),
            Ok(_) => match point_tweak_add(p, t) {
                Some(q) => Ok(q),
                None => Err(Error::TweakFailure),
            },
        },
    }
}

pub open spec fn public_key_tweak_mult_spec(p: Seq<u8>, t: Seq<u8>) -> Result<Seq<u8>, Error> {
    match decode_public_key(p) {
        Err(e) => Err(e),
        Ok(_) => match decode_tweak_key(t) {
            Err(e) => Err(e),
            Ok(_) => Ok(point_tweak_mul(p, t)),
        },
    }
}

pub open spec fn private_key_tweak_add_spec(k: Seq<u8>, t: Seq<u8>) -> Result<Seq<u8>, Error> {
    match decode_private_key(k) {
        Err(e) => Err(e),
        Ok(_) => match decode_tweak_key(t) {
            Err(e) => Err(e),
            Ok(_) => if (be_val(k) + be_val(t)) % curve_order() == 0 {
                Err(Error::TweakFailure)
            } else {
                Ok(be_bytes((be_val(k) + be_val(t)) % curve_order(), 32))
            },
        },
    }
}

pub open spec fn private_key_tweak_mult_spec(k: Seq<u8>, t: Seq<u8>) -> Result<Seq<u8>, Error> {
    match decode_private_key(k) {
        Err(e) => Err(e),
        Ok(_) => match decode_tweak_key(t) {
            Err(e) => Err(e),
            Ok(_) => Ok(be_bytes((be_val(k) * be_val(t)) % curve_order(), 32)),
        },
    }
}

pub open spec fn public_key_decompress_spec(b: Seq<u8>) -> Result<Seq<u8>, Error> {
    if b.len() != 33 {
        Err(Error::WrongPublicKeySize)
    } else {
        match decompressed33(b) {
            Some(p) => Ok(p),
            None => Err(Error::InvalidPublicKey),
        }
    }
}

pub open spec fn public_key_compress_spec(p: Seq<u8>) -> Result<Seq<u8>, Error> {
    match decode_public_key(p) {
        Err(e) => Err(e),
        Ok(_) => Ok(compressed65(p)),
    }
}

// ---------------------------------------------------------------------------
// Laws relating the operations.
// ---------------------------------------------------------------------------

/// Signing is deterministic: the outcome of `sign` and `sign_compact` is a
/// pure function of digest and key, so repeated calls on identical input
/// yield the identical signature and recovery id.
pub proof fn lemma_signing_deterministic(m1: Seq<u8>, k1: Seq<u8>, m2: Seq<u8>, k2: Seq<u8>)
    requires
        m1 == m2,
        k1 == k2,
    ensures
        sign_spec(m1, k1) == sign_spec(m2, k2),
        sign_compact_spec(m1, k1) == sign_compact_spec(m2, k2),
{
}

/// A successful additive private-key tweak yields a valid private key
/// again, so deriving a public key from the tweaked key can never fail.
pub proof fn lemma_tweaked_private_key_valid(k: Seq<u8>, t: Seq<u8>)
    ensures
        private_key_tweak_add_spec(k, t) matches Ok(v) ==> valid_key_scalar(v)
            && create_public_key_spec(v) is Ok,
{
    if private_key_tweak_add_spec(k, t) is Ok {
        let sum = (be_val(k) + be_val(t)) % curve_order();
        lemma_be_val_bound(order_seq());
        lemma_be_bytes_len(sum, 32);
        lemma_be_bytes_val(sum, 32);
    }
}

// ---------------------------------------------------------------------------
// Agreement between an executable result and a specification-level result.
// ---------------------------------------------------------------------------

pub open spec fn agrees_bytes(r: Result<Vec<u8>, Error>, s: Result<Seq<u8>, Error>) -> bool {
    match r {
        Ok(v) => s matches Ok(w) && v@ == w,
        Err(a) => s matches Err(b) && a == b,
    }
}

pub open spec fn agrees_split_sig(
    r: Result<(Vec<u8>, Vec<u8>, u8), Error>,
    s: Result<(Seq<u8>, Seq<u8>, u8), Error>,
) -> bool {
    match r {
        Ok(v) => s matches Ok(w) && v.0@ == w.0 && v.1@ == w.1 && v.2 == w.2,
        Err(a) => s matches Err(b) && a == b,
    }
}

pub open spec fn agrees_compact_sig(
    r: Result<(Vec<u8>, u8), Error>,
    s: Result<(Seq<u8>, u8), Error>,
) -> bool {
    match r {
        Ok(v) => s matches Ok(w) && v.0@ == w.0 && v.1 == w.1,
        Err(a) => s matches Err(b) && a == b,
    }
}

// ---------------------------------------------------------------------------
// Operations.
// ---------------------------------------------------------------------------

/// Signs a 32-byte digest with a 32-byte private key, returning r, s and the
/// recovery id. Both halves of the result decode back as split-signature
/// scalars and the recovery id is valid.
pub fn sign(message: &[u8], private_key: &[u8]) -> (result: Result<(Vec<u8>, Vec<u8>, u8), Error>)
    ensures
        agrees_split_sig(result, sign_spec(message@, private_key@)),
        result matches Ok(t) ==> decode_scalar(t.0@, Error::InvalidR) is Ok && decode_scalar(
            t.1@,
            Error::InvalidS,
        ) is Ok && decode_recovery_id(t.2) is Ok,
{
    if message.len() != 32 {
        return Err(Error::WrongMessageSize);
    }
    if private_key.len() != 32 {
        return Err(Error::WrongPrivateKeySize);
    }
    if !check_key_scalar(private_key) {
        return Err(Error::InvalidPrivateKey);
    }
    let (r, s, recid) = ec_sign(message, private_key);
    Ok((r, s, recid))
}

/// Signs a 32-byte digest with a 32-byte private key, returning the 64-byte
/// `r || s` signature and the recovery id. The signature decodes back as a
/// standard compact signature.
pub fn sign_compact(message: &[u8], private_key: &[u8]) -> (result: Result<(Vec<u8>, u8), Error>)
    ensures
        agrees_compact_sig(result, sign_compact_spec(message@, private_key@)),
        result matches Ok(t) ==> decode_signature(t.0@) is Ok && decode_recovery_id(t.1) is Ok,
{
    if message.len() != 32 {
        return Err(Error::WrongMessageSize);
    }
    if private_key.len() != 32 {
        return Err(Error::WrongPrivateKeySize);
    }
    if !check_key_scalar(private_key) {
        return Err(Error::InvalidPrivateKey);
    }
    let (r, s, recid) = ec_sign(message, private_key);
    let mut sig = r;
    let mut tail = s;
    sig.append(&mut tail);
    proof {
        assert(sig@.subrange(0, 32) =~= ecdsa_sig_of(message@, private_key@).0);
        assert(sig@.subrange(32, 64) =~= ecdsa_sig_of(message@, private_key@).1);
    }
    Ok((sig, recid))
}

/// Recovers the 65-byte public key that signed a 32-byte digest from a split
/// signature and a recovery id.
pub fn recover(hash: &[u8], r: &[u8], s: &[u8], recovery_id: u8) -> (result: Result<
    Vec<u8>,
    Error,
>)
    ensures
        agrees_bytes(result, recover_spec(hash@, r@, s@, recovery_id)),
        result matches Ok(v) ==> decode_public_key(v@) is Ok && v@[0] == 4,
{
    if r.len() != 32 {
        return Err(Error::InvalidR);
    }
    if !check_scalar_range(r) {
        return Err(Error::InvalidR);
    }
    if s.len() != 32 {
        return Err(Error::InvalidS);
    }
    if !check_scalar_range(s) {
        return Err(Error::InvalidS);
    }
    if hash.len() != 32 {
        return Err(Error::WrongMessageSize);
    }
    if recovery_id >= 4 {
        return Err(Error::InvalidRecoveryId);
    }
    match ec_recover(hash, r, s, recovery_id) {
        Some(p) => Ok(p),
        None => Err(Error::RecoveryFailure),
    }
}

/// Recovers the 65-byte public key that signed a 32-byte digest from a
/// 64-byte compact signature and a recovery id.
pub fn recover_compact(hash: &[u8], signature: &[u8], recovery_id: u8) -> (result: Result<
    Vec<u8>,
    Error,
>)
    ensures
        agrees_bytes(result, recover_compact_spec(hash@, signature@, recovery_id)),
        result matches Ok(v) ==> decode_public_key(v@) is Ok && v@[0] == 4,
{
    if hash.len() != 32 {
        return Err(Error::WrongMessageSize);
    }
    if signature.len() != 64 {
        return Err(Error::WrongSignatureSize);
    }
    let r_part: &[u8] = &signature[0..32];
    let s_part: &[u8] = &signature[32..64];
    if !check_scalar_range(r_part) {
        return Err(Error::InvalidSignature);
    }
    if !check_scalar_range(s_part) {
        return Err(Error::InvalidSignature);
    }
    if recovery_id >= 4 {
        return Err(Error::InvalidRecoveryId);
    }
    match ec_recover(hash, r_part, s_part, recovery_id) {
        Some(p) => Ok(p),
        None => Err(Error::RecoveryFailure),
    }
}

/// Derives the 65-byte uncompressed public key of a 32-byte private key.
/// The result always decodes back as a valid public key.
pub fn create_public_key(private_key: &[u8]) -> (result: Result<Vec<u8>, Error>)
    ensures
        agrees_bytes(result, create_public_key_spec(private_key@)),
        result matches Ok(v) ==> decode_public_key(v@) is Ok && v@[0] == 4,
{
    if private_key.len() != 32 {
        return Err(Error::WrongPrivateKeySize);
    }
    if !check_key_scalar(private_key) {
        return Err(Error::InvalidPrivateKey);
    }
    Ok(ec_derive(private_key))
}

/// Checks a 64-byte signature over a 32-byte digest against a 65-byte
/// public key. A signature that merely does not match is the ordinary
/// negative `Err(Error::FailedToVerify)`, distinct from every decode error.
pub fn verify(message: &[u8], signature: &[u8], public_key: &[u8]) -> (result: Result<(), Error>)
    ensures
        result == verify_spec(message@, signature@, public_key@),
{
    if message.len() != 32 {
        return Err(Error::WrongMessageSize);
    }
    if signature.len() != 64 {
        return Err(Error::WrongSignatureSize);
    }
    let r_part: &[u8] = &signature[0..32];
    let s_part: &[u8] = &signature[32..64];
    if !check_scalar_range(r_part) {
        return Err(Error::InvalidSignature);
    }
    if !check_scalar_range(s_part) {
        return Err(Error::InvalidSignature);
    }
    if public_key.len() != 65 {
        return Err(Error::WrongPublicKeySize);
    }
    if !ec_point_valid65(public_key) {
        return Err(Error::InvalidPublicKey);
    }
    if ec_verify(message, signature, public_key) {
        Ok(())
    } else {
        Err(Error::FailedToVerify)
    }
}

/// Adds tweak times the generator to a 65-byte public key.
pub fn public_key_tweak_add(public_key: &[u8], tweak_key: &[u8]) -> (result: Result<
    Vec<u8>,
    Error,
>)
    ensures
        agrees_bytes(result, public_key_tweak_add_spec(public_key@, tweak_key@)),
        result matches Ok(v) ==> decode_public_key(v@) is Ok && v@[0] == 4,
{
    if public_key.len() != 65 {
        return Err(Error::WrongPublicKeySize);
    }
    if !ec_point_valid65(public_key) {
        return Err(Error::InvalidPublicKey);
    }
    if tweak_key.len() != 32 {
        return Err(Error::WrongTweakKeySize);
    }
    if !check_key_scalar(tweak_key) {
        return Err(Error::InvalidPrivateKey);
    }
    match ec_point_tweak_add(public_key, tweak_key) {
        Some(q) => Ok(q),
        None => Err(Error::TweakFailure),
    }
}

/// Multiplies a 65-byte public key by a tweak scalar.
pub fn public_key_tweak_mult(public_key: &[u8], tweak_key: &[u8]) -> (result: Result<
    Vec<u8>,
    Error,
>)
    ensures
        agrees_bytes(result, public_key_tweak_mult_spec(public_key@, tweak_key@)),
        result matches Ok(v) ==> decode_public_key(v@) is Ok && v@[0] == 4,
{
    if public_key.len() != 65 {
        return Err(Error::WrongPublicKeySize);
    }
    if !ec_point_valid65(public_key) {
        return Err(Error::InvalidPublicKey);
    }
    if tweak_key.len() != 32 {
        return Err(Error::WrongTweakKeySize);
    }
    if !check_key_scalar(tweak_key) {
        return Err(Error::InvalidPrivateKey);
    }
    Ok(ec_point_tweak_mul(public_key, tweak_key))
}

/// Adds a tweak to a 32-byte private key modulo the curve order. A
/// successful result is itself a valid private key.
pub fn private_key_tweak_add(private_key: &[u8], tweak_key: &[u8]) -> (result: Result<
    Vec<u8>,
    Error,
>)
    ensures
        agrees_bytes(result, private_key_tweak_add_spec(private_key@, tweak_key@)),
        result matches Ok(v) ==> decode_private_key(v@) is Ok,
{
    if private_key.len() != 32 {
        return Err(Error::WrongPrivateKeySize);
    }
    if !check_key_scalar(private_key) {
        return Err(Error::InvalidPrivateKey);
    }
    if tweak_key.len() != 32 {
        return Err(Error::WrongTweakKeySize);
    }
    if !check_key_scalar(tweak_key) {
        return Err(Error::InvalidPrivateKey);
    }
    match ec_scalar_tweak_add(private_key, tweak_key) {
        Some(v) => {
            proof {
                let sum = (be_val(private_key@) + be_val(tweak_key@)) % curve_order();
                lemma_be_val_bound(order_seq());
                lemma_be_bytes_len(sum, 32);
                lemma_be_bytes_val(sum, 32);
            }
            Ok(v)
        },
        None => Err(Error::TweakFailure),
    }
}

/// Multiplies a 32-byte private key by a tweak modulo the curve order.
pub fn private_key_tweak_mult(private_key: &[u8], tweak_key: &[u8]) -> (result: Result<
    Vec<u8>,
    Error,
>)
    ensures
        agrees_bytes(result, private_key_tweak_mult_spec(private_key@, tweak_key@)),
        result matches Ok(v) ==> v@.len() == 32 && be_val(v@) < curve_order(),
{
    if private_key.len() != 32 {
        return Err(Error::WrongPrivateKeySize);
    }
    if !check_key_scalar(private_key) {
        return Err(Error::InvalidPrivateKey);
    }
    if tweak_key.len() != 32 {
        return Err(Error::WrongTweakKeySize);
    }
    if !check_key_scalar(tweak_key) {
        return Err(Error::InvalidPrivateKey);
    }
    let v = ec_scalar_tweak_mul(private_key, tweak_key);
    proof {
        let prod = (be_val(private_key@) * be_val(tweak_key@)) % curve_order();
        lemma_be_val_bound(order_seq());
        lemma_be_bytes_len(prod, 32);
        lemma_be_bytes_val(prod, 32);
    }
    Ok(v)
}

/// Expands a 33-byte compressed public key to its 65-byte uncompressed
/// form. The result always decodes back as a valid public key.
pub fn public_key_decompress(compressed_public_key: &[u8]) -> (result: Result<Vec<u8>, Error>)
    ensures
        agrees_bytes(result, public_key_decompress_spec(compressed_public_key@)),
        result matches Ok(v) ==> decode_public_key(v@) is Ok && v@[0] == 4,
        compressed_public_key@.len() == 33 && compressed_public_key@[0] != 2
            && compressed_public_key@[0] != 3 ==> result == Err::<Vec<u8>, Error>(
            Error::InvalidPublicKey,
        ),
{
    if compressed_public_key.len() != 33 {
        return Err(Error::WrongPublicKeySize);
    }
    match ec_decompress(compressed_public_key) {
        Some(p) => Ok(p),
        None => Err(Error::InvalidPublicKey),
    }
}

/// Compresses a 65-byte public key to its 33-byte form, tag 0x02 or 0x03.
pub fn public_key_compress(public_key: &[u8]) -> (result: Result<Vec<u8>, Error>)
    ensures
        agrees_bytes(result, public_key_compress_spec(public_key@)),
        result matches Ok(v) ==> v@.len() == 33 && (v@[0] == 2 || v@[0] == 3),
{
    if public_key.len() != 65 {
        return Err(Error::WrongPublicKeySize);
    }
    if !ec_point_valid65(public_key) {
        return Err(Error::InvalidPublicKey);
    }
    Ok(ec_compress(public_key))
}

} // verus!
