use vstd::prelude::*;

use crate::bigint::{be_bytes, be_val};

verus! {

/// The order `n` of the secp256k1 group, as its 32 big-endian bytes.
pub open spec fn order_seq() -> Seq<u8> {
    seq![
        0xffu8, 0xff, 0xff, 0xff, 0xff, 0xff, 0xff, 0xff, 0xff, 0xff, 0xff, 0xff, 0xff, 0xff,
        0xff, 0xfe, 0xba, 0xae, 0xdc, 0xe6, 0xaf, 0x48, 0xa0, 0x3b, 0xbf, 0xd2, 0x5e, 0x8c,
        0xd0, 0x36, 0x41, 0x41,
    ]
}

/// The order `n` of the secp256k1 group.
pub open spec fn curve_order() -> nat {
    be_val(order_seq())
}

/// The 32 big-endian bytes of the group order, as a runtime value.
pub fn order_bytes() -> (r: Vec<u8>)
    ensures
        r@ == order_seq(),
{
    let v: Vec<u8> = vec![
        0xff, 0xff, 0xff, 0xff, 0xff, 0xff, 0xff, 0xff, 0xff, 0xff, 0xff, 0xff, 0xff, 0xff,
        0xff, 0xfe, 0xba, 0xae, 0xdc, 0xe6, 0xaf, 0x48, 0xa0, 0x3b, 0xbf, 0xd2, 0x5e, 0x8c,
        0xd0, 0x36, 0x41, 0x41,
    ];
    proof {
        assert(v@ =~= order_seq());
    }
    v
}

/// A well-formed private key or tweak: 32 bytes reading as a nonzero scalar
/// strictly below the curve order.
pub open spec fn valid_key_scalar(b: Seq<u8>) -> bool {
    b.len() == 32 && 0 < be_val(b) && be_val(b) < curve_order()
}

/// 32 bytes reading as a scalar below the curve order; zero is allowed.
pub open spec fn scalar_in_range(b: Seq<u8>) -> bool {
    b.len() == 32 && be_val(b) < curve_order()
}

/// A 64-byte `r || s` signature both of whose halves are scalars below the
/// curve order.
pub open spec fn standard_signature(sig: Seq<u8>) -> bool {
    &&& sig.len() == 64
    &&& be_val(sig.subrange(0, 32)) < curve_order()
    &&& be_val(sig.subrange(32, 64)) < curve_order()
}

/// Whether a 65-byte encoding names a point on the curve: tag 0x04 (or a
/// hybrid tag 0x06/0x07 matching the parity of y), coordinates below the
/// field prime, and the point on the curve.
pub uninterp spec fn point_valid65(b: Seq<u8>) -> bool;

/// The 65-byte form of the point that a 33-byte compressed encoding names,
/// or `None` if the encoding is invalid.
pub uninterp spec fn decompressed33(b: Seq<u8>) -> Option<Seq<u8>>;

/// The 33-byte compressed form of a valid 65-byte public key.
pub uninterp spec fn compressed65(b: Seq<u8>) -> Seq<u8>;

/// The 65-byte public key derived from a private key.
pub uninterp spec fn pubkey_of(k: Seq<u8>) -> Seq<u8>;

/// The deterministic ECDSA signature of a digest under a private key:
/// 32 bytes of r, 32 bytes of s, and the recovery id.
pub uninterp spec fn ecdsa_sig_of(m: Seq<u8>, k: Seq<u8>) -> (Seq<u8>, Seq<u8>, u8);

/// The 65-byte public key recovered from a digest, a split signature and a
/// recovery id, or `None` if no valid point can be reconstructed.
pub uninterp spec fn recovered_point(m: Seq<u8>, r: Seq<u8>, s: Seq<u8>, recid: u8) -> Option<
    Seq<u8>,
>;

/// Whether a signature verifies a digest under a public key.
pub uninterp spec fn sig_matches(m: Seq<u8>, sig: Seq<u8>, p: Seq<u8>) -> bool;

/// The 65-byte form of a public key point plus tweak times the generator,
/// or `None` if that sum is the point at infinity.
pub uninterp spec fn point_tweak_add(p: Seq<u8>, t: Seq<u8>) -> Option<Seq<u8>>;

/// The 65-byte form of a public key point multiplied by a nonzero tweak.
pub uninterp spec fn point_tweak_mul(p: Seq<u8>, t: Seq<u8>) -> Seq<u8>;

/// Relies on libsecp256k1::PublicKey::parse: a 65-byte encoding parses
/// exactly when its tag byte is 0x04, 0x06 or 0x07 and it names a finite
/// point on the curve (a hybrid tag must also match the parity of y).
#[verifier::external_body]
pub(crate) fn ec_point_valid65(b: &[u8]) -> (r: bool)
    requires
        b@.len() == 65,
    ensures
        r == point_valid65(b@),
        b@[0] != 4 && b@[0] != 6 && b@[0] != 7 ==> r == false,
{
    let arr: [u8; 65] = b.try_into().unwrap();
    libsecp256k1::PublicKey::parse(&arr).is_ok()
}

/// Relies on libsecp256k1::sign: deterministic (RFC6979-style) ECDSA, a pure
/// function of digest and key; r and s are serialized scalars below the
/// curve order and the recovery id is below 4.
#[verifier::external_body]
pub(crate) fn ec_sign(m: &[u8], k: &[u8]) -> (out: (Vec<u8>, Vec<u8>, u8))
    requires
        m@.len() == 32,
        valid_key_scalar(k@),
    ensures
        out.0@ == ecdsa_sig_of(m@, k@).0,
        out.1@ == ecdsa_sig_of(m@, k@).1,
        out.2 == ecdsa_sig_of(m@, k@).2,
        out.0@.len() == 32,
        out.1@.len() == 32,
        be_val(out.0@) < curve_order(),
        be_val(out.1@) < curve_order(),
        out.2 < 4,
{
    let msg = libsecp256k1::Message::parse(&m.try_into().unwrap());
    let key = libsecp256k1::SecretKey::parse(&k.try_into().unwrap()).unwrap();
    let (sig, recid) = libsecp256k1::sign(&msg, &key);
    (sig.r.b32().to_vec(), sig.s.b32().to_vec(), recid.into())
}

/// Relies on libsecp256k1::recover and PublicKey::serialize: recovery is a
/// pure function of digest, r, s and recovery id; a recovered key is
/// returned in its 65-byte uncompressed form, which parses as valid.
#[verifier::external_body]
pub(crate) fn ec_recover(m: &[u8], r: &[u8], s: &[u8], recid: u8) -> (out: Option<Vec<u8>>)
    requires
        m@.len() == 32,
        scalar_in_range(r@),
        scalar_in_range(s@),
        recid < 4,
    ensures
        out is Some <==> recovered_point(m@, r@, s@, recid) is Some,
        out matches Some(v) ==> recovered_point(m@, r@, s@, recid) matches Some(w) && v@ == w
            && v@.len() == 65 && v@[0] == 4 && point_valid65(v@),
{
    let msg = libsecp256k1::Message::parse(&m.try_into().unwrap());
    let mut sr = libsecp256k1::curve::Scalar::default();
    let mut ss = libsecp256k1::curve::Scalar::default();
    let _ = sr.set_b32(&r.try_into().unwrap());
    let _ = ss.set_b32(&s.try_into().unwrap());
    let sig = libsecp256k1::Signature { r: sr, s: ss };
    let rid = libsecp256k1::RecoveryId::parse(recid).unwrap();
    match libsecp256k1::recover(&msg, &sig, &rid) {
        Ok(p) => Some(p.serialize().to_vec()),
        Err(_) => None,
    }
}

/// Relies on libsecp256k1::verify: a pure predicate of digest, signature and
/// public key.
#[verifier::external_body]
pub(crate) fn ec_verify(m: &[u8], sig: &[u8], p: &[u8]) -> (r: bool)
    requires
        m@.len() == 32,
        standard_signature(sig@),
        p@.len() == 65,
        point_valid65(p@),
    ensures
        r == sig_matches(m@, sig@, p@),
{
    let msg = libsecp256k1::Message::parse(&m.try_into().unwrap());
    let s = libsecp256k1::Signature::parse_standard(&sig.try_into().unwrap()).unwrap();
    let key = libsecp256k1::PublicKey::parse(&p.try_into().unwrap()).unwrap();
    libsecp256k1::verify(&msg, &s, &key)
}

/// Relies on libsecp256k1::PublicKey::from_secret_key and serialize: public
/// key derivation is a pure function of the secret scalar; the result is the
/// 65-byte uncompressed encoding, tag 0x04, which parses as valid.
#[verifier::external_body]
pub(crate) fn ec_derive(k: &[u8]) -> (out: Vec<u8>)
    requires
        valid_key_scalar(k@),
    ensures
        out@ == pubkey_of(k@),
        out@.len() == 65,
        out@[0] == 4,
        point_valid65(out@),
{
    let key = libsecp256k1::SecretKey::parse(&k.try_into().unwrap()).unwrap();
    let public_key = libsecp256k1::PublicKey::from_secret_key(&key);
    public_key.serialize().to_vec()
}

/// Relies on libsecp256k1::PublicKey::parse_compressed and serialize: a
/// 33-byte encoding decompresses exactly when its tag byte is 0x02 or 0x03
/// and x names a point on the curve; the result is the 65-byte form.
#[verifier::external_body]
pub(crate) fn ec_decompress(b: &[u8]) -> (out: Option<Vec<u8>>)
    requires
        b@.len() == 33,
    ensures
        out is Some <==> decompressed33(b@) is Some,
        out matches Some(v) ==> decompressed33(b@) matches Some(w) && v@ == w && v@.len() == 65
            && v@[0] == 4 && point_valid65(v@),
        b@[0] != 2 && b@[0] != 3 ==> out is None,
{
    let arr: [u8; 33] = b.try_into().unwrap();
    match libsecp256k1::PublicKey::parse_compressed(&arr) {
        Ok(p) => Some(p.serialize().to_vec()),
        Err(_) => None,
    }
}

/// Relies on libsecp256k1::PublicKey::serialize_compressed: the 33-byte
/// compressed form of a valid public key, tag 0x02 for even y and 0x03 for
/// odd y.
#[verifier::external_body]
pub(crate) fn ec_compress(p: &[u8]) -> (out: Vec<u8>)
    requires
        p@.len() == 65,
        point_valid65(p@),
    ensures
        out@ == compressed65(p@),
        out@.len() == 33,
        out@[0] == 2 || out@[0] == 3,
{
    let arr: [u8; 65] = p.try_into().unwrap();
    let key = libsecp256k1::PublicKey::parse(&arr).unwrap();
    key.serialize_compressed().to_vec()
}

/// Relies on libsecp256k1::PublicKey::tweak_add_assign: adds tweak times the
/// generator to the point, failing exactly when the sum is the point at
/// infinity; a successful result is a valid 65-byte key.
#[verifier::external_body]
pub(crate) fn ec_point_tweak_add(p: &[u8], t: &[u8]) -> (out: Option<Vec<u8>>)
    requires
        p@.len() == 65,
        point_valid65(p@),
        valid_key_scalar(t@),
    ensures
        out is Some <==> point_tweak_add(p@, t@) is Some,
        out matches Some(v) ==> point_tweak_add(p@, t@) matches Some(w) && v@ == w && v@.len()
            == 65 && v@[0] == 4 && point_valid65(v@),
{
    let arr: [u8; 65] = p.try_into().unwrap();
    let mut key = libsecp256k1::PublicKey::parse(&arr).unwrap();
    let tweak = libsecp256k1::SecretKey::parse(&t.try_into().unwrap()).unwrap();
    match key.tweak_add_assign(&tweak) {
        Ok(()) => Some(key.serialize().to_vec()),
        Err(_) => None,
    }
}

/// Relies on libsecp256k1::PublicKey::tweak_mul_assign: multiplies the point
/// by the tweak; with a nonzero tweak below the order it always succeeds and
/// the result is a valid 65-byte key.
#[verifier::external_body]
pub(crate) fn ec_point_tweak_mul(p: &[u8], t: &[u8]) -> (out: Vec<u8>)
    requires
        p@.len() == 65,
        point_valid65(p@),
        valid_key_scalar(t@),
    ensures
        out@ == point_tweak_mul(p@, t@),
        out@.len() == 65,
        out@[0] == 4,
        point_valid65(out@),
{
    let arr: [u8; 65] = p.try_into().unwrap();
    let mut key = libsecp256k1::PublicKey::parse(&arr).unwrap();
    let tweak = libsecp256k1::SecretKey::parse(&t.try_into().unwrap()).unwrap();
    key.tweak_mul_assign(&tweak).unwrap();
    key.serialize().to_vec()
}

/// Relies on libsecp256k1::SecretKey::tweak_add_assign: scalar addition
/// modulo the curve order, failing exactly when the sum reduces to zero.
#[verifier::external_body]
pub(crate) fn ec_scalar_tweak_add(k: &[u8], t: &[u8]) -> (out: Option<Vec<u8>>)
    requires
        valid_key_scalar(k@),
        valid_key_scalar(t@),
    ensures
        out is Some <==> (be_val(k@) + be_val(t@)) % curve_order() != 0,
        out matches Some(v) ==> v@ == be_bytes((be_val(k@) + be_val(t@)) % curve_order(), 32),
{
    let mut key = libsecp256k1::SecretKey::parse(&k.try_into().unwrap()).unwrap();
    let tweak = libsecp256k1::SecretKey::parse(&t.try_into().unwrap()).unwrap();
    match key.tweak_add_assign(&tweak) {
        Ok(()) => Some(key.serialize().to_vec()),
        Err(_) => None,
    }
}

/// Relies on libsecp256k1::SecretKey::tweak_mul_assign: scalar
/// multiplication modulo the curve order, total for a nonzero tweak.
#[verifier::external_body]
pub(crate) fn ec_scalar_tweak_mul(k: &[u8], t: &[u8]) -> (out: Vec<u8>)
    requires
        valid_key_scalar(k@),
        valid_key_scalar(t@),
    ensures
        out@ == be_bytes((be_val(k@) * be_val(t@)) % curve_order(), 32),
{
    let mut key = libsecp256k1::SecretKey::parse(&k.try_into().unwrap()).unwrap();
    let tweak = libsecp256k1::SecretKey::parse(&t.try_into().unwrap()).unwrap();
    key.tweak_mul_assign(&tweak).unwrap();
    key.serialize().to_vec()
}

} // verus!
