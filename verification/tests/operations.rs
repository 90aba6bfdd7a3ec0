use exsecp256k1::errors::Error;
use exsecp256k1::ops::{
    create_public_key, private_key_tweak_add, private_key_tweak_mult, public_key_compress,
    public_key_decompress, public_key_tweak_add, public_key_tweak_mult, recover, recover_compact,
    sign, sign_compact, verify,
};

const ORDER: [u8; 32] = [
    0xff, 0xff, 0xff, 0xff, 0xff, 0xff, 0xff, 0xff, 0xff, 0xff, 0xff, 0xff, 0xff, 0xff, 0xff,
    0xfe, 0xba, 0xae, 0xdc, 0xe6, 0xaf, 0x48, 0xa0, 0x3b, 0xbf, 0xd2, 0x5e, 0x8c, 0xd0, 0x36,
    0x41, 0x41,
];

const GEN_X: [u8; 32] = [
    0x79, 0xbe, 0x66, 0x7e, 0xf9, 0xdc, 0xbb, 0xac, 0x55, 0xa0, 0x62, 0x95, 0xce, 0x87, 0x0b,
    0x07, 0x02, 0x9b, 0xfc, 0xdb, 0x2d, 0xce, 0x28, 0xd9, 0x59, 0xf2, 0x81, 0x5b, 0x16, 0xf8,
    0x17, 0x98,
];

const GEN_Y: [u8; 32] = [
    0x48, 0x3a, 0xda, 0x77, 0x26, 0xa3, 0xc4, 0x65, 0x5d, 0xa4, 0xfb, 0xfc, 0x0e, 0x11, 0x08,
    0xa8, 0xfd, 0x17, 0xb4, 0x48, 0xa6, 0x85, 0x54, 0x19, 0x9c, 0x47, 0xd0, 0x8f, 0xfb, 0x10,
    0xd4, 0xb8,
];

fn one_key() -> [u8; 32] {
    let mut k = [0u8; 32];
    k[31] = 1;
    k
}

fn order_minus_one() -> [u8; 32] {
    let mut k = ORDER;
    k[31] = 0x40;
    k
}

#[test]
fn recover_returns_signer_key() {
    let m = [0x11u8; 32];
    let k = [0x22u8; 32];
    let (r, s, recid) = sign(&m, &k).unwrap();
    let recovered = recover(&m, &r, &s, recid).unwrap();
    let derived = create_public_key(&k).unwrap();
    assert_eq!(recovered, derived);
}

#[test]
fn recover_compact_returns_signer_key() {
    let m = [0x5au8; 32];
    let k = [0x37u8; 32];
    let (sig, recid) = sign_compact(&m, &k).unwrap();
    let recovered = recover_compact(&m, &sig, recid).unwrap();
    let derived = create_public_key(&k).unwrap();
    assert_eq!(recovered, derived);
}

#[test]
fn verify_accepts_own_signature() {
    let m = [0x42u8; 32];
    let k = [0x55u8; 32];
    let (sig, _recid) = sign_compact(&m, &k).unwrap();
    let p = create_public_key(&k).unwrap();
    assert_eq!(verify(&m, &sig, &p), Ok(()));
}

#[test]
fn verify_rejects_other_digest() {
    let m = [0x42u8; 32];
    let other = [0x43u8; 32];
    let k = [0x55u8; 32];
    let (sig, _recid) = sign_compact(&m, &k).unwrap();
    let p = create_public_key(&k).unwrap();
    assert_eq!(verify(&other, &sig, &p), Err(Error::FailedToVerify));
}

#[test]
fn compress_decompress_round_trip() {
    let k = [0x66u8; 32];
    let p = create_public_key(&k).unwrap();
    let c = public_key_compress(&p).unwrap();
    assert_eq!(c.len(), 33);
    assert!(c[0] == 2 || c[0] == 3);
    let d = public_key_decompress(&c).unwrap();
    assert_eq!(d, p);
}

#[test]
fn tweak_add_consistency() {
    let k = [0x22u8; 32];
    let t = [0x33u8; 32];
    let left = create_public_key(&private_key_tweak_add(&k, &t).unwrap()).unwrap();
    let right = public_key_tweak_add(&create_public_key(&k).unwrap(), &t).unwrap();
    assert_eq!(left, right);
}

#[test]
fn tweak_mult_consistency() {
    let k = [0x22u8; 32];
    let t = [0x33u8; 32];
    let left = create_public_key(&private_key_tweak_mult(&k, &t).unwrap()).unwrap();
    let right = public_key_tweak_mult(&create_public_key(&k).unwrap(), &t).unwrap();
    assert_eq!(left, right);
}

#[test]
fn sign_deterministic_on_zero_digest() {
    let m = [0u8; 32];
    let k = one_key();
    let first = sign(&m, &k).unwrap();
    let second = sign(&m, &k).unwrap();
    assert_eq!(first, second);
    assert_eq!(first.0.len(), 32);
    assert_eq!(first.1.len(), 32);
    assert!(first.2 < 4);
}

#[test]
fn sign_compact_is_r_then_s() {
    let m = [0x09u8; 32];
    let k = [0x44u8; 32];
    let (r, s, recid) = sign(&m, &k).unwrap();
    let (sig, recid2) = sign_compact(&m, &k).unwrap();
    assert_eq!(recid, recid2);
    assert_eq!(&sig[0..32], r.as_slice());
    assert_eq!(&sig[32..64], s.as_slice());
}

#[test]
fn create_public_key_of_one_is_generator() {
    let p = create_public_key(&one_key()).unwrap();
    assert_eq!(p.len(), 65);
    assert_eq!(p[0], 4);
    assert_eq!(&p[1..33], &GEN_X);
    assert_eq!(&p[33..65], &GEN_Y);
}

#[test]
fn compressed_generator_has_even_prefix() {
    let p = create_public_key(&one_key()).unwrap();
    let c = public_key_compress(&p).unwrap();
    assert_eq!(c[0], 2);
    assert_eq!(&c[1..33], &GEN_X);
}

#[test]
fn public_tweak_add_to_infinity_fails() {
    // G + (n - 1)G is the point at infinity.
    let p = create_public_key(&one_key()).unwrap();
    assert_eq!(
        public_key_tweak_add(&p, &order_minus_one()),
        Err(Error::TweakFailure)
    );
}

#[test]
fn private_tweak_add_to_zero_fails() {
    assert_eq!(
        private_key_tweak_add(&one_key(), &order_minus_one()),
        Err(Error::TweakFailure)
    );
}

#[test]
fn private_tweak_add_one_plus_one() {
    let mut two = [0u8; 32];
    two[31] = 2;
    assert_eq!(private_key_tweak_add(&one_key(), &one_key()).unwrap(), two);
}

#[test]
fn private_tweak_mult_by_one_is_identity() {
    let t = [0x71u8; 32];
    assert_eq!(private_key_tweak_mult(&one_key(), &t).unwrap(), t);
}

#[test]
fn public_tweak_mult_by_one_is_identity() {
    let p = create_public_key(&[0x29u8; 32]).unwrap();
    assert_eq!(public_key_tweak_mult(&p, &one_key()).unwrap(), p);
}

#[test]
fn recover_zero_r_is_recovery_failure() {
    let m = [0x13u8; 32];
    let zero = [0u8; 32];
    let s = one_key();
    assert_eq!(recover(&m, &zero, &s, 0), Err(Error::RecoveryFailure));
}
