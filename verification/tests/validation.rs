use exsecp256k1::errors::Error;
use exsecp256k1::ops::{
    create_public_key, private_key_tweak_add, public_key_compress, public_key_decompress,
    public_key_tweak_add, recover, recover_compact, sign, verify,
};

const ORDER: [u8; 32] = [
    0xff, 0xff, 0xff, 0xff, 0xff, 0xff, 0xff, 0xff, 0xff, 0xff, 0xff, 0xff, 0xff, 0xff, 0xff,
    0xfe, 0xba, 0xae, 0xdc, 0xe6, 0xaf, 0x48, 0xa0, 0x3b, 0xbf, 0xd2, 0x5e, 0x8c, 0xd0, 0x36,
    0x41, 0x41,
];

fn one_key() -> [u8; 32] {
    let mut k = [0u8; 32];
    k[31] = 1;
    k
}

fn order_minus_one() -> [u8; 32] {
    let mut k = ORDER;
    k[31] = 0x40;
    k
}

#[test]
fn zero_private_key_is_invalid() {
    let m = [0x01u8; 32];
    assert_eq!(sign(&m, &[0u8; 32]), Err(Error::InvalidPrivateKey));
}

#[test]
fn order_private_key_is_invalid() {
    let m = [0x01u8; 32];
    assert_eq!(sign(&m, &ORDER), Err(Error::InvalidPrivateKey));
}

#[test]
fn order_minus_one_private_key_is_accepted() {
    assert!(create_public_key(&order_minus_one()).is_ok());
    let m = [0x01u8; 32];
    assert!(sign(&m, &order_minus_one()).is_ok());
}

#[test]
fn decoding_same_malformed_input_twice_gives_same_error() {
    let short_message = [0x10u8; 31];
    let k = [0x22u8; 32];
    let first = sign(&short_message, &k);
    let second = sign(&short_message, &k);
    assert_eq!(first, second);
    assert_eq!(first, Err(Error::WrongMessageSize));

    let bad_key = ORDER;
    let m = [0x10u8; 32];
    let third = sign(&m, &bad_key);
    let fourth = sign(&m, &bad_key);
    assert_eq!(third, fourth);
    assert_eq!(third, Err(Error::InvalidPrivateKey));
}

#[test]
fn recover_compact_with_63_bytes_is_wrong_signature_size() {
    let m = [0x01u8; 32];
    let sig = [0u8; 63];
    assert_eq!(recover_compact(&m, &sig, 0), Err(Error::WrongSignatureSize));
}

#[test]
fn decompress_with_uncompressed_prefix_is_invalid_public_key() {
    let mut c = [0x01u8; 33];
    c[0] = 4;
    assert_eq!(public_key_decompress(&c), Err(Error::InvalidPublicKey));
}

#[test]
fn decompress_with_wrong_length_is_wrong_size() {
    let c = [0x02u8; 32];
    assert_eq!(public_key_decompress(&c), Err(Error::WrongPublicKeySize));
}

#[test]
fn recovery_id_four_is_invalid() {
    let m = [0x11u8; 32];
    let k = [0x22u8; 32];
    let (r, s, _recid) = sign(&m, &k).unwrap();
    assert_eq!(recover(&m, &r, &s, 4), Err(Error::InvalidRecoveryId));
}

#[test]
fn recover_rejects_out_of_range_r_and_s() {
    let m = [0x11u8; 32];
    let good = one_key();
    assert_eq!(recover(&m, &ORDER, &good, 0), Err(Error::InvalidR));
    assert_eq!(recover(&m, &good, &ORDER, 0), Err(Error::InvalidS));
    assert_eq!(recover(&m, &[0u8; 31], &good, 0), Err(Error::InvalidR));
}

#[test]
fn verify_error_ladder() {
    let k = [0x55u8; 32];
    let m = [0x42u8; 32];
    let p = create_public_key(&k).unwrap();
    let (sig, _recid) = exsecp256k1::ops::sign_compact(&m, &k).unwrap();

    assert_eq!(
        verify(&[0u8; 31], &sig, &p),
        Err(Error::WrongMessageSize)
    );
    assert_eq!(verify(&m, &[0u8; 63], &p), Err(Error::WrongSignatureSize));

    let mut overflowing = [0u8; 64];
    overflowing[..32].copy_from_slice(&ORDER);
    overflowing[32..].copy_from_slice(&one_key());
    assert_eq!(verify(&m, &overflowing, &p), Err(Error::InvalidSignature));

    assert_eq!(verify(&m, &sig, &[0u8; 64]), Err(Error::WrongPublicKeySize));

    let mut bad_tag = [0u8; 65];
    bad_tag.copy_from_slice(&p);
    bad_tag[0] = 5;
    assert_eq!(verify(&m, &sig, &bad_tag), Err(Error::InvalidPublicKey));
}

#[test]
fn public_key_parse_rejects_point_off_curve() {
    // Tag 0x04 but x = y = 1 is not on the curve.
    let mut q = [0x00u8; 65];
    q[0] = 4;
    q[32] = 1;
    q[64] = 1;
    assert_eq!(public_key_compress(&q), Err(Error::InvalidPublicKey));
}

#[test]
fn tweak_size_and_content_errors() {
    let p = create_public_key(&[0x22u8; 32]).unwrap();
    assert_eq!(
        public_key_tweak_add(&p, &[0x33u8; 31]),
        Err(Error::WrongTweakKeySize)
    );
    assert_eq!(
        public_key_tweak_add(&p, &[0u8; 32]),
        Err(Error::InvalidPrivateKey)
    );
    assert_eq!(
        private_key_tweak_add(&[0x22u8; 32], &[0x33u8; 31]),
        Err(Error::WrongTweakKeySize)
    );
    assert_eq!(
        private_key_tweak_add(&[0x22u8; 31], &[0x33u8; 32]),
        Err(Error::WrongPrivateKeySize)
    );
}

#[test]
fn sign_wrong_private_key_size() {
    let m = [0x01u8; 32];
    assert_eq!(sign(&m, &[0x22u8; 33]), Err(Error::WrongPrivateKeySize));
}
