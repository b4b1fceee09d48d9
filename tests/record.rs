use an_mpid::keys::{bytes_equal, concat_bytes, to_array_32, to_array_64};
use an_mpid::{
    AnMpid, DecodeError, NameType, PublicEncryptionKey, PublicSigningKey, RecordFields,
    SecretEncryptionKey, SecretSigningKey, SizeMismatch, AN_MPID_TAG, AN_MPID_TYPE_TAG,
};
use sodiumoxide::crypto::{box_, sign};

fn random_name() -> NameType {
    let mut n = [0u8; 64];
    sodiumoxide::randombytes::randombytes_into(&mut n);
    NameType(n)
}

fn generate_random() -> AnMpid {
    let (sign_pub, sign_sec) = sign::gen_keypair();
    let (box_pub, box_sec) = box_::gen_keypair();
    AnMpid::new(
        (PublicSigningKey(sign_pub.0), PublicEncryptionKey(box_pub.0)),
        (SecretSigningKey(sign_sec.0), SecretEncryptionKey(box_sec.0)),
        random_name(),
    )
}

fn fixed_record(name: u8) -> AnMpid {
    AnMpid::new(
        (PublicSigningKey([1u8; 32]), PublicEncryptionKey([2u8; 32])),
        (SecretSigningKey([3u8; 64]), SecretEncryptionKey([4u8; 32])),
        NameType([name; 64]),
    )
}

fn malformed(r: Result<AnMpid, DecodeError>) -> Vec<SizeMismatch> {
    match r {
        Ok(_) => panic!("decoded a malformed record"),
        Err(DecodeError::MalformedRecord(v)) => v,
    }
}

#[test]
fn dummy() {}

#[test]
fn serialisation_an_mpid() {
    let obj_before = generate_random();
    let fields = obj_before.encode();
    let obj_after = AnMpid::decode(&fields).unwrap();
    assert_eq!(obj_before, obj_after);
}

#[test]
fn equality_assertion_an_mpid() {
    let an_mpid_first = generate_random();
    let an_mpid_second = an_mpid_first.clone();
    let an_mpid_third = generate_random();
    assert_eq!(an_mpid_first, an_mpid_second);
    assert!(an_mpid_first != an_mpid_third);
}

#[test]
fn round_trip_keeps_every_byte() {
    let before = generate_random();
    let after = AnMpid::decode(&before.encode()).unwrap();
    assert_eq!(before.get_public_keys().0 .0, after.get_public_keys().0 .0);
    assert_eq!(before.get_public_keys().1 .0, after.get_public_keys().1 .0);
    assert_eq!(before.get_secret_keys().0 .0, after.get_secret_keys().0 .0);
    assert_eq!(before.get_secret_keys().1 .0, after.get_secret_keys().1 .0);
    assert_eq!(before.get_name(), after.get_name());
}

#[test]
fn encode_writes_fields_in_wire_order() {
    let f = fixed_record(9).encode();
    assert_eq!(f.tag, 5483001);
    assert_eq!(f.tag, AN_MPID_TAG);
    assert_eq!(f.sign_public, vec![1u8; 32]);
    assert_eq!(f.box_public, vec![2u8; 32]);
    assert_eq!(f.sign_secret, vec![3u8; 64]);
    assert_eq!(f.box_secret, vec![4u8; 32]);
    assert_eq!(f.name, vec![9u8; 64]);
}

#[test]
fn decode_ignores_the_tag() {
    let mut f = fixed_record(9).encode();
    f.tag = 7;
    let r = AnMpid::decode(&f).unwrap();
    assert_eq!(r.get_name().0, [9u8; 64]);
    assert_eq!(r, fixed_record(9));
}

#[test]
fn address_has_exact_value() {
    let expected: [u8; 64] = [
        252, 146, 26, 150, 10, 152, 103, 40, 58, 105, 88, 251, 239, 78, 93, 137, 18, 61, 211,
        210, 135, 115, 239, 115, 51, 157, 10, 65, 178, 121, 107, 55, 188, 63, 219, 142, 228, 191,
        17, 18, 188, 210, 44, 76, 184, 131, 144, 157, 12, 61, 30, 104, 24, 70, 41, 194, 114, 240,
        84, 91, 85, 68, 77, 0,
    ];
    assert_eq!(fixed_record(5).name().0, expected);
}

#[test]
fn address_same_for_same_public_keys() {
    let a = fixed_record(1);
    let b = AnMpid::new(
        (PublicSigningKey([1u8; 32]), PublicEncryptionKey([2u8; 32])),
        (SecretSigningKey([7u8; 64]), SecretEncryptionKey([8u8; 32])),
        NameType([200u8; 64]),
    );
    assert_eq!(a.name(), b.name());
    assert_eq!(a.name(), a.name());
}

#[test]
fn address_changes_with_any_public_byte() {
    let base = fixed_record(1).name();
    for i in 0..32 {
        let mut sp = [1u8; 32];
        sp[i] ^= 1;
        let r = AnMpid::new(
            (PublicSigningKey(sp), PublicEncryptionKey([2u8; 32])),
            (SecretSigningKey([3u8; 64]), SecretEncryptionKey([4u8; 32])),
            NameType([1u8; 64]),
        );
        assert_ne!(r.name(), base);
        let mut bp = [2u8; 32];
        bp[i] ^= 0x80;
        let r = AnMpid::new(
            (PublicSigningKey([1u8; 32]), PublicEncryptionKey(bp)),
            (SecretSigningKey([3u8; 64]), SecretEncryptionKey([4u8; 32])),
            NameType([1u8; 64]),
        );
        assert_ne!(r.name(), base);
    }
}

#[test]
fn address_is_not_the_public_keys() {
    let a = fixed_record(1).name().0;
    let mut raw = [1u8; 64];
    raw[32..].copy_from_slice(&[2u8; 32]);
    assert_ne!(a, raw);
}

#[test]
fn equality_ignores_name_and_secrets() {
    let a = fixed_record(1);
    let b = fixed_record(2);
    assert_eq!(a, b);
    let c = AnMpid::new(
        (PublicSigningKey([1u8; 32]), PublicEncryptionKey([2u8; 32])),
        (SecretSigningKey([0u8; 64]), SecretEncryptionKey([0u8; 32])),
        NameType([1u8; 64]),
    );
    assert_eq!(a, c);
}

#[test]
fn equality_needs_both_public_keys() {
    let a = fixed_record(1);
    let other_sign = AnMpid::new(
        (PublicSigningKey([9u8; 32]), PublicEncryptionKey([2u8; 32])),
        (SecretSigningKey([3u8; 64]), SecretEncryptionKey([4u8; 32])),
        NameType([1u8; 64]),
    );
    let other_box = AnMpid::new(
        (PublicSigningKey([1u8; 32]), PublicEncryptionKey([9u8; 32])),
        (SecretSigningKey([3u8; 64]), SecretEncryptionKey([4u8; 32])),
        NameType([1u8; 64]),
    );
    assert!(a != other_sign);
    assert!(a != other_box);
}

#[test]
fn truncated_secret_key_is_rejected() {
    let mut f = generate_random().encode();
    f.sign_secret.pop();
    let v = malformed(AnMpid::decode(&f));
    assert_eq!(v, vec![SizeMismatch { expected: 64, actual: 63 }]);
}

#[test]
fn every_mismatch_is_reported_in_order() {
    let f = RecordFields {
        tag: AN_MPID_TAG,
        sign_public: vec![0u8; 31],
        box_public: vec![0u8; 32],
        sign_secret: vec![0u8; 65],
        box_secret: vec![],
        name: vec![0u8; 63],
    };
    let v = malformed(AnMpid::decode(&f));
    assert_eq!(
        v,
        vec![
            SizeMismatch { expected: 32, actual: 31 },
            SizeMismatch { expected: 64, actual: 65 },
            SizeMismatch { expected: 32, actual: 0 },
            SizeMismatch { expected: 64, actual: 63 },
        ]
    );
}

#[test]
fn wrong_public_encryption_key_length_is_rejected() {
    let mut f = fixed_record(1).encode();
    f.box_public.push(0);
    let v = malformed(AnMpid::decode(&f));
    assert_eq!(v, vec![SizeMismatch { expected: 32, actual: 33 }]);
}

#[test]
fn clone_is_independent() {
    let first = fixed_record(1);
    let copy = first.clone();
    let mut fields = copy.encode();
    fields.sign_secret = vec![0u8; 64];
    fields.name = vec![0u8; 64];
    let replaced = AnMpid::decode(&fields).unwrap();
    assert_eq!(replaced.get_secret_keys().0 .0, [0u8; 64]);
    assert_eq!(first.get_secret_keys().0 .0, [3u8; 64]);
    assert_eq!(copy.get_secret_keys().0 .0, [3u8; 64]);
    assert_eq!(first.get_name().0, [1u8; 64]);
}

#[test]
fn sendable_accessors() {
    let r = fixed_record(4);
    assert_eq!(r.type_tag(), 103);
    assert_eq!(r.type_tag(), AN_MPID_TYPE_TAG);
    assert_eq!(r.owner(), Some(NameType([4u8; 64])));
}

#[test]
fn fixed_conversions() {
    assert_eq!(to_array_32(&[5u8; 32]), Ok([5u8; 32]));
    assert_eq!(to_array_32(&[5u8; 33]), Err(SizeMismatch { expected: 32, actual: 33 }));
    assert_eq!(to_array_64(&[6u8; 64]), Ok([6u8; 64]));
    assert_eq!(to_array_64(&[]), Err(SizeMismatch { expected: 64, actual: 0 }));
}

#[test]
fn byte_helpers() {
    assert!(bytes_equal(&[1, 2, 3], &[1, 2, 3]));
    assert!(!bytes_equal(&[1, 2, 3], &[1, 2, 4]));
    assert!(!bytes_equal(&[1, 2], &[1, 2, 3]));
    assert_eq!(concat_bytes(&[1, 2], &[3]), vec![1, 2, 3]);
    assert_eq!(concat_bytes(&[], &[]), Vec::<u8>::new());
}
