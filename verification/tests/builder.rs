use uuid::Builder;
use uuid::Error;
use uuid::Uuid;
use uuid::Variant;
use uuid::Version;

fn hyphenated(bytes: &[u8; 16]) -> String {
    let mut s = String::new();
    for (i, b) in bytes.iter().enumerate() {
        if i == 4 || i == 6 || i == 8 || i == 10 {
            s.push('-');
        }
        s.push_str(&format!("{:02x}", b));
    }
    s
}

#[test]
fn nil_is_all_zero() {
    assert_eq!(Uuid::nil().as_bytes(), &[0u8; 16]);
    assert_eq!(
        hyphenated(Uuid::nil().as_bytes()),
        "00000000-0000-0000-0000-000000000000"
    );
}

#[test]
fn builder_nil_is_all_zero() {
    let mut builder = Builder::nil();
    assert_eq!(builder.build().as_bytes(), &[0u8; 16]);
}

#[test]
fn from_bytes_keeps_bytes_verbatim() {
    let bytes: [u8; 16] = [4, 54, 67, 12, 43, 2, 98, 76, 32, 50, 87, 5, 1, 33, 43, 87];
    let uuid = Uuid::from_bytes(bytes);
    assert_eq!(uuid.as_bytes(), &bytes);
    assert_eq!(hyphenated(uuid.as_bytes()), "0436430c-2b02-624c-2032-570501212b57");
}

#[test]
fn from_slice_agrees_with_from_bytes() {
    let bytes: [u8; 16] = [70, 235, 208, 238, 14, 109, 67, 201, 185, 13, 204, 195, 90, 145, 63, 62];
    let from_slice = Uuid::from_slice(&bytes).unwrap();
    let from_bytes = Uuid::from_bytes(bytes);
    assert_eq!(from_slice, from_bytes);
    assert_eq!(from_slice.as_bytes(), from_bytes.as_bytes());
}

#[test]
fn from_slice_rejects_boundary_lengths() {
    for len in [0usize, 1, 15, 17] {
        let bytes = vec![7u8; len];
        let err = Uuid::from_slice(&bytes).unwrap_err();
        assert_eq!(err, Error { expected: 16, actual: len });
        let err = Builder::from_slice(&bytes).unwrap_err();
        assert_eq!(err, Error { expected: 16, actual: len });
    }
}

#[test]
fn from_slice_accepts_exact_length() {
    let bytes = vec![9u8; 16];
    assert!(Uuid::from_slice(&bytes).is_ok());
    assert!(Builder::from_slice(&bytes).is_ok());
}

#[test]
fn from_fields_packs_big_endian() {
    let d4: [u8; 8] = [12, 3, 9, 56, 54, 43, 8, 9];
    let uuid = Uuid::from_fields(0xAB3F1097, 0x501E, 0xB736, &d4);
    assert_eq!(
        uuid.as_bytes(),
        &[0xab, 0x3f, 0x10, 0x97, 0x50, 0x1e, 0xb7, 0x36, 12, 3, 9, 56, 54, 43, 8, 9]
    );
    assert_eq!(hyphenated(uuid.as_bytes()), "ab3f1097-501e-b736-0c03-0938362b0809");
}

#[test]
fn from_fields_le_swaps_each_numeric_field() {
    let d4: [u8; 8] = [12, 3, 9, 56, 54, 43, 8, 9];
    let uuid = Uuid::from_fields_le(0xAB3F1097, 0x501E, 0xB736, &d4);
    assert_eq!(hyphenated(uuid.as_bytes()), "97103fab-1e50-36b7-0c03-0938362b0809");
}

#[test]
fn fields_le_equals_fields_of_swapped() {
    let d1: u32 = 0xAB3F1097;
    let d2: u16 = 0x501E;
    let d3: u16 = 0xB736;
    let d4: [u8; 8] = [12, 3, 9, 56, 54, 43, 8, 9];
    let le = Uuid::from_fields_le(d1, d2, d3, &d4);
    let be_of_swapped = Uuid::from_fields(d1.swap_bytes(), d2.swap_bytes(), d3.swap_bytes(), &d4);
    assert_eq!(le, be_of_swapped);
}

#[test]
fn from_u128_packs_big_endian() {
    let v = 0xa1a2a3a4b1b2c1c2d1d2d3d4d5d6d7d8u128;
    let uuid = Uuid::from_u128(v);
    assert_eq!(hyphenated(uuid.as_bytes()), "a1a2a3a4-b1b2-c1c2-d1d2-d3d4d5d6d7d8");
}

#[test]
fn from_u128_round_trips_through_bytes() {
    for v in [
        0u128,
        1,
        0xa1a2a3a4b1b2c1c2d1d2d3d4d5d6d7d8,
        u128::MAX,
        0x00ff00ff00ff00ff00ff00ff00ff00ff,
    ] {
        let uuid = Uuid::from_u128(v);
        let mut back: u128 = 0;
        for b in uuid.as_bytes() {
            back = (back << 8) | (*b as u128);
        }
        assert_eq!(back, v);
    }
}

#[test]
fn from_u128_le_reverses_full_byte_order() {
    for v in [0u128, 7, 0xd8d7d6d5d4d3d2d1c2c1b2b1a4a3a2a1, u128::MAX - 4] {
        let le = Uuid::from_u128_le(v);
        let mut reversed = *Uuid::from_u128(v).as_bytes();
        reversed.reverse();
        assert_eq!(le.as_bytes(), &reversed);
    }
    assert_eq!(
        hyphenated(Uuid::from_u128_le(0xd8d7d6d5d4d3d2d1c2c1b2b1a4a3a2a1).as_bytes()),
        "a1a2a3a4-b1b2-c1c2-d1d2-d3d4d5d6d7d8"
    );
}

#[test]
fn from_u64_pair_packs_both_halves_big_endian() {
    let hi = 0xa1a2a3a4b1b2c1c2u64;
    let lo = 0xd1d2d3d4d5d6d7d8u64;
    let uuid = Uuid::from_u64_pair(hi, lo);
    assert_eq!(hyphenated(uuid.as_bytes()), "a1a2a3a4-b1b2-c1c2-d1d2-d3d4d5d6d7d8");
}

#[test]
fn builder_constructors_match_value_constructors() {
    let bytes: [u8; 16] = [70, 235, 208, 238, 14, 109, 67, 201, 185, 13, 204, 195, 90, 145, 63, 62];
    let mut builder = Builder::from_bytes(bytes);
    assert_eq!(builder.build(), Uuid::from_bytes(bytes));

    let d4: [u8; 8] = [12, 3, 9, 56, 54, 43, 8, 9];
    assert_eq!(
        Builder::from_fields(0xAB3F1097, 0x501E, 0xB736, &d4).into_uuid(),
        Uuid::from_fields(0xAB3F1097, 0x501E, 0xB736, &d4)
    );
    assert_eq!(
        Builder::from_fields_le(0xAB3F1097, 0x501E, 0xB736, &d4).into_uuid(),
        Uuid::from_fields_le(0xAB3F1097, 0x501E, 0xB736, &d4)
    );
    let v = 0xa1a2a3a4b1b2c1c2d1d2d3d4d5d6d7d8u128;
    assert_eq!(Builder::from_u128(v).into_uuid(), Uuid::from_u128(v));
}

#[test]
fn rfc4122_variant_rewrites_byte_8() {
    let mut bytes = [0u8; 16];
    bytes[8] = 0x3e;
    let mut builder = Builder::from_bytes(bytes);
    builder.set_variant(Variant::RFC4122);
    assert_eq!(builder.build().as_bytes()[8], 0xbe);
}

#[test]
fn each_variant_packs_its_tag_pattern() {
    let mut bytes = [0u8; 16];
    bytes[8] = 0xff;
    assert_eq!(
        Builder::from_bytes(bytes).with_variant(Variant::NCS).into_uuid().as_bytes()[8],
        0x7f
    );
    assert_eq!(
        Builder::from_bytes(bytes).with_variant(Variant::RFC4122).into_uuid().as_bytes()[8],
        0xbf
    );
    assert_eq!(
        Builder::from_bytes(bytes).with_variant(Variant::Microsoft).into_uuid().as_bytes()[8],
        0xdf
    );
    assert_eq!(
        Builder::from_bytes(bytes).with_variant(Variant::Future).into_uuid().as_bytes()[8],
        0xff
    );
}

#[test]
fn set_variant_twice_equals_once() {
    let mut bytes = [0u8; 16];
    bytes[8] = 0x3e;
    let mut once = Builder::from_bytes(bytes);
    once.set_variant(Variant::RFC4122);
    let mut twice = Builder::from_bytes(bytes);
    twice.set_variant(Variant::RFC4122);
    twice.set_variant(Variant::RFC4122);
    assert_eq!(once.build(), twice.build());
    assert_eq!(once.build().as_bytes()[8], 0xbe);
}

#[test]
fn set_version_writes_high_nibble_of_byte_6() {
    let mut bytes = [0u8; 16];
    bytes[6] = 0xaf;
    let mut builder = Builder::from_bytes(bytes);
    builder.set_version(Version::Random);
    assert_eq!(builder.build().as_bytes()[6], 0x4f);
    builder.set_version(Version::Md5);
    assert_eq!(builder.build().as_bytes()[6], 0x3f);
    builder.set_version(Version::Nil);
    assert_eq!(builder.build().as_bytes()[6], 0x0f);
    builder.set_version(Version::Mac);
    assert_eq!(builder.build().as_bytes()[6], 0x1f);
    builder.set_version(Version::Dce);
    assert_eq!(builder.build().as_bytes()[6], 0x2f);
    builder.set_version(Version::Sha1);
    assert_eq!(builder.build().as_bytes()[6], 0x5f);
}

#[test]
fn variant_and_version_commute() {
    let bytes: [u8; 16] = [70, 235, 208, 238, 14, 109, 67, 201, 185, 13, 204, 195, 90, 145, 63, 62];
    for variant in [Variant::NCS, Variant::RFC4122, Variant::Microsoft, Variant::Future] {
        for version in [Version::Nil, Version::Mac, Version::Dce, Version::Md5, Version::Random, Version::Sha1] {
            let mut variant_first = Builder::from_bytes(bytes);
            variant_first.set_variant(variant);
            variant_first.set_version(version);
            let mut version_first = Builder::from_bytes(bytes);
            version_first.set_version(version);
            version_first.set_variant(variant);
            assert_eq!(variant_first.build(), version_first.build());
        }
    }
}

#[test]
fn with_forms_match_set_forms() {
    let bytes: [u8; 16] = [70, 235, 208, 238, 14, 109, 67, 201, 185, 13, 204, 195, 90, 145, 63, 62];
    let chained = Builder::from_bytes(bytes)
        .with_variant(Variant::RFC4122)
        .with_version(Version::Random)
        .into_uuid();
    let mut stepped = Builder::from_bytes(bytes);
    stepped.set_variant(Variant::RFC4122);
    stepped.set_version(Version::Random);
    assert_eq!(chained, stepped.build());
}

#[test]
fn build_leaves_builder_reusable() {
    let bytes: [u8; 16] = [4, 54, 67, 12, 43, 2, 98, 76, 32, 50, 87, 5, 1, 33, 43, 87];
    let mut builder = Builder::from_bytes(bytes);
    let first = builder.build();
    builder.set_variant(Variant::RFC4122);
    let second = builder.build();
    assert_eq!(first.as_bytes(), &bytes);
    assert_eq!(second.as_bytes()[8], (bytes[8] & 0x3f) | 0x80);
    assert_eq!(builder.into_uuid(), second);
}

#[test]
fn version_number_matches_rfc_table() {
    assert_eq!(Version::Nil.number(), 0);
    assert_eq!(Version::Mac.number(), 1);
    assert_eq!(Version::Dce.number(), 2);
    assert_eq!(Version::Md5.number(), 3);
    assert_eq!(Version::Random.number(), 4);
    assert_eq!(Version::Sha1.number(), 5);
}
