use unik::{Layout, Node, Variant, Version, UUID};

const SAMPLE: [u8; 16] = [
    0xab, 0x72, 0x02, 0x68, 0xb8, 0x3f, 0x11, 0xec, 0xb9, 0x09, 0x02, 0x42, 0xac, 0x12, 0x00, 0x02,
];

#[test]
fn parse_string() {
    let cols = [
        ("ab720268-b83f-11ec-b909-0242ac120002", Version::TIME),
        ("000003e8-c22b-21ec-bd01-d4bed9408ecc", Version::DCE),
        ("2448bd95-00ca-3650-160f-3301a691b26c", Version::MD5),
        ("6a665038-24cf-4cf6-9b61-05f0c2fc6c08", Version::RAND),
        ("991da866-83b0-5550-1bef-37a1a5b1fb30", Version::SHA1),
    ];

    for item in cols {
        assert_eq!(UUID::from_str(item.0).unwrap().get_version(), Ok(item.1));
        assert_eq!(
            UUID::from_str(item.0).unwrap().get_variant(),
            Ok(Variant::RFC4122)
        );
    }
}

#[test]
fn parse_reads_every_field() {
    assert_eq!(
        UUID::from_str("ab720268-b83f-11ec-b909-0242ac120002"),
        Ok(Layout {
            field_low: 0xab72_0268,
            field_mid: 0xb83f,
            field_high_and_version: 0x11ec,
            clock_seq_high_and_reserved: 0x89,
            clock_seq_low: 0x09,
            node: Node([0x02, 0x42, 0xac, 0x12, 0x00, 0x02]),
        })
    );
}

#[test]
fn parse_reads_the_last_byte() {
    let a = UUID::from_str("000000000000000000000000000000ff").unwrap();
    let b = UUID::from_str("00000000000000000000000000000000").unwrap();
    assert_eq!(a.node, Node([0, 0, 0, 0, 0, 0xff]));
    assert_eq!(b.node, Node([0; 6]));
}

#[test]
fn parse_compact_form() {
    assert_eq!(
        UUID::from_str("ab720268b83f11ecb9090242ac120002"),
        UUID::from_str("ab720268-b83f-11ec-b909-0242ac120002")
    );
    assert_eq!(
        UUID::from_str("ab720268b83f11ecb9090242ac120002").unwrap().generate(),
        UUID([
            0xab, 0x72, 0x02, 0x68, 0xb8, 0x3f, 0x11, 0xec, 0x89, 0x09, 0x02, 0x42, 0xac, 0x12,
            0x00, 0x02
        ])
    );
}

#[test]
fn parse_is_case_insensitive() {
    assert_eq!(
        UUID::from_str("AB720268-B83F-11EC-B909-0242AC120002"),
        UUID::from_str("ab720268-b83f-11ec-b909-0242ac120002")
    );
    assert_eq!(
        UUID::from_str("aB720268b83F11ecB9090242Ac120002"),
        UUID::from_str("ab720268-b83f-11ec-b909-0242ac120002")
    );
}

#[test]
fn parse_forces_the_variant() {
    for (text, byte) in [
        ("00000000-0000-1000-0000-000000000000", 0x80u8),
        ("00000000-0000-1000-7f00-000000000000", 0x8f),
        ("00000000-0000-1000-c500-000000000000", 0x85),
        ("00000000-0000-1000-ff00-000000000000", 0x8f),
        ("00000000-0000-1000-9a00-000000000000", 0x8a),
    ] {
        let layout = UUID::from_str(text).unwrap();
        assert_eq!(layout.clock_seq_high_and_reserved, byte);
        assert_eq!(layout.get_variant(), Ok(Variant::RFC4122));
    }
}

#[test]
fn parse_keeps_an_unrecognized_version() {
    let layout = UUID::from_str("00000000-0000-0000-8000-000000000000").unwrap();
    assert_eq!(layout.get_version(), Err("Invalid version"));
    let layout = UUID::from_str("00000000-0000-f000-8000-000000000000").unwrap();
    assert_eq!(layout.get_version(), Err("Invalid version"));
}

#[test]
fn parse_rejects_other_lengths() {
    assert_eq!(UUID::from_str(""), Err("Invalid UUID string"));
    assert_eq!(
        UUID::from_str("ab720268b83f11ecb9090242ac12000"),
        Err("Invalid UUID string")
    );
    assert_eq!(
        UUID::from_str("ab720268b83f11ecb9090242ac1200021"),
        Err("Invalid UUID string")
    );
    assert_eq!(
        UUID::from_str("ab720268-b83f-11ec-b909-0242ac12000"),
        Err("Invalid UUID string")
    );
    assert_eq!(
        UUID::from_str("ab720268-b83f-11ec-b909-0242ac1200021"),
        Err("Invalid UUID string")
    );
}

#[test]
fn parse_rejects_non_hex() {
    assert_eq!(
        UUID::from_str("zz720268-b83f-11ec-b909-0242ac120002"),
        Err("Invalid UUID string")
    );
    assert_eq!(
        UUID::from_str("ab720268b83f11ecb9090242ac12000g"),
        Err("Invalid UUID string")
    );
    assert_eq!(
        UUID::from_str("ab720268b83f11ecb9090242ac12000G"),
        Err("Invalid UUID string")
    );
    assert_eq!(
        UUID::from_str("+b720268b83f11ecb9090242ac120002"),
        Err("Invalid UUID string")
    );
    assert_eq!(
        UUID::from_str("ab720268b83f11ecb9090242ac1200/:"),
        Err("Invalid UUID string")
    );
    assert_eq!(
        UUID::from_str("ab720268b83f11ecb9090242ac1200@`"),
        Err("Invalid UUID string")
    );
}

#[test]
fn parse_rejects_non_ascii() {
    // thirty hexadecimal digits and one two-byte character: 32 bytes
    assert_eq!(
        UUID::from_str("ab720268b83f11ecb9090242ac1200\u{e9}"),
        Err("Invalid UUID string")
    );
    // 36 bytes with hyphens, one digit replaced by a three-byte character
    assert_eq!(
        UUID::from_str("ab720268-b83f-11ec-b909-0242ac120\u{20ac}"),
        Err("Invalid UUID string")
    );
}

#[test]
fn parse_ignores_whitespace_only_beside_a_hyphen() {
    // four separators among 36 bytes, at least one a hyphen
    assert_eq!(
        UUID::from_str("ab720268 b83f\t11ec\nb909-0242ac120002"),
        UUID::from_str("ab720268-b83f-11ec-b909-0242ac120002")
    );
    assert_eq!(
        UUID::from_str("-ab720268b83f11ecb9090242ac120002\r\x0c "),
        UUID::from_str("ab720268-b83f-11ec-b909-0242ac120002")
    );
    // no hyphen: whitespace is not dropped
    assert_eq!(
        UUID::from_str("ab720268 b83f 11ec b909 0242ac120002"),
        Err("Invalid UUID string")
    );
    assert_eq!(
        UUID::from_str("ab720268b83f11ecb9090242ac12000 "),
        Err("Invalid UUID string")
    );
    // a vertical tab is no ASCII whitespace
    assert_eq!(
        UUID::from_str("ab720268-b83f-11ec-b909\x0b0242ac120002"),
        Err("Invalid UUID string")
    );
}

#[test]
fn parse_rejects_too_few_or_too_many_digits() {
    // 32 bytes, but a hyphen among them leaves fewer than 32 digits
    assert_eq!(
        UUID::from_str("ab720268-b83f11ecb9090242ac12000"),
        Err("Invalid UUID string")
    );
    assert_eq!(
        UUID::from_str("--------------------------------"),
        Err("Invalid UUID string")
    );
    // 36 bytes with three separators: 33 digits
    assert_eq!(
        UUID::from_str("ab720268-b83f-11ec-b9090242ac1200021"),
        Err("Invalid UUID string")
    );
    // 36 bytes with five separators: 31 digits
    assert_eq!(
        UUID::from_str("ab720268-b83f-11ec-b909-0242-ac12000"),
        Err("Invalid UUID string")
    );
    // 36 hexadecimal digits
    assert_eq!(
        UUID::from_str("ab720268b83f11ecb9090242ac1200020000"),
        Err("Invalid UUID string")
    );
}

#[test]
fn format_compact() {
    assert_eq!(UUID(SAMPLE).to_string(), "ab720268b83f11ecb9090242ac120002");
    assert_eq!(UUID::default().to_string(), "00000000000000000000000000000000");
    assert_eq!(UUID([0xff; 16]).to_string(), "ffffffffffffffffffffffffffffffff");
}

#[test]
fn format_lower_hex() {
    assert_eq!(UUID(SAMPLE).to_lower_hex(), "ab720268-b83f-11ec-b909-0242ac120002");
    assert_eq!(
        UUID(UUID::NAMESPACE_DNS).to_lower_hex(),
        "6ba7b810-9dad-11d1-80b4-00c04fd430c8"
    );
    assert_eq!(
        UUID([0x01, 0x23, 0x45, 0x67, 0x89, 0xab, 0xcd, 0xef, 0x0f, 0xf0, 0x9a, 0xa9, 0x10, 0x0a, 0xfe, 0xdc])
            .to_lower_hex(),
        "01234567-89ab-cdef-0ff0-9aa9100afedc"
    );
}

#[test]
fn format_upper_hex() {
    assert_eq!(UUID(SAMPLE).to_upper_hex(), "AB720268-B83F-11EC-B909-0242AC120002");
    assert_eq!(
        UUID([0x01, 0x23, 0x45, 0x67, 0x89, 0xab, 0xcd, 0xef, 0x0f, 0xf0, 0x9a, 0xa9, 0x10, 0x0a, 0xfe, 0xdc])
            .to_upper_hex(),
        "01234567-89AB-CDEF-0FF0-9AA9100AFEDC"
    );
}

#[test]
fn parse_after_format_gives_the_stamped_layout() {
    let mut bytes = [0u8; 16];
    for round in 0..=255u8 {
        for (i, b) in bytes.iter_mut().enumerate() {
            *b = round.wrapping_mul(29).wrapping_add((i as u8).wrapping_mul(13));
        }
        let uuid = UUID(bytes);
        let expected = Ok(Layout::from_bytes(bytes).with_rfc4122());
        assert_eq!(UUID::from_str(&uuid.to_lower_hex()), expected);
        assert_eq!(UUID::from_str(&uuid.to_upper_hex()), expected);
        assert_eq!(UUID::from_str(&uuid.to_string()), expected);
    }
}

#[test]
fn format_after_parse_of_a_stamped_identifier_is_identity() {
    let text = "6a665038-24cf-4cf6-8b61-05f0c2fc6c08";
    assert_eq!(UUID::from_str(text).unwrap().generate().to_lower_hex(), text);
    let text = "6A665038-24CF-4CF6-8B61-05F0C2FC6C08";
    assert_eq!(UUID::from_str(text).unwrap().generate().to_upper_hex(), text);
}
