use boot_switch::efi::next_value;
use boot_switch::string::{encode_utf16le, from_utf16le, FromUtf16Error};

fn units_le(units: &[u16]) -> Vec<u8> {
    let mut bytes = Vec::new();
    for unit in units {
        bytes.push((unit & 0xff) as u8);
        bytes.push((unit >> 8) as u8);
    }
    bytes
}

#[test]
fn encode_empty_text_is_empty() {
    assert_eq!(encode_utf16le(""), Vec::<u8>::new());
}

#[test]
fn encode_ascii_is_low_byte_then_zero() {
    assert_eq!(encode_utf16le("a"), vec![0x61, 0x00]);
    assert_eq!(
        encode_utf16le("linux \0"),
        vec![0x6c, 0, 0x69, 0, 0x6e, 0, 0x75, 0, 0x78, 0, 0x20, 0, 0, 0]
    );
}

#[test]
fn encode_is_little_endian() {
    // U+20AC EURO SIGN
    assert_eq!(encode_utf16le("\u{20ac}"), vec![0xac, 0x20]);
    // U+FFFF, the last character of one code unit
    assert_eq!(encode_utf16le("\u{ffff}"), vec![0xff, 0xff]);
    // U+D7FF and U+E000, the characters around the surrogates
    assert_eq!(encode_utf16le("\u{d7ff}\u{e000}"), vec![0xff, 0xd7, 0x00, 0xe0]);
}

#[test]
fn encode_supplementary_plane_as_surrogate_pair() {
    // U+1F600 is D83D DE00
    assert_eq!(encode_utf16le("\u{1f600}"), vec![0x3d, 0xd8, 0x00, 0xde]);
    // U+10000, the first, is D800 DC00
    assert_eq!(encode_utf16le("\u{10000}"), vec![0x00, 0xd8, 0x00, 0xdc]);
    // U+10FFFF, the last, is DBFF DFFF
    assert_eq!(encode_utf16le("\u{10ffff}"), vec![0xff, 0xdb, 0xff, 0xdf]);
}

#[test]
fn encode_agrees_with_std() {
    for text in ["", "windows \0", "gr\u{fc}\u{df}e", "\u{1f600}a\u{10ffff}\u{0}", "\u{fffd}"] {
        let units: Vec<u16> = text.encode_utf16().collect();
        assert_eq!(encode_utf16le(text), units_le(&units));
    }
}

#[test]
fn decode_empty_payload_is_empty_text() {
    assert_eq!(from_utf16le(&[]), Ok(String::new()));
}

#[test]
fn decode_ascii() {
    assert_eq!(
        from_utf16le(&[0x77, 0, 0x69, 0, 0x6e, 0, 0x20, 0, 0, 0]),
        Ok("win \0".to_string())
    );
}

#[test]
fn decode_surrogate_pair() {
    assert_eq!(from_utf16le(&[0x3d, 0xd8, 0x00, 0xde]), Ok("\u{1f600}".to_string()));
    assert_eq!(from_utf16le(&[0x00, 0xd8, 0x00, 0xdc]), Ok("\u{10000}".to_string()));
    assert_eq!(from_utf16le(&[0xff, 0xdb, 0xff, 0xdf]), Ok("\u{10ffff}".to_string()));
    assert_eq!(
        from_utf16le(&[0x61, 0, 0x3d, 0xd8, 0x00, 0xde, 0x62, 0]),
        Ok("a\u{1f600}b".to_string())
    );
}

#[test]
fn decode_keeps_what_is_no_surrogate() {
    assert_eq!(from_utf16le(&[0xff, 0xd7, 0x00, 0xe0]), Ok("\u{d7ff}\u{e000}".to_string()));
    assert_eq!(from_utf16le(&[0xff, 0xff]), Ok("\u{ffff}".to_string()));
    assert_eq!(from_utf16le(&[0xfd, 0xff]), Ok("\u{fffd}".to_string()));
}

#[test]
fn round_trip_gives_the_text_back() {
    for text in [
        "",
        "linux \0",
        "windows \0",
        "gr\u{fc}\u{df}e",
        "\u{65e5}\u{672c}\u{8a9e}",
        "\u{1f600}",
        "a\u{1f600}b\u{10000}c\u{10ffff}",
        "\u{d7ff}\u{e000}\u{ffff}",
        "\0\0",
    ] {
        assert_eq!(from_utf16le(&encode_utf16le(text)), Ok(text.to_string()));
    }
}

#[test]
fn decoded_text_encodes_back_to_the_payload() {
    for payload in [
        vec![],
        vec![0x6c, 0, 0x20, 0, 0, 0],
        vec![0x3d, 0xd8, 0x00, 0xde, 0xac, 0x20],
        vec![0xff, 0xdb, 0xff, 0xdf],
    ] {
        let text = from_utf16le(&payload).unwrap();
        assert_eq!(encode_utf16le(&text), payload);
    }
}

#[test]
fn decode_odd_length_is_an_error() {
    assert_eq!(from_utf16le(&[0x61]), Err(FromUtf16Error));
    assert_eq!(from_utf16le(&[0x61, 0x00, 0x62]), Err(FromUtf16Error));
    assert_eq!(from_utf16le(&[0x3d, 0xd8, 0x00, 0xde, 0x00]), Err(FromUtf16Error));
    for len in [1usize, 3, 5, 7, 99] {
        assert!(from_utf16le(&vec![0u8; len]).is_err());
    }
}

#[test]
fn decode_lone_high_surrogate_is_an_error() {
    // alone
    assert_eq!(from_utf16le(&units_le(&[0xd800])), Err(FromUtf16Error));
    // at the end
    assert_eq!(from_utf16le(&units_le(&[0x61, 0xdbff])), Err(FromUtf16Error));
    // before a character
    assert_eq!(from_utf16le(&units_le(&[0xd83d, 0x61])), Err(FromUtf16Error));
    // before another high surrogate, whose pair is complete
    assert_eq!(from_utf16le(&units_le(&[0xd83d, 0xd83d, 0xde00])), Err(FromUtf16Error));
}

#[test]
fn decode_lone_low_surrogate_is_an_error() {
    // alone
    assert_eq!(from_utf16le(&units_le(&[0xdc00])), Err(FromUtf16Error));
    // at the start
    assert_eq!(from_utf16le(&units_le(&[0xdfff, 0x61])), Err(FromUtf16Error));
    // after a character
    assert_eq!(from_utf16le(&units_le(&[0x61, 0xde00])), Err(FromUtf16Error));
    // after a complete pair
    assert_eq!(from_utf16le(&units_le(&[0xd83d, 0xde00, 0xde00])), Err(FromUtf16Error));
    // the pair the wrong way round
    assert_eq!(from_utf16le(&units_le(&[0xde00, 0xd83d])), Err(FromUtf16Error));
}

#[test]
fn decode_replaces_nothing() {
    // std's lossy decoding would give U+FFFD here; this one fails
    let payload = units_le(&[0x6c, 0xd800, 0x20, 0]);
    assert_eq!(String::from_utf16_lossy(&[0x6c, 0xd800, 0x20, 0]), "l\u{fffd} \0");
    assert_eq!(from_utf16le(&payload), Err(FromUtf16Error));
}

#[test]
fn decode_agrees_with_std() {
    let cases: [&[u16]; 8] = [
        &[],
        &[0x61, 0x62],
        &[0xd83d, 0xde00],
        &[0xd83d],
        &[0xde00],
        &[0xd83d, 0xd83d],
        &[0xdbff, 0xdfff, 0xd800, 0xdc00],
        &[0xffff, 0xd7ff, 0xe000, 0xdc00],
    ];
    for units in cases {
        let expected = String::from_utf16(units).map_err(|_| FromUtf16Error);
        assert_eq!(from_utf16le(&units_le(units)), expected);
    }
}

#[test]
fn decode_error_message() {
    assert_eq!(FromUtf16Error.message(), "invalid utf-16: lone surrogate found");
}

#[test]
fn desired_value_is_identifier_space_terminator() {
    assert_eq!(next_value("linux"), "linux \0");
    assert_eq!(next_value(""), " \0");
    assert_eq!(next_value("Microsoft EFI boot"), "Microsoft EFI boot \0");
}

#[test]
fn desired_value_for_linux_byte_for_byte() {
    assert_eq!(encode_utf16le(&next_value("linux")), encode_utf16le("linux \0"));
    assert_eq!(
        encode_utf16le(&next_value("linux")),
        vec![0x6c, 0, 0x69, 0, 0x6e, 0, 0x75, 0, 0x78, 0, 0x20, 0, 0, 0]
    );
}
