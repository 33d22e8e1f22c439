use disclosure_provider::codec::{
    decode_attributes, decode_segment, decode_url, encode_attributes, encode_segment, encode_url,
};
use disclosure_provider::error::Error;

fn s(text: &str) -> String {
    text.to_string()
}

#[test]
fn segment_is_unpadded_base64() {
    assert_eq!(encode_segment(b""), "");
    assert_eq!(encode_segment(b"a"), "YQ");
    assert_eq!(encode_segment(b"ab"), "YWI");
    assert_eq!(encode_segment(b"abc"), "YWJj");
    assert_eq!(encode_segment(b"hello"), "aGVsbG8");
}

#[test]
fn segment_uses_the_url_safe_alphabet() {
    assert_eq!(encode_segment(&[0xfb, 0xff]), "-_8");
    assert_eq!(decode_segment("-_8").unwrap(), vec![0xfb, 0xff]);
    assert!(matches!(decode_segment("+/8"), Err(Error::Decode(_))));
}

#[test]
fn segment_decodes_to_its_bytes() {
    assert_eq!(decode_segment("").unwrap(), Vec::<u8>::new());
    assert_eq!(decode_segment("YQ").unwrap(), b"a".to_vec());
    assert_eq!(decode_segment("aGVsbG8").unwrap(), b"hello".to_vec());
}

#[test]
fn segment_round_trip() {
    let samples: Vec<Vec<u8>> = vec![
        vec![],
        vec![0],
        vec![0, 0],
        vec![255, 254, 253, 252],
        b"https://rp.example/back?x=1&y=2".to_vec(),
        (0u8..=255).collect(),
    ];
    for bytes in samples.iter() {
        let segment = encode_segment(bytes);
        assert!(!segment.contains('='));
        assert!(!segment.contains('/'));
        assert!(!segment.contains('+'));
        assert_eq!(&decode_segment(&segment).unwrap(), bytes);
    }
}

#[test]
fn malformed_segment_is_a_decode_error() {
    assert!(matches!(decode_segment("!"), Err(Error::Decode(_))));
    assert!(matches!(decode_segment("a b"), Err(Error::Decode(_))));
    assert!(matches!(decode_segment("Y"), Err(Error::Decode(_))));
    assert!(matches!(decode_segment("YR"), Err(Error::Decode(_))));
    assert!(matches!(decode_url("%%%"), Err(Error::Decode(_))));
    assert!(matches!(decode_attributes("%%%"), Err(Error::Decode(_))));
}

#[test]
fn decode_error_has_a_message() {
    let error = decode_segment("!").unwrap_err();
    assert_eq!(error.message(), "Invalid byte 33, offset 0.");
}

#[test]
fn attributes_travel_as_a_json_list() {
    assert_eq!(encode_attributes(&vec![s("email")]).unwrap(), "WyJlbWFpbCJd");
    assert_eq!(
        encode_attributes(&vec![s("email"), s("phone")]).unwrap(),
        "WyJlbWFpbCIsInBob25lIl0"
    );
    assert_eq!(encode_attributes(&vec![]).unwrap(), "W10");
    assert_eq!(encode_attributes(&vec![s("a\"b"), s("é\n")]).unwrap(), "WyJhXCJiIiwiw6lcbiJd");
}

#[test]
fn attributes_decode_from_a_json_list() {
    assert_eq!(decode_attributes("WyJlbWFpbCJd").unwrap(), vec![s("email")]);
    assert_eq!(
        decode_attributes("WyJlbWFpbCIsInBob25lIl0").unwrap(),
        vec![s("email"), s("phone")]
    );
    assert_eq!(decode_attributes("W10").unwrap(), Vec::<String>::new());
    assert_eq!(decode_attributes("WyJhXCJiIiwiw6lcbiJd").unwrap(), vec![s("a\"b"), s("é\n")]);
}

#[test]
fn attributes_round_trip() {
    let samples: Vec<Vec<String>> = vec![
        vec![],
        vec![s("")],
        vec![s("email")],
        vec![s("email"), s("email")],
        vec![s("naam"), s("geboortedatum"), s("e-mail")],
        vec![s("quote\"backslash\\"), s("tab\tnewline\n"), s("\u{0}\u{1f}"), s("日本語 ✓")],
    ];
    for names in samples.iter() {
        let segment = encode_attributes(names).unwrap();
        assert_eq!(&decode_attributes(&segment).unwrap(), names);
    }
}

#[test]
fn attributes_that_are_no_json_list_are_a_json_error() {
    // "not json"
    assert!(matches!(decode_attributes("bm90IGpzb24"), Err(Error::Json(_))));
    // {"a":1}
    assert!(matches!(decode_attributes("eyJhIjoxfQ"), Err(Error::Json(_))));
    // [1]
    assert!(matches!(decode_attributes("WzFd"), Err(Error::Json(_))));
    // nothing at all
    assert!(matches!(decode_attributes(""), Err(Error::Json(_))));
    // one byte that is no UTF-8
    assert!(matches!(decode_attributes("_w"), Err(Error::Json(_))));
}

#[test]
fn json_error_carries_its_description() {
    let error = decode_attributes("WzFd").unwrap_err();
    let text = error.message();
    assert!(matches!(error, Error::Json(ref description) if *description == text));
    assert_eq!(text, "invalid type: integer `1`, expected a string at line 1 column 2");
}

#[test]
fn url_travels_as_its_utf8_bytes() {
    assert_eq!(encode_url("https://rp.example/back"), "aHR0cHM6Ly9ycC5leGFtcGxlL2JhY2s");
    assert_eq!(encode_url("https://rp.example/done?x=1"), "aHR0cHM6Ly9ycC5leGFtcGxlL2RvbmU_eD0x");
    assert_eq!(encode_url("https://rp.example/é?q=ü"), "aHR0cHM6Ly9ycC5leGFtcGxlL8OpP3E9w7w");
    assert_eq!(encode_url(""), "");
}

#[test]
fn url_decodes_from_its_segment() {
    assert_eq!(decode_url("aHR0cHM6Ly9ycC5leGFtcGxlL2JhY2s").unwrap(), "https://rp.example/back");
    assert_eq!(decode_url("aHR0cHM6Ly9ycC5leGFtcGxlL8OpP3E9w7w").unwrap(), "https://rp.example/é?q=ü");
    assert_eq!(decode_url("").unwrap(), "");
}

#[test]
fn url_round_trip() {
    let samples = [
        "",
        "/",
        "https://rp.example/back",
        "https://rp.example/done?x=1&y=%20",
        "https://rp.example/päth?q=日本語#frag",
        "\u{10ffff}\u{0}",
    ];
    for url in samples.iter() {
        let segment = encode_url(url);
        assert_eq!(decode_url(&segment).unwrap(), *url);
    }
}

#[test]
fn url_that_is_no_utf8_is_a_utf_error() {
    // the bytes ff, then c3 28, then a lone continuation byte
    assert!(matches!(decode_url("_w"), Err(Error::Utf(_))));
    assert!(matches!(decode_url(&encode_segment(&[0xc3, 0x28])), Err(Error::Utf(_))));
    assert!(matches!(decode_url(&encode_segment(&[b'a', 0x80])), Err(Error::Utf(_))));
}

#[test]
fn utf_error_has_a_message() {
    let error = decode_url("_w").unwrap_err();
    assert_eq!(error.message(), "invalid utf-8 sequence of 1 bytes from index 0");
}
