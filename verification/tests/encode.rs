use qrlink::{console_qr, encode, make_svg, EncodeError, FormatError};

#[test]
fn encode_example_link_renders_with_quiet_zone() {
    let m = encode(Some("https://example.com")).unwrap();
    let size = m.size();
    assert!((21..=177).contains(&size));
    assert_eq!((size - 17) % 4, 0);
    let lines = console_qr(&m, 2).unwrap();
    assert_eq!(lines.len(), size + 4);
    for line in &lines {
        assert_eq!(line.chars().count(), 2 * (size + 4));
    }
}

#[test]
fn encode_produces_finder_pattern_corner() {
    // every QR code has a dark module at the top-left finder corner
    let m = encode(Some("https://example.com")).unwrap();
    assert!(m.get(0, 0));
    // a short URL fits in version 2 at the low error-correction level
    assert_eq!(m.size(), 25);
}

#[test]
fn encode_is_deterministic() {
    let a = encode(Some("https://example.com")).unwrap();
    let b = encode(Some("https://example.com")).unwrap();
    assert_eq!(make_svg(&a, 4).unwrap(), make_svg(&b, 4).unwrap());
}

#[test]
fn encode_rejects_oversized_text() {
    let text = "a".repeat(8000);
    match encode(Some(&text)) {
        Err(EncodeError::DataOverCapacity(len, cap)) => {
            assert!(len > cap);
        },
        other => panic!("expected DataOverCapacity, got {:?}", other.map(|m| m.size())),
    }
}

#[test]
fn format_error_carries_recommendation() {
    let e = FormatError::new(String::from("try a shorter link"));
    assert_eq!(e.description(), "try a shorter link");
}
