use secluso::credentials::{user_credentials_qr, QrError};

#[test]
fn short_credentials_give_the_smallest_code() {
    let m = user_credentials_qr(b"hello").unwrap();
    assert_eq!(m.width, 21);
    assert_eq!(m.dark.len(), 21 * 21);
    assert!(!m.micro);
    assert_eq!(m.quiet_zone(), 4);
}

#[test]
fn qr_modules_match_the_qrcode_crate() {
    let data = b"{\"server\":\"https://cam.example.org\",\"user\":\"alice\"}";
    let m = user_credentials_qr(data).unwrap();
    let code = qrcode::QrCode::new(data).unwrap();
    assert_eq!(m.width, code.width());
    let expected: Vec<bool> = code.to_colors().iter().map(|c| *c == qrcode::Color::Dark).collect();
    assert_eq!(m.dark, expected);
    assert!(m.dark.iter().any(|d| *d));
    assert!(m.dark.iter().any(|d| !*d));
}

#[test]
fn oversized_credentials_have_no_code() {
    let data = vec![0xA5u8; 5000];
    let r = user_credentials_qr(&data);
    assert!(matches!(r, Err(QrError::CannotEncode)));
    assert_eq!(r.unwrap_err().message(), "Failed to generate user credentials QR code");
}
