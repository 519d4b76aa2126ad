//! The QR code that carries a new user's full credentials to the phone.
use vstd::prelude::*;

verus! {

/// A QR code as a square of modules: `width` modules per side, for each
/// module, row by row, whether it is dark, and whether the code is a Micro QR
/// code.
#[derive(Debug)]
pub struct QrMatrix {
    pub width: usize,
    pub dark: Vec<bool>,
    pub micro: bool,
}

impl QrMatrix {
    /// The light border, in modules, drawn around the code: two for a Micro
    /// QR code and four for a normal one, as `qrcode`'s renderer draws it.
    pub fn quiet_zone(&self) -> (r: u32)
        ensures
            r == (if self.micro { 2u32 } else { 4u32 }),
    {
        if self.micro {
            2
        } else {
            4
        }
    }
}

/// What `qrcode::QrCode::new` makes of `data`: the width, the modules (dark
/// or not, row by row) and whether the version is a Micro one, or `None`
/// where no code can hold it.
pub uninterp spec fn qr_code_of(data: Seq<u8>) -> Option<(nat, Seq<bool>, bool)>;

/// Calls `qrcode::QrCode::new` (medium error correction, smallest version)
/// and reads `width`, `to_colors` (a dark module as `true`) and whether
/// `version` is a Micro one.
/// The result depends on `data` alone and is named [`qr_code_of`]; the code
/// has `width * width` modules, as its canvas is made that size.
#[verifier::external_body]
fn qr_code(data: &[u8]) -> (r: Option<QrMatrix>)
    ensures
        match r {
            Some(m) => qr_code_of(data@) == Some((m.width as nat, m.dark@, m.micro)) && m.dark@.len()
                == m.width * m.width,
            None => qr_code_of(data@) is None,
        },
{
    match qrcode::QrCode::new(data) {
        Ok(code) => Some(
            QrMatrix {
                width: code.width(),
                dark: code.to_colors().into_iter().map(
                    |c| match c {
                        qrcode::Color::Dark => true,
                        qrcode::Color::Light => false,
                    },
                ).collect(),
                micro: code.version().is_micro(),
            },
        ),
        Err(_) => None,
    }
}

/// Why no QR code was made.
#[derive(Debug, PartialEq, Eq, Structural, Clone, Copy)]
pub enum QrError {
    /// No QR code can hold the credentials.
    CannotEncode,
}

impl QrError {
    /// The message reported for this error.
    pub fn message(&self) -> (r: String)
        ensures
            r@ == "Failed to generate user credentials QR code"@,
    {
        String::from_str("Failed to generate user credentials QR code")
    }
}

/// The QR code of a user's full credentials (`credentials_full`), as the
/// phone app scans it at pairing.
pub fn user_credentials_qr(credentials_full: &[u8]) -> (r: Result<QrMatrix, QrError>)
    ensures
        match r {
            Ok(m) => qr_code_of(credentials_full@) == Some((m.width as nat, m.dark@, m.micro))
                && m.dark@.len() == m.width * m.width,
            Err(e) => e == QrError::CannotEncode && qr_code_of(credentials_full@) is None,
        },
{
    match qr_code(credentials_full) {
        Some(m) => Ok(m),
        None => Err(QrError::CannotEncode),
    }
}

} // verus!
