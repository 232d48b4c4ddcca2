use vstd::prelude::*;

use crate::errors::EncodeFailure;
use qrcode::types::QrError;

verus! {

/// Whether the QR encoder can represent the given text as a symbol at
/// all. Encodability depends on the text alone (in substance, on whether
/// it fits the largest symbol version); it is left uninterpreted here.
pub uninterp spec fn qr_encodable(s: Seq<char>) -> bool;

/// The terminal rendering of the QR code for the given text: one glyph
/// per dark module, one space per light module, rows separated by
/// newlines, no quiet zone. A function of the text alone, left
/// uninterpreted.
pub uninterp spec fn qr_text_of(s: Seq<char>) -> Seq<char>;

/// The PNG encoding of the grayscale QR raster for the given text,
/// rendered with the renderer's default module size and quiet zone. A
/// function of the text alone, left uninterpreted.
pub uninterp spec fn qr_png_of(s: Seq<char>) -> Seq<u8>;

/// Relies on qrcode::QrCode::new and its character renderer: the encoder
/// either builds a symbol or fails, determined by the input alone, and
/// the rendered text is a function of the input alone. A symbol built by
/// QrCode::new is never a micro QR code, so it has at least 21 modules
/// per side; rendered without a quiet zone that gives at least 21 rows
/// of at least 21 glyphs each, joined by newlines, so the text is
/// non-empty and holds a newline.
#[verifier::external_body]
pub(crate) fn render_terminal(input: &String) -> (r: Result<String, EncodeFailure>)
    ensures
        r is Ok <==> qr_encodable(input@),
        r matches Ok(t) ==> t@ == qr_text_of(input@) && t@.len() > 0 && t@.contains('\n'),
{
    let code = match qrcode::QrCode::new(input.as_bytes()) {
        Ok(code) => code,
        Err(QrError::DataTooLong) => return Err(EncodeFailure::DataTooLong),
        Err(QrError::InvalidVersion) => return Err(EncodeFailure::InvalidVersion),
        Err(QrError::UnsupportedCharacterSet) => return Err(EncodeFailure::UnsupportedCharacterSet),
        Err(QrError::InvalidEciDesignator) => return Err(EncodeFailure::InvalidEciDesignator),
        Err(QrError::InvalidCharacter) => return Err(EncodeFailure::InvalidCharacter),
    };
    Ok(code.render().dark_color('\u{25a0}').light_color(' ').quiet_zone(false).build())
}

/// Relies on qrcode::QrCode::new, its image renderer and image's PNG
/// encoder: the QR encoder either builds a symbol or fails, determined
/// by the input alone, and the PNG bytes of the rendered grayscale
/// raster are a function of the input alone. A PNG stream always starts
/// with its eight signature bytes, so it is non-empty. Writing a raster
/// of valid, non-zero dimensions into an in-memory buffer cannot fail,
/// so the final unwrap never panics.
#[verifier::external_body]
pub(crate) fn render_png(input: &String) -> (r: Result<Vec<u8>, EncodeFailure>)
    ensures
        r is Ok <==> qr_encodable(input@),
        r matches Ok(b) ==> b@ == qr_png_of(input@) && b@.len() > 0,
{
    let code = match qrcode::QrCode::new(input.as_bytes()) {
        Ok(code) => code,
        Err(QrError::DataTooLong) => return Err(EncodeFailure::DataTooLong),
        Err(QrError::InvalidVersion) => return Err(EncodeFailure::InvalidVersion),
        Err(QrError::UnsupportedCharacterSet) => return Err(EncodeFailure::UnsupportedCharacterSet),
        Err(QrError::InvalidEciDesignator) => return Err(EncodeFailure::InvalidEciDesignator),
        Err(QrError::InvalidCharacter) => return Err(EncodeFailure::InvalidCharacter),
    };
    let image = code.render::<image::Luma<u8>>().build();
    let mut bytes: Vec<u8> = Vec::new();
    image.write_to(&mut std::io::Cursor::new(&mut bytes), image::ImageFormat::Png).unwrap();
    Ok(bytes)
}

} // verus!
