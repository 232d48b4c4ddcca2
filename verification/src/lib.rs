use vstd::prelude::*;

pub mod args;
pub mod errors;
pub mod filename;
pub mod render;

use crate::args::Mode;
use crate::args::parse_args;
use crate::args::png_flag;
use crate::errors::QrGenError;
use crate::filename::create_filename;
use crate::filename::spec_filename;
use crate::render::qr_encodable;
use crate::render::qr_png_of;
use crate::render::qr_text_of;
use crate::render::render_png;
use crate::render::render_terminal;

verus! {

/// What a successful run produces. A terminal run carries only the glyph
/// rendering to print; a PNG run carries the encoded PNG bytes, the name
/// of the file to write them to, and the confirmation line to print once
/// the file is saved. No file is touched here: the caller performs the
/// write.
pub enum Outcome {
    /// The QR code rendered as glyph lines, to be printed as-is.
    Terminal(String),
    /// The PNG bytes to be written to `filename`, and the confirmation
    /// line to print once they are saved.
    Png { bytes: Vec<u8>, filename: String, message: String },
}

/// The confirmation line printed after a PNG file has been saved.
pub open spec fn spec_confirmation(filename: Seq<char>) -> Seq<char> {
    "QR code saved as "@ + filename
}

/// Runs one invocation: interprets the argument vector (slot 0 is the
/// program name), encodes the input as a QR symbol, and produces either
/// the terminal rendering or the PNG bytes with their filename and
/// confirmation line. Argument validation comes first, and in PNG mode
/// the filename (which rejects empty input) is derived before any
/// encoding work.
pub fn qr_generate(args: &Vec<String>) -> (r: Result<Outcome, QrGenError>)
    ensures
        args@.len() < 2 ==> (r matches Err(e) && e is MissingInput),
        args@.len() >= 3 && args@[2]@ != png_flag() ==> (r matches Err(e) && e matches
            QrGenError::UnknownArgument(v) && v@ == args@[2]@),
        args@.len() == 2 ==> (if qr_encodable(args@[1]@) {
            r matches Ok(o) && o matches Outcome::Terminal(t) && t@ == qr_text_of(args@[1]@)
                && t@.len() > 0 && t@.contains('\n')
        } else {
            r matches Err(e) && e is Encode
        }),
        args@.len() >= 3 && args@[2]@ == png_flag() ==> (if args@[1]@.len() == 0 {
            r matches Err(e) && e is EmptyInput
        } else if qr_encodable(args@[1]@) {
            r matches Ok(o) && o matches Outcome::Png { bytes: b, filename: f, message: m }
                && b@ == qr_png_of(args@[1]@) && b@.len() > 0 && f@ == spec_filename(args@[1]@)
                && m@ == spec_confirmation(spec_filename(args@[1]@))
        } else {
            r matches Err(e) && e is Encode
        }),
{
    let req = match parse_args(args) {
        Ok(q) => q,
        Err(e) => return Err(e),
    };
    match req.mode {
        Mode::Terminal => match render_terminal(&req.input) {
            Ok(t) => Ok(Outcome::Terminal(t)),
            Err(f) => Err(QrGenError::Encode(f)),
        },
        Mode::Png => {
            let filename = match create_filename(&req.input) {
                Ok(f) => f,
                Err(e) => return Err(e),
            };
            let bytes = match render_png(&req.input) {
                Ok(b) => b,
                Err(f) => return Err(QrGenError::Encode(f)),
            };
            let mut message = "QR code saved as ".to_owned();
            message.append(filename.as_str());
            Ok(Outcome::Png { bytes, filename, message })
        },
    }
}

} // verus!
