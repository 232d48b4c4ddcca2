use vstd::prelude::*;

use crate::errors::QrGenError;

verus! {

/// How the output is to be produced: printed to the terminal, or saved
/// as a PNG file.
#[derive(Clone, Copy, Debug, PartialEq, Eq, Structural)]
pub enum Mode {
    Terminal,
    Png,
}

/// A validated invocation: the input text and the chosen output mode.
pub struct Request {
    pub input: String,
    pub mode: Mode,
}

/// The one flag the program accepts in its second slot.
pub open spec fn png_flag() -> Seq<char> {
    "--png"@
}

/// Interprets the process argument vector. Slot 0 is the program name and
/// is ignored; slot 1 is the input text; slot 2, if present, must be the
/// PNG flag. Anything beyond slot 2 is ignored.
pub fn parse_args(args: &Vec<String>) -> (r: Result<Request, QrGenError>)
    ensures
        args@.len() < 2 ==> (r matches Err(e) && e is MissingInput),
        args@.len() >= 3 && args@[2]@ != png_flag() ==> (r matches Err(e) && e matches
            QrGenError::UnknownArgument(v) && v@ == args@[2]@),
        args@.len() >= 3 && args@[2]@ == png_flag() ==> (r matches Ok(req) && req.input@
            == args@[1]@ && req.mode is Png),
        args@.len() == 2 ==> (r matches Ok(req) && req.input@ == args@[1]@
            && req.mode is Terminal),
{
    if args.len() < 2 {
        return Err(QrGenError::MissingInput);
    }
    let input = args[1].clone();
    if args.len() >= 3 {
        let flag: String = "--png".to_owned();
        if args[2].eq(&flag) {
            Ok(Request { input, mode: Mode::Png })
        } else {
            Err(QrGenError::UnknownArgument(args[2].clone()))
        }
    } else {
        Ok(Request { input, mode: Mode::Terminal })
    }
}

} // verus!
