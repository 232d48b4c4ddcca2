use vstd::prelude::*;

verus! {

/// The ways the QR encoder can refuse an input, one case for each of its
/// own error cases.
#[derive(Clone, Copy, Debug, PartialEq, Eq, Structural)]
pub enum EncodeFailure {
    /// The data is too long to fit any QR symbol version.
    DataTooLong,
    /// The version / error-correction combination is invalid.
    InvalidVersion,
    /// Some characters cannot be carried by the chosen symbol version.
    UnsupportedCharacterSet,
    /// The ECI designator is out of range.
    InvalidEciDesignator,
    /// A character outside the character set was found.
    InvalidCharacter,
}

/// Everything that can stop a run: a missing input argument, an unknown
/// mode flag, an empty input at the filename stage, or an encoder failure.
#[derive(Debug)]
pub enum QrGenError {
    /// No input argument was supplied.
    MissingInput,
    /// A mode flag was supplied that is not the PNG flag; the offending
    /// text is carried along for the diagnostic.
    UnknownArgument(String),
    /// The input string is empty, so no filename can be derived from it.
    EmptyInput,
    /// The QR encoder could not represent the input.
    Encode(EncodeFailure),
}

impl EncodeFailure {
    /// The diagnostic text for this encoder failure, as the encoder itself
    /// describes it.
    pub open spec fn spec_message(&self) -> Seq<char> {
        match self {
            EncodeFailure::DataTooLong => "data too long"@,
            EncodeFailure::InvalidVersion => "invalid version"@,
            EncodeFailure::UnsupportedCharacterSet => "unsupported character set"@,
            EncodeFailure::InvalidEciDesignator => "invalid ECI designator"@,
            EncodeFailure::InvalidCharacter => "invalid character"@,
        }
    }

    /// Returns the diagnostic text for this encoder failure.
    pub fn message(&self) -> (r: String)
        ensures
            r@ == self.spec_message(),
    {
        match self {
            EncodeFailure::DataTooLong => "data too long".to_owned(),
            EncodeFailure::InvalidVersion => "invalid version".to_owned(),
            EncodeFailure::UnsupportedCharacterSet => "unsupported character set".to_owned(),
            EncodeFailure::InvalidEciDesignator => "invalid ECI designator".to_owned(),
            EncodeFailure::InvalidCharacter => "invalid character".to_owned(),
        }
    }
}

impl QrGenError {
    /// The diagnostic text for this error.
    pub open spec fn spec_message(&self) -> Seq<char> {
        match self {
            QrGenError::MissingInput => "Atleast one argument is required to generate QR code."@,
            QrGenError::UnknownArgument(v) => "Unknown argument "@ + v@ + "."@,
            QrGenError::EmptyInput => "Input is empty."@,
            QrGenError::Encode(f) => f.spec_message(),
        }
    }

    /// Returns the diagnostic text for this error.
    pub fn message(&self) -> (r: String)
        ensures
            r@ == self.spec_message(),
    {
        match self {
            QrGenError::MissingInput => {
                "Atleast one argument is required to generate QR code.".to_owned()
            },
            QrGenError::UnknownArgument(v) => {
                let mut m = "Unknown argument ".to_owned();
                m.append(v.as_str());
                m.append(".");
                m
            },
            QrGenError::EmptyInput => "Input is empty.".to_owned(),
            QrGenError::Encode(f) => f.message(),
        }
    }
}

} // verus!
