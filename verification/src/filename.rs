use vstd::prelude::*;

use crate::errors::QrGenError;

verus! {

/// The lowercase hexadecimal SHA-256 digest of the UTF-8 bytes of the
/// given text. The digest itself is left uninterpreted: it is a function
/// of the text alone, and nothing more is assumed of its value.
pub uninterp spec fn sha256_hex_of(s: Seq<char>) -> Seq<char>;

/// Relies on sha256::digest: it returns the SHA-256 digest of the
/// argument's bytes as a hex string (hex::encode of a 32-byte digest,
/// hence 64 characters), a function of the input bytes alone.
#[verifier::external_body]
fn sha256_hex(input: &String) -> (r: String)
    ensures
        r@ == sha256_hex_of(input@),
        r@.len() == 64,
{
    sha256::digest(input.as_bytes())
}

/// The name under which a PNG rendering of the given input is saved:
/// the hex SHA-256 digest of the input followed by the `.png` suffix.
pub open spec fn spec_filename(s: Seq<char>) -> Seq<char> {
    sha256_hex_of(s) + ".png"@
}

/// Derives the output filename for the given input text: its hex SHA-256
/// digest with the `.png` suffix. An empty input is rejected instead of
/// hashed; non-empty input always succeeds. The result is a pure function
/// of the input, so identical inputs always yield identical filenames.
pub fn create_filename(input: &String) -> (r: Result<String, QrGenError>)
    ensures
        input@.len() == 0 ==> (r matches Err(e) && e is EmptyInput),
        input@.len() > 0 ==> (r matches Ok(f) && f@ == spec_filename(input@)
            && f@.len() == 68),
{
    if input.as_str().is_empty() {
        return Err(QrGenError::EmptyInput);
    }
    let hash = sha256_hex(input);
    let filename = hash.concat(".png");
    proof {
        reveal_strlit(".png");
    }
    Ok(filename)
}

/// Filename derivation is deterministic: the name is a pure function of
/// the input text, with no randomness, time or environment dependency,
/// so identical inputs always yield byte-identical filenames.
pub proof fn lemma_filename_deterministic(a: Seq<char>, b: Seq<char>)
    requires
        a == b,
    ensures
        spec_filename(a) == spec_filename(b),
{
}

} // verus!
