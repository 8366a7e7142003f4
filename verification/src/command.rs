use vstd::prelude::*;
use vstd::utf8::*;

verus! {

/// What became of an attempt to run an external command line tool, as plain
/// values: the caller runs the tool and reports here what happened.
#[derive(Debug)]
pub enum CommandOutcome {
    /// The program could not be started because it was not found.
    NotFound,
    /// The program could not be started for another reason, described by the text.
    SpawnFailed(String),
    /// The program ran to completion.
    Exited {
        /// Whether it exited with a success status.
        success: bool,
        /// What it wrote to standard output.
        stdout: Vec<u8>,
        /// What it wrote to standard error.
        stderr: Vec<u8>,
    },
}

/// Name for the text of the error that `String::from_utf8` reports (through
/// `to_string`) for bytes that are not valid UTF-8.
pub uninterp spec fn utf8_error_text(bytes: Seq<u8>) -> Seq<char>;

/// Name for the text that `String::from_utf8_lossy` makes of a byte sequence.
pub uninterp spec fn utf8_lossy(bytes: Seq<u8>) -> Seq<char>;

/// Calls `String::from_utf8`. Trusted: the bytes are accepted exactly when they
/// are valid UTF-8 and then decode to the characters they encode; otherwise the
/// error's text is `utf8_error_text` of the bytes.
#[verifier::external_body]
pub(crate) fn string_from_utf8(bytes: Vec<u8>) -> (r: Result<String, String>)
    ensures
        r is Ok <==> valid_utf8(bytes@),
        r matches Ok(s) ==> s@ == decode_utf8(bytes@),
        r matches Err(m) ==> m@ == utf8_error_text(bytes@),
{
    match String::from_utf8(bytes) {
        Ok(s) => Ok(s),
        Err(e) => Err(e.to_string()),
    }
}

/// Calls `String::from_utf8_lossy`. Trusted: the result is `utf8_lossy` of the
/// bytes, and, as its documentation says, the decoded text itself when the
/// bytes are valid UTF-8. What it makes of invalid sequences (replacement
/// characters) is left unsaid.
#[verifier::external_body]
pub(crate) fn string_from_utf8_lossy(bytes: &Vec<u8>) -> (r: String)
    ensures
        r@ == utf8_lossy(bytes@),
        valid_utf8(bytes@) ==> r@ == decode_utf8(bytes@),
{
    String::from_utf8_lossy(bytes).into_owned()
}

/// Appends `s` to a list of arguments.
pub fn push_arg(args: &mut Vec<String>, s: &str)
    ensures
        final(args).deep_view() == old(args).deep_view().push(s@),
{
    args.push(String::from_str(s));
    assert(args.deep_view() =~= old(args).deep_view().push(s@));
}

} // verus!
