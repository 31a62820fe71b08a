//! What becomes of a finished subprocess: exactly one of its two captured
//! streams is decoded and printed — standard output when the process exited
//! zero, standard error otherwise. The spawn itself is I/O and lives with the
//! surrounding program; this module decides what its outcome means.
use vstd::prelude::*;
use vstd::utf8::{decode_utf8, valid_utf8};

use crate::errors::QError;

verus! {

/// Relies on `String::from_utf8`: succeeds exactly on valid UTF-8 input and
/// returns its decoding.
#[verifier::external_body]
fn string_from_utf8(bytes: Vec<u8>) -> (r: Option<String>)
    ensures
        r is Some <==> valid_utf8(bytes@),
        (r matches Some(s) ==> s@ == decode_utf8(bytes@)),
{
    String::from_utf8(bytes).ok()
}

/// Decodes captured output bytes; bytes that are not valid text fail with
/// `OutputDecodeError`.
pub fn decode_output(bytes: Vec<u8>) -> (r: Result<String, QError>)
    ensures
        r is Ok <==> valid_utf8(bytes@),
        (r matches Ok(s) ==> s@ == decode_utf8(bytes@)),
        (r matches Err(e) ==> e == QError::OutputDecodeError),
{
    match string_from_utf8(bytes) {
        Some(s) => Ok(s),
        None => Err(QError::OutputDecodeError),
    }
}

/// The stream a finished subprocess gets printed from: its standard output
/// when it exited zero, its standard error otherwise.
pub open spec fn chosen_stream(success: bool, stdout: Seq<u8>, stderr: Seq<u8>) -> Seq<u8> {
    if success {
        stdout
    } else {
        stderr
    }
}

/// Turns a finished subprocess into the text this program prints: the
/// decoded standard output on exit code zero, the decoded standard error on
/// any other exit code.
pub fn render_process_output(success: bool, stdout: Vec<u8>, stderr: Vec<u8>) -> (r: Result<
    String,
    QError,
>)
    ensures
        r is Ok <==> valid_utf8(chosen_stream(success, stdout@, stderr@)),
        (r matches Ok(s) ==> s@ == decode_utf8(chosen_stream(success, stdout@, stderr@))),
        (r matches Err(e) ==> e == QError::OutputDecodeError),
{
    if success {
        decode_output(stdout)
    } else {
        decode_output(stderr)
    }
}

} // verus!
