//! Classifying a conversion tool's raw output. The shell runs the tool and
//! hands its stdout and stderr bytes in; the decision of what they mean —
//! produced text, reported error, or no output at all — is made here.

use vstd::prelude::*;
use vstd::string::StringExecFns;
use vstd::utf8::{decode_utf8, valid_utf8};

verus! {

/// The characters that a lossy decoding of a byte buffer yields, replacement
/// characters included. A function of the bytes alone.
pub uninterp spec fn lossy_utf8(bytes: Seq<u8>) -> Seq<char>;

/// Relies on `String::from_utf8`: succeeds exactly on valid UTF-8, decoding
/// the bytes; yields the error's text otherwise.
#[verifier::external_body]
fn utf8_string(bytes: Vec<u8>) -> (r: Result<String, String>)
    ensures
        r is Ok <==> valid_utf8(bytes@),
        r matches Ok(s) ==> s@ == decode_utf8(bytes@),
{
    match String::from_utf8(bytes) {
        Ok(s) => Ok(s),
        Err(e) => Err(e.to_string()),
    }
}

/// Relies on `String::from_utf8_lossy`: the result depends on the bytes
/// alone, invalid sequences becoming replacement characters.
#[verifier::external_body]
fn utf8_string_lossy(bytes: &Vec<u8>) -> (r: String)
    ensures
        r@ == lossy_utf8(bytes@),
{
    String::from_utf8_lossy(bytes.as_slice()).into_owned()
}

/// What a run of the conversion tool produced, decided from its raw output:
/// any stdout at all is the produced text (decoded leniently if need be);
/// stderr alone is the tool's reported error; neither is an error of its
/// own.
pub fn classify_tool_output(stdout: Vec<u8>, stderr: Vec<u8>) -> (r: Result<String, String>)
    ensures
        stdout@.len() > 0 && valid_utf8(stdout@) ==> (r matches Ok(s) && s@ == decode_utf8(
            stdout@,
        )),
        stdout@.len() > 0 && !valid_utf8(stdout@) ==> (r matches Ok(s) && s@ == lossy_utf8(
            stdout@,
        )),
        stdout@.len() == 0 && stderr@.len() > 0 && valid_utf8(stderr@) ==> (r matches Err(m) && m@
            == decode_utf8(stderr@)),
        stdout@.len() == 0 && stderr@.len() > 0 && !valid_utf8(stderr@) ==> r is Err,
        stdout@.len() == 0 && stderr@.len() == 0 ==> (r matches Err(m) && m@
            == "ttx produced no output..??"@),
{
    if stdout.len() > 0 {
        let lossy = utf8_string_lossy(&stdout);
        match utf8_string(stdout) {
            Ok(text) => Ok(text),
            Err(_) => Ok(lossy),
        }
    } else if stderr.len() > 0 {
        match utf8_string(stderr) {
            Ok(message) => Err(message),
            Err(utf8_error) => Err(utf8_error),
        }
    } else {
        Err(String::from_str("ttx produced no output..??"))
    }
}

} // verus!
