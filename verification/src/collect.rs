//! The result collector: what a finished process left behind, as plain values.

use vstd::prelude::*;
use vstd::utf8::{decode_utf8, encode_utf8, encode_utf8_decode_utf8, valid_utf8};

verus! {

/// What the host learned of a process that has ended.
#[derive(Debug)]
pub struct ProcessOutput {
    /// Whether the process reported success.
    pub success: bool,
    /// The exit code, where the process ended with one.
    pub code: Option<i32>,
    /// The bytes written to standard output, as far as they were captured.
    pub stdout: Vec<u8>,
    /// The bytes written to standard error, as far as they were captured.
    pub stderr: Vec<u8>,
}

/// The mathematical content of a [`ProcessOutput`].
pub struct ProcessOutputView {
    pub success: bool,
    pub code: Option<i32>,
    pub stdout: Seq<u8>,
    pub stderr: Seq<u8>,
}

impl View for ProcessOutput {
    type V = ProcessOutputView;

    open spec fn view(&self) -> ProcessOutputView {
        ProcessOutputView {
            success: self.success,
            code: self.code,
            stdout: self.stdout@,
            stderr: self.stderr@,
        }
    }
}

/// The exit code reported for a finished process: `0` after success, the process's
/// own code after a failure, `-1` after a failure without a code.
pub open spec fn exit_code_of(success: bool, code: Option<i32>) -> i32 {
    if success {
        0
    } else {
        match code {
            Some(value) => value,
            None => -1i32,
        }
    }
}

/// Whether a status is one that a process can end with: it reports success exactly
/// when its exit code is zero.
pub open spec fn is_exit_status(success: bool, code: Option<i32>) -> bool {
    success == (code == Some(0i32))
}

impl ProcessOutputView {
    /// Whether the status of this output is one that a process can end with.
    pub open spec fn has_exit_status(self) -> bool {
        is_exit_status(self.success, self.code)
    }
}

/// Of a status that a process can end with, the reported exit code is zero exactly
/// after success.
pub proof fn lemma_zero_exactly_after_success(success: bool, code: Option<i32>)
    requires
        is_exit_status(success, code),
    ensures
        exit_code_of(success, code) == 0 <==> success,
{
}

/// Whether `text` is what `bytes` say where they are valid UTF-8: the text that they
/// encode. Of other bytes nothing is asked.
pub open spec fn reads_valid_text(bytes: Seq<u8>, text: Seq<char>) -> bool {
    valid_utf8(bytes) ==> encode_utf8(text) == bytes && text == decode_utf8(bytes)
}

/// Whether the two texts of a reported triple are what the output's bytes say where
/// those are valid UTF-8.
pub open spec fn reads_valid_output(
    output: ProcessOutputView,
    result: (i32, Seq<char>, Seq<char>),
) -> bool {
    reads_valid_text(output.stdout, result.1) && reads_valid_text(output.stderr, result.2)
}

/// The text that `String::from_utf8_lossy` makes of `bytes`, in which every part
/// that is no valid UTF-8 is replaced.
pub uninterp spec fn lossy_text(bytes: Seq<u8>) -> Seq<char>;

/// What is reported of a finished process: its exit code and its two outputs as text.
pub open spec fn collected(output: ProcessOutputView) -> (i32, Seq<char>, Seq<char>) {
    (
        exit_code_of(output.success, output.code),
        lossy_text(output.stdout),
        lossy_text(output.stderr),
    )
}

/// `String::from_utf8_lossy` of std, with its result made an owned string. The text
/// depends on the bytes alone and is named [`lossy_text`]. Valid UTF-8 comes back
/// unchanged; what becomes of other bytes is not stated here.
#[verifier::external_body]
fn decode_lossy(bytes: &Vec<u8>) -> (text: String)
    ensures
        text@ == lossy_text(bytes@),
        valid_utf8(bytes@) ==> encode_utf8(text@) == bytes@,
{
    String::from_utf8_lossy(bytes).into_owned()
}

/// Normalizes an exit status: `0` for a successful process, the raw code of a failed
/// one, `-1` when it ended without a code (as after a signal).
pub fn get_exit_code(success: bool, code: Option<i32>) -> (exit_code: i32)
    ensures
        exit_code == exit_code_of(success, code),
{
    if !success {
        match code {
            Some(value) => value,
            None => -1,
        }
    } else {
        0
    }
}

/// Turns what a finished process left behind into the reported triple: the normalized
/// exit code, standard output and standard error. Output that is valid UTF-8 is
/// reported as the text that it encodes. Other output is decoded with replacement
/// characters; no output is refused.
pub fn collect(output: &ProcessOutput) -> (result: (i32, String, String))
    ensures
        (result.0, result.1@, result.2@) == collected(output@),
        reads_valid_output(output@, (result.0, result.1@, result.2@)),
{
    let exit_code = get_exit_code(output.success, output.code);
    let stdout = decode_lossy(&output.stdout);
    let stderr = decode_lossy(&output.stderr);
    proof {
        encode_utf8_decode_utf8(stdout@);
        encode_utf8_decode_utf8(stderr@);
    }
    (exit_code, stdout, stderr)
}

} // verus!
