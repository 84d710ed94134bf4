//! Turning a captured run into decoded output: the error taxonomy applied
//! to how the run went, the output bytes validated as text, and the text
//! either trimmed whole or handed to the tokenizer.

use vstd::prelude::*;
use vstd::utf8::decode_utf8;
use vstd::utf8::valid_utf8;

use crate::process::DecodeFailure;
use crate::process::Error;
use crate::process::Output;
use crate::process::SpawnOutcome;
use crate::text::trim_text;
use crate::text::trimmed;
use crate::tokens::SpaceSeparatedStrings;

verus! {

/// Relies on `String::from_utf8`: it succeeds exactly on valid UTF-8, the
/// returned string holds the decoding of the bytes, and its error hands the
/// bytes back together with the length of their longest valid prefix (from
/// `FromUtf8Error::into_bytes` and `Utf8Error::valid_up_to`).
#[verifier::external_body]
fn decode_bytes(bytes: &Vec<u8>) -> (r: Result<String, DecodeFailure>)
    ensures
        match r {
            Ok(s) => valid_utf8(bytes@) && s@ == decode_utf8(bytes@),
            Err(e) => !valid_utf8(bytes@) && e.bytes@ == bytes@ && e.valid_up_to <= bytes@.len()
                && valid_utf8(bytes@.take(e.valid_up_to as int)),
        },
{
    match String::from_utf8(bytes.clone()) {
        Ok(s) => Ok(s),
        Err(e) => {
            let valid_up_to = e.utf8_error().valid_up_to();
            Err(DecodeFailure { bytes: e.into_bytes(), valid_up_to })
        },
    }
}

/// Applies the error taxonomy to how the run went: a launch failure or an
/// unsuccessful exit becomes the corresponding error, a successful run
/// hands back the captured output untouched.
pub fn successful_output(outcome: SpawnOutcome) -> (r: Result<Output, Error>)
    ensures
        match outcome {
            SpawnOutcome::LaunchFailed(f) => r == Err::<Output, Error>(Error::UnableToInvoke(f)),
            SpawnOutcome::Completed(out) => if out.status.success {
                r == Ok::<Output, Error>(out)
            } else {
                r == Err::<Output, Error>(Error::BadExitCode(out))
            },
        },
{
    match outcome {
        SpawnOutcome::LaunchFailed(f) => Err(Error::UnableToInvoke(f)),
        SpawnOutcome::Completed(out) => {
            if out.status.success {
                Ok(out)
            } else {
                Err(Error::BadExitCode(out))
            }
        },
    }
}

/// What whole-string decoding returns for every way the run can have gone:
/// each failure origin maps to its own error variant, and a successful,
/// decodable run yields the trimmed text.
pub open spec fn text_decode_post(outcome: SpawnOutcome, r: Result<String, Error>) -> bool {
    match outcome {
        SpawnOutcome::LaunchFailed(f) => r == Err::<String, Error>(Error::UnableToInvoke(f)),
        SpawnOutcome::Completed(out) => if !out.status.success {
            r == Err::<String, Error>(Error::BadExitCode(out))
        } else if valid_utf8(out.stdout@) {
            r matches Ok(s) && s@ == trimmed(decode_utf8(out.stdout@))
        } else {
            r matches Err(Error::Utf8(d)) && d.bytes@ == out.stdout@
        },
    }
}

/// What tokenized decoding returns for every way the run can have gone: the
/// same taxonomy, and a successful, decodable run yields a fresh tokenizer
/// over the whole decoded text.
pub open spec fn words_decode_post(
    outcome: SpawnOutcome,
    r: Result<SpaceSeparatedStrings, Error>,
) -> bool {
    match outcome {
        SpawnOutcome::LaunchFailed(f) => r == Err::<SpaceSeparatedStrings, Error>(
            Error::UnableToInvoke(f),
        ),
        SpawnOutcome::Completed(out) => if !out.status.success {
            r == Err::<SpaceSeparatedStrings, Error>(Error::BadExitCode(out))
        } else if valid_utf8(out.stdout@) {
            r matches Ok(t) && t.text() == decode_utf8(out.stdout@) && t.cursor() == 0
        } else {
            r matches Err(Error::Utf8(d)) && d.bytes@ == out.stdout@
        },
    }
}

/// A filesystem path reported by the external tool, held as its text; the
/// caller turns it into its platform's path type.
#[derive(Debug, Clone)]
pub struct DirPath {
    pub text: String,
}

/// What the path-valued operations return: the whole-string decode, with
/// the trimmed text wrapped as a path.
pub open spec fn path_decode_post(outcome: SpawnOutcome, r: Result<DirPath, Error>) -> bool {
    match outcome {
        SpawnOutcome::LaunchFailed(f) => r == Err::<DirPath, Error>(Error::UnableToInvoke(f)),
        SpawnOutcome::Completed(out) => if !out.status.success {
            r == Err::<DirPath, Error>(Error::BadExitCode(out))
        } else if valid_utf8(out.stdout@) {
            r matches Ok(p) && p.text@ == trimmed(decode_utf8(out.stdout@))
        } else {
            r matches Err(Error::Utf8(d)) && d.bytes@ == out.stdout@
        },
    }
}

/// Wraps a whole-string decode as a path.
pub(crate) fn path_from(r: Result<String, Error>) -> (p: Result<DirPath, Error>)
    ensures
        match r {
            Ok(s) => p == Ok::<DirPath, Error>(DirPath { text: s }),
            Err(e) => p == Err::<DirPath, Error>(e),
        },
{
    match r {
        Ok(s) => Ok(DirPath { text: s }),
        Err(e) => Err(e),
    }
}

/// Whole-string mode: propagate any failure of the run, validate the output
/// bytes as text, and hand back the trimmed text.
pub fn stdout_trimmed(outcome: SpawnOutcome) -> (r: Result<String, Error>)
    ensures
        text_decode_post(outcome, r),
{
    let out = match successful_output(outcome) {
        Ok(o) => o,
        Err(e) => return Err(e),
    };
    match decode_bytes(&out.stdout) {
        Ok(text) => Ok(trim_text(text.as_str())),
        Err(d) => Err(Error::Utf8(d)),
    }
}

/// Tokenized mode: propagate any failure of the run, validate the output
/// bytes as text, and hand back the lazy tokenizer over the whole text
/// (trimming is implicit, since the tokenizer skips surrounding whitespace).
pub fn stdout_words(outcome: SpawnOutcome) -> (r: Result<SpaceSeparatedStrings, Error>)
    ensures
        words_decode_post(outcome, r),
{
    let out = match successful_output(outcome) {
        Ok(o) => o,
        Err(e) => return Err(e),
    };
    match decode_bytes(&out.stdout) {
        Ok(text) => Ok(SpaceSeparatedStrings::new(text.as_str())),
        Err(d) => Err(Error::Utf8(d)),
    }
}

} // verus!
