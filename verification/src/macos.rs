//! The macOS adapter: the code-signature test that every call meets before
//! it reaches the native side, and the reading of what the native side answers.

use crate::error::{IapError, IapErrorModel};
use crate::foreign::json_error_text;
use crate::text::{push_signed_decimal, signed_decimal};
use vstd::prelude::*;

verus! {

/// What the native side answers to a call.
#[derive(Debug, Clone)]
pub enum FFIResult {
    /// The response, as a JSON string.
    Success(String),
    /// The message of a failure.
    Failure(String),
}

/// The two checks of the running program's code signature, in their order:
/// a reference to the program's own code is had, then the code is
/// validated.
#[derive(Debug, Clone, Copy, PartialEq, Eq, Structural)]
pub enum SignatureCheck {
    CodeReference,
    Validity,
}

/// The failure of a signature check that ended with a status other than 0.
pub open spec fn signature_failure_model(check: SignatureCheck, status: i32) -> IapErrorModel {
    IapErrorModel::Io(
        match check {
            SignatureCheck::CodeReference => "Failed to get code reference: OSStatus "@,
            SignatureCheck::Validity => "Code signature validation failed: OSStatus "@,
        } + signed_decimal(status as int),
    )
}

/// Judges the status with which a signature check ended: 0 lets the call
/// go on, and every other status stops it before the native side is
/// reached.
pub fn is_signature_valid(check: SignatureCheck, status: i32) -> (r: Result<(), IapError>)
    ensures
        r is Ok <==> status == 0,
        r matches Err(failure) ==> failure@ == signature_failure_model(check, status),
{
    if status == 0 {
        return Ok(());
    }
    let mut message: String = match check {
        SignatureCheck::CodeReference => String::from_str("Failed to get code reference: OSStatus "),
        SignatureCheck::Validity => String::from_str("Code signature validation failed: OSStatus "),
    };
    push_signed_decimal(&mut message, status as i64);
    Err(IapError::Io(message))
}

/// Whether `result` is what the outcome of decoding a response comes to: the
/// decoded value, or a local failure where there is none.
pub open spec fn decoded_as<T>(outcome: Result<T, serde_json::Error>, result: Result<T, IapError>) -> bool {
    match outcome {
        Ok(value) => result == Ok::<T, IapError>(value),
        Err(_) => result matches Err(failure) && failure is Io,
    }
}

/// Turns the outcome of decoding a response into the outcome of the call: a
/// response that cannot be decoded is a local failure, whose message is
/// the decoder's.
pub fn decoded<T>(outcome: Result<T, serde_json::Error>) -> (r: Result<T, IapError>)
    ensures
        decoded_as(outcome, r),
{
    match outcome {
        Ok(value) => Ok(value),
        Err(error) => Err(IapError::Io(json_error_text(&error))),
    }
}

/// Turns the answer of the native side into the outcome of the call.
///
/// A response is handed to `decode`, and what it decodes to is the result;
/// a response that cannot be decoded is a local failure. A failure of the
/// native side is a local failure with the native message, and `decode` is
/// not called.
pub fn to_result<T, F: FnOnce(String) -> Result<T, serde_json::Error>>(
    bridged: FFIResult,
    decode: F,
) -> (r: Result<T, IapError>)
    requires
        bridged matches FFIResult::Success(response) ==> decode.requires((response,)),
    ensures
        match bridged {
            FFIResult::Success(response) => exists|outcome: Result<T, serde_json::Error>|
                #[trigger] decode.ensures((response,), outcome) && decoded_as(outcome, r),
            FFIResult::Failure(message) => r matches Err(failure) && failure@
                == IapErrorModel::Io(message@),
        },
{
    match bridged {
        FFIResult::Success(response) => {
            let outcome = decode(response);
            decoded(outcome)
        },
        FFIResult::Failure(message) => Err(IapError::Io(message)),
    }
}

} // verus!
