//! What a private Lambda invocation's answer means: an error of the
//! function, a missing payload, or a payload to decode.
use vstd::prelude::*;
use vstd::utf8::{decode_utf8, valid_utf8};
use crate::text::{bytes_to_text_lossy, utf8_lossy_text};

verus! {

/// Ways an invocation of a private Lambda function can fail.
pub enum InvocationError {
    InvocationFailed(String),
    SerializationError(String),
    DeserializationError(String),
    LambdaError(String),
}

impl InvocationError {
    /// The text an `InvocationError` is displayed with.
    pub open spec fn text(&self) -> Seq<char> {
        match self {
            InvocationError::InvocationFailed(s) => "Lambda invocation failed: "@ + s@,
            InvocationError::SerializationError(s) => "Failed to serialize request: "@ + s@,
            InvocationError::DeserializationError(s) => "Failed to deserialize response: "@ + s@,
            InvocationError::LambdaError(s) => "Lambda returned error: "@ + s@,
        }
    }

    /// The text this error is displayed with.
    pub fn message(&self) -> (r: String)
        ensures
            r@ == self.text(),
    {
        let (prefix, detail) = match self {
            InvocationError::InvocationFailed(s) => ("Lambda invocation failed: ", s),
            InvocationError::SerializationError(s) => ("Failed to serialize request: ", s),
            InvocationError::DeserializationError(s) => ("Failed to deserialize response: ", s),
            InvocationError::LambdaError(s) => ("Lambda returned error: ", s),
        };
        let mut m = String::from_str(prefix);
        m.append(detail.as_str());
        m
    }
}

/// The text shown for the payload of a failed function: the payload read as
/// UTF-8 (lossily), or a placeholder when there is none.
pub open spec fn error_payload_text(payload: Option<Seq<u8>>) -> Seq<char> {
    match payload {
        Some(p) => utf8_lossy_text(p),
        None => "<no error payload>"@,
    }
}

pub open spec fn opt_bytes(o: Option<&[u8]>) -> Option<Seq<u8>> {
    match o {
        Some(b) => Some(b@),
        None => None,
    }
}

/// Reads the answer of an invocation: a function error becomes
/// `LambdaError("{function_error}: {payload text}")`; otherwise a missing
/// payload is a `DeserializationError`; otherwise the payload is handed on.
pub fn check_invocation_output<'a>(function_error: Option<&str>, payload: Option<&'a [u8]>) -> (r:
    Result<&'a [u8], InvocationError>)
    ensures
        r is Ok <==> (function_error is None && payload is Some),
        r matches Ok(p) ==> payload matches Some(q) && p@ == q@,
        function_error matches Some(fe) ==> (r matches Err(InvocationError::LambdaError(m)) && m@
            == fe@ + ": "@ + error_payload_text(opt_bytes(payload))),
        (function_error is None && payload is None) ==> (r matches Err(
            InvocationError::DeserializationError(m),
        ) && m@ == "No payload returned"@),
        function_error matches Some(fe) ==> (payload matches Some(p) ==> (valid_utf8(p@) ==> (
        r matches Err(InvocationError::LambdaError(m)) && m@ == fe@ + ": "@ + decode_utf8(p@)))),
{
    match function_error {
        Some(fe) => {
            let text = match payload {
                Some(p) => bytes_to_text_lossy(p),
                None => String::from_str("<no error payload>"),
            };
            let mut m = String::from_str(fe);
            m.append(": ");
            m.append(text.as_str());
            Err(InvocationError::LambdaError(m))
        },
        None => match payload {
            Some(p) => Ok(p),
            None => Err(InvocationError::DeserializationError(String::from_str("No payload returned"))),
        },
    }
}

} // verus!
