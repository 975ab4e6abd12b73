//! The client stub's domain errors and the mapping from transport status
//! codes onto them.
//!
//! The RPC transport reports failures as a numeric status code plus a
//! message. The stub translates that vocabulary, once and in one place, into
//! a closed enumeration: four well-known codes map to named kinds (the
//! internal-error code keeps its message), and every other code falls
//! through to [`Ev3PbError::Other`] with the original code and message
//! preserved. The mapping is a total function of the code and message alone.

use vstd::prelude::*;
use vstd::string::StringExecFns;

verus! {

/// The gRPC status code for "some requested entity was not found".
pub const CODE_NOT_FOUND: i32 = 5;

/// The gRPC status code for "the caller lacks permission".
pub const CODE_PERMISSION_DENIED: i32 = 7;

/// The gRPC status code for "internal error".
pub const CODE_INTERNAL: i32 = 13;

/// The gRPC status code for "the service is currently unavailable".
pub const CODE_UNAVAILABLE: i32 = 14;

/// The client stub's closed error vocabulary. `Transport` stands for a
/// failure to reach the service at all; the rest are mapped from status
/// codes by [`Ev3PbError::from_status`].
#[derive(Clone, PartialEq, Eq, Debug)]
pub enum Ev3PbError {
    Transport,
    NotFound,
    Permission,
    Unavailable,
    Internal(String),
    Other(i32, String),
}

/// The status-code mapping: the four well-known codes go to their named
/// kinds, the internal-error code keeping its message, and every other code
/// goes to `Other` with code and message preserved.
pub open spec fn status_error_spec(code: i32, message: String) -> Ev3PbError {
    if code == CODE_NOT_FOUND {
        Ev3PbError::NotFound
    } else if code == CODE_PERMISSION_DENIED {
        Ev3PbError::Permission
    } else if code == CODE_UNAVAILABLE {
        Ev3PbError::Unavailable
    } else if code == CODE_INTERNAL {
        Ev3PbError::Internal(message)
    } else {
        Ev3PbError::Other(code, message)
    }
}

impl Ev3PbError {
    /// Translates one transport status, given as its code and message, into
    /// the domain error the stub hands its caller.
    pub fn from_code(code: i32, message: String) -> (e: Ev3PbError)
        ensures
            e == status_error_spec(code, message),
    {
        if code == CODE_NOT_FOUND {
            Ev3PbError::NotFound
        } else if code == CODE_PERMISSION_DENIED {
            Ev3PbError::Permission
        } else if code == CODE_UNAVAILABLE {
            Ev3PbError::Unavailable
        } else if code == CODE_INTERNAL {
            Ev3PbError::Internal(message)
        } else {
            Ev3PbError::Other(code, message)
        }
    }
}

#[verifier::external_type_specification]
#[verifier::external_body]
pub struct ExStatus(tonic::Status);

/// Relies on `tonic::Status::code`: returns the status's code, one of the
/// seventeen defined gRPC codes, whose numeric values are `0..=16`.
#[verifier::external_body]
fn status_code(s: &tonic::Status) -> (c: i32)
    ensures
        0 <= c <= 16,
{
    s.code() as i32
}

/// Relies on `tonic::Status::message`: returns the status's human-readable
/// message. Nothing is assumed of its content.
#[verifier::external_body]
fn status_message(s: &tonic::Status) -> String {
    s.message().to_string()
}

impl Ev3PbError {
    /// Translates a transport status into the domain error: reads the
    /// status's code and message and applies [`Ev3PbError::from_code`].
    /// Whatever the status carried, the result is in the mapping's range —
    /// in particular it is never `Transport`, which is reserved for failing
    /// to reach the service at all.
    pub fn from_status(s: &tonic::Status) -> (e: Ev3PbError)
        ensures
            exists|c: i32, m: String| 0 <= c <= 16 && e == status_error_spec(c, m),
            !(e is Transport),
    {
        let code = status_code(s);
        let message = status_message(s);
        let ghost msg0 = message;
        let e = Ev3PbError::from_code(code, message);
        proof {
            assert(0 <= code <= 16 && e == status_error_spec(code, msg0));
        }
        e
    }
}

/// The mapping is total and deterministic: it is a function, defined for
/// every status code, and each code lands on exactly one kind — the four
/// well-known codes on their named kinds, and any other code on `Other`
/// with the original code and message carried along unchanged.
pub proof fn lemma_status_mapping_total(code: i32, message: String)
    ensures
        code == CODE_NOT_FOUND ==> status_error_spec(code, message) == Ev3PbError::NotFound,
        code == CODE_PERMISSION_DENIED ==> status_error_spec(code, message)
            == Ev3PbError::Permission,
        code == CODE_UNAVAILABLE ==> status_error_spec(code, message) == Ev3PbError::Unavailable,
        code == CODE_INTERNAL ==> status_error_spec(code, message) == (Ev3PbError::Internal(
            message,
        )),
        code != CODE_NOT_FOUND && code != CODE_PERMISSION_DENIED && code != CODE_UNAVAILABLE
            && code != CODE_INTERNAL ==> status_error_spec(code, message) == (Ev3PbError::Other(
            code,
            message,
        )),
{
}

/// The name of a gRPC status code, as the transport's own debug rendering
/// spells it; a code outside the defined range reads as `Unknown`.
pub open spec fn code_name_seq(code: i32) -> Seq<char> {
    if code == 0 {
        "Ok"@
    } else if code == 1 {
        "Cancelled"@
    } else if code == 2 {
        "Unknown"@
    } else if code == 3 {
        "InvalidArgument"@
    } else if code == 4 {
        "DeadlineExceeded"@
    } else if code == 5 {
        "NotFound"@
    } else if code == 6 {
        "AlreadyExists"@
    } else if code == 7 {
        "PermissionDenied"@
    } else if code == 8 {
        "ResourceExhausted"@
    } else if code == 9 {
        "FailedPrecondition"@
    } else if code == 10 {
        "Aborted"@
    } else if code == 11 {
        "OutOfRange"@
    } else if code == 12 {
        "Unimplemented"@
    } else if code == 13 {
        "Internal"@
    } else if code == 14 {
        "Unavailable"@
    } else if code == 15 {
        "DataLoss"@
    } else if code == 16 {
        "Unauthenticated"@
    } else {
        "Unknown"@
    }
}

/// Runtime counterpart of [`code_name_seq`].
pub fn code_name(code: i32) -> (r: &'static str)
    ensures
        r@ == code_name_seq(code),
{
    if code == 0 {
        "Ok"
    } else if code == 1 {
        "Cancelled"
    } else if code == 2 {
        "Unknown"
    } else if code == 3 {
        "InvalidArgument"
    } else if code == 4 {
        "DeadlineExceeded"
    } else if code == 5 {
        "NotFound"
    } else if code == 6 {
        "AlreadyExists"
    } else if code == 7 {
        "PermissionDenied"
    } else if code == 8 {
        "ResourceExhausted"
    } else if code == 9 {
        "FailedPrecondition"
    } else if code == 10 {
        "Aborted"
    } else if code == 11 {
        "OutOfRange"
    } else if code == 12 {
        "Unimplemented"
    } else if code == 13 {
        "Internal"
    } else if code == 14 {
        "Unavailable"
    } else if code == 15 {
        "DataLoss"
    } else if code == 16 {
        "Unauthenticated"
    } else {
        "Unknown"
    }
}

/// The human-readable rendering of each error kind, character for character.
pub open spec fn display_seq(e: Ev3PbError) -> Seq<char> {
    match e {
        Ev3PbError::Transport => "Transport error"@,
        Ev3PbError::NotFound => "Not found"@,
        Ev3PbError::Permission => "Permission denied"@,
        Ev3PbError::Unavailable => "Service unavailable"@,
        Ev3PbError::Internal(m) => "Internal error: "@ + m@,
        Ev3PbError::Other(c, m) => "gRPC error "@ + code_name_seq(c) + ": "@ + m@,
    }
}

impl Ev3PbError {
    /// The error's display line, as [`display_seq`] spells it.
    pub fn display_string(&self) -> (s: String)
        ensures
            s@ == display_seq(*self),
    {
        match self {
            Ev3PbError::Transport => String::from_str("Transport error"),
            Ev3PbError::NotFound => String::from_str("Not found"),
            Ev3PbError::Permission => String::from_str("Permission denied"),
            Ev3PbError::Unavailable => String::from_str("Service unavailable"),
            Ev3PbError::Internal(m) => String::from_str("Internal error: ").concat(m.as_str()),
            Ev3PbError::Other(c, m) => String::from_str("gRPC error ").concat(code_name(*c)).concat(
                ": ",
            ).concat(m.as_str()),
        }
    }
}

} // verus!
