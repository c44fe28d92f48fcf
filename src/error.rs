use vstd::prelude::*;

verus! {

#[verifier::external_type_specification]
#[verifier::external_body]
pub struct ExIoError(std::io::Error);

/// Relies on std::io::Error::raw_os_error: the platform error code that an
/// error carries, if any.
pub assume_specification[ std::io::Error::raw_os_error ](e: &std::io::Error) -> Option<i32>;

/// Relies on std::io::Error::last_os_error: the error that the platform most
/// recently reported to this thread. Nothing is known of its value.
#[verifier::external_body]
fn last_os_error() -> std::io::Error {
    std::io::Error::last_os_error()
}

/// The one error of this library: a call on a terminal device failed, for the
/// reason that the platform gave as `code`.
#[derive(Clone, Copy, Debug, PartialEq, Eq, Structural)]
pub struct OsError {
    pub code: Option<i32>,
}

impl OsError {
    /// The error that the platform most recently reported to this thread.
    pub fn last_os_error() -> OsError {
        let e = last_os_error();
        OsError { code: e.raw_os_error() }
    }

    /// An error with the given platform code.
    pub fn from_raw_os_error(code: i32) -> (r: OsError)
        ensures
            r.code == Some(code),
    {
        OsError { code: Some(code) }
    }
}

/// Integer results of platform calls, which report failure as `-1`.
pub trait IsMinusOne {
    /// The value as a mathematical integer.
    spec fn value(&self) -> int;

    fn is_minus_one(&self) -> (r: bool)
        ensures
            r == (self.value() == -1),
    ;
}

impl IsMinusOne for i8 {
    open spec fn value(&self) -> int {
        *self as int
    }

    fn is_minus_one(&self) -> (r: bool) {
        *self == -1
    }
}

impl IsMinusOne for i16 {
    open spec fn value(&self) -> int {
        *self as int
    }

    fn is_minus_one(&self) -> (r: bool) {
        *self == -1
    }
}

impl IsMinusOne for i32 {
    open spec fn value(&self) -> int {
        *self as int
    }

    fn is_minus_one(&self) -> (r: bool) {
        *self == -1
    }
}

impl IsMinusOne for i64 {
    open spec fn value(&self) -> int {
        *self as int
    }

    fn is_minus_one(&self) -> (r: bool) {
        *self == -1
    }
}

impl IsMinusOne for isize {
    open spec fn value(&self) -> int {
        *self as int
    }

    fn is_minus_one(&self) -> (r: bool) {
        *self == -1
    }
}

/// Turns the result of a platform call into a `Result`: `-1` becomes the
/// error that the platform last reported, any other value is handed back.
pub fn convert_to_result<T: IsMinusOne>(t: T) -> (r: Result<T, OsError>)
    ensures
        r is Err <==> t.value() == -1,
        r is Ok ==> r->Ok_0 == t,
{
    if t.is_minus_one() {
        Err(OsError::last_os_error())
    } else {
        Ok(t)
    }
}

} // verus!
