//! The error type shared by every operation of the protocol core.

use vstd::prelude::*;

verus! {

/// Declares `std::io::Error` so that it can be carried inside [`Error`].
/// Values of it are opaque to the verifier; the library only stores and
/// returns them.
#[verifier::external_type_specification]
#[verifier::external_body]
pub struct ExIoError(std::io::Error);

/// Declares `core::str::Utf8Error`, the error of `core::str::from_utf8`,
/// so that it can be carried inside [`Error`].
#[verifier::external_type_specification]
#[verifier::external_body]
pub struct ExUtf8Error(core::str::Utf8Error);

/// The errors that may occur using `wpactrl`
#[derive(Debug)]
pub enum Error {
    /// Represents all cases of `std::io::Error`.
    Io(std::io::Error),
    /// Represents a failure to interpret a sequence of u8 as a string slice.
    Utf8ToStr(core::str::Utf8Error),
    /// Represents a failed `ATTACH` request to wpasupplicant.
    Attach,
    /// Represents a failed `DETACH` request to wpasupplicant.
    Detach,
    /// Error waiting for a response
    Wait,
}

impl Error {
    /// One line of text describing the error.  The carried `std::io::Error`
    /// or `core::str::Utf8Error` is opaque here; the embedding application
    /// renders it alongside this text where it reports errors.
    pub fn message(&self) -> (r: String)
        ensures
            self is Io ==> r@ == "Failed to execute the specified command"@,
            self is Utf8ToStr ==> r@ == "Failed to parse UTF8 to string"@,
            self is Attach ==> r@ == "Failed to attach to wpasupplicant"@,
            self is Detach ==> r@ == "Failed to detach from wpasupplicant"@,
            self is Wait ==> r@ == "Unable to wait for response from wpasupplicant"@,
    {
        match self {
            Error::Io(_) => "Failed to execute the specified command".to_owned(),
            Error::Utf8ToStr(_) => "Failed to parse UTF8 to string".to_owned(),
            Error::Attach => "Failed to attach to wpasupplicant".to_owned(),
            Error::Detach => "Failed to detach from wpasupplicant".to_owned(),
            Error::Wait => "Unable to wait for response from wpasupplicant".to_owned(),
        }
    }
}

impl From<std::io::Error> for Error {
    fn from(err: std::io::Error) -> (r: Self)
        ensures
            r == Error::Io(err),
    {
        Self::Io(err)
    }
}

impl vstd::std_specs::convert::FromSpecImpl<std::io::Error> for Error {
    open spec fn obeys_from_spec() -> bool {
        true
    }

    open spec fn from_spec(err: std::io::Error) -> Self {
        Error::Io(err)
    }
}

impl From<core::str::Utf8Error> for Error {
    fn from(err: core::str::Utf8Error) -> (r: Self)
        ensures
            r == Error::Utf8ToStr(err),
    {
        Self::Utf8ToStr(err)
    }
}

impl vstd::std_specs::convert::FromSpecImpl<core::str::Utf8Error> for Error {
    open spec fn obeys_from_spec() -> bool {
        true
    }

    open spec fn from_spec(err: core::str::Utf8Error) -> Self {
        Error::Utf8ToStr(err)
    }
}

} // verus!
