use vstd::prelude::*;

use crate::text::{push_str, string_of};

verus! {

/// `std::io::Error`, carried through by [`Error::Io`].
#[verifier::external_type_specification]
#[verifier::external_body]
pub struct ExIoError(std::io::Error);

/// Unified error type for the application.
#[derive(Debug)]
pub enum Error {
    /// IOKit / Win32 HID seizing failed.
    Seize(String),
    /// CGEvent / SendInput injection failed.
    Inject(String),
    /// Config file error (parse, read, write).
    Config(String),
    /// I/O error (file system).
    Io(std::io::Error),
    /// Generic runtime error.
    Other(String),
}

/// Calls the `Display` impl of `std::io::Error`. Nothing is stated of the
/// text: for an OS error it comes from the operating system.
#[verifier::external_body]
fn io_error_text(e: &std::io::Error) -> String {
    format!("{}", e)
}

/// The prefix of the message of each kind of error.
pub open spec fn error_prefix(e: Error) -> Seq<char> {
    match e {
        Error::Seize(_) => "seize error: "@,
        Error::Inject(_) => "inject error: "@,
        Error::Config(_) => "config error: "@,
        Error::Io(_) => "io error: "@,
        Error::Other(_) => Seq::empty(),
    }
}

impl Error {
    /// The human-readable message: the kind's prefix followed by the detail.
    pub fn to_string(&self) -> (r: String)
        ensures
            r@.len() >= error_prefix(*self).len(),
            r@.take(error_prefix(*self).len() as int) == error_prefix(*self),
            match *self {
                Error::Seize(m) => r@ == "seize error: "@ + m@,
                Error::Inject(m) => r@ == "inject error: "@ + m@,
                Error::Config(m) => r@ == "config error: "@ + m@,
                Error::Io(_) => true,
                Error::Other(m) => r@ == m@,
            },
    {
        match self {
            Error::Seize(m) => {
                let mut r = string_of("seize error: ");
                push_str(&mut r, m.as_str());
                assert(r@.take(error_prefix(*self).len() as int) == error_prefix(*self));
                r
            },
            Error::Inject(m) => {
                let mut r = string_of("inject error: ");
                push_str(&mut r, m.as_str());
                assert(r@.take(error_prefix(*self).len() as int) == error_prefix(*self));
                r
            },
            Error::Config(m) => {
                let mut r = string_of("config error: ");
                push_str(&mut r, m.as_str());
                assert(r@.take(error_prefix(*self).len() as int) == error_prefix(*self));
                r
            },
            Error::Io(e) => {
                let mut r = string_of("io error: ");
                let t = io_error_text(e);
                push_str(&mut r, t.as_str());
                assert(r@.take(error_prefix(*self).len() as int) == error_prefix(*self));
                r
            },
            Error::Other(m) => {
                let r = string_of(m.as_str());
                assert(r@.take(0) == Seq::<char>::empty());
                r
            },
        }
    }
}

impl From<std::io::Error> for Error {
    fn from(e: std::io::Error) -> (r: Error) {
        Error::Io(e)
    }
}

impl vstd::std_specs::convert::FromSpecImpl<std::io::Error> for Error {
    open spec fn obeys_from_spec() -> bool {
        true
    }

    open spec fn from_spec(e: std::io::Error) -> Error {
        Error::Io(e)
    }
}

} // verus!
