//! The error type shared by the server and the client.
use vstd::prelude::*;

use vstd::std_specs::convert::FromSpecImpl;

use crate::text::push_str;

verus! {

#[verifier::external_type_specification]
#[verifier::external_body]
pub struct ExIoError(std::io::Error);

/// `<std::io::Error as Display>::fmt`: nothing is stated of the text; for
/// an operating-system error it is the system's message.
#[verifier::external_body]
fn io_error_text(e: &std::io::Error) -> String {
    e.to_string()
}

#[derive(Debug)]
pub enum Error {
    Config(String),
    Io(std::io::Error),
    Database(String),
    Grpc(String),
    Ipp(String),
    Print(String),
    Ipc(String),
}

/// The prefix naming the kind of an error in its message.
pub open spec fn error_prefix(e: Error) -> Seq<char> {
    match e {
        Error::Config(_) => "config error: "@,
        Error::Io(_) => "io error: "@,
        Error::Database(_) => "database error: "@,
        Error::Grpc(_) => "grpc error: "@,
        Error::Ipp(_) => "ipp error: "@,
        Error::Print(_) => "print error: "@,
        Error::Ipc(_) => "ipc error: "@,
    }
}

impl Error {
    /// The error's message: its kind (`config error: `, `io error: `, ...)
    /// followed by the detail it carries.
    pub fn to_string(&self) -> (r: String)
        ensures
            r@.subrange(0, error_prefix(*self).len() as int) == error_prefix(*self),
            r@.len() >= error_prefix(*self).len(),
            match *self {
                Error::Config(m) => r@ == error_prefix(*self) + m@,
                Error::Database(m) => r@ == error_prefix(*self) + m@,
                Error::Grpc(m) => r@ == error_prefix(*self) + m@,
                Error::Ipp(m) => r@ == error_prefix(*self) + m@,
                Error::Print(m) => r@ == error_prefix(*self) + m@,
                Error::Ipc(m) => r@ == error_prefix(*self) + m@,
                Error::Io(_) => true,
            },
    {
        let mut s = String::new();
        let detail: String = match self {
            Error::Config(m) => {
                push_str(&mut s, "config error: ");
                m.clone()
            },
            Error::Io(e) => {
                push_str(&mut s, "io error: ");
                io_error_text(e)
            },
            Error::Database(m) => {
                push_str(&mut s, "database error: ");
                m.clone()
            },
            Error::Grpc(m) => {
                push_str(&mut s, "grpc error: ");
                m.clone()
            },
            Error::Ipp(m) => {
                push_str(&mut s, "ipp error: ");
                m.clone()
            },
            Error::Print(m) => {
                push_str(&mut s, "print error: ");
                m.clone()
            },
            Error::Ipc(m) => {
                push_str(&mut s, "ipc error: ");
                m.clone()
            },
        };
        let ghost prefix = s@;
        push_str(&mut s, detail.as_str());
        assert(s@.subrange(0, prefix.len() as int) =~= prefix);
        s
    }
}

impl From<std::io::Error> for Error {
    fn from(e: std::io::Error) -> (r: Self) {
        Error::Io(e)
    }
}

impl FromSpecImpl<std::io::Error> for Error {
    open spec fn obeys_from_spec() -> bool {
        true
    }

    open spec fn from_spec(v: std::io::Error) -> Self {
        Error::Io(v)
    }
}

} // verus!
