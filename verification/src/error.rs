//! The library's error type and a context helper for results and options.

use vstd::prelude::*;
use std::fmt::Write;

verus! {

/// Errors of the media library. Each variant keeps the text of the error it
/// stands for.
#[derive(Debug)]
pub enum Error {
    /// An FFmpeg error, by its message.
    Ffmpeg(String),
    /// An I/O error, by its message.
    Io(String),
    /// A string with an interior NUL byte, by the error's message.
    Nul(String),
    /// Any other error.
    Other(String),
}

pub type Result<T> = core::result::Result<T, Error>;

/// The text shown for an error.
pub open spec fn error_message(e: Error) -> Seq<char> {
    match e {
        Error::Ffmpeg(m) => m@,
        Error::Io(m) => "IO error: "@ + m@,
        Error::Nul(m) => "NulError: "@ + m@,
        Error::Other(m) => m@,
    }
}

impl Error {
    /// The text shown for this error.
    pub fn message(&self) -> (r: String)
        ensures
            r@ == error_message(*self),
    {
        match self {
            Error::Ffmpeg(m) => m.clone(),
            Error::Io(m) => {
                let mut s = "IO error: ".to_string();
                s.append(m.as_str());
                s
            },
            Error::Nul(m) => {
                let mut s = "NulError: ".to_string();
                s.append(m.as_str());
                s
            },
            Error::Other(m) => m.clone(),
        }
    }
}

/// Calls `write!(s, "{err}")` on an empty `String`, ignoring a formatting
/// error (which only the `Display` impl of `err` can raise; the text is then
/// cut short). Nothing is claimed of the text: it is whatever that impl
/// writes.
#[verifier::external_body]
fn display_text<E: std::fmt::Display>(err: &E) -> String {
    let mut s = String::new();
    let _ = write!(s, "{err}");
    s
}

/// Converts a `Result<T, E>` or an `Option<T>` into a `Result<T>` with a
/// context message.
pub trait ResultExt<T>: Sized {
    fn context(self, msg: &str) -> Result<T>;
}

impl<T, E: std::fmt::Display> ResultExt<T> for core::result::Result<T, E> {
    /// `Ok` is kept; an error becomes `Error::Other` with the message, `": "`
    /// and the error's text.
    fn context(self, msg: &str) -> (r: Result<T>)
        ensures
            match self {
                Ok(v) => r == Ok::<T, Error>(v),
                Err(_) => r matches Err(Error::Other(m)) && exists|t: Seq<char>| m@ == msg@ + ": "@ + t,
            },
    {
        match self {
            Ok(v) => Ok(v),
            Err(e) => {
                let text = display_text(&e);
                let mut m = msg.to_string();
                m.append(": ");
                m.append(text.as_str());
                assert(m@ == msg@ + ": "@ + text@);
                Err(Error::Other(m))
            },
        }
    }
}

impl<T> ResultExt<T> for Option<T> {
    /// `Some` becomes `Ok`; `None` becomes `Error::Other` with the message.
    fn context(self, msg: &str) -> (r: Result<T>)
        ensures
            match self {
                Some(v) => r == Ok::<T, Error>(v),
                None => r matches Err(Error::Other(m)) && m@ == msg@,
            },
    {
        match self {
            Some(v) => Ok(v),
            None => Err(Error::Other(msg.to_string())),
        }
    }
}

} // verus!
