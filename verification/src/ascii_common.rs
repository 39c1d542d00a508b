//! What one attempt to read a line ends in.

use vstd::prelude::*;

verus! {

/// `std::io::Error`, the cause of a failed read or write. It is carried
/// through, never looked into.
#[verifier::external_type_specification]
#[verifier::external_body]
pub struct ExIoError(std::io::Error);

/// The result of a call to `AsciiStreamReader::read_line()`.
#[derive(Debug)]
pub enum ReadLineResult {
    /// The number of bytes pushed to the result buf.
    Success(usize),
    /// The end of the stream has been reached.
    EOF,
    /// An error occurred.
    Error(std::io::Error),
}

impl ReadLineResult {
    /// Returns true if the result is `Success`.
    pub fn is_success(&self) -> (b: bool)
        ensures
            b == (*self is Success),
    {
        matches!(self, Self::Success(_))
    }

    /// Returns true if the result is `EOF`.
    pub fn is_eof(&self) -> (b: bool)
        ensures
            b == (*self is EOF),
    {
        matches!(self, Self::EOF)
    }

    /// Returns true if the result is `Error`.
    pub fn is_error(&self) -> (b: bool)
        ensures
            b == (*self is Error),
    {
        matches!(self, Self::Error(_))
    }

    /// Returns the number of bytes read, of a result that is `Success`.
    pub fn unwrap(self) -> (n: usize)
        requires
            self is Success,
        ensures
            self == ReadLineResult::Success(n),
    {
        match self {
            Self::Success(v) => v,
            _ => 0,
        }
    }
}

} // verus!
