//! The error type of the data-loading side of the library.

use vstd::prelude::*;

verus! {

/// What can go wrong while input data is located and loaded.
#[derive(Debug)]
pub enum Error {
    /// The data could not be read, or a required part of it is missing.
    /// The text says which.
    IO(String),
}

impl Error {
    /// The text that comes with the error.
    pub open spec fn detail_text(self) -> Seq<char> {
        match self {
            Error::IO(text) => text@,
        }
    }

    /// The short description of the error's kind, the same for every
    /// detail.
    pub fn describe(&self) -> (text: String)
        ensures
            text@ == "io error"@,
    {
        match self {
            Error::IO(_) => String::from_str("io error"),
        }
    }

    /// The text that comes with the error.
    pub fn detail(&self) -> (text: &str)
        ensures
            text@ == self.detail_text(),
    {
        match self {
            Error::IO(text) => text.as_str(),
        }
    }
}

} // verus!
