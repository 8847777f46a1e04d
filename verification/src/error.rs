//! The errors of the crate: a name that names no variant, and the errors
//! that end the program, each with the text of what caused it.

use vstd::prelude::*;

verus! {

pub const SERDE_TOML_PREFIX: &'static str = "Serde Toml Error: ";

pub const IO_PREFIX: &'static str = "std::io Error: ";

pub const REQWEST_PREFIX: &'static str = "reqwest: ";

pub const ZIP_ARCHIVE_PREFIX: &'static str = "Zip Archive Error: ";

/// Why a name could not be read as a value of an enumeration.
#[derive(Clone, Copy, Debug, PartialEq, Eq, Structural)]
pub enum ParseError {
    /// No variant has the name that was given.
    VariantNotFound,
}

/// An error that the program cannot recover from. Each variant holds the
/// text of the error that it passes on.
#[derive(Debug)]
pub enum Error {
    /// The configuration is not what its format asks for.
    SerdeToml(String),
    /// Reading or writing failed.
    IO(String),
    /// A request over the network failed.
    Reqwest(String),
    /// An archive could not be read.
    ZipArchive(String),
}

impl Error {
    /// The text that the variant puts before the cause.
    pub open spec fn prefix(self) -> Seq<char> {
        match self {
            Error::SerdeToml(_) => SERDE_TOML_PREFIX@,
            Error::IO(_) => IO_PREFIX@,
            Error::Reqwest(_) => REQWEST_PREFIX@,
            Error::ZipArchive(_) => ZIP_ARCHIVE_PREFIX@,
        }
    }

    /// The text of the cause.
    pub open spec fn cause(self) -> Seq<char> {
        match self {
            Error::SerdeToml(cause) => cause@,
            Error::IO(cause) => cause@,
            Error::Reqwest(cause) => cause@,
            Error::ZipArchive(cause) => cause@,
        }
    }

    /// The message of the error: the variant's prefix, then the cause.
    pub open spec fn text(self) -> Seq<char> {
        self.prefix() + self.cause()
    }

    /// The message of the error.
    pub fn to_string(&self) -> (message: String)
        ensures
            message@ == self.text(),
    {
        match self {
            Error::SerdeToml(cause) => String::from_str(SERDE_TOML_PREFIX).concat(cause.as_str()),
            Error::IO(cause) => String::from_str(IO_PREFIX).concat(cause.as_str()),
            Error::Reqwest(cause) => String::from_str(REQWEST_PREFIX).concat(cause.as_str()),
            Error::ZipArchive(cause) => String::from_str(ZIP_ARCHIVE_PREFIX).concat(
                cause.as_str(),
            ),
        }
    }
}

} // verus!
