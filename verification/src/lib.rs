//! Reading and writing of Mupen64 movie files: a byte-exact binary layer
//! ([`RawMovie`]) and a validated, grouped view of the same data ([`Movie`]).

pub mod bits;
pub mod movie;
pub mod parsed;
pub mod raw;
pub mod shared;

pub use movie::ControllerButton;
pub use parsed::Movie;
pub use raw::RawMovie;

use core::str::Utf8Error;
use vstd::prelude::*;

verus! {

/// The error of the standard library for bytes that are not UTF-8. Nothing of
/// its contents is visible to proofs; it is carried through to the caller.
#[verifier::external_type_specification]
#[verifier::external_body]
pub struct ExUtf8Error(Utf8Error);

/// What can go wrong when a fixed-capacity string is built.
#[derive(Debug)]
pub enum EncodedFixedStrError {
    /// The bytes are not valid UTF-8.
    Utf8Error(Utf8Error),
    /// The string holds a character outside ASCII; the payload is the string.
    InvalidAscii(String),
    /// The string does not fit the capacity; the payload is the string.
    ZStrError(String),
}

/// What can go wrong when the header's version fields are interpreted.
#[derive(Debug)]
pub enum MovieParseError {
    /// The format version is not 3.
    UnsupportedVersion(u32),
    /// The extended version is neither 0 nor 1.
    UnsupportedExtendedVersion(u8),
}

/// Every way in which reading or writing a movie can fail.
#[derive(Debug)]
pub enum MovieError {
    /// The data does not start with the four signature bytes.
    BadMagic,
    /// The start type is none of 1, 2 and 4.
    BadStartType(u16),
    /// A field that belongs to extended version 1 is set in a movie of
    /// another extended version.
    InvalidExtensionState,
    /// The data ends inside the header or inside an input sample.
    TruncatedInput,
    /// A string field could not be read or written.
    FixedStrError(EncodedFixedStrError),
    /// The version fields name a format that is not supported.
    MovieParseError(MovieParseError),
}

/// The mathematical content of a [`MovieError`]: which rule was violated,
/// and by what value.
pub enum Fault {
    BadMagic,
    UnsupportedVersion(u32),
    UnsupportedExtendedVersion(u8),
    InvalidExtensionState,
    BadStartType(u16),
    TruncatedInput,
    InvalidUtf8,
    InvalidAscii(Seq<char>),
    StringTooLong(Seq<char>),
}

impl View for EncodedFixedStrError {
    type V = Fault;

    open spec fn view(&self) -> Fault {
        match *self {
            EncodedFixedStrError::Utf8Error(_) => Fault::InvalidUtf8,
            EncodedFixedStrError::InvalidAscii(s) => Fault::InvalidAscii(s@),
            EncodedFixedStrError::ZStrError(s) => Fault::StringTooLong(s@),
        }
    }
}

impl View for MovieParseError {
    type V = Fault;

    open spec fn view(&self) -> Fault {
        match *self {
            MovieParseError::UnsupportedVersion(v) => Fault::UnsupportedVersion(v),
            MovieParseError::UnsupportedExtendedVersion(v) => Fault::UnsupportedExtendedVersion(v),
        }
    }
}

impl View for MovieError {
    type V = Fault;

    open spec fn view(&self) -> Fault {
        match *self {
            MovieError::BadMagic => Fault::BadMagic,
            MovieError::BadStartType(v) => Fault::BadStartType(v),
            MovieError::InvalidExtensionState => Fault::InvalidExtensionState,
            MovieError::TruncatedInput => Fault::TruncatedInput,
            MovieError::FixedStrError(e) => e@,
            MovieError::MovieParseError(e) => e@,
        }
    }
}

impl From<EncodedFixedStrError> for MovieError {
    fn from(e: EncodedFixedStrError) -> (r: MovieError) {
        MovieError::FixedStrError(e)
    }
}

impl vstd::std_specs::convert::FromSpecImpl<EncodedFixedStrError> for MovieError {
    open spec fn obeys_from_spec() -> bool {
        true
    }

    open spec fn from_spec(e: EncodedFixedStrError) -> MovieError {
        MovieError::FixedStrError(e)
    }
}

impl From<MovieParseError> for MovieError {
    fn from(e: MovieParseError) -> (r: MovieError) {
        MovieError::MovieParseError(e)
    }
}

impl vstd::std_specs::convert::FromSpecImpl<MovieParseError> for MovieError {
    open spec fn obeys_from_spec() -> bool {
        true
    }

    open spec fn from_spec(e: MovieParseError) -> MovieError {
        MovieError::MovieParseError(e)
    }
}

/// Reading a value from its binary form.
pub trait BinReadExt: Sized {
    /// The error of a failed read.
    type Error;

    /// Reads the value from `bytes`.
    fn from_bytes(bytes: &[u8]) -> Result<Self, Self::Error>;
}

/// Writing a value in its binary form.
pub trait BinWriteExt {
    /// The error of a failed write.
    type Error;

    /// The binary form of the value.
    fn to_bytes(&self) -> Result<Vec<u8>, Self::Error>;
}

} // verus!
