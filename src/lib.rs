//! Encoding and decoding of memory-map register-access frames, and the
//! address model of the controller they are sent to.
use vstd::prelude::*;

pub mod consts;
pub mod frames;
pub mod mmp_errors;
pub mod utils;

verus! {

#[verifier::external_type_specification]
#[verifier::external_body]
pub struct ExIoError(std::io::Error);

#[verifier::external_type_specification]
#[verifier::external_body]
pub struct ExParseIntError(std::num::ParseIntError);

/// Failure of one transaction. The codec itself raises only `InvalidData`;
/// the other two variants carry errors of the transport and of the text
/// parsing done around the codec.
#[derive(Debug)]
pub enum AppError {
    IoError(std::io::Error),
    ParseIntError(std::num::ParseIntError),
    InvalidData,
}

impl AppError {
    /// A short description of the error.
    pub fn message(&self) -> (r: String)
        ensures
            self is IoError ==> r@ == "IO Error"@,
            self is ParseIntError ==> r@ == "ParseIntError"@,
            self is InvalidData ==> r@ == "Invalid data"@,
    {
        match self {
            AppError::IoError(_) => String::from_str("IO Error"),
            AppError::ParseIntError(_) => String::from_str("ParseIntError"),
            AppError::InvalidData => String::from_str("Invalid data"),
        }
    }
}

} // verus!
