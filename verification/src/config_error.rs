//! Why a configuration file could not be turned into host records.

use vstd::prelude::*;

verus! {

/// `std::io::Error`, carried through unread.
#[verifier::external_type_specification]
#[verifier::external_body]
pub struct ExIoError(std::io::Error);

/// Why a configuration file could not be turned into host records.
#[derive(Debug)]
pub enum ParseConfigError {
    /// The file could not be found or read.
    Io(std::io::Error),
    /// The file's text could not be read as host blocks; the reader's
    /// message.
    SshConfig(String),
}

impl From<std::io::Error> for ParseConfigError {
    /// A read failure.
    fn from(e: std::io::Error) -> (r: Self) {
        ParseConfigError::Io(e)
    }
}

impl vstd::std_specs::convert::FromSpecImpl<std::io::Error> for ParseConfigError {
    open spec fn obeys_from_spec() -> bool {
        true
    }

    open spec fn from_spec(e: std::io::Error) -> Self {
        ParseConfigError::Io(e)
    }
}

} // verus!
