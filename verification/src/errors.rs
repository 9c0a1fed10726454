//! Causes that come from outside the library and are carried along unchanged.

use vstd::prelude::*;

verus! {

/// `std::io::Error`: why a file or directory operation failed.
#[verifier::external_type_specification]
#[verifier::external_body]
pub struct ExIoError(std::io::Error);

/// `toml::ser::Error`: why the pipeline configuration could not be encoded.
#[verifier::external_type_specification]
#[verifier::external_body]
pub struct ExTomlSerError(toml::ser::Error);

/// A process that could not be run.
#[derive(Debug)]
pub enum ProcessError {
    /// The process could not be started or its output could not be read.
    IOError(std::io::Error),
}

} // verus!
