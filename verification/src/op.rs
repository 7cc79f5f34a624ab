//! Failures of the external credential store collaborator and of saving.
use vstd::prelude::*;

verus! {

/// What can go wrong around the core: launching the store's client,
/// reading its response, a failure the client itself reports, or
/// writing the export file.
#[derive(PartialEq, Eq, Debug)]
pub enum OPError {
    CommandError(String),
    DeserializeError(String),
    CLIError(String),
    SaveError(String),
}

} // verus!
