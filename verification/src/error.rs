//! The errors that the command line logic reports.

use vstd::prelude::*;

verus! {

/// Why a command line could not be carried out.
#[derive(Debug)]
pub enum CliError {
    /// The sub-command needs an argument that was not given.
    MissingArguments,
    /// The first argument names no sub-command.
    UnrecognizedArguments,
    /// A path was refused by `crossplatform_path`.
    InvalidPath(crossplatform_path::Error),
    /// The stored base path of the external disk is empty.
    EmptyBasePath,
    /// The path has no Windows form that `crossplatform_path` is known to
    /// give without failing (the tool runs on Windows).
    NoWindowsForm,
}

} // verus!
