//! Verified decision logic of a command line tool that backs up a Dropbox
//! account to an external disk: the routing of command line arguments, the
//! bash completion of sub-commands, the ordering of the backup workflow, the
//! handling of the base path of the external disk, and the progress-bar
//! printing of long running commands.

pub mod command;
pub mod completion;
pub mod error;
pub mod path;
pub mod progress;
pub mod text;
pub mod workflow;
