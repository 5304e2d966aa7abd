//! The password operations a caller can ask for.

pub mod read;
pub mod remove;
pub mod set;
pub mod write;

use vstd::prelude::*;

use crate::password::read::ReadPasswordCommand;
use crate::password::remove::RemovePasswordCommand;
use crate::password::write::WritePasswordCommand;

verus! {

/// One password operation against a named store.
pub enum PasswordCommand {
    Read(ReadPasswordCommand),
    Write(WritePasswordCommand),
    Remove(RemovePasswordCommand),
}

} // verus!
