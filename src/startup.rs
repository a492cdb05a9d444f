//! Registration of the program to run when the user logs in. The entry is
//! keyed by the application's name and points at the executable's full path.
use vstd::prelude::*;

verus! {

/// A change to make to the per-user auto-start entry.
#[derive(Clone, Debug, PartialEq, Eq)]
pub enum StartupEdit {
    /// Delete the entry.
    Remove,
    /// Write the entry, pointing at this executable path.
    Register(String),
    /// Leave the entry as it is.
    Nothing,
}

/// Auto-start is enabled when an entry exists in the per-user or in the
/// machine-wide registration.
pub fn is_startup_enabled(user_entry: bool, machine_entry: bool) -> (r: bool)
    ensures
        r == (user_entry || machine_entry),
{
    user_entry || machine_entry
}

/// The edit that enables or disables auto-start. Enabling needs the path of
/// the running executable; when it is unknown, nothing is written.
pub fn set_startup_state(enable: bool, exe_path: &Option<String>) -> (r: StartupEdit)
    ensures
        !enable ==> r == StartupEdit::Remove,
        enable && exe_path is Some ==> r == StartupEdit::Register(exe_path.unwrap()),
        enable && exe_path is None ==> r == StartupEdit::Nothing,
{
    if !enable {
        StartupEdit::Remove
    } else {
        match exe_path {
            Some(p) => StartupEdit::Register(p.clone()),
            None => StartupEdit::Nothing,
        }
    }
}

} // verus!
