//! Launch-at-startup registration: what is written to the registry, and
//! how the registry's answers are read.

use vstd::prelude::*;

use crate::text::push_char;

use super::store::StartupError;

verus! {

/// Status code of a registry call that succeeded.
pub const ERROR_SUCCESS: u32 = 0;
/// Status code of a registry call whose value does not exist.
pub const ERROR_FILE_NOT_FOUND: u32 = 2;

/// The command that the run key holds: the executable's path in double
/// quotes.
pub fn startup_command(executable: &str) -> (r: String)
    ensures
        r@ == seq!['"'] + executable@ + seq!['"'],
{
    let mut command = String::new();
    push_char(&mut command, '"');
    command.append(executable);
    push_char(&mut command, '"');
    assert(command@ =~= seq!['"'] + executable@ + seq!['"']);
    command
}

/// The outcome of removing the startup registration: a value that is already
/// absent counts as removed.
pub fn removal_outcome(status: u32, message: String) -> (r: Result<(), StartupError>)
    ensures
        status == ERROR_SUCCESS || status == ERROR_FILE_NOT_FOUND ==> r is Ok,
        status != ERROR_SUCCESS && status != ERROR_FILE_NOT_FOUND ==> r == Err::<(), StartupError>(
            StartupError::Registry(message),
        ),
{
    if status == ERROR_SUCCESS || status == ERROR_FILE_NOT_FOUND {
        Ok(())
    } else {
        Err(StartupError::Registry(message))
    }
}

} // verus!
