//! The commands the front end may invoke on the shell.
use crate::text::same_text;
use vstd::prelude::*;

verus! {

/// Why an invocation from the front end was refused.
#[derive(Clone, Copy, Debug, PartialEq, Eq, Structural)]
pub enum CommandError {
    /// No command of that name is registered.
    NoSuchCommand,
}

/// The names of the registered commands. The shell registers none: all
/// application logic lives in the front end.
pub open spec fn command_names() -> Seq<Seq<char>> {
    Seq::empty()
}

/// The names of the registered commands.
pub fn registered_commands() -> (names: Vec<&'static str>)
    ensures
        names@.len() == command_names().len(),
        forall|i: int| 0 <= i < names@.len() ==> names@[i]@ == command_names()[i],
{
    Vec::new()
}

/// Looks `name` up among the registered commands. It succeeds exactly when
/// a command of that name is registered, which no name is: every invocation
/// is refused with `NoSuchCommand`.
pub fn invoke(name: &str) -> (outcome: Result<(), CommandError>)
    ensures
        outcome is Ok <==> command_names().contains(name@),
        outcome == Err::<(), CommandError>(CommandError::NoSuchCommand),
{
    let names = registered_commands();
    let mut i: usize = 0;
    while i < names.len()
        invariant
            i <= names.len(),
            names@.len() == command_names().len(),
            forall|j: int| 0 <= j < names@.len() ==> names@[j]@ == command_names()[j],
            forall|j: int| 0 <= j < i ==> command_names()[j] != name@,
        decreases names.len() - i,
    {
        if same_text(names[i], name) {
            return Ok(());
        }
        i += 1;
    }
    Err(CommandError::NoSuchCommand)
}

/// No name belongs to the command surface.
pub proof fn no_command_is_registered(name: Seq<char>)
    ensures
        !command_names().contains(name),
{
}

} // verus!
