//! What the control surface asks of the core: which command a submitted form
//! names.

use crate::command::CommandAction;
use vstd::prelude::*;

verus! {

/// Why a submitted form names no command.
#[derive(Clone, Copy, Debug, PartialEq, Eq, Structural)]
pub enum FormError {
    /// The form has no field.
    Empty,
    /// The name of the first field is not the name of a command.
    UnknownCommand,
}

/// The command that a submitted form names. The form is the list of its
/// fields, each a name and a value; the name of the first field is the name
/// of the command, and values and later fields are not looked at.
pub fn post_command(form: &Vec<(String, String)>) -> (command: Result<CommandAction, FormError>)
    ensures
        match command {
            Ok(action) => form@.len() > 0 && action.name() == form@[0].0@,
            Err(FormError::Empty) => form@.len() == 0,
            Err(FormError::UnknownCommand) => form@.len() > 0 && forall|a: CommandAction|
                a.name() != form@[0].0@,
        },
{
    if form.len() == 0 {
        return Err(FormError::Empty);
    }
    match CommandAction::from_str(form[0].0.as_str()) {
        Ok(action) => Ok(action),
        Err(_) => Err(FormError::UnknownCommand),
    }
}

} // verus!
