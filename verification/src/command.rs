//! The commands of the first command line: `validate_credentials <username> <password>` and
//! `help`.
use vstd::prelude::*;

use crate::text::str_eq;

verus! {

/// A command of the first command line.
#[derive(Debug, Clone)]
pub enum Command {
    Help,
    ValidateCredentials { username: String, password: String },
}

impl Command {
    /// The command that the arguments (the program's name first) ask for: `validate_credentials`
    /// with a username and a password after it; anything else asks for help.
    pub fn get(args: &[String]) -> (r: Result<Command, String>)
        requires
            args@.len() >= 2,
            args@[1]@ == "validate_credentials"@ ==> args@.len() >= 4,
        ensures
            args@[1]@ == "validate_credentials"@ ==> (r matches Ok(
                Command::ValidateCredentials { username, password },
            ) && username == args@[2] && password == args@[3]),
            args@[1]@ != "validate_credentials"@ ==> r matches Ok(Command::Help),
    {
        if str_eq(args[1].as_str(), "validate_credentials") {
            Ok(Command::ValidateCredentials { username: args[2].clone(), password: args[3].clone() })
        } else {
            Ok(Command::Help)
        }
    }
}

} // verus!
