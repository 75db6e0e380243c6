//! The models of the agent tool: the commands that show and set them.

use crate::text::{texts, trim, trimmed};
use vstd::prelude::*;
use vstd::string::*;

verus! {

/// What a command on models reported.
#[derive(Debug)]
pub struct ModelsStatus {
    pub exit_code: i32,
    pub stdout: String,
    pub stderr: String,
}

/// Why a command on models was refused.
#[derive(Debug, Clone, Copy, PartialEq, Eq, Structural)]
pub enum ModelError {
    /// The model's name is blank.
    ModelRequired,
}

impl ModelError {
    /// The message shown for the error.
    pub fn message(self) -> (r: String)
        ensures
            r@ == "model required"@,
    {
        String::from_str("model required")
    }
}

/// The command line that shows the models of a tool profile.
pub open spec fn status_command(openclaw_profile: Seq<char>) -> Seq<Seq<char>> {
    seq!["--profile"@, openclaw_profile, "models"@, "status"@, "--status-plain"@]
}

/// The command line that sets the default model of a tool profile.
pub open spec fn set_command(openclaw_profile: Seq<char>, model: Seq<char>) -> Seq<Seq<char>> {
    seq!["--profile"@, openclaw_profile, "models"@, "set"@, model]
}

/// Builds the command line that shows the models of a tool profile.
pub fn models_status(openclaw_profile: &str) -> (r: Vec<String>)
    ensures
        texts(r@) == status_command(openclaw_profile@),
{
    let mut args: Vec<String> = Vec::new();
    args.push(String::from_str("--profile"));
    args.push(String::from_str(openclaw_profile));
    args.push(String::from_str("models"));
    args.push(String::from_str("status"));
    args.push(String::from_str("--status-plain"));
    args
}

/// Builds the command line that sets the default model of a tool profile
/// to the trimmed name. A blank name is refused.
pub fn models_set_default(openclaw_profile: &str, model: &str) -> (r: Result<
    Vec<String>,
    ModelError,
>)
    ensures
        r is Ok == (trimmed(model@).len() > 0),
        r matches Ok(args) ==> texts(args@) == set_command(openclaw_profile@, trimmed(model@)),
{
    let m = trim(model);
    if m.as_str().unicode_len() == 0 {
        return Err(ModelError::ModelRequired);
    }
    let mut args: Vec<String> = Vec::new();
    args.push(String::from_str("--profile"));
    args.push(String::from_str(openclaw_profile));
    args.push(String::from_str("models"));
    args.push(String::from_str("set"));
    args.push(m);
    Ok(args)
}

/// The report of a command that has ended; a process without an exit
/// code counts as `-1`.
pub fn run_openclaw(code: Option<i32>, stdout: String, stderr: String) -> (r: ModelsStatus)
    ensures
        r.exit_code == (match code {
            Some(c) => c,
            None => -1i32,
        }),
        r.stdout@ == stdout@,
        r.stderr@ == stderr@,
{
    ModelsStatus {
        exit_code: match code {
            Some(c) => c,
            None => -1,
        },
        stdout,
        stderr,
    }
}

} // verus!
