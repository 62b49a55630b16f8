//! The editor hand-off: which program to run on a note's file, and what
//! its exit means.
//!
//! The caller spawns the program in the foreground, waits for it, and
//! reads the file again afterwards; nothing here returns file content.

use vstd::prelude::*;
use vstd::string::StringExecFns;

verus! {

/// Environment variable that names the user's editor.
pub const EDITOR_VARIABLE: &'static str = "EDITOR";

/// Editor to run where the user has named none.
pub const DEFAULT_EDITOR: &'static str = "vim";

/// Diagnostic for an editor that did not run to a clean exit.
pub const EDITOR_FAILURE: &'static str = "Falha ao abrir o editor";

/// A program and the one argument it is started with.
#[derive(Debug, PartialEq, Eq)]
pub struct EditorCommand {
    pub program: String,
    pub path: String,
}

/// What an [`EditorCommand`] means in contracts.
pub ghost struct EditorCommandView {
    pub program: Seq<char>,
    pub path: Seq<char>,
}

impl View for EditorCommand {
    type V = EditorCommandView;

    open spec fn view(&self) -> EditorCommandView {
        EditorCommandView { program: self.program@, path: self.path@ }
    }
}

/// How a run of the editor ended.
#[derive(Clone, Copy, Debug, PartialEq, Eq, Structural)]
pub enum EditorRun {
    /// The program could not be started.
    SpawnFailed,
    /// The program exited with this status code.
    Exited(i32),
    /// The program ended without a status code, as when a signal kills it.
    Killed,
}

/// Why an edit failed.
#[derive(Clone, Copy, Debug, PartialEq, Eq, Structural)]
pub enum EditorError {
    /// The program could not be started.
    SpawnFailed,
    /// The program exited with this non-zero status code.
    ExitCode(i32),
    /// The program ended without a status code.
    Killed,
}

impl EditorError {
    /// The diagnostic to print before the operation ends.
    pub fn message(&self) -> (text: &'static str)
        ensures
            text@ == EDITOR_FAILURE@,
    {
        EDITOR_FAILURE
    }
}

/// The editor to run: the user's choice where there is one, the default
/// otherwise.
pub open spec fn program_of(configured: Option<Seq<char>>) -> Seq<char> {
    match configured {
        Some(program) => program,
        None => DEFAULT_EDITOR@,
    }
}

/// Only an exit with status 0 is a success.
pub open spec fn outcome_of(run: EditorRun) -> Result<(), EditorError> {
    match run {
        EditorRun::SpawnFailed => Err(EditorError::SpawnFailed),
        EditorRun::Exited(code) => if code == 0 {
            Ok(())
        } else {
            Err(EditorError::ExitCode(code))
        },
        EditorRun::Killed => Err(EditorError::Killed),
    }
}

/// The command that edits the file at `path`. `configured` is the value
/// of [`EDITOR_VARIABLE`], if it is set.
pub fn editor_command(configured: Option<String>, path: &str) -> (command: EditorCommand)
    ensures
        command@.program == program_of(
            match configured {
                Some(p) => Some(p@),
                None => None,
            },
        ),
        command@.path == path@,
{
    let program = match configured {
        Some(program) => program,
        None => String::from_str(DEFAULT_EDITOR),
    };
    EditorCommand { program, path: String::from_str(path) }
}

/// Whether the edit succeeded. A failure ends the operation that asked
/// for the edit; there is no retry.
pub fn check_editor_run(run: EditorRun) -> (outcome: Result<(), EditorError>)
    ensures
        outcome == outcome_of(run),
{
    match run {
        EditorRun::SpawnFailed => Err(EditorError::SpawnFailed),
        EditorRun::Exited(code) => if code == 0 {
            Ok(())
        } else {
            Err(EditorError::ExitCode(code))
        },
        EditorRun::Killed => Err(EditorError::Killed),
    }
}

} // verus!
