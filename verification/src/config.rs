//! Choice of the output destination.
//!
//! The tool writes to standard output by default, to an explicit path when
//! one is given, or back over the input when overwriting is requested. An
//! explicit path and overwriting exclude each other, and an input path is
//! required; both checks happen here, before any file is touched.

use crate::error::{ConfigIssue, CueError};
use vstd::prelude::*;

verus! {

/// Where the rendered sheet goes.
#[derive(Debug)]
pub enum Destination {
    /// Standard output.
    Stdout,
    /// The file at this path.
    Path(String),
    /// The input file itself, replaced atomically after a full render.
    Overwrite,
}

/// A validated run: the input path and the destination.
#[derive(Debug)]
pub struct Plan {
    pub input: String,
    pub dest: Destination,
}

/// Decides what a run does from the raw options, or rejects them.
///
/// Fails when no input path is supplied, or when an explicit output path
/// and overwriting are both requested; in the latter case nothing about
/// either destination is acted on. Otherwise the destination is the
/// explicit path when one is given, the input path when overwriting, and
/// standard output when neither is requested.
pub fn plan_run(input: Option<String>, output: Option<String>, overwrite: bool) -> (r: Result<
    Plan,
    CueError,
>)
    ensures
        input is None ==> r == Err::<Plan, CueError>(CueError::Config(ConfigIssue::NoInput)),
        input is Some && overwrite && output is Some ==> r == Err::<Plan, CueError>(
            CueError::Config(ConfigIssue::ConflictingOutputs),
        ),
        input is Some && overwrite && output is None ==> (r matches Ok(p) && p.input@
            == input->0@ && p.dest is Overwrite),
        input is Some && !overwrite && output is Some ==> (r matches Ok(p) && p.input@
            == input->0@ && (p.dest matches Destination::Path(q) && q@ == output->0@)),
        input is Some && !overwrite && output is None ==> (r matches Ok(p) && p.input@
            == input->0@ && p.dest is Stdout),
{
    let input_path = match input {
        Some(p) => p,
        None => { return Err(CueError::Config(ConfigIssue::NoInput)) },
    };
    if overwrite {
        match output {
            Some(_) => Err(CueError::Config(ConfigIssue::ConflictingOutputs)),
            None => Ok(Plan { input: input_path, dest: Destination::Overwrite }),
        }
    } else {
        match output {
            Some(path) => Ok(Plan { input: input_path, dest: Destination::Path(path) }),
            None => Ok(Plan { input: input_path, dest: Destination::Stdout }),
        }
    }
}

} // verus!
