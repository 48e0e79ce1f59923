//! The command line: one flag selects what the program does.

use vstd::prelude::*;
use vstd::string::*;
use crate::error::SiteError;

verus! {

/// What the program was asked to do.
#[derive(Clone, Copy, Debug, PartialEq, Eq, Structural)]
pub enum Mode {
    /// Serve the site for preview, rendering on demand.
    Serve,
    /// Render every source and write each artifact beside its source.
    Build,
    /// Render every source to validate it, and write nothing.
    Test,
}

/// The mode that the first argument selects. No argument, or any other than
/// the three flags, is a usage error.
pub open spec fn mode_of(flag: Option<Seq<char>>) -> Result<Mode, SiteError> {
    match flag {
        Some(flag) => if flag == "--serve"@ {
            Ok(Mode::Serve)
        } else if flag == "--build"@ {
            Ok(Mode::Build)
        } else if flag == "--test"@ {
            Ok(Mode::Test)
        } else {
            Err(SiteError::UsageError)
        },
        None => Err(SiteError::UsageError),
    }
}

/// The exit status of a run: 0 where it succeeded, 1 where it failed.
pub open spec fn status_of_run(failure: Option<SiteError>) -> i32 {
    if failure is Some {
        1
    } else {
        0
    }
}

/// Selects the mode from the first argument of the command line, if there
/// is one.
pub fn select_mode(flag: Option<&str>) -> (mode: Result<Mode, SiteError>)
    ensures
        mode == mode_of(flag.deep_view()),
{
    match flag {
        Some(flag) => {
            let flag = String::from_str(flag);
            if flag == String::from_str("--serve") {
                Ok(Mode::Serve)
            } else if flag == String::from_str("--build") {
                Ok(Mode::Build)
            } else if flag == String::from_str("--test") {
                Ok(Mode::Test)
            } else {
                Err(SiteError::UsageError)
            }
        },
        None => Err(SiteError::UsageError),
    }
}

impl Mode {
    /// Whether the mode writes artifacts: only a build does.
    pub fn writes(&self) -> (writes: bool)
        ensures
            writes == (*self == Mode::Build),
    {
        match self {
            Mode::Build => true,
            _ => false,
        }
    }
}

/// The exit status of a run that ended in `failure`, or in none.
pub fn exit_status(failure: Option<SiteError>) -> (status: i32)
    ensures
        status == status_of_run(failure),
{
    match failure {
        Some(_) => 1,
        None => 0,
    }
}

} // verus!
