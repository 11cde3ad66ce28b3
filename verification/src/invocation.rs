//! What the arguments of one invocation ask for.

use crate::display::{selected_mode, PathDisplayMode};
use vstd::prelude::*;
use vstd::string::*;

verus! {

/// What one invocation is to do.
#[derive(Clone, Copy, Debug, PartialEq, Eq, Structural)]
pub enum Invocation {
    /// Report on the clipboard tools.
    Diagnose,
    /// Combine the files that were named and copy the document.
    Combine { mode: PathDisplayMode },
}

/// Arguments that no invocation can be made of.
#[derive(Clone, Copy, Debug, PartialEq, Eq, Structural)]
pub enum ConfigError {
    /// Both the relative and the full display were asked for.
    ConflictingModes,
    /// No file was named.
    NoFiles,
}

/// What the arguments ask for.
///
/// The two displays together are refused whatever else was given. A request
/// for the diagnosis leaves files and display aside. Without it at least one
/// file has to be named.
pub open spec fn planned(diagnose: bool, files: nat, relative: bool, full: bool) -> Result<
    Invocation,
    ConfigError,
> {
    match selected_mode(relative, full) {
        None => Err(ConfigError::ConflictingModes),
        Some(mode) => if diagnose {
            Ok(Invocation::Diagnose)
        } else if files == 0 {
            Err(ConfigError::NoFiles)
        } else {
            Ok(Invocation::Combine { mode })
        },
    }
}

/// Decides from the arguments what is to be done, before any file is
/// looked at.
pub fn plan_invocation(diagnose: bool, files: usize, relative: bool, full: bool) -> (plan: Result<
    Invocation,
    ConfigError,
>)
    ensures
        plan == planned(diagnose, files as nat, relative, full),
{
    match PathDisplayMode::from_flags(relative, full) {
        None => Err(ConfigError::ConflictingModes),
        Some(mode) => {
            if diagnose {
                Ok(Invocation::Diagnose)
            } else if files == 0 {
                Err(ConfigError::NoFiles)
            } else {
                Ok(Invocation::Combine { mode })
            }
        },
    }
}

/// The words in which refused arguments are reported.
pub open spec fn config_message(error: ConfigError) -> Seq<char> {
    match error {
        ConfigError::ConflictingModes =>
            "Error: The relative and full path displays cannot be used together"@,
        ConfigError::NoFiles => "Error: No files specified"@,
    }
}

impl ConfigError {
    /// The error in words.
    pub fn message(&self) -> (text: String)
        ensures
            text@ == config_message(*self),
    {
        match self {
            ConfigError::ConflictingModes =>
                "Error: The relative and full path displays cannot be used together".to_owned(),
            ConfigError::NoFiles => "Error: No files specified".to_owned(),
        }
    }
}

/// Both displays together are refused, whatever else the arguments hold.
pub proof fn lemma_conflicting_displays_refused(diagnose: bool, files: nat)
    ensures
        planned(diagnose, files, true, true) == Err::<Invocation, ConfigError>(
            ConfigError::ConflictingModes,
        ),
{
}

} // verus!
