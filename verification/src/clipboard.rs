//! The clipboard transport: which helper program a platform has, and what a
//! run of it means.

use crate::text::{same_text, texts};
use vstd::prelude::*;
use vstd::string::*;

verus! {

/// The families of operating systems that the clipboard is known on.
#[derive(Clone, Copy, Debug, PartialEq, Eq, Structural)]
pub enum Platform {
    MacOs,
    Linux,
    Unsupported,
}

/// The platform that goes by the name `os`.
pub open spec fn platform_named(os: Seq<char>) -> Platform {
    if os == "macos"@ {
        Platform::MacOs
    } else if os == "linux"@ {
        Platform::Linux
    } else {
        Platform::Unsupported
    }
}

/// The program that takes text for the clipboard on its standard input.
pub open spec fn helper_program(platform: Platform) -> Option<Seq<char>> {
    match platform {
        Platform::MacOs => Some("pbcopy"@),
        Platform::Linux => Some("xclip"@),
        Platform::Unsupported => None,
    }
}

/// The arguments that the helper program is started with.
pub open spec fn helper_arguments(platform: Platform) -> Seq<Seq<char>> {
    match platform {
        Platform::Linux => seq!["-selection"@, "clipboard"@],
        _ => Seq::empty(),
    }
}

/// The clipboard tools that are looked for on a platform, in the order in
/// which they are reported.
pub open spec fn platform_tools(platform: Platform) -> Seq<Seq<char>> {
    match platform {
        Platform::MacOs => seq!["pbcopy"@],
        Platform::Linux => seq!["xclip"@, "xsel"@, "wl-copy"@],
        Platform::Unsupported => Seq::empty(),
    }
}

/// A program and the arguments to start it with.
#[derive(Debug)]
pub struct HelperCommand {
    pub program: String,
    pub arguments: Vec<String>,
}

impl Platform {
    /// The platform that goes by the name `os`, as the standard library
    /// names operating systems.
    pub fn from_os(os: &str) -> (platform: Platform)
        ensures
            platform == platform_named(os@),
    {
        if same_text(os, "macos") {
            Platform::MacOs
        } else if same_text(os, "linux") {
            Platform::Linux
        } else {
            Platform::Unsupported
        }
    }

    /// The helper program of this platform, if it has one.
    pub fn helper(&self) -> (command: Option<HelperCommand>)
        ensures
            match command {
                Some(helper) => helper_program(*self) == Some(helper.program@) && texts(
                    helper.arguments@,
                ) == helper_arguments(*self),
                None => helper_program(*self) is None,
            },
    {
        match self {
            Platform::MacOs => {
                let arguments: Vec<String> = Vec::new();
                assert(texts(arguments@) =~= Seq::<Seq<char>>::empty());
                Some(HelperCommand { program: "pbcopy".to_owned(), arguments })
            },
            Platform::Linux => {
                let mut arguments: Vec<String> = Vec::new();
                arguments.push("-selection".to_owned());
                arguments.push("clipboard".to_owned());
                assert(texts(arguments@) =~= seq!["-selection"@, "clipboard"@]);
                Some(HelperCommand { program: "xclip".to_owned(), arguments })
            },
            Platform::Unsupported => None,
        }
    }
}

/// The clipboard tools that are looked for on `platform`.
pub fn get_platform_tools(platform: Platform) -> (tools: Vec<String>)
    ensures
        texts(tools@) == platform_tools(platform),
{
    let mut tools: Vec<String> = Vec::new();
    match platform {
        Platform::MacOs => {
            tools.push("pbcopy".to_owned());
            assert(texts(tools@) =~= seq!["pbcopy"@]);
        },
        Platform::Linux => {
            tools.push("xclip".to_owned());
            tools.push("xsel".to_owned());
            tools.push("wl-copy".to_owned());
            assert(texts(tools@) =~= seq!["xclip"@, "xsel"@, "wl-copy"@]);
        },
        Platform::Unsupported => {
            assert(texts(tools@) =~= Seq::<Seq<char>>::empty());
        },
    }
    tools
}

/// How a run of the helper program went.
#[derive(Debug)]
pub enum HelperRun {
    /// The program could not be started.
    SpawnFailed { detail: String },
    /// The text could not be written to the program's standard input.
    WriteFailed { detail: String },
    /// The program's end could not be waited for.
    WaitFailed { detail: String },
    /// The program ended; `status` is how it reports its end.
    Exited { success: bool, status: String },
}

/// Why the text did not reach the clipboard.
#[derive(Debug)]
pub enum ClipboardError {
    /// The platform has no helper program.
    UnsupportedPlatform,
    /// The helper could not be started.
    Execute { helper: String, detail: String },
    /// The helper did not take the text.
    Write { helper: String, detail: String },
    /// The helper's end could not be waited for.
    Wait { helper: String, detail: String },
    /// The helper ended without success.
    Status { helper: String, status: String },
}

/// A `ClipboardError` as plain values.
pub enum ClipboardFailure {
    UnsupportedPlatform,
    Execute { helper: Seq<char>, detail: Seq<char> },
    Write { helper: Seq<char>, detail: Seq<char> },
    Wait { helper: Seq<char>, detail: Seq<char> },
    Status { helper: Seq<char>, status: Seq<char> },
}

impl View for ClipboardError {
    type V = ClipboardFailure;

    open spec fn view(&self) -> ClipboardFailure {
        match self {
            ClipboardError::UnsupportedPlatform => ClipboardFailure::UnsupportedPlatform,
            ClipboardError::Execute { helper, detail } => ClipboardFailure::Execute {
                helper: helper@,
                detail: detail@,
            },
            ClipboardError::Write { helper, detail } => ClipboardFailure::Write {
                helper: helper@,
                detail: detail@,
            },
            ClipboardError::Wait { helper, detail } => ClipboardFailure::Wait {
                helper: helper@,
                detail: detail@,
            },
            ClipboardError::Status { helper, status } => ClipboardFailure::Status {
                helper: helper@,
                status: status@,
            },
        }
    }
}

/// The words in which a failed transfer is reported.
pub open spec fn transfer_message(failure: ClipboardFailure) -> Seq<char> {
    match failure {
        ClipboardFailure::UnsupportedPlatform => "Unsupported operating system"@,
        ClipboardFailure::Execute { helper, detail } => "Failed to execute "@ + helper + ": "@
            + detail,
        ClipboardFailure::Write { helper, detail } => "Failed to write to "@ + helper
            + " stdin: "@ + detail,
        ClipboardFailure::Wait { helper, detail } => "Failed to wait on "@ + helper + ": "@
            + detail,
        ClipboardFailure::Status { helper, status } => helper
            + " exited with non-zero status: "@ + status,
    }
}

/// What a run of `helper` means for the transfer: it succeeded only where
/// the helper ended with success, and every other run is its own failure.
pub open spec fn transfer_outcome(helper: Seq<char>, run: HelperRun) -> Result<
    (),
    ClipboardFailure,
> {
    match run {
        HelperRun::SpawnFailed { detail } => Err(
            ClipboardFailure::Execute { helper, detail: detail@ },
        ),
        HelperRun::WriteFailed { detail } => Err(
            ClipboardFailure::Write { helper, detail: detail@ },
        ),
        HelperRun::WaitFailed { detail } => Err(ClipboardFailure::Wait { helper, detail: detail@ }),
        HelperRun::Exited { success, status } => if success {
            Ok(())
        } else {
            Err(ClipboardFailure::Status { helper, status: status@ })
        },
    }
}

/// A transfer's end, as plain values.
pub open spec fn transfer_view(end: Result<(), ClipboardError>) -> Result<(), ClipboardFailure> {
    match end {
        Ok(()) => Ok(()),
        Err(error) => Err(error@),
    }
}

impl ClipboardError {
    /// The error in words.
    pub fn message(&self) -> (text: String)
        ensures
            text@ == transfer_message(self@),
    {
        match self {
            ClipboardError::UnsupportedPlatform => "Unsupported operating system".to_owned(),
            ClipboardError::Execute { helper, detail } => {
                let mut text = "Failed to execute ".to_owned();
                text.append(helper.as_str());
                text.append(": ");
                text.append(detail.as_str());
                text
            },
            ClipboardError::Write { helper, detail } => {
                let mut text = "Failed to write to ".to_owned();
                text.append(helper.as_str());
                text.append(" stdin: ");
                text.append(detail.as_str());
                text
            },
            ClipboardError::Wait { helper, detail } => {
                let mut text = "Failed to wait on ".to_owned();
                text.append(helper.as_str());
                text.append(": ");
                text.append(detail.as_str());
                text
            },
            ClipboardError::Status { helper, status } => {
                let mut text = helper.clone();
                text.append(" exited with non-zero status: ");
                text.append(status.as_str());
                text
            },
        }
    }
}

/// The helper to run on `platform`, or the failure where it has none.
pub fn select_helper(platform: Platform) -> (choice: Result<HelperCommand, ClipboardError>)
    ensures
        match choice {
            Ok(helper) => helper_program(platform) == Some(helper.program@) && texts(
                helper.arguments@,
            ) == helper_arguments(platform),
            Err(error) => platform == Platform::Unsupported && error@
                == ClipboardFailure::UnsupportedPlatform,
        },
{
    match platform.helper() {
        Some(helper) => Ok(helper),
        None => Err(ClipboardError::UnsupportedPlatform),
    }
}

/// Tells from a run of `helper` whether the text has reached the clipboard.
pub fn transfer_result(helper: &str, run: &HelperRun) -> (end: Result<(), ClipboardError>)
    ensures
        transfer_view(end) == transfer_outcome(helper@, *run),
{
    match run {
        HelperRun::SpawnFailed { detail } => Err(
            ClipboardError::Execute { helper: helper.to_owned(), detail: detail.clone() },
        ),
        HelperRun::WriteFailed { detail } => Err(
            ClipboardError::Write { helper: helper.to_owned(), detail: detail.clone() },
        ),
        HelperRun::WaitFailed { detail } => Err(
            ClipboardError::Wait { helper: helper.to_owned(), detail: detail.clone() },
        ),
        HelperRun::Exited { success, status } => {
            if *success {
                Ok(())
            } else {
                Err(ClipboardError::Status { helper: helper.to_owned(), status: status.clone() })
            }
        },
    }
}

} // verus!
