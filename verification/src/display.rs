//! The display modes, and the name under which a file is shown in each.

use crate::paths::{basename, get_file_name, strip_path_prefix, strip_prefix};
use vstd::prelude::*;
use vstd::string::*;

verus! {

/// How the path of a file is shown in the combined document.
#[derive(Clone, Copy, Debug, PartialEq, Eq, Structural)]
pub enum PathDisplayMode {
    /// The file's name alone.
    Basename,
    /// The path from the working directory to the file.
    Relative,
    /// The absolute path, with the home directory written as `~`.
    Full,
}

/// The mode that the two display flags select, if they select one.
pub open spec fn selected_mode(relative: bool, full: bool) -> Option<PathDisplayMode> {
    if relative && full {
        None
    } else if relative {
        Some(PathDisplayMode::Relative)
    } else if full {
        Some(PathDisplayMode::Full)
    } else {
        Some(PathDisplayMode::Basename)
    }
}

impl PathDisplayMode {
    /// The mode that the two display flags select: neither gives `Basename`,
    /// and both together select no mode.
    pub fn from_flags(relative: bool, full: bool) -> (mode: Option<PathDisplayMode>)
        ensures
            mode == selected_mode(relative, full),
    {
        if relative && full {
            None
        } else if relative {
            Some(PathDisplayMode::Relative)
        } else if full {
            Some(PathDisplayMode::Full)
        } else {
            Some(PathDisplayMode::Basename)
        }
    }
}

/// Why no combined document could be built.
#[derive(Debug)]
pub enum CombineError {
    /// No candidate was left to include.
    NoValidFiles,
    /// The absolute path of a file could not be found out.
    Canonicalize { path: String, detail: String },
    /// A file does not lie under the working directory.
    PrefixNotFound,
    /// The user has no known home directory.
    NoHomeDirectory,
}

/// A `CombineError` as plain values.
pub enum CombineFailure {
    NoValidFiles,
    Canonicalize { path: Seq<char>, detail: Seq<char> },
    PrefixNotFound,
    NoHomeDirectory,
}

impl View for CombineError {
    type V = CombineFailure;

    open spec fn view(&self) -> CombineFailure {
        match self {
            CombineError::NoValidFiles => CombineFailure::NoValidFiles,
            CombineError::Canonicalize { path, detail } => CombineFailure::Canonicalize {
                path: path@,
                detail: detail@,
            },
            CombineError::PrefixNotFound => CombineFailure::PrefixNotFound,
            CombineError::NoHomeDirectory => CombineFailure::NoHomeDirectory,
        }
    }
}

/// The words in which a failure is reported.
pub open spec fn failure_message(failure: CombineFailure) -> Seq<char> {
    match failure {
        CombineFailure::NoValidFiles => "No valid files found."@,
        CombineFailure::Canonicalize { path, detail } => "Failed to canonicalize "@ + path + ": "@
            + detail,
        CombineFailure::PrefixNotFound => "Failed to strip prefix: prefix not found"@,
        CombineFailure::NoHomeDirectory => "Unable to determine home directory"@,
    }
}

impl CombineError {
    /// The error in words.
    pub fn message(&self) -> (text: String)
        ensures
            text@ == failure_message(self@),
    {
        match self {
            CombineError::NoValidFiles => "No valid files found.".to_owned(),
            CombineError::Canonicalize { path, detail } => {
                let mut text = "Failed to canonicalize ".to_owned();
                text.append(path.as_str());
                text.append(": ");
                text.append(detail.as_str());
                text
            },
            CombineError::PrefixNotFound => "Failed to strip prefix: prefix not found".to_owned(),
            CombineError::NoHomeDirectory => "Unable to determine home directory".to_owned(),
        }
    }
}

/// An absolute path as it was found out, or the reason why it was not, as
/// plain values.
pub open spec fn canonical_view(canonical: Result<String, String>) -> Result<Seq<char>, Seq<char>> {
    match canonical {
        Ok(path) => Ok(path@),
        Err(detail) => Err(detail@),
    }
}

/// A display name or the failure to find one, as plain values.
pub open spec fn name_view(name: Result<String, CombineError>) -> Result<Seq<char>, CombineFailure> {
    match name {
        Ok(text) => Ok(text@),
        Err(error) => Err(error@),
    }
}

/// The name of a file in relative display: its absolute path without the
/// working directory in front.
pub open spec fn relative_name(
    current_dir: Seq<char>,
    filename: Seq<char>,
    canonical: Result<Seq<char>, Seq<char>>,
) -> Result<Seq<char>, CombineFailure> {
    match canonical {
        Err(detail) => Err(CombineFailure::Canonicalize { path: filename, detail }),
        Ok(path) => match strip_prefix(path, current_dir) {
            Some(rest) => Ok(rest),
            None => Err(CombineFailure::PrefixNotFound),
        },
    }
}

/// The name of a file in full display: `~/` and the path from the home
/// directory where the file lies under it, else its absolute path.
pub open spec fn full_name(
    filename: Seq<char>,
    canonical: Result<Seq<char>, Seq<char>>,
    home: Option<Seq<char>>,
) -> Result<Seq<char>, CombineFailure> {
    match canonical {
        Err(detail) => Err(CombineFailure::Canonicalize { path: filename, detail }),
        Ok(path) => match home {
            None => Err(CombineFailure::NoHomeDirectory),
            Some(home_dir) => match strip_prefix(path, home_dir) {
                Some(rest) => Ok("~/"@ + rest),
                None => Ok(path),
            },
        },
    }
}

/// The name under which a file is shown in the given mode.
pub open spec fn display_name(
    mode: PathDisplayMode,
    filename: Seq<char>,
    canonical: Result<Seq<char>, Seq<char>>,
    current_dir: Seq<char>,
    home: Option<Seq<char>>,
) -> Result<Seq<char>, CombineFailure> {
    match mode {
        PathDisplayMode::Basename => Ok(basename(filename)),
        PathDisplayMode::Relative => relative_name(current_dir, filename, canonical),
        PathDisplayMode::Full => full_name(filename, canonical, home),
    }
}

/// A home directory, if there is one, as plain values.
pub open spec fn home_view(home: Option<String>) -> Option<Seq<char>> {
    match home {
        Some(path) => Some(path@),
        None => None,
    }
}

/// The name of `filename` in relative display, given its absolute path as
/// `canonical`, or the reason why that path could not be found out.
pub fn get_relative_path(current_dir: &str, filename: &str, canonical: &Result<String, String>) -> (name:
    Result<String, CombineError>)
    ensures
        name_view(name) == relative_name(current_dir@, filename@, canonical_view(*canonical)),
{
    match canonical {
        Err(detail) => Err(
            CombineError::Canonicalize { path: filename.to_owned(), detail: detail.clone() },
        ),
        Ok(path) => match strip_path_prefix(path.as_str(), current_dir) {
            Some(rest) => Ok(rest),
            None => Err(CombineError::PrefixNotFound),
        },
    }
}

/// The name of `filename` in full display, given its absolute path as
/// `canonical`, or the reason why that path could not be found out, and the
/// home directory, if there is one.
pub fn get_full_path(filename: &str, canonical: &Result<String, String>, home: &Option<String>) -> (name:
    Result<String, CombineError>)
    ensures
        name_view(name) == full_name(filename@, canonical_view(*canonical), home_view(*home)),
{
    match canonical {
        Err(detail) => Err(
            CombineError::Canonicalize { path: filename.to_owned(), detail: detail.clone() },
        ),
        Ok(path) => match home {
            None => Err(CombineError::NoHomeDirectory),
            Some(home_dir) => match strip_path_prefix(path.as_str(), home_dir.as_str()) {
                Some(rest) => {
                    let mut text = "~/".to_owned();
                    text.append(rest.as_str());
                    Ok(text)
                },
                None => Ok(path.clone()),
            },
        },
    }
}

/// The name under which `filename` is shown in `mode`.
pub fn resolve_display_name(
    mode: PathDisplayMode,
    filename: &str,
    canonical: &Result<String, String>,
    current_dir: &str,
    home: &Option<String>,
) -> (name: Result<String, CombineError>)
    ensures
        name_view(name) == display_name(
            mode,
            filename@,
            canonical_view(*canonical),
            current_dir@,
            home_view(*home),
        ),
{
    match mode {
        PathDisplayMode::Basename => Ok(get_file_name(filename)),
        PathDisplayMode::Relative => get_relative_path(current_dir, filename, canonical),
        PathDisplayMode::Full => get_full_path(filename, canonical, home),
    }
}

} // verus!
