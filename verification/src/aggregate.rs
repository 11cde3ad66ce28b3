//! The file aggregator: from the candidates and what was found at each, the
//! combined document, the names in it, and what became of every candidate.

use crate::display::{
    canonical_view, display_name, home_view, resolve_display_name, CombineError, CombineFailure,
    PathDisplayMode,
};
use crate::text::{contains, is_substring, texts};
use vstd::prelude::*;
use vstd::string::*;

verus! {

/// What was found at the path of one candidate.
#[derive(Debug)]
pub enum FileObservation {
    /// Nothing exists at the path.
    Missing,
    /// The path names a directory.
    Directory,
    /// The path named a file when it was looked at and a directory when it
    /// was to be read.
    DirectoryOnRead,
    /// The file could not be opened.
    OpenFailed { detail: String },
    /// The file was opened, and its content could not be read as text.
    ReadFailed { detail: String },
    /// The file was read; `canonical` is its absolute path, or the reason why
    /// that could not be found out.
    Readable { content: String, canonical: Result<String, String> },
}

/// One candidate: the path as it was given, and what was found there.
/// `observation` is `None` where nobody looked.
#[derive(Debug)]
pub struct FileEntry {
    pub path: String,
    pub observation: Option<FileObservation>,
}

/// What became of one candidate.
#[derive(Debug)]
pub enum FileOutcome {
    /// An exclusion pattern occurs in the path.
    Excluded,
    /// Nothing was found at the path.
    NotFound,
    /// The path names a directory.
    IsDirectory,
    /// The file could not be read; `message` says why.
    Unreadable { message: String },
    /// The file's content is in the document, under `name`.
    Included { name: String },
}

/// A `FileOutcome` as plain values.
pub enum Outcome {
    Excluded,
    NotFound,
    IsDirectory,
    Unreadable { message: Seq<char> },
    Included { name: Seq<char> },
}

impl View for FileOutcome {
    type V = Outcome;

    open spec fn view(&self) -> Outcome {
        match self {
            FileOutcome::Excluded => Outcome::Excluded,
            FileOutcome::NotFound => Outcome::NotFound,
            FileOutcome::IsDirectory => Outcome::IsDirectory,
            FileOutcome::Unreadable { message } => Outcome::Unreadable { message: message@ },
            FileOutcome::Included { name } => Outcome::Included { name: name@ },
        }
    }
}

/// Whether one of `patterns` occurs in `path` as a substring.
pub open spec fn is_excluded(path: Seq<char>, patterns: Seq<Seq<char>>) -> bool {
    exists|i: int| 0 <= i < patterns.len() && is_substring(path, #[trigger] patterns[i])
}

/// Whether one of `excludes` occurs in `path` as a substring.
pub fn matches_exclusion(path: &str, excludes: &Vec<String>) -> (excluded: bool)
    ensures
        excluded == is_excluded(path@, texts(excludes@)),
{
    let mut i: usize = 0;
    while i < excludes.len()
        invariant
            i <= excludes.len(),
            forall|j: int| 0 <= j < i ==> !is_substring(path@, #[trigger] texts(excludes@)[j]),
        decreases excludes.len() - i,
    {
        if contains(path, excludes[i].as_str()) {
            assert(texts(excludes@)[i as int] == excludes[i as int]@);
            return true;
        }
        i += 1;
    }
    false
}

/// The words that say why a file was left out as unreadable; `None` for an
/// observation that does not say so.
pub open spec fn read_failure_message(path: Seq<char>, observation: FileObservation) -> Option<
    Seq<char>,
> {
    match observation {
        FileObservation::DirectoryOnRead => Some(path + " is a directory"@),
        FileObservation::OpenFailed { detail } => Some(
            "Failed to open "@ + path + ": "@ + detail@,
        ),
        FileObservation::ReadFailed { detail } => Some(
            "Failed to read content of "@ + path + ": "@ + detail@,
        ),
        _ => None,
    }
}

/// What becomes of one candidate, or the failure that ends the run with it.
///
/// A path in which an exclusion pattern occurs is excluded whatever was found
/// there. A path at which nobody looked counts as not found.
pub open spec fn judge(
    mode: PathDisplayMode,
    entry: FileEntry,
    patterns: Seq<Seq<char>>,
    current_dir: Seq<char>,
    home: Option<Seq<char>>,
) -> Result<Outcome, CombineFailure> {
    if is_excluded(entry.path@, patterns) {
        Ok(Outcome::Excluded)
    } else {
        match entry.observation {
            None => Ok(Outcome::NotFound),
            Some(FileObservation::Missing) => Ok(Outcome::NotFound),
            Some(FileObservation::Directory) => Ok(Outcome::IsDirectory),
            Some(FileObservation::Readable { content, canonical }) => match display_name(
                mode,
                entry.path@,
                canonical_view(canonical),
                current_dir,
                home,
            ) {
                Ok(name) => Ok(Outcome::Included { name }),
                Err(failure) => Err(failure),
            },
            Some(failed) => Ok(
                Outcome::Unreadable {
                    message: read_failure_message(entry.path@, failed).unwrap(),
                },
            ),
        }
    }
}

/// An outcome or the failure to reach one, as plain values.
pub open spec fn verdict_view(verdict: Result<FileOutcome, CombineError>) -> Result<
    Outcome,
    CombineFailure,
> {
    match verdict {
        Ok(outcome) => Ok(outcome@),
        Err(error) => Err(error@),
    }
}

/// Decides what becomes of one candidate.
pub fn classify(
    mode: PathDisplayMode,
    entry: &FileEntry,
    excludes: &Vec<String>,
    current_dir: &str,
    home: &Option<String>,
) -> (verdict: Result<FileOutcome, CombineError>)
    ensures
        verdict_view(verdict) == judge(
            mode,
            *entry,
            texts(excludes@),
            current_dir@,
            home_view(*home),
        ),
{
    let path = entry.path.as_str();
    if matches_exclusion(path, excludes) {
        return Ok(FileOutcome::Excluded);
    }
    match &entry.observation {
        None => Ok(FileOutcome::NotFound),
        Some(FileObservation::Missing) => Ok(FileOutcome::NotFound),
        Some(FileObservation::Directory) => Ok(FileOutcome::IsDirectory),
        Some(FileObservation::DirectoryOnRead) => {
            let mut message = path.to_owned();
            message.append(" is a directory");
            Ok(FileOutcome::Unreadable { message })
        },
        Some(FileObservation::OpenFailed { detail }) => {
            let mut message = "Failed to open ".to_owned();
            message.append(path);
            message.append(": ");
            message.append(detail.as_str());
            Ok(FileOutcome::Unreadable { message })
        },
        Some(FileObservation::ReadFailed { detail }) => {
            let mut message = "Failed to read content of ".to_owned();
            message.append(path);
            message.append(": ");
            message.append(detail.as_str());
            Ok(FileOutcome::Unreadable { message })
        },
        Some(FileObservation::Readable { content, canonical }) => {
            match resolve_display_name(mode, path, canonical, current_dir, home) {
                Ok(name) => Ok(FileOutcome::Included { name }),
                Err(error) => Err(error),
            }
        },
    }
}

/// The line that tells the user why a candidate is not in the document;
/// `None` for one that is.
pub open spec fn outcome_notice(path: Seq<char>, outcome: Outcome) -> Option<Seq<char>> {
    match outcome {
        Outcome::Excluded => Some("Skipping: "@ + path + " (Matched exclude pattern)"@),
        Outcome::NotFound => Some("Skipping: "@ + path + " (File not found)"@),
        Outcome::IsDirectory => Some("Skipping: "@ + path + " (Is a directory)"@),
        Outcome::Unreadable { message } => Some("Error reading "@ + path + ": "@ + message),
        Outcome::Included { name } => None,
    }
}

/// A notice, if there is one, as plain values.
pub open spec fn notice_view(notice: Option<String>) -> Option<Seq<char>> {
    match notice {
        Some(text) => Some(text@),
        None => None,
    }
}

/// The line that tells the user why the candidate `path` is not in the
/// document.
pub fn report_outcome(path: &str, outcome: &FileOutcome) -> (notice: Option<String>)
    ensures
        notice_view(notice) == outcome_notice(path@, outcome@),
{
    match outcome {
        FileOutcome::Excluded => {
            let mut text = "Skipping: ".to_owned();
            text.append(path);
            text.append(" (Matched exclude pattern)");
            Some(text)
        },
        FileOutcome::NotFound => {
            let mut text = "Skipping: ".to_owned();
            text.append(path);
            text.append(" (File not found)");
            Some(text)
        },
        FileOutcome::IsDirectory => {
            let mut text = "Skipping: ".to_owned();
            text.append(path);
            text.append(" (Is a directory)");
            Some(text)
        },
        FileOutcome::Unreadable { message } => {
            let mut text = "Error reading ".to_owned();
            text.append(path);
            text.append(": ");
            text.append(message.as_str());
            Some(text)
        },
        FileOutcome::Included { name } => None,
    }
}

/// The content that was read of a candidate; empty where none was.
pub open spec fn content_of(entry: FileEntry) -> Seq<char> {
    match entry.observation {
        Some(FileObservation::Readable { content, canonical }) => content@,
        _ => Seq::empty(),
    }
}

/// The block that stands for one file in the document: a fence and the name,
/// the content on lines of its own, a closing fence, and an empty line.
pub open spec fn block(name: Seq<char>, content: Seq<char>) -> Seq<char> {
    "```"@ + name + "\n"@ + content + "\n```\n\n"@
}

/// The position of the first candidate from `from` on with which the run
/// fails; the number of candidates where there is none.
pub open spec fn first_failure(
    mode: PathDisplayMode,
    entries: Seq<FileEntry>,
    patterns: Seq<Seq<char>>,
    current_dir: Seq<char>,
    home: Option<Seq<char>>,
    from: int,
) -> int
    decreases entries.len() - from,
{
    if from >= entries.len() {
        entries.len() as int
    } else if judge(mode, entries[from], patterns, current_dir, home) is Err {
        from
    } else {
        first_failure(mode, entries, patterns, current_dir, home, from + 1)
    }
}

/// The names of the included files among `outcomes`, in order.
pub open spec fn names_of(outcomes: Seq<Outcome>) -> Seq<Seq<char>>
    decreases outcomes.len(),
{
    if outcomes.len() == 0 {
        Seq::empty()
    } else {
        let front = names_of(outcomes.drop_last());
        match outcomes.last() {
            Outcome::Included { name } => front.push(name),
            _ => front,
        }
    }
}

/// The blocks of the included files among `outcomes`, in order, one after
/// another; `outcomes[i]` is what became of `entries[i]`.
pub open spec fn document_of(entries: Seq<FileEntry>, outcomes: Seq<Outcome>) -> Seq<char>
    decreases outcomes.len(),
{
    if outcomes.len() == 0 {
        Seq::empty()
    } else {
        let front = document_of(entries, outcomes.drop_last());
        match outcomes.last() {
            Outcome::Included { name } => front + block(
                name,
                content_of(entries[outcomes.len() - 1]),
            ),
            _ => front,
        }
    }
}

/// The result of a run as plain values: what became of each candidate that
/// was reached, and the document with the names in it, or the failure.
pub struct Summary {
    pub outcomes: Seq<Outcome>,
    pub result: Result<(Seq<char>, Seq<Seq<char>>), CombineFailure>,
}

/// The result of a run over `entries`, in their order.
///
/// The run ends at the first candidate whose name cannot be resolved, with
/// that failure. Otherwise it reaches every candidate, and fails only where
/// none was included.
pub open spec fn aggregate(
    mode: PathDisplayMode,
    entries: Seq<FileEntry>,
    patterns: Seq<Seq<char>>,
    current_dir: Seq<char>,
    home: Option<Seq<char>>,
) -> Summary {
    let reached = first_failure(mode, entries, patterns, current_dir, home, 0);
    let outcomes = Seq::new(
        reached as nat,
        |i: int| judge(mode, entries[i], patterns, current_dir, home)->Ok_0,
    );
    Summary {
        outcomes,
        result: if reached < entries.len() {
            Err(judge(mode, entries[reached], patterns, current_dir, home)->Err_0)
        } else if names_of(outcomes).len() == 0 {
            Err(CombineFailure::NoValidFiles)
        } else {
            Ok((document_of(entries, outcomes), names_of(outcomes)))
        },
    }
}

/// The outcomes of a list, as plain values.
pub open spec fn outcome_views(list: Seq<FileOutcome>) -> Seq<Outcome> {
    Seq::new(list.len(), |i: int| list[i]@)
}

/// What a run gives back: what became of each candidate that was reached, in
/// the candidates' order, and the document with the names of the files in
/// it, or the reason why there is none.
#[derive(Debug)]
pub struct Aggregation {
    pub outcomes: Vec<FileOutcome>,
    pub result: Result<(String, Vec<String>), CombineError>,
}

impl View for Aggregation {
    type V = Summary;

    open spec fn view(&self) -> Summary {
        Summary {
            outcomes: outcome_views(self.outcomes@),
            result: match self.result {
                Ok((text, names)) => Ok((text@, texts(names@))),
                Err(error) => Err(error@),
            },
        }
    }
}

/// Appends the block of one file to `document`.
pub fn push_block(document: &mut String, name: &str, content: &str)
    ensures
        final(document)@ == old(document)@ + block(name@, content@),
{
    document.append("```");
    document.append(name);
    document.append("\n");
    document.append(content);
    document.append("\n```\n\n");
    assert(document@ =~= old(document)@ + block(name@, content@));
}

/// Combines the candidates in `entries`, in their order, given the home
/// directory that the full display compares with.
pub fn combine_with_home(
    mode: PathDisplayMode,
    entries: &Vec<FileEntry>,
    excludes: &Vec<String>,
    current_dir: &str,
    home: &Option<String>,
) -> (aggregation: Aggregation)
    ensures
        aggregation@ == aggregate(
            mode,
            entries@,
            texts(excludes@),
            current_dir@,
            home_view(*home),
        ),
{
    let ghost patterns = texts(excludes@);
    let ghost home_dir = home_view(*home);
    let mut document = String::new();
    let mut names: Vec<String> = Vec::new();
    let mut outcomes: Vec<FileOutcome> = Vec::new();
    let mut i: usize = 0;
    while i < entries.len()
        invariant
            i <= entries.len(),
            patterns == texts(excludes@),
            home_dir == home_view(*home),
            first_failure(mode, entries@, patterns, current_dir@, home_dir, 0) == first_failure(
                mode,
                entries@,
                patterns,
                current_dir@,
                home_dir,
                i as int,
            ),
            outcome_views(outcomes@) == Seq::new(
                i as nat,
                |k: int| judge(mode, entries@[k], patterns, current_dir@, home_dir)->Ok_0,
            ),
            document@ == document_of(entries@, outcome_views(outcomes@)),
            texts(names@) == names_of(outcome_views(outcomes@)),
        decreases entries.len() - i,
    {
        let entry = &entries[i];
        let ghost before = outcome_views(outcomes@);
        match classify(mode, entry, excludes, current_dir, home) {
            Err(error) => {
                return Aggregation { outcomes, result: Err(error) };
            },
            Ok(outcome) => {
                if let FileOutcome::Included { name } = &outcome {
                    if let Some(FileObservation::Readable { content, canonical }) =
                        &entry.observation {
                        push_block(&mut document, name.as_str(), content.as_str());
                    }
                    let ghost listed = texts(names@);
                    names.push(name.clone());
                    assert(texts(names@) =~= listed.push(name@));
                }
                outcomes.push(outcome);
                proof {
                    let after = outcome_views(outcomes@);
                    assert(after =~= before.push(outcome@));
                    assert(after.drop_last() =~= before);
                    assert(after.last() == outcome@);
                }
            },
        }
        i += 1;
    }
    if names.len() == 0 {
        Aggregation { outcomes, result: Err(CombineError::NoValidFiles) }
    } else {
        Aggregation { outcomes, result: Ok((document, names)) }
    }
}

/// The user's home directory as `dirs::home_dir` reports it, with the path
/// made into text. Nothing is claimed of the answer: it depends on the
/// environment of the process and on the user database.
#[verifier::external_body]
fn home_directory() -> (home: Option<String>) {
    match dirs::home_dir() {
        Some(path) => Some(path.to_string_lossy().into_owned()),
        None => None,
    }
}

/// Combines the candidates in `entries`, in their order, into one document.
///
/// In the full display the home directory is asked for once, and the result
/// is that of `combine_with_home` with whatever was answered; the other
/// displays do not depend on it.
pub fn combine_files_content(
    mode: PathDisplayMode,
    entries: &Vec<FileEntry>,
    excludes: &Vec<String>,
    current_dir: &str,
) -> (aggregation: Aggregation)
    ensures
        exists|home: Option<Seq<char>>|
            aggregation@ == #[trigger] aggregate(
                mode,
                entries@,
                texts(excludes@),
                current_dir@,
                home,
            ),
        mode != PathDisplayMode::Full ==> aggregation@ == aggregate(
            mode,
            entries@,
            texts(excludes@),
            current_dir@,
            None,
        ),
{
    let home = match mode {
        PathDisplayMode::Full => home_directory(),
        _ => None,
    };
    combine_with_home(mode, entries, excludes, current_dir, &home)
}

} // verus!
