use vstd::prelude::*;
use crate::error::TailorError;

verus! {

/// What the caller found out about the path at the stage the accessibility check asked for.
#[derive(Debug)]
pub enum Observation {
    /// Whether any filesystem entry exists at the path.
    Presence(bool),
    /// The metadata of the entry: whether it is a directory, or why it could not be read.
    Metadata(Result<bool, String>),
    /// Opening the entry for reading succeeded, or failed for the given reason.
    Open(Result<(), String>),
}

/// How the check of a path ended.
#[derive(Debug)]
pub enum Verdict {
    /// The path can be opened for reading.
    Tailable,
    /// Nothing exists at the path; this is expected and not worth a warning.
    Missing,
    /// The path is a directory.
    Directory,
    /// The entry could not be opened for reading, for the given reason.
    Unreadable(String),
    /// The metadata could not be read, for the given reason; this is fatal.
    MetadataFailed(String),
}

/// What the accessibility check wants next.
#[derive(Debug)]
pub enum CheckAction {
    /// Find out whether an entry exists at the path.
    ProbePresence,
    /// Read the entry's metadata.
    ReadMetadata,
    /// Open the entry for reading, and close it again at once.
    OpenForRead,
    /// The check is over.
    Done(Verdict),
}

/// The policy, one stage at a time: existence, then type, then openability,
/// stopping at the first stage that rules the path out.
pub open spec fn next_action(obs: Observation) -> CheckAction {
    match obs {
        Observation::Presence(present) =>
            if present { CheckAction::ReadMetadata } else { CheckAction::Done(Verdict::Missing) },
        Observation::Metadata(Err(cause)) => CheckAction::Done(Verdict::MetadataFailed(cause)),
        Observation::Metadata(Ok(is_dir)) =>
            if is_dir { CheckAction::Done(Verdict::Directory) } else { CheckAction::OpenForRead },
        Observation::Open(Err(cause)) => CheckAction::Done(Verdict::Unreadable(cause)),
        Observation::Open(Ok(())) => CheckAction::Done(Verdict::Tailable),
    }
}

/// The verdict on a path, from what each stage would observe of it.
/// Later stages are not consulted once an earlier one has decided.
pub open spec fn verdict_of(
    present: bool,
    metadata: Result<bool, String>,
    open: Result<(), String>,
) -> Verdict {
    if !present {
        Verdict::Missing
    } else {
        match metadata {
            Err(cause) => Verdict::MetadataFailed(cause),
            Ok(is_dir) =>
                if is_dir {
                    Verdict::Directory
                } else {
                    match open {
                        Ok(()) => Verdict::Tailable,
                        Err(cause) => Verdict::Unreadable(cause),
                    }
                },
        }
    }
}

/// The first thing the accessibility check asks for.
pub fn first_action() -> (r: CheckAction)
    ensures
        r == CheckAction::ProbePresence,
{
    CheckAction::ProbePresence
}

/// What the accessibility check wants after `obs`.
pub fn step(obs: Observation) -> (r: CheckAction)
    ensures
        r == next_action(obs),
{
    match obs {
        Observation::Presence(present) => {
            if present {
                CheckAction::ReadMetadata
            } else {
                CheckAction::Done(Verdict::Missing)
            }
        },
        Observation::Metadata(Err(cause)) => CheckAction::Done(Verdict::MetadataFailed(cause)),
        Observation::Metadata(Ok(is_dir)) => {
            if is_dir {
                CheckAction::Done(Verdict::Directory)
            } else {
                CheckAction::OpenForRead
            }
        },
        Observation::Open(Err(cause)) => CheckAction::Done(Verdict::Unreadable(cause)),
        Observation::Open(Ok(())) => CheckAction::Done(Verdict::Tailable),
    }
}

/// The warning logged for a verdict on `path`, if any.
pub open spec fn warning_text(v: Verdict, path: Seq<char>) -> Option<Seq<char>> {
    match v {
        Verdict::Directory => Some(path + " is a directory"@),
        Verdict::Unreadable(cause) => Some("cannot read file "@ + path + ": "@ + cause@),
        _ => None,
    }
}

/// The verdict that a path's check reaches by following `next_action`
/// from the presence probe, each stage observing what is given for it.
pub open spec fn checked(
    present: bool,
    metadata: Result<bool, String>,
    open: Result<(), String>,
) -> CheckAction {
    let first = next_action(Observation::Presence(present));
    if first is ReadMetadata {
        let second = next_action(Observation::Metadata(metadata));
        if second is OpenForRead {
            next_action(Observation::Open(open))
        } else {
            second
        }
    } else {
        first
    }
}

impl Verdict {
    /// Whether the path can be tailed.
    pub fn is_tailable(&self) -> (r: bool)
        ensures
            r == (*self is Tailable),
    {
        match self {
            Verdict::Tailable => true,
            _ => false,
        }
    }

    /// The answer to "can `path` be tailed?": a fatal error when its
    /// metadata could not be read, else whether it is tailable.
    pub fn answer(self, path: String) -> (r: Result<bool, TailorError>)
        ensures
            self is MetadataFailed ==> r == Err::<bool, TailorError>(
                TailorError::Metadata { path, cause: self->MetadataFailed_0 },
            ),
            !(self is MetadataFailed) ==> r == Ok::<bool, TailorError>(self is Tailable),
    {
        match self {
            Verdict::Tailable => Ok(true),
            Verdict::MetadataFailed(cause) => Err(TailorError::Metadata { path, cause }),
            _ => Ok(false),
        }
    }

    /// The warning to log for this verdict on `path`: none for a tailable or
    /// missing path, nor for a fatal one, which is reported as an error.
    pub fn warning(&self, path: &str) -> (r: Option<String>)
        ensures
            r matches Some(w) ==> warning_text(*self, path@) == Some(w@),
            r is None ==> warning_text(*self, path@) is None,
    {
        match self {
            Verdict::Directory => {
                let mut s = path.to_owned();
                s.append(" is a directory");
                Some(s)
            },
            Verdict::Unreadable(cause) => {
                let mut s = String::from_str("cannot read file ");
                s.append(path);
                s.append(": ");
                s.append(cause.as_str());
                Some(s)
            },
            _ => None,
        }
    }
}

/// Taking the stages one after another gives the verdict of `verdict_of`:
/// nothing is probed after a missing path, no open is tried on a directory or
/// on a path without metadata, and only a path that opens is tailable.
pub proof fn stages_follow_policy(
    present: bool,
    metadata: Result<bool, String>,
    open: Result<(), String>,
)
    ensures
        checked(present, metadata, open) == CheckAction::Done(verdict_of(present, metadata, open)),
{
}

/// A path where nothing exists is not tailable, and nothing is logged for it.
pub proof fn missing_path_is_silent(
    path: Seq<char>,
    metadata: Result<bool, String>,
    open: Result<(), String>,
)
    ensures
        checked(false, metadata, open) == CheckAction::Done(Verdict::Missing),
        warning_text(Verdict::Missing, path) is None,
{
}

/// A directory is not tailable, and the warning says that the path is a directory.
pub proof fn directory_is_refused(path: Seq<char>, open: Result<(), String>)
    ensures
        checked(true, Ok(true), open) == CheckAction::Done(Verdict::Directory),
        warning_text(Verdict::Directory, path) == Some(path + " is a directory"@),
{
}

/// An entry that cannot be opened for reading is not tailable, and the
/// warning carries the reason the open failed.
pub proof fn unreadable_is_refused(path: Seq<char>, cause: String)
    ensures
        checked(true, Ok(false), Err(cause)) == CheckAction::Done(Verdict::Unreadable(cause)),
        warning_text(Verdict::Unreadable(cause), path) == Some(
            "cannot read file "@ + path + ": "@ + cause@,
        ),
        ("cannot read file "@ + path + ": "@ + cause@).subrange(
            ("cannot read file "@ + path + ": "@).len() as int,
            ("cannot read file "@ + path + ": "@ + cause@).len() as int,
        ) == cause@,
{
    let head = "cannot read file "@ + path + ": "@;
    assert((head + cause@).subrange(head.len() as int, (head + cause@).len() as int) =~= cause@);
}

/// A regular file that opens for reading is tailable, whatever it holds.
pub proof fn readable_file_is_tailable()
    ensures
        checked(true, Ok(false), Ok(())) == CheckAction::Done(Verdict::Tailable),
{
}

} // verus!
