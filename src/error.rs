use vstd::prelude::*;

verus! {

/// A failure of this program itself, as opposed to a child that failed.
#[derive(Debug)]
pub enum TailorError {
    /// The path exists, but its metadata could not be read.
    Metadata { path: String, cause: String },
    /// The path cannot be tailed and no fallback command was given.
    NoFallback { path: String },
    /// The command could not be started at all.
    Spawn { command: String, cause: String },
}

/// The message reported for `e`.
pub open spec fn error_text(e: TailorError) -> Seq<char> {
    match e {
        TailorError::Metadata { path, cause } =>
            "failed to read metadata for "@ + path@ + ": "@ + cause@,
        TailorError::NoFallback { path } =>
            "File '"@ + path@ + "' is not readable and no fallback command specified."@,
        TailorError::Spawn { command, cause } =>
            "failed to execute command '"@ + command@ + "': "@ + cause@,
    }
}

impl TailorError {
    /// The message to show the user for this failure.
    pub fn message(&self) -> (r: String)
        ensures
            r@ == error_text(*self),
    {
        match self {
            TailorError::Metadata { path, cause } => {
                let mut s = String::from_str("failed to read metadata for ");
                s.append(path.as_str());
                s.append(": ");
                s.append(cause.as_str());
                s
            },
            TailorError::NoFallback { path } => {
                let mut s = String::from_str("File '");
                s.append(path.as_str());
                s.append("' is not readable and no fallback command specified.");
                s
            },
            TailorError::Spawn { command, cause } => {
                let mut s = String::from_str("failed to execute command '");
                s.append(command.as_str());
                s.append("': ");
                s.append(cause.as_str());
                s
            },
        }
    }
}

} // verus!
