use vstd::prelude::*;
use vstd::string::StringExecFns;

verus! {

/// Errors originating from repository access, translated for friendly error
/// handling within the library.
#[derive(Debug, Clone, Copy, PartialEq, Eq, Structural)]
pub enum RepositoryError {
    SignatureRetrievalError,
    NameRetrievalError,
    EmailRetrievalError,
    WorkdirRetrievalError,
    OpenError,
    FindIndexError,
    TreeWriteError,
}

impl RepositoryError {
    /// The human-readable description of this error.
    pub open spec fn spec_message(&self) -> Seq<char> {
        match self {
            RepositoryError::SignatureRetrievalError => "Failed to retrieve signature from git repository."@,
            RepositoryError::NameRetrievalError => "Repository is missing git users name. Have you set it up yet?"@,
            RepositoryError::EmailRetrievalError => "Repository is missing git users email. Have you set it up yet?"@,
            RepositoryError::WorkdirRetrievalError => "Failed to retrieve working directory for that repository."@,
            RepositoryError::OpenError => "Failed to open repository at that path."@,
            RepositoryError::FindIndexError => "Could not find the current repositories index."@,
            RepositoryError::TreeWriteError => "Failed to write tree."@,
        }
    }

    pub fn message(&self) -> (s: String)
        ensures
            s@ == self.spec_message(),
    {
        match self {
            RepositoryError::SignatureRetrievalError => String::from_str("Failed to retrieve signature from git repository."),
            RepositoryError::NameRetrievalError => String::from_str("Repository is missing git users name. Have you set it up yet?"),
            RepositoryError::EmailRetrievalError => String::from_str("Repository is missing git users email. Have you set it up yet?"),
            RepositoryError::WorkdirRetrievalError => String::from_str("Failed to retrieve working directory for that repository."),
            RepositoryError::OpenError => String::from_str("Failed to open repository at that path."),
            RepositoryError::FindIndexError => String::from_str("Could not find the current repositories index."),
            RepositoryError::TreeWriteError => String::from_str("Failed to write tree."),
        }
    }
}

/// General IO errors.
#[derive(Debug, Clone, Copy, PartialEq, Eq, Structural)]
pub enum IoError {
    StdinOpenError,
    StdinWriteError,
}

impl IoError {
    pub open spec fn spec_message(&self) -> Seq<char> {
        match self {
            IoError::StdinOpenError => "Failed to open stdin."@,
            IoError::StdinWriteError => "Failed to write to stdin."@,
        }
    }

    pub fn message(&self) -> (s: String)
        ensures
            s@ == self.spec_message(),
    {
        match self {
            IoError::StdinOpenError => String::from_str("Failed to open stdin."),
            IoError::StdinWriteError => String::from_str("Failed to write to stdin."),
        }
    }
}

/// Errors within the mining process.
#[derive(Debug, Clone, Copy, PartialEq, Eq, Structural)]
pub enum MiningError {
    SolveError,
}

impl MiningError {
    pub open spec fn spec_message(&self) -> Seq<char> {
        match self {
            MiningError::SolveError => "Failed to find a nonce that when hashed with the commit satisfied the prefix constraint."@,
        }
    }

    pub fn message(&self) -> (s: String)
        ensures
            s@ == self.spec_message(),
    {
        match self {
            MiningError::SolveError => String::from_str("Failed to find a nonce that when hashed with the commit satisfied the prefix constraint."),
        }
    }
}

/// These errors relate to writing objects into the repository's store and
/// handling failures passed back from it.
#[derive(Debug, Clone, Copy, PartialEq, Eq, Structural)]
pub enum GitTerminalError {
    ResetHeadError,
    CommitObjectError,
    AddError,
}

impl GitTerminalError {
    pub open spec fn spec_message(&self) -> Seq<char> {
        match self {
            GitTerminalError::ResetHeadError => "Failed to reset head to new commit."@,
            GitTerminalError::CommitObjectError => "Failed to generate commit object."@,
            GitTerminalError::AddError => "Failed to add files to staging."@,
        }
    }

    pub fn message(&self) -> (s: String)
        ensures
            s@ == self.spec_message(),
    {
        match self {
            GitTerminalError::ResetHeadError => String::from_str("Failed to reset head to new commit."),
            GitTerminalError::CommitObjectError => String::from_str("Failed to generate commit object."),
            GitTerminalError::AddError => String::from_str("Failed to add files to staging."),
        }
    }
}

/// Errors from the writer module.
#[derive(Debug, Clone, Copy, PartialEq, Eq, Structural)]
pub enum WriterErrors {
    TimeFormatError,
}

impl WriterErrors {
    pub open spec fn spec_message(&self) -> Seq<char> {
        match self {
            WriterErrors::TimeFormatError => "Failed to format timestamp."@,
        }
    }

    pub fn message(&self) -> (s: String)
        ensures
            s@ == self.spec_message(),
    {
        match self {
            WriterErrors::TimeFormatError => String::from_str("Failed to format timestamp."),
        }
    }
}

} // verus!
