use greenbois::committer::Committer;
use greenbois::errors::{GitTerminalError, IoError, MiningError, RepositoryError, WriterErrors};
use greenbois::options::Options;

#[test]
fn opening_a_missing_repository_reports_the_open_error() {
    let r = Committer::new(Options {
        repo: "/tmp/greenbois_no_such_repository_here".to_string(),
        msg: "msg".to_string(),
        days_to_commit: 0,
        start: 10,
        end: 20,
    });
    match r {
        Err(e) => assert_eq!(e, RepositoryError::OpenError),
        Ok(_) => panic!("opening a missing repository must fail"),
    }
}

#[test]
fn error_messages_are_human_readable() {
    assert_eq!(
        RepositoryError::OpenError.message(),
        "Failed to open repository at that path."
    );
    assert_eq!(
        RepositoryError::NameRetrievalError.message(),
        "Repository is missing git users name. Have you set it up yet?"
    );
    assert_eq!(
        RepositoryError::EmailRetrievalError.message(),
        "Repository is missing git users email. Have you set it up yet?"
    );
    assert_eq!(
        GitTerminalError::ResetHeadError.message(),
        "Failed to reset head to new commit."
    );
    assert_eq!(
        GitTerminalError::CommitObjectError.message(),
        "Failed to generate commit object."
    );
    assert_eq!(WriterErrors::TimeFormatError.message(), "Failed to format timestamp.");
    assert_eq!(IoError::StdinOpenError.message(), "Failed to open stdin.");
    assert_eq!(
        MiningError::SolveError.message(),
        "Failed to find a nonce that when hashed with the commit satisfied the prefix constraint."
    );
}
