use vstd::prelude::*;

verus! {

/// An opened repository handle of the git2 crate, opaque to the library's
/// proofs; all access goes through the trusted functions below.
#[verifier::external_type_specification]
#[verifier::external_body]
pub struct ExRepository(git2::Repository);

/// The error type of the git2 crate, opaque here; callers map it to the
/// library's own error kinds.
#[verifier::external_type_specification]
#[verifier::external_body]
pub struct ExGitError(git2::Error);

/// A repository index handle of the git2 crate, opaque here.
#[verifier::external_type_specification]
#[verifier::external_body]
pub struct ExIndex(git2::Index);

/// The identifier the object store assigns to a commit object with the given
/// bytes. The store is content-addressed, so the identifier is a function of
/// the bytes alone; its definition is left to the store.
pub uninterp spec fn store_oid_of(data: Seq<u8>) -> Seq<u8>;

/// Relies on git2's Repository::open: opens the object store at the given
/// path, failing when the path is not a valid repository.
#[verifier::external_body]
pub(crate) fn open_repository(path: &str) -> (r: Result<git2::Repository, git2::Error>) {
    git2::Repository::open(path)
}

/// Relies on git2's Repository::index: a snapshot handle of the repository's
/// current index.
#[verifier::external_body]
pub(crate) fn repository_index(repo: &git2::Repository) -> (r: Result<git2::Index, git2::Error>) {
    repo.index()
}

/// Relies on git2's Index::write_tree: serializes the index as a tree into
/// the store and returns the tree's 20-byte identifier.
#[verifier::external_body]
pub(crate) fn index_write_tree(index: &mut git2::Index) -> (r: Result<Vec<u8>, git2::Error>)
    ensures
        r matches Ok(id) ==> id@.len() == 20,
{
    match index.write_tree() {
        Ok(oid) => Ok(oid.as_bytes().to_vec()),
        Err(e) => Err(e),
    }
}

/// Relies on git2's Repository::signature and Signature::name/email: the
/// repository's configured identity; a part is None when it is unset or not
/// well-formed text.
#[verifier::external_body]
pub(crate) fn repository_author(repo: &git2::Repository) -> (r: Result<
    (Option<Vec<u8>>, Option<Vec<u8>>),
    git2::Error,
>) {
    let signature = match repo.signature() {
        Ok(s) => s,
        Err(e) => return Err(e),
    };
    let name = signature.name().ok().map(|s| s.as_bytes().to_vec());
    let email = signature.email().ok().map(|s| s.as_bytes().to_vec());
    Ok((name, email))
}

/// Relies on git2's Repository::odb and Odb::write: writes the bytes into the
/// object database as a commit object and returns the 20-byte identifier the
/// store assigned, which content addressing determines from the bytes alone.
#[verifier::external_body]
pub(crate) fn write_commit_object(repo: &git2::Repository, data: &[u8]) -> (r: Result<
    Vec<u8>,
    git2::Error,
>)
    ensures
        r matches Ok(id) ==> id@ == store_oid_of(data@) && id@.len() == 20,
{
    let odb = match repo.odb() {
        Ok(o) => o,
        Err(e) => return Err(e),
    };
    match odb.write(git2::ObjectType::Commit, data) {
        Ok(oid) => Ok(oid.as_bytes().to_vec()),
        Err(e) => Err(e),
    }
}

/// Relies on git2's Oid::from_bytes, Repository::find_object and
/// Repository::reset with the mixed mode: repositions the repository's head
/// reference at the commit with the given 20-byte identifier without
/// touching the working tree. A mixed reset rewrites the index to the
/// commit's tree; every commit written here carries the tree that was
/// serialized from that same index, so the staged state is preserved in
/// effect.
#[verifier::external_body]
pub(crate) fn reset_head_mixed(repo: &git2::Repository, id: &[u8]) -> (r: Result<(), git2::Error>)
    requires
        id@.len() == 20,
{
    let oid = match git2::Oid::from_bytes(id) {
        Ok(o) => o,
        Err(e) => return Err(e),
    };
    let obj = match repo.find_object(oid, Some(git2::ObjectType::Commit)) {
        Ok(o) => o,
        Err(e) => return Err(e),
    };
    repo.reset(&obj, git2::ResetType::Mixed, None)
}

} // verus!
