//! The service over a storage backend: validates caller input, delegates to
//! the backend, and turns its neutral absence signal into a domain error.

use vstd::prelude::*;

use vstd::utf8::is_ascii_chars;

use crate::storage::Storage;
use crate::Repo;
use crate::RepoView;

pub mod nuggit;

pub use self::nuggit::Nuggit;

verus! {

/// Represents a service error.
#[derive(Debug, PartialEq)]
pub enum Error {
    /// Returned if a repository already exists.
    AlreadyExists,
    /// Returned if a repository is not found.
    NotFound,
    /// Returned if repository name is invalid.
    InvalidName,
    /// Returned if repository description is invalid.
    InvalidDescription,
    /// Returned if a method is not implemented.
    NotImplemented,
}

/// A valid repository name: non-empty, at most 64 bytes, ASCII only.
///
/// For an ASCII-only string the byte length and the number of characters
/// coincide, so the bound may be read over either.
pub open spec fn valid_name(s: Seq<char>) -> bool {
    1 <= s.len() <= 64 && is_ascii_chars(s)
}

/// A valid repository description: UTF-8 with at most 256 Unicode scalar
/// values.
pub open spec fn valid_description(s: Seq<char>) -> bool {
    s.len() <= 256
}

/// Decides whether `s` holds at most `limit` Unicode scalar values, stopping
/// as soon as the count passes the bound.
fn len_at_most(s: &str, limit: usize) -> (b: bool)
    ensures
        b == (s@.len() <= limit),
{
    let mut n: usize = 0;
    for c in it: s.chars()
        invariant
            n == it.index(),
            it.seq() == s@,
            n <= limit,
    {
        if n == limit {
            return false;
        }
        n += 1;
    }
    true
}

/// Decides [`valid_name`]: an ASCII scan and a character count. For an
/// ASCII-only string the character count equals the byte length, so the
/// bound of 64 may be read over bytes as well.
fn name_is_valid(name: &str) -> (b: bool)
    ensures
        b == valid_name(name@),
{
    if name.is_empty() || !name.is_ascii() {
        return false;
    }
    len_at_most(name, 64)
}

/// Decides [`valid_description`] by counting Unicode scalar values.
fn description_is_valid(description: &str) -> (b: bool)
    ensures
        b == valid_description(description@),
{
    len_at_most(description, 256)
}

/// Manages repositories and their metadata.
pub struct Service<T: Storage> {
    storage: T,
}

impl<T: Storage> Service<T> {
    /// The mapping from repository name to stored record, as the backend
    /// holds it.
    pub closed spec fn repos(&self) -> Map<Seq<char>, RepoView> {
        self.storage.repos()
    }

    /// Creates a new service over the given storage backend.
    pub fn new(storage: T) -> (s: Service<T>)
        ensures
            s.repos() == storage.repos(),
    {
        Service { storage }
    }

    /// Creates a repository if its `name` and `description` are valid and the
    /// name is still free. Validation happens before any storage access, so a
    /// rejected request leaves the store untouched.
    pub fn create(&mut self, name: &str, description: &str, creator: &str) -> (r: Result<
        Repo,
        Error,
    >)
        ensures
            r is Ok <==> valid_name(name@) && valid_description(description@) && !old(
                self,
            ).repos().contains_key(name@),
            r matches Ok(repo) ==> {
                &&& repo@.name == name@
                &&& repo@.description == description@
                &&& repo@.creator == creator@
                &&& final(self).repos() == old(self).repos().insert(name@, repo@)
            },
            r is Err ==> final(self).repos() == old(self).repos(),
            r matches Err(e) ==> e == (if !valid_name(name@) {
                Error::InvalidName
            } else if !valid_description(description@) {
                Error::InvalidDescription
            } else {
                Error::AlreadyExists
            }),
    {
        if !name_is_valid(name) {
            return Err(Error::InvalidName);
        }

        // Description is UTF-8, so we count Unicode scalar values.
        if !description_is_valid(description) {
            return Err(Error::InvalidDescription);
        }

        match self.storage.create(name, description, creator) {
            Some(repo) => Ok(repo),
            None => Err(Error::AlreadyExists),
        }
    }

    /// Retrieves a repository. No validation is applied to `name`: a lookup
    /// for a malformed name simply misses.
    pub fn retrieve(&self, name: &str) -> (r: Result<Repo, Error>)
        ensures
            r is Ok <==> self.repos().contains_key(name@),
            r matches Ok(repo) ==> repo@ == self.repos()[name@],
            r matches Err(e) ==> e == Error::NotFound,
    {
        match self.storage.retrieve(name) {
            Some(repo) => Ok(repo),
            None => Err(Error::NotFound),
        }
    }
}

/// `create` is not idempotent. A successful `create` stores its record under
/// the requested name, so the name is present afterwards; by `create`'s
/// contract a second call for the same name must then fail with
/// `AlreadyExists`, and — as with every failing call — leave the store
/// unchanged.
pub proof fn lemma_create_is_not_idempotent(
    repos: Map<Seq<char>, RepoView>,
    name: Seq<char>,
    repo: RepoView,
)
    ensures
        repos.insert(name, repo).contains_key(name),
{
}

/// Round trip. After a successful `create`, the record stored under the name
/// is exactly the returned one, so by `retrieve`'s contract a `retrieve` of
/// that name returns a repository equal to what `create` handed back.
pub proof fn lemma_create_retrieve_round_trip(
    repos: Map<Seq<char>, RepoView>,
    name: Seq<char>,
    repo: RepoView,
)
    ensures
        repos.insert(name, repo).contains_key(name),
        repos.insert(name, repo)[name] == repo,
{
}

} // verus!
