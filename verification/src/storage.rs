//! Storage of repository metadata.
//!
//! A backend keeps at most one record per name and performs no validation:
//! `create` inserts if and only if the name is free, `retrieve` reports what
//! is stored under a name. Absence is signalled by `None`; attaching domain
//! meaning to it is the caller's business.

use vstd::prelude::*;

use vstd::hash_map::StringHashMap;

pub mod inmemory;

pub use inmemory::SharedInMemory;

use crate::Repo;
use crate::RepoView;

verus! {

/// Holds when every stored record carries the name it is keyed by.
///
/// Every backend of this crate establishes this from an empty store and
/// preserves it across `create` and `retrieve`.
pub open spec fn repos_wf(m: Map<Seq<char>, RepoView>) -> bool {
    forall|k: Seq<char>| #[trigger] m.contains_key(k) ==> m[k].name == k
}

/// Represents storage of repository metadata.
pub trait Storage: Sized {
    /// The mapping from repository name to the record stored under it.
    spec fn repos(&self) -> Map<Seq<char>, RepoView>;

    /// Create a repository: insert a record under `name` if and only if no
    /// record with that name exists, and hand back a copy of what was stored.
    fn create(&mut self, name: &str, description: &str, creator: &str) -> (r: Option<Repo>)
        ensures
            match r {
                Some(repo) => {
                    &&& !old(self).repos().contains_key(name@)
                    &&& repo@.name == name@
                    &&& repo@.description == description@
                    &&& repo@.creator == creator@
                    &&& final(self).repos() == old(self).repos().insert(name@, repo@)
                },
                None => {
                    &&& old(self).repos().contains_key(name@)
                    &&& final(self).repos() == old(self).repos()
                },
            };

    /// Retrieve a copy of the repository stored under `name`, if any.
    fn retrieve(&self, name: &str) -> (r: Option<Repo>)
        ensures
            match r {
                Some(repo) => self.repos().contains_key(name@) && repo@ == self.repos()[name@],
                None => !self.repos().contains_key(name@),
            };
}

/// In-memory storage for repositories, backed by a hash map keyed by the
/// repository name. It holds the store exclusively; for a store shared
/// between concurrent callers, see [`crate::storage::SharedInMemory`].
pub struct InMemory {
    s: StringHashMap<Repo>,
}

impl InMemory {
    /// Creates an empty storage.
    pub fn new() -> (store: InMemory)
        ensures
            store.repos() == Map::<Seq<char>, RepoView>::empty(),
    {
        let store = InMemory { s: StringHashMap::new() };
        proof {
            assert(store.repos() =~= Map::<Seq<char>, RepoView>::empty());
        }
        store
    }
}

impl Storage for InMemory {
    closed spec fn repos(&self) -> Map<Seq<char>, RepoView> {
        self.s@.map_values(|r: Repo| r@)
    }

    /// Creates a repository. The creation time is fixed for now: this backend
    /// does not consult a clock.
    fn create(&mut self, name: &str, description: &str, creator: &str) -> (r: Option<Repo>) {
        if self.s.contains_key(name) {
            return None;
        }

        let created = "2020-04-28T13:48:01.778470";
        let repo = Repo {
            name: name.to_owned(),
            description: description.to_owned(),
            creator: creator.to_owned(),
            created: created.to_owned(),
        };
        self.s.insert(name.to_owned(), repo.clone());
        proof {
            assert(self.repos() =~= old(self).repos().insert(name@, repo@));
        }
        Some(repo)
    }

    /// Retrieves a repository.
    fn retrieve(&self, name: &str) -> (r: Option<Repo>) {
        match self.s.get(name) {
            Some(r) => Some(r.clone()),
            None => None,
        }
    }
}

} // verus!
