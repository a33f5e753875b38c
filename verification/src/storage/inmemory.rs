//! In-memory storage shared between concurrent callers.
//!
//! The store lives behind a reader-writer lock: retrievals take shared
//! access, creations take exclusive access for the whole check-then-insert
//! sequence, which is what keeps a name from being created twice even when
//! many callers race for it.

use vstd::prelude::*;

use vstd::rwlock::RwLock;
use vstd::rwlock::RwLockPredicate;

use crate::storage::repos_wf;
use crate::storage::InMemory;
use crate::storage::Storage;
use crate::Repo;
use crate::RepoView;

verus! {

/// The lock invariant of [`SharedInMemory`]: whatever store goes into the
/// lock is well-formed in the sense of [`repos_wf`].
pub struct StoreInv;

impl RwLockPredicate<InMemory> for StoreInv {
    open spec fn inv(self, store: InMemory) -> bool {
        repos_wf(store.repos())
    }
}

/// Implements in-memory storage of repository metadata for concurrent
/// callers: an [`InMemory`] store guarded by a reader-writer lock.
///
/// All data crossing the boundary is copied, so a caller can never observe
/// or induce mutation of the internal state through a returned record.
pub struct SharedInMemory {
    lock: RwLock<InMemory, StoreInv>,
}

impl SharedInMemory {
    #[verifier::type_invariant]
    spec fn wf(&self) -> bool {
        self.lock.pred() == StoreInv
    }

    /// Creates an empty storage.
    pub fn new() -> (s: SharedInMemory) {
        let store = InMemory::new();
        SharedInMemory { lock: RwLock::new(store, Ghost(StoreInv)) }
    }

    /// Creates a repository, unless the name is already taken.
    ///
    /// The existence check and the insertion happen under one exclusive hold
    /// of the lock, so among callers racing to create the same name exactly
    /// one receives `Some`; the others find the name present and receive
    /// `None`. Which caller wins is not promised.
    pub fn create(&self, name: &str, description: &str, creator: &str) -> (r: Option<Repo>)
        ensures
            r matches Some(repo) ==> {
                &&& repo@.name == name@
                &&& repo@.description == description@
                &&& repo@.creator == creator@
            },
    {
        proof {
            use_type_invariant(self);
        }
        let (mut store, handle) = self.lock.acquire_write();
        let r = store.create(name, description, creator);
        proof {
            // A created record carries its key, so the store stays well-formed.
            assert(repos_wf(store.repos()));
        }
        handle.release_write(store);
        r
    }

    /// Retrieves a copy of the repository stored under `name`, if any, while
    /// holding shared access to the store.
    pub fn retrieve(&self, name: &str) -> (r: Option<Repo>)
        ensures
            r matches Some(repo) ==> repo@.name == name@,
    {
        proof {
            use_type_invariant(self);
        }
        let handle = self.lock.acquire_read();
        let r = handle.borrow().retrieve(name);
        handle.release_read();
        r
    }
}

/// Exactly one of many creates for one name can succeed. The lock serializes
/// them; in that order, a create succeeds only when it finds the name absent,
/// a success makes the name present, and — as this lemma states — no later
/// insertion, for this name or any other, makes a present name absent again.
/// A failing create leaves the store unchanged altogether. So the first
/// serialized create finds the name absent and wins; every later one finds
/// it present and fails.
pub proof fn lemma_taken_names_stay_taken(
    m: Map<Seq<char>, RepoView>,
    name: Seq<char>,
    k: Seq<char>,
    repo: RepoView,
)
    ensures
        m.contains_key(name) ==> m.insert(k, repo).contains_key(name),
{
}

} // verus!
