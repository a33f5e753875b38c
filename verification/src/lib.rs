//! A metadata registry for repositories: named records carrying a
//! description, a creator and a creation time, with validation and a
//! uniqueness guarantee, on top of a swappable storage backend.

use vstd::prelude::*;

pub mod service;
pub mod storage;

pub use service::Nuggit;
pub use service::Service;
pub use storage::Storage;

verus! {

/// The mathematical value of a [`Repo`]: each field as its sequence of
/// characters.
pub ghost struct RepoView {
    pub name: Seq<char>,
    pub description: Seq<char>,
    pub creator: Seq<char>,
    pub created: Seq<char>,
}

/// Represents repository metadata.
#[derive(Debug, PartialEq)]
pub struct Repo {
    /// The name of the repository.
    pub name: String,
    /// A short description of the repository.
    pub description: String,
    /// ID of the user who created the repository.
    pub creator: String,
    /// Date and time at which the repository was created.
    pub created: String,
}

impl View for Repo {
    type V = RepoView;

    open spec fn view(&self) -> RepoView {
        RepoView {
            name: self.name@,
            description: self.description@,
            creator: self.creator@,
            created: self.created@,
        }
    }
}

impl Clone for Repo {
    /// Copies every field, so the copy carries the same record.
    fn clone(&self) -> (res: Self)
        ensures
            res == *self,
    {
        Repo {
            name: self.name.clone(),
            description: self.description.clone(),
            creator: self.creator.clone(),
            created: self.created.clone(),
        }
    }
}

} // verus!
