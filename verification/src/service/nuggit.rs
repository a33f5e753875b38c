//! The service over storage shared between concurrent callers.

use vstd::prelude::*;

use crate::service::description_is_valid;
use crate::service::name_is_valid;
use crate::service::valid_description;
use crate::service::valid_name;
use crate::service::Error;
use crate::storage::SharedInMemory;
use crate::Repo;

verus! {

/// Manages repositories and their metadata over a [`SharedInMemory`] store,
/// so many callers can create and retrieve concurrently through shared
/// references to one service.
pub struct Nuggit {
    storage: SharedInMemory,
}

impl Nuggit {
    /// Creates a new service.
    pub fn new(storage: SharedInMemory) -> Nuggit {
        Nuggit { storage }
    }

    /// Creates a repository if its `name` and `description` is valid.
    ///
    /// Validation happens before any storage access. With valid input the
    /// call either returns the stored record or, when the name was already
    /// taken at the moment this call held the store exclusively, fails with
    /// `AlreadyExists`.
    pub fn create(&self, name: &str, description: &str, creator: &str) -> (r: Result<Repo, Error>)
        ensures
            r matches Ok(repo) ==> {
                &&& valid_name(name@)
                &&& valid_description(description@)
                &&& repo@.name == name@
                &&& repo@.description == description@
                &&& repo@.creator == creator@
            },
            r matches Err(e) ==> e == (if !valid_name(name@) {
                Error::InvalidName
            } else if !valid_description(description@) {
                Error::InvalidDescription
            } else {
                Error::AlreadyExists
            }),
    {
        if !name_is_valid(name) {
            return Err(Error::InvalidName);
        }

        // Description is UTF-8, so we count Unicode Scalar Values.
        if !description_is_valid(description) {
            return Err(Error::InvalidDescription);
        }

        match self.storage.create(name, description, creator) {
            Some(repo) => Ok(repo),
            None => Err(Error::AlreadyExists),
        }
    }

    /// Retrieves a repository.
    pub fn retrieve(&self, name: &str) -> (r: Result<Repo, Error>)
        ensures
            r matches Ok(repo) ==> repo@.name == name@,
            r matches Err(e) ==> e == Error::NotFound,
    {
        match self.storage.retrieve(name) {
            Some(repo) => Ok(repo),
            None => Err(Error::NotFound),
        }
    }
}

} // verus!
