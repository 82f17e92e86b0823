//! How a request for a directory ends before any document is built: the
//! directory is there and listed, or it is missing, or it is no directory.

use vstd::prelude::*;

verus! {

/// Why a request for an item gives no document.
#[derive(Debug, Clone, Copy, PartialEq, Eq, Structural)]
pub enum RequestError {
    /// There is nothing at the path of the item.
    NotFound,
    /// What is at the path of the item is no directory.
    NotADirectory,
}

/// What was found at the path of an item.
#[derive(Debug)]
pub enum Directory<T> {
    /// Nothing is there.
    Missing,
    /// Something is there, and it is no directory.
    NotADirectory,
    /// A directory, with its entries in the order of their paths. A
    /// directory without entries is a directory.
    Entries(Vec<T>),
}

impl<T> Directory<T> {
    /// The error that ends the request, if the directory could not be
    /// listed.
    pub open spec fn failure(self) -> Option<RequestError> {
        match self {
            Directory::Missing => Some(RequestError::NotFound),
            Directory::NotADirectory => Some(RequestError::NotADirectory),
            Directory::Entries(_) => None,
        }
    }

    /// The entries of the directory, or the error that ends the request.
    pub fn entries(self) -> (r: Result<Vec<T>, RequestError>)
        ensures
            match r {
                Ok(entries) => self == Directory::Entries(entries),
                Err(e) => self.failure() == Some(e),
            },
    {
        match self {
            Directory::Missing => Err(RequestError::NotFound),
            Directory::NotADirectory => Err(RequestError::NotADirectory),
            Directory::Entries(entries) => Ok(entries),
        }
    }
}

} // verus!
