//! The repository port: the operations that the domain asks of storage.

use vstd::prelude::*;
use crate::model::{
    Author, CreateAuthorError, CreateAuthorRequest, DeleteAuthorError, DeleteAuthorRequest,
    FindAllAuthorsError, FindAuthorError, FindAuthorRequest, UpdateAuthorError,
    UpdateAuthorRequest,
};

verus! {

/// Storage of authors. The storage assigns ids; a name is held by at most
/// one author, and `create_author` reports a taken name as `Duplicate`.
/// Every other failure of the backend is `Unknown`, with its cause.
pub trait AuthorRepository {
    /// Stores a new author with the request's name and email.
    fn create_author(&mut self, req: &CreateAuthorRequest) -> (r: Result<Author, CreateAuthorError>)
        ensures
            r matches Ok(a) ==> a@.name == req.spec_name() && a@.email == req.spec_email(),
            r matches Err(CreateAuthorError::Duplicate { name }) ==> name@ == req.spec_name(),
    ;

    /// The author with the request's id.
    fn find_author(&self, req: &FindAuthorRequest) -> (r: Result<Author, FindAuthorError>)
        ensures
            r matches Ok(a) ==> a@.id == req.spec_id(),
            r matches Err(FindAuthorError::NotFound { id }) ==> id == req.spec_id(),
    ;

    /// Every stored author, in the storage's order.
    fn find_all_authors(&self) -> (r: Result<Vec<Author>, FindAllAuthorsError>);

    /// Sets the fields that the request sets and leaves the others.
    fn update_author(&mut self, req: &UpdateAuthorRequest) -> (r: Result<(), UpdateAuthorError>)
        ensures
            r matches Err(UpdateAuthorError::NotFound { id }) ==> id == req.spec_id(),
    ;

    /// Removes the author with the request's id.
    fn delete_author(&mut self, req: &DeleteAuthorRequest) -> (r: Result<(), DeleteAuthorError>)
        ensures
            r matches Err(DeleteAuthorError::NotFound { id }) ==> id == req.spec_id(),
    ;
}

} // verus!
