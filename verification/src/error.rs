//! The library's errors.

use vstd::prelude::*;

verus! {

/// What went wrong.
#[derive(Clone, Copy, Debug, PartialEq, Eq, Structural)]
pub enum ActixAdminErrorType {
    BadRequest,
    NotFound,
    InternalError,
    EntityDoesNotExistError,
    ValidationErrors,
}

/// An error with its kind and message.
#[derive(Debug)]
pub struct ActixAdminError {
    pub ty: ActixAdminErrorType,
    pub msg: String,
}

impl Clone for ActixAdminError {
    fn clone(&self) -> (r: Self)
        ensures
            r == *self,
    {
        ActixAdminError { ty: self.ty, msg: self.msg.clone() }
    }
}

impl ActixAdminError {
    /// A request that the library refuses.
    pub fn bad_request(msg: String) -> (e: ActixAdminError)
        ensures
            e.ty == ActixAdminErrorType::BadRequest,
            e.msg == msg,
    {
        ActixAdminError { ty: ActixAdminErrorType::BadRequest, msg }
    }

    /// A failure on the server's side.
    pub fn internal(msg: String) -> (e: ActixAdminError)
        ensures
            e.ty == ActixAdminErrorType::InternalError,
            e.msg == msg,
    {
        ActixAdminError { ty: ActixAdminErrorType::InternalError, msg }
    }

    /// Something that was asked for does not exist.
    pub fn not_found(msg: String) -> (e: ActixAdminError)
        ensures
            e.ty == ActixAdminErrorType::NotFound,
            e.msg == msg,
    {
        ActixAdminError { ty: ActixAdminErrorType::NotFound, msg }
    }

    /// Whether the error says that the entity asked for does not exist.
    pub fn is_missing_entity(&self) -> (r: bool)
        ensures
            r == (self.ty == ActixAdminErrorType::EntityDoesNotExistError),
    {
        self.ty == ActixAdminErrorType::EntityDoesNotExistError
    }
}

} // verus!
