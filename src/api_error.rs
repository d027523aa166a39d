use vstd::prelude::*;

verus! {

/// The errors that the stores and checks report, each with a message.
#[derive(Debug, Clone)]
pub enum ApiError {
    Unauthorized(String),
    NotFound(String),
    AlreadyExists(String),
    InterCanister(String),
}

/// A `NotFound` error with the given message.
pub fn not_found(msg: &str) -> (r: ApiError)
    ensures
        r matches ApiError::NotFound(m) && m@ == msg@,
{
    ApiError::NotFound(String::from_str(msg))
}

/// An `Unauthorized` error with the given message.
pub fn unauthorized(msg: &str) -> (r: ApiError)
    ensures
        r matches ApiError::Unauthorized(m) && m@ == msg@,
{
    ApiError::Unauthorized(String::from_str(msg))
}

/// An `AlreadyExists` error with the given message.
pub fn already_exists(msg: &str) -> (r: ApiError)
    ensures
        r matches ApiError::AlreadyExists(m) && m@ == msg@,
{
    ApiError::AlreadyExists(String::from_str(msg))
}

} // verus!
