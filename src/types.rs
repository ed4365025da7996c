//! Bodies that the HTTP handlers read and write.
use vstd::prelude::*;

verus! {

/// Body of a request that registers a new user.
#[derive(Debug)]
pub struct CreateUser {
    pub username: String,
    pub email: String,
    pub user_password: String,
}

/// Reply of a handler: whether it succeeded, and what it has to say.
#[derive(Debug)]
pub struct Response<T> {
    pub success: bool,
    pub message: T,
}

/// Query string that carries a token.
#[derive(Debug)]
pub struct QueryInfo {
    pub token: String,
}

/// Body of a login request.
#[derive(Debug)]
pub struct LoginUser {
    pub email: String,
    pub user_password: String,
}

impl<T> Response<T> {
    pub fn new(success: bool, message: T) -> (r: Self)
        ensures
            r.success == success,
            r.message == message,
    {
        Self { success, message }
    }
}

/// Reply of a handler that refused the request.
#[derive(Debug)]
pub struct ResponseError {
    pub success: bool,
    pub error: String,
}

impl ResponseError {
    pub fn new(success: bool, error: String) -> (r: Self)
        ensures
            r.success == success,
            r.error == error,
    {
        Self { success, error }
    }
}

} // verus!
