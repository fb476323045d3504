//! The bodies of the answers that the service sends.

use vstd::prelude::*;

verus! {

/// The body of an answer that only says that the request succeeded.
#[derive(Debug)]
pub struct WebControllerSuccessResponse;

/// The body of an answer that only carries an error message.
#[derive(Debug)]
pub struct WebControllerErrorResponse {
    error_message: String,
}

impl View for WebControllerErrorResponse {
    type V = Seq<char>;

    closed spec fn view(&self) -> Seq<char> {
        self.error_message@
    }
}

impl WebControllerErrorResponse {
    /// An answer that carries `input` as its message.
    pub fn new(input: &str) -> (response: Self)
        ensures
            response@ == input@,
    {
        Self { error_message: input.to_string() }
    }

    /// The message.
    pub fn error_message(&self) -> (message: &str)
        ensures
            message@ == self@,
    {
        self.error_message.as_str()
    }
}

/// What a successful sign-in hands to the caller.
#[derive(Clone)]
pub struct AuthSessionOutput {
    /// The account, in its display form.
    pub public_address: String,
    /// The credential of the session.
    pub session_token: String,
    /// The Unix time, in seconds, at which the session ends.
    pub expires_at: i64,
}

/// The body of an answer to a request that succeeded.
pub struct SuccessResponse<T> {
    /// Always `true`.
    pub success: bool,
    /// What was asked for.
    pub data: T,
}

impl<T> SuccessResponse<T> {
    /// An answer that carries `data`.
    pub fn new(data: T) -> (response: Self)
        ensures
            response.success,
            response.data == data,
    {
        Self { success: true, data }
    }
}

/// The body of an answer to a request that failed.
pub struct ErrorResponse {
    /// Always `false`.
    pub success: bool,
    /// Why the request failed.
    pub error: String,
}

impl ErrorResponse {
    /// An answer that carries `error` as its reason.
    pub fn new(error: &str) -> (response: Self)
        ensures
            !response.success,
            response.error@ == error@,
    {
        Self { success: false, error: error.to_string() }
    }
}

} // verus!
