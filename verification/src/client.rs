//! The client: what sends a request and returns the response. The one
//! place where a response is told apart as a success or a failure.

use crate::errors::ClientError;
use crate::request::{text_of, Request, Response};
use crate::text::{text_in, utf8_text};
use vstd::prelude::*;

verus! {

/// The first status code that counts as a success.
pub const HTTP_SUCCESS_FIRST: u16 = 200;

/// The last status code that counts as a success.
pub const HTTP_SUCCESS_LAST: u16 = 208;

/// Whether a status code counts as a success: the codes 200 to 208, both
/// included.
pub open spec fn is_success(code: u16) -> bool {
    HTTP_SUCCESS_FIRST <= code <= HTTP_SUCCESS_LAST
}

/// Whether a status code counts as a success.
pub fn status_is_success(code: u16) -> (ok: bool)
    ensures
        ok == is_success(code),
{
    HTTP_SUCCESS_FIRST <= code && code <= HTTP_SUCCESS_LAST
}

/// Whether `checked` is what becomes of `sent`, the outcome of sending a
/// request. A failure to send stays as it is. A response with a status in
/// the success range is handed on unchanged. Any other response becomes a
/// `ServerResponseError` that carries the status and, where the body is
/// UTF-8, the body as text.
pub open spec fn is_checked(
    sent: Result<Response, ClientError>,
    checked: Result<Response, ClientError>,
) -> bool {
    match sent {
        Err(e) => checked == Err::<Response, ClientError>(e),
        Ok(response) => if is_success(response.status) {
            checked == Ok::<Response, ClientError>(response)
        } else {
            checked matches Err(ClientError::ServerResponseError { code, content }) && code
                == response.status && text_of(content) == text_in(response.body@)
        },
    }
}

/// What becomes of the outcome of sending a request: see [`is_checked`].
pub fn check_response(sent: Result<Response, ClientError>) -> (r: Result<Response, ClientError>)
    ensures
        is_checked(sent, r),
{
    let response = sent?;
    if !status_is_success(response.status) {
        return Err(
            ClientError::ServerResponseError {
                code: response.status,
                content: utf8_text(&response.body),
            },
        );
    }
    Ok(response)
}

/// An HTTP client that can send the requests of endpoints.
pub trait Client {
    /// Sends the request and returns the response, whatever its status.
    fn send(&self, req: Request) -> Result<Response, ClientError>;

    /// The base URL that the paths of endpoints are relative to.
    fn base(&self) -> &str;

    /// Sends the request and checks the response. What is returned as a
    /// response has a status in the success range. As it is provided here,
    /// the result is what [`check_response`] makes of what `send` returned
    /// for the request.
    fn execute(&self, req: Request) -> (r: Result<Response, ClientError>)
        ensures
            r matches Ok(response) ==> is_success(response.status),
        default_ensures
            exists|sent: Result<Response, ClientError>| #[trigger]
                call_ensures(Self::send, (self, req), sent) && is_checked(sent, r),
    {
        check_response(self.send(req))
    }
}

/// Status codes are told apart at 200 and 208: both count as a success, the
/// codes next to them do not.
pub proof fn lemma_success_boundary()
    ensures
        is_success(200),
        is_success(208),
        !is_success(199),
        !is_success(209),
        forall|code: u16| is_success(code) <==> 200 <= code <= 208,
{
}

} // verus!
