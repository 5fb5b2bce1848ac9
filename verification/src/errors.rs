//! The error type returned across the crate.

use crate::enums::RequestMethod;
use vstd::prelude::*;

verus! {

/// What went wrong, without the details: one kind for each variant of
/// [`ClientError`].
#[derive(Clone, Copy, Debug, PartialEq, Eq, Structural)]
pub enum ErrorKind {
    DataParse,
    EndpointBuild,
    Generic,
    PathInterpolation,
    Request,
    RequestBuild,
    ReqwestBuild,
    Response,
    ResponseConversion,
    ResponseParse,
    ServerResponse,
    UrlBuild,
    UrlQueryParse,
    UrlParse,
}

/// The general error type returned by this crate. A `source` is the text of
/// the failure that caused the error.
#[derive(Debug)]
#[allow(inconsistent_fields)]
pub enum ClientError {
    /// The request data could not be serialized.
    DataParseError { source: String },
    /// The endpoint's definition is not valid.
    EndpointBuildError { source: String },
    /// A failure outside the steps below, such as one raised by middleware.
    GenericError { source: String },
    /// A placeholder of the path template has no value.
    PathInterpolationError { placeholder: String },
    /// The transport could not send the request.
    RequestError { source: String, url: String, method: String },
    /// The transport rejected the request before sending it.
    RequestBuildError { source: String, method: RequestMethod, url: String },
    /// The request could not be handed to the HTTP backend.
    ReqwestBuildError { source: String },
    /// The response could not be retrieved.
    ResponseError { source: String },
    /// The response body is not UTF-8.
    ResponseConversionError { source: String, content: Vec<u8> },
    /// The response body could not be parsed into the requested type.
    ResponseParseError { source: String, content: Option<String> },
    /// The server answered with a status outside the success range.
    ServerResponseError { code: u16, content: Option<String> },
    /// The assembled URL is not a valid URI.
    UrlBuildError { source: String },
    /// The query parameters could not be serialized.
    UrlQueryParseError { source: String },
    /// The base address is not a valid URL.
    UrlParseError { source: String },
}

impl ClientError {
    /// The kind of this error.
    pub open spec fn kind_of(&self) -> ErrorKind {
        match *self {
            ClientError::DataParseError { .. } => ErrorKind::DataParse,
            ClientError::EndpointBuildError { .. } => ErrorKind::EndpointBuild,
            ClientError::GenericError { .. } => ErrorKind::Generic,
            ClientError::PathInterpolationError { .. } => ErrorKind::PathInterpolation,
            ClientError::RequestError { .. } => ErrorKind::Request,
            ClientError::RequestBuildError { .. } => ErrorKind::RequestBuild,
            ClientError::ReqwestBuildError { .. } => ErrorKind::ReqwestBuild,
            ClientError::ResponseError { .. } => ErrorKind::Response,
            ClientError::ResponseConversionError { .. } => ErrorKind::ResponseConversion,
            ClientError::ResponseParseError { .. } => ErrorKind::ResponseParse,
            ClientError::ServerResponseError { .. } => ErrorKind::ServerResponse,
            ClientError::UrlBuildError { .. } => ErrorKind::UrlBuild,
            ClientError::UrlQueryParseError { .. } => ErrorKind::UrlQueryParse,
            ClientError::UrlParseError { .. } => ErrorKind::UrlParse,
        }
    }

    /// The kind of this error.
    #[verifier::when_used_as_spec(kind_of)]
    pub fn kind(&self) -> (k: ErrorKind)
        ensures
            k == self.kind_of(),
    {
        match self {
            ClientError::DataParseError { .. } => ErrorKind::DataParse,
            ClientError::EndpointBuildError { .. } => ErrorKind::EndpointBuild,
            ClientError::GenericError { .. } => ErrorKind::Generic,
            ClientError::PathInterpolationError { .. } => ErrorKind::PathInterpolation,
            ClientError::RequestError { .. } => ErrorKind::Request,
            ClientError::RequestBuildError { .. } => ErrorKind::RequestBuild,
            ClientError::ReqwestBuildError { .. } => ErrorKind::ReqwestBuild,
            ClientError::ResponseError { .. } => ErrorKind::Response,
            ClientError::ResponseConversionError { .. } => ErrorKind::ResponseConversion,
            ClientError::ResponseParseError { .. } => ErrorKind::ResponseParse,
            ClientError::ServerResponseError { .. } => ErrorKind::ServerResponse,
            ClientError::UrlBuildError { .. } => ErrorKind::UrlBuild,
            ClientError::UrlQueryParseError { .. } => ErrorKind::UrlQueryParse,
            ClientError::UrlParseError { .. } => ErrorKind::UrlParse,
        }
    }

    /// The sentence that describes an error of kind `kind`.
    pub open spec fn sentence(kind: ErrorKind) -> Seq<char> {
        match kind {
            ErrorKind::DataParse => "Error parsing endpoint into data"@,
            ErrorKind::EndpointBuild => "Error building endpoint request"@,
            ErrorKind::Generic => "An error occurred in processing the request"@,
            ErrorKind::PathInterpolation => "Error resolving endpoint path"@,
            ErrorKind::Request => "Error sending HTTP request"@,
            ErrorKind::RequestBuild => "Error building HTTP request"@,
            ErrorKind::ReqwestBuild => "Error building request for Reqwest crate"@,
            ErrorKind::Response => "Error retrieving HTTP response"@,
            ErrorKind::ResponseConversion => "Error parsing server response as UTF-8"@,
            ErrorKind::ResponseParse => "Error parsing HTTP response"@,
            ErrorKind::ServerResponse => "Server returned error"@,
            ErrorKind::UrlBuild => "Error building URL"@,
            ErrorKind::UrlQueryParse => "Error serializing URL query parameters"@,
            ErrorKind::UrlParse => "Error parsing URL"@,
        }
    }

    /// The sentence that describes this error, without its details.
    pub fn message(&self) -> (s: &'static str)
        ensures
            s@ == Self::sentence(self.kind_of()),
    {
        match self {
            ClientError::DataParseError { .. } => "Error parsing endpoint into data",
            ClientError::EndpointBuildError { .. } => "Error building endpoint request",
            ClientError::GenericError { .. } => "An error occurred in processing the request",
            ClientError::PathInterpolationError { .. } => "Error resolving endpoint path",
            ClientError::RequestError { .. } => "Error sending HTTP request",
            ClientError::RequestBuildError { .. } => "Error building HTTP request",
            ClientError::ReqwestBuildError { .. } => "Error building request for Reqwest crate",
            ClientError::ResponseError { .. } => "Error retrieving HTTP response",
            ClientError::ResponseConversionError { .. } => "Error parsing server response as UTF-8",
            ClientError::ResponseParseError { .. } => "Error parsing HTTP response",
            ClientError::ServerResponseError { .. } => "Server returned error",
            ClientError::UrlBuildError { .. } => "Error building URL",
            ClientError::UrlQueryParseError { .. } => "Error serializing URL query parameters",
            ClientError::UrlParseError { .. } => "Error parsing URL",
        }
    }
}

} // verus!
