//! Endpoints: what describes a remote operation, how it is executed, and
//! what is made of its response.

use crate::client::{is_success, Client};
use crate::enums::{RequestMethod, RequestType, ResponseType};
use crate::errors::ClientError;
use crate::json::json_error_text;
use crate::request::{
    build_request, build_url, is_built, text_matches, text_of, url_outcome, Request, Response,
};
use crate::text::{text_in, utf8_text};
use std::marker::PhantomData;
use vstd::prelude::*;

verus! {

/// A generic wrapper around the response of an endpoint. Some APIs return
/// every response inside an envelope; a type that stands for the envelope
/// names, as `Value`, the type of what it encloses.
pub trait Wrapper {
    type Value;
}

/// Changes the request of an endpoint before it is sent, and its response
/// before it is returned. A hook that has nothing to change returns `Ok(())`.
pub trait MiddleWare {
    /// Changes the request before it is sent.
    fn request<E: Endpoint>(&self, endpoint: &E, req: &mut Request) -> Result<(), ClientError>;

    /// Changes the response before it is returned.
    fn response<E: Endpoint>(&self, endpoint: &E, resp: &mut Response) -> Result<
        (),
        ClientError,
    >;
}

/// A remote operation: a path relative to the base URL of a client, a
/// method, and optionally a query string and a body.
pub trait Endpoint: Sized {
    /// The type that the body of the response is parsed into.
    type Response;

    /// The content type of the request body.
    fn request_body_type(&self) -> RequestType;

    /// The content type of the response body.
    fn response_body_type(&self) -> ResponseType;

    /// The path of the endpoint, relative to the base URL of a client.
    fn path(&self) -> String;

    /// The method of the request.
    fn method(&self) -> RequestMethod;

    /// The query string of the request, if it has one.
    fn query(&self) -> (r: Result<Option<String>, ClientError>)
        default_ensures
            r matches Ok(None),
    {
        Ok(None)
    }

    /// The body of the request, if it has one.
    fn body(&self) -> (r: Result<Option<Vec<u8>>, ClientError>)
        default_ensures
            r matches Ok(None),
    {
        Ok(None)
    }

    /// The full URL of the endpoint under the base URL `base`. As it is
    /// provided here, it is the URL that `build_url` makes of the base, of
    /// what `path` returned and of what `query` returned; an error of
    /// `query` is returned as it is.
    fn url(&self, base: &str) -> (r: Result<String, ClientError>)
        default_ensures
            exists|query: Result<Option<String>, ClientError>| #[trigger]
                call_ensures(Self::query, (self,), query) && match query {
                    Err(e) => r == Err::<String, ClientError>(e),
                    Ok(query) => exists|path: String| #[trigger]
                        call_ensures(Self::path, (self,), path) && text_matches(
                            r,
                            url_outcome(base@, path@, text_of(query)),
                        ),
                },
    {
        let query = self.query()?;
        let path = self.path();
        build_url(base, path.as_str(), query)
    }

    /// The request that executes the endpoint under the base URL `base`. As
    /// it is provided here, it is the request that `build_request` makes of
    /// the base and of what `query`, `body`, `path` and `method` returned,
    /// asked in that order; an error of `query` or `body` is returned as it
    /// is, and nothing is asked after it.
    fn request(&self, base: &str) -> (r: Result<Request, ClientError>)
        default_ensures
            exists|query: Result<Option<String>, ClientError>| #[trigger]
                call_ensures(Self::query, (self,), query) && match query {
                    Err(e) => r == Err::<Request, ClientError>(e),
                    Ok(query) => exists|body: Result<Option<Vec<u8>>, ClientError>| #[trigger]
                        call_ensures(Self::body, (self,), body) && match body {
                            Err(e) => r == Err::<Request, ClientError>(e),
                            Ok(body) => exists|path: String, method: RequestMethod|
                                #![trigger
                                    call_ensures(Self::path, (self,), path),
                                    call_ensures(Self::method, (self,), method),
                                ]
                                call_ensures(Self::path, (self,), path) && call_ensures(
                                    Self::method,
                                    (self,),
                                    method,
                                ) && is_built(r, base@, path@, method, text_of(query), body),
                        },
                },
    {
        let query = self.query()?;
        let body = self.body()?;
        let path = self.path();
        let method = self.method();
        build_request(base, path.as_str(), method, query, body)
    }

    /// Executes the endpoint with the given client. As it is provided here:
    /// the request is what `request` returned under the base URL of the
    /// client; it is handed to `execute` of the client; the response that
    /// comes back is wrapped, not parsed, together with what
    /// `response_body_type` returned. An error of `request` or of the client
    /// is returned as it is.
    fn exec_block<C: Client>(&self, client: &C) -> (r: Result<
        EndpointResult<Self::Response>,
        ClientError,
    >)
        default_ensures
            exists|base: &str, built: Result<Request, ClientError>|
                #![trigger call_ensures(C::base, (client,), base), call_ensures(Self::request, (self, base), built)]
                call_ensures(C::base, (client,), base) && call_ensures(
                    Self::request,
                    (self, base),
                    built,
                ) && match built {
                    Err(e) => r == Err::<EndpointResult<Self::Response>, ClientError>(e),
                    Ok(req) => exists|sent: Result<Response, ClientError>| #[trigger]
                        call_ensures(C::execute, (client, req), sent) && match sent {
                            Err(e) => r == Err::<EndpointResult<Self::Response>, ClientError>(e),
                            Ok(response) => exists|ty: ResponseType| #[trigger]
                                call_ensures(Self::response_body_type, (self,), ty) && (r matches Ok(
                                    result,
                                ) && result.response == response && result.ty == ty),
                        },
                },
    {
        let req = self.request(client.base())?;
        let resp = exec_block(client, req)?;
        Ok(EndpointResult::new(resp, self.response_body_type()))
    }
}

/// An endpoint together with the middleware that changes its request and its
/// response.
pub struct MutatedEndpoint<'a, E: Endpoint, M: MiddleWare> {
    pub endpoint: E,
    pub middleware: &'a M,
}

impl<'a, E: Endpoint, M: MiddleWare> MutatedEndpoint<'a, E, M> {
    /// Puts an endpoint and its middleware together.
    pub fn new(endpoint: E, middleware: &'a M) -> (r: Self)
        ensures
            r.endpoint == endpoint,
            r.middleware == middleware,
    {
        MutatedEndpoint { endpoint, middleware }
    }
}

impl<'a, E: Endpoint, M: MiddleWare> Endpoint for MutatedEndpoint<'a, E, M> {
    type Response = E::Response;

    /// What the endpoint itself returns.
    fn request_body_type(&self) -> (r: RequestType)
        ensures
            call_ensures(E::request_body_type, (&self.endpoint,), r),
    {
        self.endpoint.request_body_type()
    }

    /// What the endpoint itself returns.
    fn response_body_type(&self) -> (r: ResponseType)
        ensures
            call_ensures(E::response_body_type, (&self.endpoint,), r),
    {
        self.endpoint.response_body_type()
    }

    /// What the endpoint itself returns.
    fn path(&self) -> (r: String)
        ensures
            call_ensures(E::path, (&self.endpoint,), r),
    {
        self.endpoint.path()
    }

    /// What the endpoint itself returns.
    fn method(&self) -> (r: RequestMethod)
        ensures
            call_ensures(E::method, (&self.endpoint,), r),
    {
        self.endpoint.method()
    }

    /// What the endpoint itself returns.
    fn query(&self) -> (r: Result<Option<String>, ClientError>)
        ensures
            call_ensures(E::query, (&self.endpoint,), r),
    {
        self.endpoint.query()
    }

    /// What the endpoint itself returns.
    fn body(&self) -> (r: Result<Option<Vec<u8>>, ClientError>)
        ensures
            call_ensures(E::body, (&self.endpoint,), r),
    {
        self.endpoint.body()
    }

    /// What the endpoint itself returns.
    fn url(&self, base: &str) -> (r: Result<String, ClientError>)
        ensures
            call_ensures(E::url, (&self.endpoint, base), r),
    {
        self.endpoint.url(base)
    }

    /// The request of the endpoint after the middleware has seen it: see
    /// [`mutated_request`].
    fn request(&self, base: &str) -> (r: Result<Request, ClientError>)
        ensures
            call_ensures(mutated_request::<E, M>, (&self.endpoint, self.middleware, base), r),
    {
        mutated_request(&self.endpoint, self.middleware, base)
    }

    /// Executes the endpoint with the given client: the request is what
    /// `request` returned under the base URL of the client; it is handed to
    /// `execute` of the client; what comes back goes through [`respond`],
    /// and the response that is left is wrapped, not parsed, together with
    /// what `response_body_type` of the endpoint returned. An error of
    /// `request`, of the client or of the middleware is returned as it is.
    fn exec_block<C: Client>(&self, client: &C) -> (r: Result<
        EndpointResult<Self::Response>,
        ClientError,
    >)
        ensures
            exists|base: &str, built: Result<Request, ClientError>|
                #![trigger
                    call_ensures(C::base, (client,), base),
                    call_ensures(
                        mutated_request::<E, M>,
                        (&self.endpoint, self.middleware, base),
                        built,
                    ),
                ]
                call_ensures(C::base, (client,), base) && call_ensures(
                    mutated_request::<E, M>,
                    (&self.endpoint, self.middleware, base),
                    built,
                ) && match built {
                    Err(e) => r == Err::<EndpointResult<Self::Response>, ClientError>(e),
                    Ok(req) => exists|answer: Result<Response, ClientError>| #[trigger]
                        call_ensures(
                            exec_block_mut::<C, E, M>,
                            (client, &self.endpoint, req, self.middleware),
                            answer,
                        ) && match answer {
                            Err(e) => r == Err::<EndpointResult<Self::Response>, ClientError>(e),
                            Ok(response) => exists|ty: ResponseType| #[trigger]
                                call_ensures(E::response_body_type, (&self.endpoint,), ty) && (r matches Ok(
                                    result,
                                ) && result.response == response && result.ty == ty),
                        },
                },
    {
        let req = self.request(client.base())?;
        let resp = exec_block_mut(client, &self.endpoint, req, self.middleware)?;
        Ok(EndpointResult::new(resp, self.response_body_type()))
    }
}

/// Gives every endpoint the method that attaches middleware to it.
pub trait WithMiddleware: Endpoint {
    /// The endpoint together with `middleware`.
    fn with_middleware<M: MiddleWare>(self, middleware: &M) -> MutatedEndpoint<'_, Self, M>;
}

impl<E: Endpoint> WithMiddleware for E {
    fn with_middleware<M: MiddleWare>(self, middleware: &M) -> (r: MutatedEndpoint<'_, Self, M>)
        ensures
            r.endpoint == self,
            r.middleware == middleware,
    {
        MutatedEndpoint::new(self, middleware)
    }
}

/// The response of an endpoint, not yet parsed.
pub struct EndpointResult<T> {
    pub response: Response,
    pub ty: ResponseType,
    pub inner: PhantomData<T>,
}

impl<T> EndpointResult<T> {
    /// Wraps a response and the content type of its body.
    pub fn new(response: Response, ty: ResponseType) -> (r: Self)
        ensures
            r.response == response,
            r.ty == ty,
    {
        EndpointResult { response, ty, inner: PhantomData }
    }

    /// What is made of the body once a deserializer has read it. An empty
    /// body is no content, whatever the deserializer said of it. Otherwise
    /// the value that was read is handed on, and a failure to read becomes a
    /// `ResponseParseError` that carries the body as text where it is UTF-8.
    pub fn unwrapped<V>(&self, decoded: Result<V, serde_json::Error>) -> (r: Result<
        Option<V>,
        ClientError,
    >)
        ensures
            self.response.body@.len() == 0 ==> r == Ok::<Option<V>, ClientError>(None),
            self.response.body@.len() > 0 ==> match decoded {
                Ok(value) => r == Ok::<Option<V>, ClientError>(Some(value)),
                Err(_) => r matches Err(ClientError::ResponseParseError { content, .. })
                    && text_of(content) == text_in(self.response.body@),
            },
    {
        if self.response.body.len() == 0 {
            return Ok(None);
        }
        match self.ty {
            ResponseType::JSON => match decoded {
                Ok(value) => Ok(Some(value)),
                Err(e) => Err(
                    ClientError::ResponseParseError {
                        source: json_error_text(&e),
                        content: utf8_text(&self.response.body),
                    },
                ),
            },
        }
    }

    /// The response as the type that the endpoint names, given what the
    /// deserializer made of the body: see [`EndpointResult::unwrapped`].
    pub fn parse(&self, decoded: Result<T, serde_json::Error>) -> (r: Result<
        Option<T>,
        ClientError,
    >)
        ensures
            self.response.body@.len() == 0 ==> r == Ok::<Option<T>, ClientError>(None),
            self.response.body@.len() > 0 ==> match decoded {
                Ok(value) => r == Ok::<Option<T>, ClientError>(Some(value)),
                Err(_) => r matches Err(ClientError::ResponseParseError { content, .. })
                    && text_of(content) == text_in(self.response.body@),
            },
    {
        self.unwrapped(decoded)
    }

    /// The bytes of the response body.
    pub fn raw(&self) -> (bytes: Vec<u8>)
        ensures
            bytes@ == self.response.body@,
    {
        self.response.body.clone()
    }

    /// The response as an envelope around the type that the endpoint names,
    /// given what the deserializer made of the body. The same bytes are
    /// read as for `parse`; nothing is taken out of the envelope.
    pub fn wrap<W: Wrapper<Value = T>>(&self, decoded: Result<W, serde_json::Error>) -> (r: Result<
        Option<W>,
        ClientError,
    >)
        ensures
            self.response.body@.len() == 0 ==> r == Ok::<Option<W>, ClientError>(None),
            self.response.body@.len() > 0 ==> match decoded {
                Ok(value) => r == Ok::<Option<W>, ClientError>(Some(value)),
                Err(_) => r matches Err(ClientError::ResponseParseError { content, .. })
                    && text_of(content) == text_in(self.response.body@),
            },
    {
        self.unwrapped(decoded)
    }
}

/// Executes a request with a client. What is returned as a response has a
/// status in the success range.
pub fn exec_block<C: Client>(client: &C, req: Request) -> (r: Result<Response, ClientError>)
    ensures
        call_ensures(C::execute, (client, req), r),
        r matches Ok(response) ==> is_success(response.status),
{
    client.execute(req)
}

/// What becomes of a checked response once middleware has seen it. A
/// failure stays as it is and the middleware is not asked. Otherwise the
/// response is handed to the `response` hook of the middleware: what the
/// hook made of it is returned, or the error of the hook.
pub fn respond<E: Endpoint, M: MiddleWare>(
    checked: Result<Response, ClientError>,
    endpoint: &E,
    middle: &M,
) -> (r: Result<Response, ClientError>)
    ensures
        match checked {
            Err(e) => r == Err::<Response, ClientError>(e),
            Ok(response) => exists|seen: &mut Response, out: Result<(), ClientError>|
                *seen == response && #[trigger] call_ensures(
                    M::response::<E>,
                    (middle, endpoint, seen),
                    out,
                ) && match out {
                    Ok(_) => r == Ok::<Response, ClientError>(*final(seen)),
                    Err(e) => r == Err::<Response, ClientError>(e),
                },
        },
{
    let mut resp = checked?;
    middle.response(endpoint, &mut resp)?;
    Ok(resp)
}

/// The request of an endpoint that carries middleware: the request that
/// `build_request` makes of the base and of what `query`, `body`, `path` and
/// `method` of the endpoint returned, asked in that order, after the
/// `request` hook of the middleware has seen it. An error of `query`, of
/// `body`, of building the request or of the hook is returned as it is, and
/// nothing is asked after it.
pub fn mutated_request<E: Endpoint, M: MiddleWare>(endpoint: &E, middle: &M, base: &str) -> (r:
    Result<Request, ClientError>)
    ensures
        exists|query: Result<Option<String>, ClientError>| #[trigger]
            call_ensures(E::query, (endpoint,), query) && match query {
                Err(e) => r == Err::<Request, ClientError>(e),
                Ok(query) => exists|body: Result<Option<Vec<u8>>, ClientError>| #[trigger]
                    call_ensures(E::body, (endpoint,), body) && match body {
                        Err(e) => r == Err::<Request, ClientError>(e),
                        Ok(body) => exists|
                            path: String,
                            method: RequestMethod,
                            built: Result<Request, ClientError>,
                        |
                            #![trigger
                                call_ensures(E::path, (endpoint,), path),
                                call_ensures(E::method, (endpoint,), method),
                                is_built(built, base@, path@, method, text_of(query), body),
                            ]
                            call_ensures(E::path, (endpoint,), path) && call_ensures(
                                E::method,
                                (endpoint,),
                                method,
                            ) && is_built(built, base@, path@, method, text_of(query), body)
                                && match built {
                                Err(e) => r == Err::<Request, ClientError>(e),
                                Ok(request) => exists|
                                    seen: &mut Request,
                                    out: Result<(), ClientError>,
                                |
                                    *seen == request && #[trigger] call_ensures(
                                        M::request::<E>,
                                        (middle, endpoint, seen),
                                        out,
                                    ) && match out {
                                        Ok(_) => r == Ok::<Request, ClientError>(*final(seen)),
                                        Err(e) => r == Err::<Request, ClientError>(e),
                                    },
                            },
                    },
            },
{
    let query = endpoint.query()?;
    let body = endpoint.body()?;
    let path = endpoint.path();
    let method = endpoint.method();
    let mut req = build_request(base, path.as_str(), method, query, body)?;
    middle.request(endpoint, &mut req)?;
    Ok(req)
}

/// Executes a request with a client and hands the response to middleware:
/// the request goes to `execute` of the client, and what comes back goes
/// through [`respond`].
pub fn exec_block_mut<C: Client, E: Endpoint, M: MiddleWare>(
    client: &C,
    endpoint: &E,
    req: Request,
    middle: &M,
) -> (r: Result<Response, ClientError>)
    ensures
        exists|checked: Result<Response, ClientError>| #[trigger]
            call_ensures(C::execute, (client, req), checked) && call_ensures(
                respond::<E, M>,
                (checked, endpoint, middle),
                r,
            ),
{
    respond(client.execute(req), endpoint, middle)
}

} // verus!
