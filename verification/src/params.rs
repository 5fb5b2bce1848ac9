//! The parameters of an endpoint's definition: its path, and what else may
//! be said of it.

use crate::enums::{RequestMethod, RequestType, ResponseType};
use crate::errors::ClientError;
use crate::request::pair_views;
use crate::text::str_eq;
use vstd::prelude::*;

verus! {

/// The parameters read so far, as mathematics sees them.
pub struct BuilderModel {
    pub path: Option<Seq<char>>,
    pub method: Option<RequestMethod>,
    pub response: Option<Seq<char>>,
    pub request_type: Option<RequestType>,
    pub response_type: Option<ResponseType>,
    pub builder: Option<bool>,
}

/// The parameters of a definition, as mathematics sees them.
pub struct ParametersModel {
    pub path: Seq<char>,
    pub method: RequestMethod,
    pub response: Seq<char>,
    pub request_type: RequestType,
    pub response_type: ResponseType,
    pub builder: bool,
}

/// Collects the parameters of a definition while they are read.
#[derive(Debug)]
pub struct ParametersBuilder {
    pub path: Option<String>,
    pub method: Option<RequestMethod>,
    pub response: Option<String>,
    pub request_type: Option<RequestType>,
    pub response_type: Option<ResponseType>,
    pub builder: Option<bool>,
}

/// All the parameters of a definition.
#[derive(Debug)]
pub struct Parameters {
    /// The template of the path.
    pub path: String,
    pub method: RequestMethod,
    /// The name of the type that the response is parsed into.
    pub response: String,
    pub request_type: RequestType,
    pub response_type: ResponseType,
    /// Whether the definition asks for a builder.
    pub builder: bool,
}

impl View for ParametersBuilder {
    type V = BuilderModel;

    open spec fn view(&self) -> BuilderModel {
        BuilderModel {
            path: match self.path {
                Some(s) => Some(s@),
                None => None,
            },
            method: self.method,
            response: match self.response {
                Some(s) => Some(s@),
                None => None,
            },
            request_type: self.request_type,
            response_type: self.response_type,
            builder: self.builder,
        }
    }
}

impl View for Parameters {
    type V = ParametersModel;

    open spec fn view(&self) -> ParametersModel {
        ParametersModel {
            path: self.path@,
            method: self.method,
            response: self.response@,
            request_type: self.request_type,
            response_type: self.response_type,
            builder: self.builder,
        }
    }
}

/// No parameter read yet.
pub open spec fn empty_builder() -> BuilderModel {
    BuilderModel {
        path: None,
        method: None,
        response: None,
        request_type: None,
        response_type: None,
        builder: None,
    }
}

/// What one parameter adds to those read before it. A key that is given
/// again replaces what it gave before; `builder` is set by being named,
/// whatever its value. The error is the message for a key that is not known
/// or a value that cannot be read.
pub open spec fn with_parameter(b: BuilderModel, key: Seq<char>, value: Seq<char>) -> Result<
    BuilderModel,
    Seq<char>,
> {
    if key == "path"@ {
        Ok(BuilderModel { path: Some(value), ..b })
    } else if key == "method"@ {
        match RequestMethod::named(value) {
            Some(m) => Ok(BuilderModel { method: Some(m), ..b }),
            None => Err("Unable to parse value"@),
        }
    } else if key == "response"@ {
        Ok(BuilderModel { response: Some(value), ..b })
    } else if key == "request_type"@ {
        match RequestType::named(value) {
            Some(t) => Ok(BuilderModel { request_type: Some(t), ..b }),
            None => Err("Unable to parse value"@),
        }
    } else if key == "response_type"@ {
        match ResponseType::named(value) {
            Some(t) => Ok(BuilderModel { response_type: Some(t), ..b }),
            None => Err("Unable to parse value"@),
        }
    } else if key == "builder"@ {
        Ok(BuilderModel { builder: Some(true), ..b })
    } else {
        Err("Unknown parameter"@)
    }
}

/// What a list of parameters gives when they are read in order; the error of
/// the first one that fails.
pub open spec fn read_parameters(pairs: Seq<(Seq<char>, Seq<char>)>) -> Result<
    BuilderModel,
    Seq<char>,
>
    decreases pairs.len(),
{
    if pairs.len() == 0 {
        Ok(empty_builder())
    } else {
        match read_parameters(pairs.drop_last()) {
            Err(e) => Err(e),
            Ok(b) => with_parameter(b, pairs.last().0, pairs.last().1),
        }
    }
}

/// The parameters of a definition once all were read: the path must have
/// been given; the method is `GET`, the response `()` and both content types
/// JSON unless something else was said; no builder unless it was asked for.
pub open spec fn finished(b: BuilderModel) -> Result<ParametersModel, Seq<char>> {
    match b.path {
        None => Err("Missing required parameter: path"@),
        Some(path) => Ok(
            ParametersModel {
                path,
                method: match b.method {
                    Some(m) => m,
                    None => RequestMethod::GET,
                },
                response: match b.response {
                    Some(r) => r,
                    None => "()"@,
                },
                request_type: match b.request_type {
                    Some(t) => t,
                    None => RequestType::JSON,
                },
                response_type: match b.response_type {
                    Some(t) => t,
                    None => ResponseType::JSON,
                },
                builder: match b.builder {
                    Some(flag) => flag,
                    None => false,
                },
            },
        ),
    }
}

/// The parameters that a list of keys and values defines.
pub open spec fn parameters_of(pairs: Seq<(Seq<char>, Seq<char>)>) -> Result<
    ParametersModel,
    Seq<char>,
> {
    match read_parameters(pairs) {
        Err(e) => Err(e),
        Ok(b) => finished(b),
    }
}

proof fn lemma_read_prefix(pairs: Seq<(Seq<char>, Seq<char>)>, n: int)
    requires
        0 <= n <= pairs.len(),
        read_parameters(pairs.take(n)) is Err,
    ensures
        read_parameters(pairs) == read_parameters(pairs.take(n)),
    decreases pairs.len(),
{
    if n < pairs.len() {
        assert(pairs.drop_last().take(n) == pairs.take(n));
        lemma_read_prefix(pairs.drop_last(), n);
    } else {
        assert(pairs.take(n) == pairs);
    }
}

fn failure(message: &str) -> (e: ClientError)
    ensures
        e matches ClientError::EndpointBuildError { source } && source@ == message@,
{
    ClientError::EndpointBuildError { source: message.to_owned() }
}

impl ParametersBuilder {
    /// A builder that has read nothing.
    pub fn new() -> (b: Self)
        ensures
            b@ == empty_builder(),
    {
        ParametersBuilder {
            path: None,
            method: None,
            response: None,
            request_type: None,
            response_type: None,
            builder: None,
        }
    }

    /// Reads one parameter.
    pub fn set(&mut self, key: &str, value: &str) -> (r: Result<(), ClientError>)
        ensures
            match with_parameter(old(self)@, key@, value@) {
                Ok(b) => r is Ok && final(self)@ == b,
                Err(message) => r matches Err(ClientError::EndpointBuildError { source })
                    && source@ == message,
            },
    {
        if str_eq(key, "path") {
            self.path = Some(value.to_owned());
        } else if str_eq(key, "method") {
            match RequestMethod::from_name(value) {
                Some(m) => {
                    self.method = Some(m);
                },
                None => {
                    return Err(failure("Unable to parse value"));
                },
            }
        } else if str_eq(key, "response") {
            self.response = Some(value.to_owned());
        } else if str_eq(key, "request_type") {
            match RequestType::from_name(value) {
                Some(t) => {
                    self.request_type = Some(t);
                },
                None => {
                    return Err(failure("Unable to parse value"));
                },
            }
        } else if str_eq(key, "response_type") {
            match ResponseType::from_name(value) {
                Some(t) => {
                    self.response_type = Some(t);
                },
                None => {
                    return Err(failure("Unable to parse value"));
                },
            }
        } else if str_eq(key, "builder") {
            self.builder = Some(true);
        } else {
            return Err(failure("Unknown parameter"));
        }
        Ok(())
    }

    /// The parameters once all were read.
    pub fn build(self) -> (r: Result<Parameters, ClientError>)
        ensures
            match finished(self@) {
                Ok(p) => r matches Ok(parameters) && parameters@ == p,
                Err(message) => r matches Err(ClientError::EndpointBuildError { source })
                    && source@ == message,
            },
    {
        let path = match self.path {
            Some(path) => path,
            None => {
                return Err(failure("Missing required parameter: path"));
            },
        };
        Ok(
            Parameters {
                path,
                method: match self.method {
                    Some(m) => m,
                    None => RequestMethod::GET,
                },
                response: match self.response {
                    Some(r) => r,
                    None => "()".to_owned(),
                },
                request_type: match self.request_type {
                    Some(t) => t,
                    None => RequestType::JSON,
                },
                response_type: match self.response_type {
                    Some(t) => t,
                    None => ResponseType::JSON,
                },
                builder: match self.builder {
                    Some(flag) => flag,
                    None => false,
                },
            },
        )
    }
}

impl Parameters {
    /// Builds the parameters of a definition from a list of keys and values.
    ///
    /// Only `path` is required. The other keys are `method`, `response`,
    /// `request_type`, `response_type` and `builder`; any other key is an
    /// error, and so is a value that names no method or content type.
    pub fn new(map: &Vec<(String, String)>) -> (r: Result<Parameters, ClientError>)
        ensures
            match parameters_of(pair_views(map@)) {
                Ok(p) => r matches Ok(parameters) && parameters@ == p,
                Err(message) => r matches Err(ClientError::EndpointBuildError { source })
                    && source@ == message,
            },
    {
        let mut builder = ParametersBuilder::new();
        let mut i: usize = 0;
        proof {
            assert(pair_views(map@).take(0) == Seq::<(Seq<char>, Seq<char>)>::empty());
        }
        while i < map.len()
            invariant
                i <= map.len(),
                read_parameters(pair_views(map@).take(i as int)) == Ok::<BuilderModel, Seq<char>>(
                    builder@,
                ),
            decreases map.len() - i,
        {
            proof {
                let next = pair_views(map@).take(i + 1);
                assert(next.drop_last() == pair_views(map@).take(i as int));
                assert(next.last() == (map@[i as int].0@, map@[i as int].1@));
            }
            match builder.set(map[i].0.as_str(), map[i].1.as_str()) {
                Ok(()) => {},
                Err(e) => {
                    proof {
                        lemma_read_prefix(pair_views(map@), i + 1);
                    }
                    return Err(e);
                },
            }
            i += 1;
        }
        proof {
            assert(pair_views(map@).take(map.len() as int) == pair_views(map@));
        }
        builder.build()
    }
}

} // verus!
