//! From the definition of an endpoint to the endpoint: which fields make the
//! query string, which make the body, and what the path resolves to.

use crate::client::{is_success, Client};
use crate::endpoint::{exec_block, Endpoint, EndpointResult};
use crate::enums::{RequestMethod, RequestType, ResponseType};
use crate::errors::{ClientError, ErrorKind};
use crate::fields::{
    field_attributes, fields_to_struct, models, present, with_role, EndpointAttribute, Field,
    FieldGroups, FieldModel, FieldValue, Value,
};
use crate::params::{parameters_of, Parameters, ParametersModel};
use crate::path::{gen_path, interpolate};
use crate::request::{
    body_matches, body_outcome, build_body, build_query, build_request, build_url, pair_views,
    query_outcome, text_matches, url_outcome, Request, Response,
};
use std::marker::PhantomData;
use vstd::prelude::*;

verus! {

/// The query string of an endpoint: none where no field is tagged for the
/// query, else the fields so tagged that are set, encoded.
pub open spec fn query_plan(fields: Seq<FieldModel>) -> Result<Option<Seq<char>>, ErrorKind> {
    let tagged = with_role(fields, EndpointAttribute::Query);
    if tagged.len() == 0 {
        Ok(None)
    } else {
        match query_outcome(present(tagged)) {
            Ok(text) => Ok(Some(text)),
            Err(kind) => Err(kind),
        }
    }
}

/// The body of an endpoint. The first of these that applies decides:
/// a raw field gives its bytes as they are; fields tagged for the body are
/// serialized; fields without a tag are serialized; there is no body.
/// More than one raw field, or a raw field that holds no bytes, is an error
/// of the definition.
pub open spec fn body_plan(fields: Seq<FieldModel>) -> Result<Option<Seq<u8>>, ErrorKind> {
    let raw = with_role(fields, EndpointAttribute::Raw);
    let body = with_role(fields, EndpointAttribute::Body);
    let untagged = with_role(fields, EndpointAttribute::Untagged);
    if raw.len() > 1 {
        Err(ErrorKind::EndpointBuild)
    } else if raw.len() == 1 {
        match raw[0].value {
            Value::Bytes(bytes) => Ok(Some(bytes)),
            _ => Err(ErrorKind::EndpointBuild),
        }
    } else if body.len() > 0 {
        body_outcome(present(body))
    } else if untagged.len() > 0 {
        body_outcome(present(untagged))
    } else {
        Ok(None)
    }
}

/// The request of an endpoint under the base URL `base`: its URL and its
/// body. The query string is made first, then the body, then the URL; the
/// first of them that fails gives the error.
pub open spec fn request_plan(base: Seq<char>, path: Seq<char>, fields: Seq<FieldModel>) -> Result<
    (Seq<char>, Option<Seq<u8>>),
    ErrorKind,
> {
    match query_plan(fields) {
        Err(kind) => Err(kind),
        Ok(query) => match body_plan(fields) {
            Err(kind) => Err(kind),
            Ok(body) => match url_outcome(base, path, query) {
                Err(kind) => Err(kind),
                Ok(uri) => Ok((uri, body)),
            },
        },
    }
}

/// The view of bytes that may be missing.
pub open spec fn bytes_of(bytes: Option<Vec<u8>>) -> Option<Seq<u8>> {
    match bytes {
        Some(b) => Some(b@),
        None => None,
    }
}

/// Whether a result is the expected query string, or an error of the
/// expected kind.
pub open spec fn query_matches(r: Result<Option<String>, ClientError>, expected: Result<
    Option<Seq<char>>,
    ErrorKind,
>) -> bool {
    match expected {
        Ok(Some(text)) => r matches Ok(Some(s)) && s@ == text,
        Ok(None) => r matches Ok(None),
        Err(kind) => r matches Err(e) && e.kind() == kind,
    }
}

/// The query string that the grouped fields of an endpoint give.
pub fn gen_query(groups: &FieldGroups) -> (r: Result<Option<String>, ClientError>)
    ensures
        forall|fields: Seq<FieldModel>| #[trigger]
            groups.groups_of(fields) ==> query_matches(r, query_plan(fields)),
{
    if groups.query.len() == 0 {
        Ok(None)
    } else {
        let object = fields_to_struct(&groups.query);
        let text = build_query(&object)?;
        Ok(Some(text))
    }
}

/// The body that the grouped fields of an endpoint give.
pub fn gen_body(groups: &FieldGroups, ty: RequestType) -> (r: Result<
    Option<Vec<u8>>,
    ClientError,
>)
    ensures
        forall|fields: Seq<FieldModel>| #[trigger]
            groups.groups_of(fields) ==> body_matches(r, body_plan(fields)),
{
    if groups.raw.len() > 1 {
        Err(ClientError::EndpointBuildError { source: "May only mark one field as raw".to_owned() })
    } else if groups.raw.len() == 1 {
        match &groups.raw[0].value {
            FieldValue::Bytes(bytes) => Ok(Some(bytes.clone())),
            _ => Err(
                ClientError::EndpointBuildError { source: "A raw field must hold bytes".to_owned() },
            ),
        }
    } else if groups.body.len() > 0 {
        let object = fields_to_struct(&groups.body);
        build_body(&object, ty)
    } else if groups.untagged.len() > 0 {
        let object = fields_to_struct(&groups.untagged);
        build_body(&object, ty)
    } else {
        Ok(None)
    }
}

/// The parameters that the attribute of a definition gives. An attribute
/// that says nothing is an error.
pub open spec fn attribute_parameters(attr: Seq<(Seq<char>, Seq<char>)>) -> Result<
    ParametersModel,
    Seq<char>,
> {
    if attr.len() == 0 {
        Err("Attribute cannot be empty"@)
    } else {
        parameters_of(attr)
    }
}

/// Reads the parameters of a definition from the keys and values of its
/// attribute.
pub fn parse_params(attr: &Vec<(String, String)>) -> (r: Result<Parameters, ClientError>)
    ensures
        match attribute_parameters(pair_views(attr@)) {
            Ok(p) => r matches Ok(parameters) && parameters@ == p,
            Err(message) => r matches Err(ClientError::EndpointBuildError { source }) && source@
                == message,
        },
{
    if attr.len() == 0 {
        return Err(
            ClientError::EndpointBuildError { source: "Attribute cannot be empty".to_owned() },
        );
    }
    Parameters::new(attr)
}

/// An endpoint made from a definition: parameters, fields, and the path
/// that the template of the parameters resolves to.
pub struct DerivedEndpoint<T> {
    pub params: Parameters,
    pub fields: Vec<Field>,
    pub path: String,
    pub inner: PhantomData<T>,
}

/// What is wrong with a definition, if anything; else its parameters and
/// its path.
pub open spec fn derive_outcome(
    attrs: Seq<Seq<(Seq<char>, Seq<char>)>>,
    fields: Seq<FieldModel>,
) -> Result<(ParametersModel, Seq<char>), (ErrorKind, Seq<char>)> {
    if attrs.len() == 0 {
        Err(
            (
                ErrorKind::EndpointBuild,
                "Deriving `Endpoint` requires attaching an `endpoint` attribute"@,
            ),
        )
    } else if attrs.len() > 1 {
        Err((ErrorKind::EndpointBuild, "Cannot define the endpoint attribute more than once"@))
    } else {
        match attribute_parameters(attrs[0]) {
            Err(message) => Err((ErrorKind::EndpointBuild, message)),
            Ok(params) => match interpolate(params.path, fields) {
                Err(placeholder) => Err((ErrorKind::PathInterpolation, placeholder)),
                Ok(path) => {
                    let raw = with_role(fields, EndpointAttribute::Raw);
                    if raw.len() > 1 {
                        Err((ErrorKind::EndpointBuild, "May only mark one field as raw"@))
                    } else if raw.len() == 1 && !(raw[0].value is Bytes) {
                        Err((ErrorKind::EndpointBuild, "A raw field must hold bytes"@))
                    } else {
                        Ok((params, path))
                    }
                },
            },
        }
    }
}

/// The text that an error of a definition carries: the message of an
/// `EndpointBuildError`, the placeholder of a `PathInterpolationError`.
pub open spec fn detail(e: ClientError) -> Seq<char> {
    match e {
        ClientError::EndpointBuildError { source } => source@,
        ClientError::PathInterpolationError { placeholder } => placeholder@,
        _ => Seq::empty(),
    }
}

/// The views of the attributes of a definition.
pub open spec fn attr_views(attrs: Seq<Vec<(String, String)>>) -> Seq<Seq<(Seq<char>, Seq<char>)>> {
    attrs.map_values(|a: Vec<(String, String)>| pair_views(a@))
}

/// Makes an endpoint from its definition: the attributes that carry its
/// parameters, of which there must be exactly one, and its fields.
///
/// The definition is checked first: the parameters must be valid, every
/// placeholder of the path must resolve, and at most one field may be raw,
/// which must hold bytes.
pub fn endpoint_derive<T>(attrs: &Vec<Vec<(String, String)>>, fields: Vec<Field>) -> (r: Result<
    DerivedEndpoint<T>,
    ClientError,
>)
    ensures
        match derive_outcome(attr_views(attrs@), models(fields@)) {
            Ok((params, path)) => r matches Ok(endpoint) && endpoint.params@ == params
                && endpoint.path@ == path && endpoint.fields == fields,
            Err((kind, text)) => r matches Err(e) && e.kind() == kind && detail(e) == text,
        },
{
    if attrs.len() == 0 {
        return Err(
            ClientError::EndpointBuildError {
                source: "Deriving `Endpoint` requires attaching an `endpoint` attribute".to_owned(),
            },
        );
    }
    if attrs.len() > 1 {
        return Err(
            ClientError::EndpointBuildError {
                source: "Cannot define the endpoint attribute more than once".to_owned(),
            },
        );
    }
    let params = parse_params(&attrs[0])?;
    let path = gen_path(params.path.as_str(), &fields)?;
    let groups = field_attributes(&fields);
    if groups.raw.len() > 1 {
        return Err(
            ClientError::EndpointBuildError { source: "May only mark one field as raw".to_owned() },
        );
    }
    if groups.raw.len() == 1 {
        match &groups.raw[0].value {
            FieldValue::Bytes(_) => {},
            _ => {
                return Err(
                    ClientError::EndpointBuildError {
                        source: "A raw field must hold bytes".to_owned(),
                    },
                );
            },
        }
    }
    Ok(DerivedEndpoint { params, fields, path, inner: PhantomData })
}

impl<T> Endpoint for DerivedEndpoint<T> {
    type Response = T;

    fn request_body_type(&self) -> (ty: RequestType)
        ensures
            ty == self.params.request_type,
    {
        self.params.request_type
    }

    fn response_body_type(&self) -> (ty: ResponseType)
        ensures
            ty == self.params.response_type,
    {
        self.params.response_type
    }

    fn path(&self) -> (path: String)
        ensures
            path@ == self.path@,
    {
        self.path.clone()
    }

    fn method(&self) -> (method: RequestMethod)
        ensures
            method == self.params.method,
    {
        self.params.method
    }

    fn query(&self) -> (r: Result<Option<String>, ClientError>)
        ensures
            query_matches(r, query_plan(models(self.fields@))),
    {
        let groups = field_attributes(&self.fields);
        gen_query(&groups)
    }

    fn body(&self) -> (r: Result<Option<Vec<u8>>, ClientError>)
        ensures
            body_matches(r, body_plan(models(self.fields@))),
    {
        let groups = field_attributes(&self.fields);
        gen_body(&groups, self.params.request_type)
    }

    fn url(&self, base: &str) -> (r: Result<String, ClientError>)
        ensures
            match query_plan(models(self.fields@)) {
                Ok(query) => text_matches(r, url_outcome(base@, self.path@, query)),
                Err(kind) => r matches Err(e) && e.kind() == kind,
            },
    {
        let query = self.query()?;
        build_url(base, self.path.as_str(), query)
    }

    fn request(&self, base: &str) -> (r: Result<Request, ClientError>)
        ensures
            match request_plan(base@, self.path@, models(self.fields@)) {
                Ok((uri, body)) => r matches Ok(request) && request.uri@ == uri && request.method
                    == self.params.method && request.headers@.len() == 0 && bytes_of(
                    request.body,
                ) == body,
                Err(kind) => r matches Err(e) && e.kind() == kind,
            },
    {
        let query = self.query()?;
        let body = self.body()?;
        build_request(base, self.path.as_str(), self.params.method, query, body)
    }

    /// Executes the endpoint with the given client. The request is the one
    /// that `request` makes under the base URL of the client, and where it
    /// cannot be made its error is returned. Else the request is handed to
    /// `execute` of the client: an error that comes back is returned as it
    /// is, and a response is wrapped, not parsed, together with the
    /// response type of the definition.
    fn exec_block<C: Client>(&self, client: &C) -> (r: Result<EndpointResult<T>, ClientError>)
        ensures
            r matches Ok(result) ==> is_success(result.response.status),
            exists|base: &str| #[trigger]
                call_ensures(C::base, (client,), base) && match request_plan(
                    base@,
                    self.path@,
                    models(self.fields@),
                ) {
                    Err(kind) => r matches Err(e) && e.kind() == kind,
                    Ok((uri, body)) => exists|req: Request, sent: Result<Response, ClientError>|
                        #![trigger call_ensures(C::execute, (client, req), sent)]
                        req.uri@ == uri && req.method == self.params.method && req.headers@.len()
                            == 0 && bytes_of(req.body) == body && call_ensures(
                            C::execute,
                            (client, req),
                            sent,
                        ) && match sent {
                            Err(e) => r == Err::<EndpointResult<T>, ClientError>(e),
                            Ok(response) => r matches Ok(result) && result.response == response
                                && result.ty == self.params.response_type,
                        },
                },
    {
        let req = self.request(client.base())?;
        let resp = exec_block(client, req)?;
        Ok(EndpointResult::new(resp, self.params.response_type))
    }
}

/// The fields with every role replaced by `role`.
pub open spec fn retagged(fields: Seq<FieldModel>, role: EndpointAttribute) -> Seq<FieldModel> {
    fields.map_values(|f: FieldModel| FieldModel { role, ..f })
}

proof fn lemma_filter_all<A>(s: Seq<A>, pred: spec_fn(A) -> bool)
    requires
        forall|i: int| 0 <= i < s.len() ==> pred(#[trigger] s[i]),
    ensures
        s.filter(pred) == s,
    decreases s.len(),
{
    reveal(Seq::filter);
    if s.len() > 0 {
        lemma_filter_all(s.drop_last(), pred);
        assert(s.drop_last().push(s.last()) == s);
    }
}

proof fn lemma_filter_none<A>(s: Seq<A>, pred: spec_fn(A) -> bool)
    requires
        forall|i: int| 0 <= i < s.len() ==> !pred(#[trigger] s[i]),
    ensures
        s.filter(pred) == Seq::<A>::empty(),
    decreases s.len(),
{
    reveal(Seq::filter);
    if s.len() > 0 {
        lemma_filter_none(s.drop_last(), pred);
    }
}

proof fn lemma_present_retagged(fields: Seq<FieldModel>, role: EndpointAttribute)
    ensures
        present(retagged(fields, role)) == retagged(present(fields), role),
    decreases fields.len(),
{
    reveal(Seq::filter);
    if fields.len() == 0 {
        assert(retagged(fields, role) == Seq::<FieldModel>::empty());
        assert(present(fields) == Seq::<FieldModel>::empty());
        assert(retagged(present(fields), role) == Seq::<FieldModel>::empty());
    } else {
        lemma_present_retagged(fields.drop_last(), role);
        assert(retagged(fields, role).drop_last() == retagged(fields.drop_last(), role));
        let kept = present(fields.drop_last());
        if !(fields.last().value is Absent) {
            assert(retagged(kept.push(fields.last()), role) == retagged(kept, role).push(
                FieldModel { role, ..fields.last() },
            ));
        }
    }
}

proof fn lemma_json_ignores_roles(fields: Seq<FieldModel>, role: EndpointAttribute)
    ensures
        crate::json::json_members(retagged(fields, role)) == crate::json::json_members(fields),
    decreases fields.len(),
{
    if fields.len() > 0 {
        lemma_json_ignores_roles(fields.drop_last(), role);
        assert(retagged(fields, role).drop_last() == retagged(fields.drop_last(), role));
    }
}

/// A raw field decides the body: where exactly one field is raw and holds
/// bytes, the body is those bytes, unchanged, whatever the other fields are
/// tagged with and whatever they hold.
pub proof fn lemma_raw_precedence(fields: Seq<FieldModel>, k: int, bytes: Seq<u8>)
    requires
        0 <= k < fields.len(),
        fields[k].role == EndpointAttribute::Raw,
        fields[k].value == Value::Bytes(bytes),
        forall|i: int| 0 <= i < fields.len() && i != k ==> fields[i].role != EndpointAttribute::Raw,
    ensures
        body_plan(fields) == Ok::<Option<Seq<u8>>, ErrorKind>(Some(bytes)),
{
    let is_raw = |f: FieldModel| f.role == EndpointAttribute::Raw;
    let before = fields.take(k);
    let after = fields.skip(k + 1);
    assert(fields == before + seq![fields[k]] + after);
    lemma_filter_none(before, is_raw);
    lemma_filter_none(after, is_raw);
    lemma_filter_all(seq![fields[k]], is_raw);
    Seq::filter_distributes_over_add(before + seq![fields[k]], after, is_raw);
    Seq::filter_distributes_over_add(before, seq![fields[k]], is_raw);
    assert(with_role(fields, EndpointAttribute::Raw) == seq![fields[k]]);
}

/// Fields without a tag fall back to the body: where no field carries a tag,
/// the body is the one that results from tagging every field for the body.
pub proof fn lemma_untagged_fallback(fields: Seq<FieldModel>)
    requires
        forall|i: int| 0 <= i < fields.len() ==> fields[i].role == EndpointAttribute::Untagged,
    ensures
        body_plan(fields) == body_plan(retagged(fields, EndpointAttribute::Body)),
{
    let tagged = retagged(fields, EndpointAttribute::Body);
    lemma_filter_none(fields, |f: FieldModel| f.role == EndpointAttribute::Raw);
    lemma_filter_none(fields, |f: FieldModel| f.role == EndpointAttribute::Body);
    lemma_filter_all(fields, |f: FieldModel| f.role == EndpointAttribute::Untagged);
    lemma_filter_none(tagged, |f: FieldModel| f.role == EndpointAttribute::Raw);
    lemma_filter_none(tagged, |f: FieldModel| f.role == EndpointAttribute::Untagged);
    lemma_filter_all(tagged, |f: FieldModel| f.role == EndpointAttribute::Body);
    lemma_present_retagged(fields, EndpointAttribute::Body);
    lemma_json_ignores_roles(present(fields), EndpointAttribute::Body);
}

/// An optional field that is not set is left out: with it or without it,
/// the same structure is serialized, so that the same body results.
pub proof fn lemma_absent_field_elided(fields: Seq<FieldModel>, i: int, field: FieldModel)
    requires
        0 <= i <= fields.len(),
        field.value is Absent,
    ensures
        present(fields.insert(i, field)) == present(fields),
        body_outcome(present(fields.insert(i, field))) == body_outcome(present(fields)),
{
    let keep = |f: FieldModel| !(f.value is Absent);
    let before = fields.take(i);
    let after = fields.skip(i);
    assert(fields.insert(i, field) == before + seq![field] + after);
    assert(fields == before + after);
    lemma_filter_none(seq![field], keep);
    Seq::filter_distributes_over_add(before + seq![field], after, keep);
    Seq::filter_distributes_over_add(before, seq![field], keep);
    Seq::filter_distributes_over_add(before, after, keep);
    assert(before.filter(keep) + Seq::<FieldModel>::empty() == before.filter(keep));
}

/// A field that is set is serialized: it stands in the structure, between
/// the fields that were declared before it and those declared after it.
pub proof fn lemma_present_field_kept(fields: Seq<FieldModel>, i: int, field: FieldModel)
    requires
        0 <= i <= fields.len(),
        !(field.value is Absent),
    ensures
        present(fields.insert(i, field)) == present(fields.take(i)).push(field) + present(
            fields.skip(i),
        ),
        present(fields.insert(i, field)).contains(field),
{
    let keep = |f: FieldModel| !(f.value is Absent);
    let before = fields.take(i);
    let after = fields.skip(i);
    assert(fields.insert(i, field) == before + seq![field] + after);
    lemma_filter_all(seq![field], keep);
    Seq::filter_distributes_over_add(before + seq![field], after, keep);
    Seq::filter_distributes_over_add(before, seq![field], keep);
    let kept = present(fields.insert(i, field));
    assert(before.filter(keep) + seq![field] == before.filter(keep).push(field));
    assert(kept[before.filter(keep).len() as int] == field);
}

/// An endpoint without a field tagged for the query has no query string.
pub proof fn lemma_no_query_fields(fields: Seq<FieldModel>)
    requires
        forall|i: int| 0 <= i < fields.len() ==> fields[i].role != EndpointAttribute::Query,
    ensures
        query_plan(fields) == Ok::<Option<Seq<char>>, ErrorKind>(None),
{
    lemma_filter_none(fields, |f: FieldModel| f.role == EndpointAttribute::Query);
}

} // verus!
