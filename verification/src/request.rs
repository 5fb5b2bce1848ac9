//! Requests and responses, and the functions that put a request together:
//! its query string, its body, its URL.

use crate::enums::{RequestMethod, RequestType};
use crate::errors::{ClientError, ErrorKind};
use crate::fields::{models, Field, FieldModel, Value};
use crate::json::{json_object, to_json};
use crate::path::{display, display_text};
use crate::text::{split, split_chars, str_eq, to_chars, views};
use vstd::prelude::*;
use vstd::string::{StrSliceExecFns, StringExecFns};
use vstd::utf8::encode_utf8;

verus! {

/// A request that is ready to be handed to a client.
#[derive(Debug)]
pub struct Request {
    /// The absolute URL: base address, path and query string.
    pub uri: String,
    pub method: RequestMethod,
    /// Header names and values, in the order in which they were added.
    pub headers: Vec<(String, String)>,
    /// The bytes of the body; `None` where the request has no body.
    pub body: Option<Vec<u8>>,
}

/// What a client received for a request.
#[derive(Debug)]
pub struct Response {
    pub status: u16,
    pub headers: Vec<(String, String)>,
    pub body: Vec<u8>,
}

#[verifier::external_type_specification]
#[verifier::external_body]
pub struct ExUrl(url::Url);

#[verifier::external_type_specification]
#[verifier::external_body]
pub struct ExParseError(url::ParseError);

#[verifier::external_type_specification]
#[verifier::external_body]
pub struct ExInvalidUri(http::uri::InvalidUri);

#[verifier::external_type_specification]
#[verifier::external_body]
pub struct ExQueryError(serde_urlencoded::ser::Error);

/// What a `url::Url` holds: the characters of its serialization.
pub uninterp spec fn url_text(u: url::Url) -> Seq<char>;

/// The serialization of the URL that `Url::parse` reads from `input`; `None`
/// where it reports an error.
pub uninterp spec fn parsed_url(input: Seq<char>) -> Option<Seq<char>>;

/// Whether the URL with the serialization `url` cannot be a base, as
/// `Url::cannot_be_a_base` tells.
pub uninterp spec fn cannot_be_a_base(url: Seq<char>) -> bool;

/// The serialization of the URL `url` after `pop_if_empty` and `extend` with
/// `segments` on its path segments.
pub uninterp spec fn with_segments(url: Seq<char>, segments: Seq<Seq<char>>) -> Seq<char>;

/// The query string of the URL `url`, as `Url::query` gives it.
pub uninterp spec fn query_of(url: Seq<char>) -> Option<Seq<char>>;

/// The serialization of the URL `url` after `Url::set_query` with `query`.
pub uninterp spec fn with_query(url: Seq<char>, query: Seq<char>) -> Seq<char>;

/// The text that `http::Uri` writes after parsing `text`; `None` where it
/// reports an error.
pub uninterp spec fn uri_text(text: Seq<char>) -> Option<Seq<char>>;

/// The `application/x-www-form-urlencoded` text that `serde_urlencoded`
/// writes for a sequence of pairs; `None` where it reports an error.
pub uninterp spec fn form_urlencoded(pairs: Seq<(Seq<char>, Seq<char>)>) -> Option<Seq<char>>;

/// The most bytes that a URL may take while its path or query is changed.
pub open spec fn url_limit() -> int {
    4294967295
}

/// An upper bound on the bytes that `segments` add to a URL: one separator
/// for each, and three bytes for each byte of a segment, which is what
/// percent-encoding can make of it.
pub open spec fn segments_cost(segments: Seq<Seq<char>>) -> int
    decreases segments.len(),
{
    if segments.len() == 0 {
        0
    } else {
        segments_cost(segments.drop_last()) + 1 + 3 * encode_utf8(segments.last()).len()
    }
}

/// `Url::parse`. The contract names the serialization of the URL that was
/// read, and says that an error comes exactly where there is none.
#[verifier::external_body]
fn parse_url(input: &str) -> (r: Result<url::Url, url::ParseError>)
    ensures
        match r {
            Ok(u) => parsed_url(input@) == Some(url_text(u)),
            Err(_) => parsed_url(input@) is None,
        },
{
    url::Url::parse(input)
}

/// `Url::cannot_be_a_base`.
#[verifier::external_body]
fn url_cannot_be_a_base(u: &url::Url) -> (b: bool)
    ensures
        b == cannot_be_a_base(url_text(*u)),
{
    u.cannot_be_a_base()
}

/// `Url::as_str`, copied into a `String`: the serialization of the URL.
#[verifier::external_body]
fn url_as_string(u: &url::Url) -> (s: String)
    ensures
        s@ == url_text(*u),
{
    u.as_str().to_owned()
}

/// `Url::path_segments_mut`, then `pop_if_empty` and `extend` on what it
/// returns: drops an empty last segment of the path and appends the given
/// segments, percent-encoded. The first call fails on a URL that cannot be a
/// base, and the URL must stay within `u32::MAX` bytes: both are asked of
/// the caller. The contract names the serialization that results.
#[verifier::external_body]
fn extend_path(u: &mut url::Url, segments: &Vec<String>)
    requires
        !cannot_be_a_base(url_text(*old(u))),
        encode_utf8(url_text(*old(u))).len() + segments_cost(views(segments@)) <= url_limit(),
    ensures
        url_text(*final(u)) == with_segments(url_text(*old(u)), views(segments@)),
{
    if let Ok(mut path) = u.path_segments_mut() {
        path.pop_if_empty().extend(segments);
    }
}

/// `Url::query`, copied into a `String`.
#[verifier::external_body]
fn url_query(u: &url::Url) -> (q: Option<String>)
    ensures
        match q {
            Some(s) => query_of(url_text(*u)) == Some(s@),
            None => query_of(url_text(*u)) is None,
        },
{
    u.query().map(str::to_owned)
}

/// `Url::set_query` with a query: replaces the query string of the URL. The
/// URL must stay within `u32::MAX` bytes, which is asked of the caller. The
/// contract names the serialization that results.
#[verifier::external_body]
fn set_query(u: &mut url::Url, query: &str)
    requires
        encode_utf8(url_text(*old(u))).len() + 1 + 3 * encode_utf8(query@).len() <= url_limit(),
    ensures
        url_text(*final(u)) == with_query(url_text(*old(u)), query@),
{
    u.set_query(Some(query))
}

/// `str::parse` into an `http::Uri`, written back as text by the `Display`
/// of the URI. The contract names that text, and says that an error comes
/// exactly where there is none.
#[verifier::external_body]
fn parse_uri(text: &str) -> (r: Result<String, http::uri::InvalidUri>)
    ensures
        match r {
            Ok(s) => uri_text(text@) == Some(s@),
            Err(_) => uri_text(text@) is None,
        },
{
    text.parse::<http::Uri>().map(|uri| uri.to_string())
}

/// `serde_urlencoded::to_string` on a list of pairs of strings. The contract
/// names the text that results, and says that an error comes exactly where
/// there is none.
#[verifier::external_body]
fn urlencode(pairs: &Vec<(String, String)>) -> (r: Result<String, serde_urlencoded::ser::Error>)
    ensures
        match r {
            Ok(s) => form_urlencoded(pair_views(pairs@)) == Some(s@),
            Err(_) => form_urlencoded(pair_views(pairs@)) is None,
        },
{
    serde_urlencoded::to_string(pairs)
}

/// The message of a `url::ParseError`, as its `Display` writes it.
#[verifier::external_body]
fn url_error_text(e: &url::ParseError) -> String {
    e.to_string()
}

/// The message of an `http::uri::InvalidUri`, as its `Display` writes it.
#[verifier::external_body]
fn uri_error_text(e: &http::uri::InvalidUri) -> String {
    e.to_string()
}

/// The message of a `serde_urlencoded::ser::Error`, as its `Display` writes
/// it.
#[verifier::external_body]
fn query_error_text(e: &serde_urlencoded::ser::Error) -> String {
    e.to_string()
}

/// The views of a list of pairs of strings.
pub open spec fn pair_views(pairs: Seq<(String, String)>) -> Seq<(Seq<char>, Seq<char>)> {
    pairs.map_values(|p: (String, String)| (p.0@, p.1@))
}

/// The view of a string that may be missing.
pub open spec fn text_of(s: Option<String>) -> Option<Seq<char>> {
    match s {
        Some(s) => Some(s@),
        None => None,
    }
}

/// The path without the slash that it may start with.
pub open spec fn strip_leading_slash(path: Seq<char>) -> Seq<char> {
    if path.len() > 0 && path[0] == '/' {
        path.skip(1)
    } else {
        path
    }
}

/// The segments that a relative path adds to the path of the base.
pub open spec fn path_segments(path: Seq<char>) -> Seq<Seq<char>> {
    split(strip_leading_slash(path), '/')
}

/// The query string of a URL after `query` is appended to what the URL
/// already has.
pub open spec fn merged_query(existing: Option<Seq<char>>, query: Seq<char>) -> Seq<char> {
    match existing {
        Some(before) => if before.len() > 0 {
            before + seq!['&'] + query
        } else {
            query
        },
        None => query,
    }
}

/// The URL with the serialization `url` after a query is added to it. No
/// query and an empty query leave the URL as it is.
pub open spec fn url_with_added_query(url: Seq<char>, query: Option<Seq<char>>) -> Result<
    Seq<char>,
    ErrorKind,
> {
    match query {
        Some(q) => if q.len() == 0 {
            Ok(url)
        } else {
            let merged = merged_query(query_of(url), q);
            if encode_utf8(url).len() + 1 + 3 * encode_utf8(merged).len() > url_limit() {
                Err(ErrorKind::UrlBuild)
            } else {
                Ok(with_query(url, merged))
            }
        },
        None => Ok(url),
    }
}

/// What `build_url` returns: the text of the URI, or the kind of the error.
pub open spec fn url_outcome(base: Seq<char>, path: Seq<char>, query: Option<Seq<char>>) -> Result<
    Seq<char>,
    ErrorKind,
> {
    match parsed_url(base) {
        None => Err(ErrorKind::UrlParse),
        Some(url) => if cannot_be_a_base(url) {
            Err(ErrorKind::UrlParse)
        } else if encode_utf8(url).len() + segments_cost(path_segments(path)) > url_limit() {
            Err(ErrorKind::UrlBuild)
        } else {
            match url_with_added_query(with_segments(url, path_segments(path)), query) {
                Err(kind) => Err(kind),
                Ok(full) => match uri_text(full) {
                    Some(text) => Ok(text),
                    None => Err(ErrorKind::UrlBuild),
                },
            }
        },
    }
}

/// Whether a result is the expected one: the same text, or an error of the
/// same kind.
pub open spec fn text_matches(r: Result<String, ClientError>, expected: Result<
    Seq<char>,
    ErrorKind,
>) -> bool {
    match expected {
        Ok(text) => r matches Ok(s) && s@ == text,
        Err(kind) => r matches Err(e) && e.kind() == kind,
    }
}

/// The number of bytes that a text takes.
pub fn byte_len(s: &str) -> (n: usize)
    ensures
        n == encode_utf8(s@).len(),
{
    s.as_bytes().len()
}

proof fn lemma_cost_prefix(segments: Seq<Seq<char>>, n: int)
    requires
        0 <= n <= segments.len(),
    ensures
        0 <= segments_cost(segments.take(n)) <= segments_cost(segments),
    decreases segments.len(),
{
    if n < segments.len() {
        assert(segments.drop_last().take(n) == segments.take(n));
        lemma_cost_prefix(segments.drop_last(), n);
    } else {
        assert(segments.take(n) == segments);
        if segments.len() > 0 {
            lemma_cost_prefix(segments.drop_last(), n - 1);
        }
    }
}

/// Whether a URL of `used` bytes stays within the limit when `segments` are
/// added to it.
fn segments_fit(segments: &Vec<String>, used: usize) -> (fits: bool)
    ensures
        fits == (used + segments_cost(views(segments@)) <= url_limit()),
{
    let limit: u64 = 4294967295;
    if used as u64 > limit {
        proof {
            lemma_cost_prefix(views(segments@), 0);
        }
        return false;
    }
    let mut total: u64 = used as u64;
    let mut i: usize = 0;
    proof {
        assert(views(segments@).take(0) == Seq::<Seq<char>>::empty());
    }
    while i < segments.len()
        invariant
            i <= segments.len(),
            limit == url_limit(),
            total == used + segments_cost(views(segments@).take(i as int)),
            total <= limit,
        decreases segments.len() - i,
    {
        let len = byte_len(segments[i].as_str());
        proof {
            let next = views(segments@).take(i + 1);
            assert(next.drop_last() == views(segments@).take(i as int));
            assert(next.last() == segments@[i as int]@);
            lemma_cost_prefix(views(segments@), i + 1);
        }
        if len as u64 > limit {
            return false;
        }
        let cost: u64 = 1 + 3 * (len as u64);
        if cost > limit - total {
            return false;
        }
        total = total + cost;
        i += 1;
    }
    proof {
        assert(views(segments@).take(segments.len() as int) == views(segments@));
    }
    true
}

/// The segments that the relative path `path` adds to the path of the base.
/// A slash at the start of the path is dropped: the segments follow the path
/// of the base either way.
pub fn split_path(path: &str) -> (segments: Vec<String>)
    ensures
        views(segments@) == path_segments(path@),
{
    let chars = to_chars(path);
    let start: usize = if chars.len() > 0 && chars[0] == '/' {
        1
    } else {
        0
    };
    proof {
        assert(chars@.skip(0) == chars@);
    }
    split_chars(&chars, start, '/')
}

/// Adds `query` to the query string of `url`: after an `&` where the URL has
/// a query already, alone otherwise. No query and an empty query leave the
/// URL as it is.
fn add_query(url: &mut url::Url, query: Option<String>) -> (r: Result<(), ClientError>)
    ensures
        match url_with_added_query(url_text(*old(url)), text_of(query)) {
            Ok(text) => r is Ok && url_text(*final(url)) == text,
            Err(kind) => r matches Err(e) && e.kind() == kind,
        },
{
    let q = match query {
        Some(q) => q,
        None => {
            return Ok(());
        },
    };
    if byte_len(q.as_str()) == 0 {
        proof {
            lemma_empty_text(q@);
        }
        return Ok(());
    }
    proof {
        lemma_empty_text(q@);
    }
    let ghost existing = query_of(url_text(*url));
    let merged = match url_query(url) {
        Some(before) => {
            proof {
                lemma_empty_text(before@);
            }
            if byte_len(before.as_str()) > 0 {
                let mut merged = before;
                merged.push('&');
                merged.append(q.as_str());
                proof {
                    assert(merged@ == before@ + seq!['&'] + q@);
                }
                merged
            } else {
                q
            }
        },
        None => q,
    };
    proof {
        assert(merged@ == merged_query(existing, q@));
    }
    let used = byte_len(url_as_string(url).as_str());
    let limit: u64 = 4294967295;
    let len = byte_len(merged.as_str());
    if used as u64 > limit || len as u64 > limit || 1 + 3 * (len as u64) > limit - used as u64 {
        return Err(ClientError::UrlBuildError { source: "URL is too long".to_owned() });
    }
    set_query(url, merged.as_str());
    Ok(())
}

/// A text takes no bytes exactly when it has no characters.
proof fn lemma_empty_text(text: Seq<char>)
    ensures
        (encode_utf8(text).len() == 0) == (text.len() == 0),
{
    vstd::utf8::encode_utf8_decode_utf8(text);
    if text.len() == 0 {
        assert(encode_utf8(text).len() == 0);
    } else if encode_utf8(text).len() == 0 {
        assert(encode_utf8(text) == Seq::<u8>::empty());
        assert(vstd::utf8::decode_utf8(Seq::<u8>::empty()).len() == 0);
    }
}

/// Combines a base URL, a relative path and a query string into one URL.
///
/// The base must be an absolute URL that can be a base. The segments of the
/// path follow the path of the base, with one slash between the two whether
/// or not the base ends or the path starts with one. The query is appended
/// to the query string of the base; no query and an empty query add
/// nothing. The result is the URL as `http::Uri` writes it.
pub fn build_url(base: &str, path: &str, query: Option<String>) -> (r: Result<String, ClientError>)
    ensures
        text_matches(r, url_outcome(base@, path@, text_of(query))),
{
    let mut url = match parse_url(base) {
        Ok(url) => url,
        Err(e) => {
            return Err(ClientError::UrlParseError { source: url_error_text(&e) });
        },
    };
    if url_cannot_be_a_base(&url) {
        return Err(
            ClientError::UrlParseError { source: "URL cannot be used as a base".to_owned() },
        );
    }
    let segments = split_path(path);
    let used = byte_len(url_as_string(&url).as_str());
    if !segments_fit(&segments, used) {
        return Err(ClientError::UrlBuildError { source: "URL is too long".to_owned() });
    }
    extend_path(&mut url, &segments);
    add_query(&mut url, query)?;
    uri_checked(parse_uri(url_as_string(&url).as_str()))
}

/// What the outcome of reading the assembled URL as a URI means for the
/// caller: the text of the URI, or a `UrlBuildError` that carries the
/// parser's message.
pub fn uri_checked(outcome: Result<String, http::uri::InvalidUri>) -> (r: Result<
    String,
    ClientError,
>)
    ensures
        match outcome {
            Ok(text) => r == Ok::<String, ClientError>(text),
            Err(_) => r matches Err(ClientError::UrlBuildError { .. }),
        },
{
    match outcome {
        Ok(text) => Ok(text),
        Err(e) => Err(ClientError::UrlBuildError { source: uri_error_text(&e) }),
    }
}

/// The pairs that the fields of a query give: the name and the text of
/// each field that is set. `None` where a field holds bytes, which have no
/// place in a query string.
pub open spec fn query_pairs(fields: Seq<FieldModel>) -> Option<Seq<(Seq<char>, Seq<char>)>>
    decreases fields.len(),
{
    if fields.len() == 0 {
        Some(Seq::empty())
    } else {
        match query_pairs(fields.drop_last()) {
            None => None,
            Some(pairs) => match fields.last().value {
                Value::Absent => Some(pairs),
                Value::Bytes(_) => None,
                value => Some(pairs.push((fields.last().name, display_text(value)->0))),
            },
        }
    }
}

/// What `build_query` returns: the query string, or the kind of the error.
pub open spec fn query_outcome(fields: Seq<FieldModel>) -> Result<Seq<char>, ErrorKind> {
    match query_pairs(fields) {
        None => Err(ErrorKind::UrlQueryParse),
        Some(pairs) => match form_urlencoded(pairs) {
            Some(text) => Ok(text),
            None => Err(ErrorKind::UrlQueryParse),
        },
    }
}

proof fn lemma_pairs_prefix(fields: Seq<FieldModel>, n: int)
    requires
        0 <= n <= fields.len(),
        query_pairs(fields.take(n)) is None,
    ensures
        query_pairs(fields) is None,
    decreases fields.len(),
{
    if n < fields.len() {
        assert(fields.drop_last().take(n) == fields.take(n));
        lemma_pairs_prefix(fields.drop_last(), n);
    } else {
        assert(fields.take(n) == fields);
    }
}

/// What the outcome of encoding the pairs means for the caller: the query
/// string, or a `UrlQueryParseError` that carries the serializer's message.
pub fn query_checked(outcome: Result<String, serde_urlencoded::ser::Error>) -> (r: Result<
    String,
    ClientError,
>)
    ensures
        match outcome {
            Ok(text) => r == Ok::<String, ClientError>(text),
            Err(_) => r matches Err(ClientError::UrlQueryParseError { .. }),
        },
{
    match outcome {
        Ok(text) => Ok(text),
        Err(e) => Err(ClientError::UrlQueryParseError { source: query_error_text(&e) }),
    }
}

/// Builds a query string from the given fields: one `name=value` pair for
/// each field that is set, in order, form-urlencoded.
pub fn build_query(object: &Vec<Field>) -> (r: Result<String, ClientError>)
    ensures
        text_matches(r, query_outcome(models(object@))),
{
    let mut pairs: Vec<(String, String)> = Vec::new();
    let mut i: usize = 0;
    proof {
        assert(models(object@.take(0)) == Seq::<FieldModel>::empty());
        assert(pair_views(pairs@) == Seq::<(Seq<char>, Seq<char>)>::empty());
    }
    while i < object.len()
        invariant
            i <= object.len(),
            query_pairs(models(object@.take(i as int))) == Some(pair_views(pairs@)),
        decreases object.len() - i,
    {
        let ghost next = models(object@.take(i + 1));
        proof {
            assert(object@.take(i + 1).drop_last() == object@.take(i as int));
            assert(next.drop_last() == models(object@.take(i as int)));
            assert(next.last() == object@[i as int]@);
            assert(models(object@).take(i + 1) == next);
        }
        if !object[i].is_absent() {
            match display(&object[i].value) {
                Some(text) => {
                    let ghost before = pair_views(pairs@);
                    let name = object[i].name.clone();
                    pairs.push((name, text));
                    proof {
                        assert(pair_views(pairs@) == before.push((name@, text@)));
                    }
                },
                None => {
                    proof {
                        lemma_pairs_prefix(models(object@), i + 1);
                    }
                    return Err(
                        ClientError::UrlQueryParseError { source: "unsupported value".to_owned() },
                    );
                },
            }
        }
        i += 1;
    }
    proof {
        assert(object@.take(object.len() as int) == object@);
    }
    query_checked(urlencode(&pairs))
}

/// What `build_body` returns: the bytes of the body, `None` for no body, or
/// the kind of the error.
pub open spec fn body_outcome(fields: Seq<FieldModel>) -> Result<Option<Seq<u8>>, ErrorKind> {
    match json_object(fields) {
        None => Err(ErrorKind::DataParse),
        Some(text) => if text == "{}"@ || text == "null"@ {
            Ok(None)
        } else {
            Ok(Some(encode_utf8(text)))
        },
    }
}

/// Whether a result is the expected body, or an error of the expected kind.
pub open spec fn body_matches(r: Result<Option<Vec<u8>>, ClientError>, expected: Result<
    Option<Seq<u8>>,
    ErrorKind,
>) -> bool {
    match expected {
        Ok(Some(bytes)) => r matches Ok(Some(b)) && b@ == bytes,
        Ok(None) => r matches Ok(None),
        Err(kind) => r matches Err(e) && e.kind() == kind,
    }
}

/// Builds a request body by serializing the given fields in the format that
/// `ty` names. A body that says nothing, `{}` or `null`, is no body.
pub fn build_body(object: &Vec<Field>, ty: RequestType) -> (r: Result<
    Option<Vec<u8>>,
    ClientError,
>)
    ensures
        body_matches(r, body_outcome(models(object@))),
{
    match ty {
        RequestType::JSON => {
            let text = to_json(object)?;
            if str_eq(text.as_str(), "{}") || str_eq(text.as_str(), "null") {
                Ok(None)
            } else {
                Ok(Some(text.as_str().as_bytes_vec()))
            }
        },
    }
}

/// Whether `r` is the request that `build_request` makes of its arguments:
/// the URL that they give, the method, no headers, and the body; or an
/// error of the kind that building the URL gives.
pub open spec fn is_built(
    r: Result<Request, ClientError>,
    base: Seq<char>,
    path: Seq<char>,
    method: RequestMethod,
    query: Option<Seq<char>>,
    data: Option<Vec<u8>>,
) -> bool {
    match url_outcome(base, path, query) {
        Ok(text) => r matches Ok(request) && request.uri@ == text && request.method == method
            && request.headers@.len() == 0 && request.body == data,
        Err(kind) => r matches Err(e) && e.kind() == kind,
    }
}

/// Builds a request from a base URL, a relative path, a method, a query
/// string and a body. The request carries no headers.
pub fn build_request(
    base: &str,
    path: &str,
    method: RequestMethod,
    query: Option<String>,
    data: Option<Vec<u8>>,
) -> (r: Result<Request, ClientError>)
    ensures
        is_built(r, base@, path@, method, text_of(query), data),
{
    let uri = build_url(base, path, query)?;
    Ok(Request { uri, method, headers: Vec::new(), body: data })
}

/// A slash at the start of the relative path changes nothing: with it or
/// without it, the same segments follow the path of the base, so that the
/// same URL results.
pub proof fn lemma_leading_slash_ignored(
    base: Seq<char>,
    path: Seq<char>,
    query: Option<Seq<char>>,
)
    requires
        path.len() == 0 || path[0] != '/',
    ensures
        path_segments(seq!['/'] + path) == path_segments(path),
        url_outcome(base, seq!['/'] + path, query) == url_outcome(base, path, query),
{
    assert((seq!['/'] + path).skip(1) == path);
}

/// An empty query is no query: the URL is the one that results without any.
pub proof fn lemma_empty_query_changes_nothing(base: Seq<char>, path: Seq<char>)
    ensures
        url_outcome(base, path, Some(Seq::empty())) == url_outcome(base, path, None),
{
}

} // verus!
