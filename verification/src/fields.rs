//! The fields of an endpoint: what each one is called, where it goes on the
//! wire, and what it holds.

use crate::errors::ClientError;
use crate::text::str_eq;
use vstd::prelude::*;
use vstd::string::StringExecFns;

verus! {

/// Where a field of an endpoint goes on the wire.
#[derive(Clone, Copy, Debug, PartialEq, Eq, Hash, Structural)]
pub enum EndpointAttribute {
    /// Serialized into the request body.
    Body,
    /// Serialized into the query string.
    Query,
    /// Holds the bytes of the request body, which are sent as they are.
    Raw,
    /// Sent nowhere.
    Skip,
    /// Carries no tag: sent in the body unless other fields claim the body.
    Untagged,
}

/// What a field holds, as mathematics sees it.
pub enum Value {
    Absent,
    Bool(bool),
    Int(int),
    Text(Seq<char>),
    Bytes(Seq<u8>),
}

/// What a field holds.
#[derive(Debug)]
pub enum FieldValue {
    /// An optional field that is not set.
    Absent,
    Bool(bool),
    Int(i64),
    UInt(u64),
    Text(String),
    Bytes(Vec<u8>),
}

impl View for FieldValue {
    type V = Value;

    open spec fn view(&self) -> Value {
        match *self {
            FieldValue::Absent => Value::Absent,
            FieldValue::Bool(b) => Value::Bool(b),
            FieldValue::Int(i) => Value::Int(i as int),
            FieldValue::UInt(u) => Value::Int(u as int),
            FieldValue::Text(s) => Value::Text(s@),
            FieldValue::Bytes(b) => Value::Bytes(b@),
        }
    }
}

impl Clone for FieldValue {
    fn clone(&self) -> (r: Self)
        ensures
            r@ == self@,
    {
        match self {
            FieldValue::Absent => FieldValue::Absent,
            FieldValue::Bool(b) => FieldValue::Bool(*b),
            FieldValue::Int(i) => FieldValue::Int(*i),
            FieldValue::UInt(u) => FieldValue::UInt(*u),
            FieldValue::Text(s) => FieldValue::Text(s.clone()),
            FieldValue::Bytes(b) => FieldValue::Bytes(b.clone()),
        }
    }
}

/// A field as mathematics sees it.
pub struct FieldModel {
    pub name: Seq<char>,
    pub role: EndpointAttribute,
    pub value: Value,
}

/// One field of an endpoint.
#[derive(Debug)]
pub struct Field {
    pub name: String,
    pub role: EndpointAttribute,
    pub value: FieldValue,
}

impl View for Field {
    type V = FieldModel;

    open spec fn view(&self) -> FieldModel {
        FieldModel { name: self.name@, role: self.role, value: self.value@ }
    }
}

impl Clone for Field {
    fn clone(&self) -> (r: Self)
        ensures
            r@ == self@,
    {
        Field { name: self.name.clone(), role: self.role, value: self.value.clone() }
    }
}

/// The model of each field of a list, in order.
pub open spec fn models(fields: Seq<Field>) -> Seq<FieldModel> {
    fields.map_values(|f: Field| f@)
}

impl EndpointAttribute {
    /// The attribute that a tag names. Tags are read in their lowercase
    /// form; `Untagged` has no tag.
    pub open spec fn tagged(lower: Seq<char>) -> Option<EndpointAttribute> {
        if lower == "body"@ {
            Some(EndpointAttribute::Body)
        } else if lower == "query"@ {
            Some(EndpointAttribute::Query)
        } else if lower == "raw"@ {
            Some(EndpointAttribute::Raw)
        } else if lower == "skip"@ {
            Some(EndpointAttribute::Skip)
        } else {
            None
        }
    }
}

/// The lowercase form of a text, as `str::to_lowercase` gives it.
pub uninterp spec fn lowercase(s: Seq<char>) -> Seq<char>;

/// `str::to_lowercase` of the standard library: the lowercase equivalent of
/// the text. The contract gives the result a name and states nothing else.
#[verifier::external_body]
fn to_lowercase(s: &str) -> (r: String)
    ensures
        r@ == lowercase(s@),
{
    s.to_lowercase()
}

impl EndpointAttribute {
    /// The attribute that a tag in lowercase names.
    pub fn from_tag(lower: &str) -> (a: Option<EndpointAttribute>)
        ensures
            a == Self::tagged(lower@),
    {
        if str_eq(lower, "body") {
            Some(EndpointAttribute::Body)
        } else if str_eq(lower, "query") {
            Some(EndpointAttribute::Query)
        } else if str_eq(lower, "raw") {
            Some(EndpointAttribute::Raw)
        } else if str_eq(lower, "skip") {
            Some(EndpointAttribute::Skip)
        } else {
            None
        }
    }

    /// Reads an attribute from its tag, whatever the case of its letters.
    /// A tag that names no attribute is an error that carries the tag.
    pub fn try_from(tag: &str) -> (r: Result<EndpointAttribute, ClientError>)
        ensures
            match Self::tagged(lowercase(tag@)) {
                Some(a) => r == Ok::<EndpointAttribute, ClientError>(a),
                None => r matches Err(ClientError::EndpointBuildError { source }) && source@
                    == "Unknown attribute: "@ + tag@,
            },
    {
        let lower = to_lowercase(tag);
        match Self::from_tag(lower.as_str()) {
            Some(a) => Ok(a),
            None => {
                let mut source = "Unknown attribute: ".to_owned();
                source.append(tag);
                Err(ClientError::EndpointBuildError { source })
            },
        }
    }
}

impl Field {
    /// A field without a tag.
    pub fn new(name: &str, value: FieldValue) -> (f: Field)
        ensures
            f@ == (FieldModel { name: name@, role: EndpointAttribute::Untagged, value: value@ }),
    {
        Field { name: name.to_owned(), role: EndpointAttribute::Untagged, value }
    }

    /// A field with the given role.
    pub fn with_role(name: &str, role: EndpointAttribute, value: FieldValue) -> (f: Field)
        ensures
            f@ == (FieldModel { name: name@, role, value: value@ }),
    {
        Field { name: name.to_owned(), role, value }
    }

    /// Whether the field is optional and not set. Such a field is left out
    /// of whatever is serialized.
    pub fn is_absent(&self) -> (absent: bool)
        ensures
            absent == (self@.value is Absent),
    {
        match &self.value {
            FieldValue::Absent => true,
            _ => false,
        }
    }
}

/// The fields of a list that have the given role, in order.
pub open spec fn with_role(fields: Seq<FieldModel>, role: EndpointAttribute) -> Seq<FieldModel> {
    fields.filter(|f: FieldModel| f.role == role)
}

/// The fields of a list that are set, in order: an optional field that is
/// not set is left out.
pub open spec fn present(fields: Seq<FieldModel>) -> Seq<FieldModel> {
    fields.filter(|f: FieldModel| !(f.value is Absent))
}

/// The fields of an endpoint, grouped by role. Each group keeps the order in
/// which the fields were declared.
#[derive(Debug)]
pub struct FieldGroups {
    pub body: Vec<Field>,
    pub query: Vec<Field>,
    pub raw: Vec<Field>,
    pub skip: Vec<Field>,
    pub untagged: Vec<Field>,
}

impl FieldGroups {
    /// Whether the groups are those of `fields`.
    pub open spec fn groups_of(&self, fields: Seq<FieldModel>) -> bool {
        &&& models(self.body@) == with_role(fields, EndpointAttribute::Body)
        &&& models(self.query@) == with_role(fields, EndpointAttribute::Query)
        &&& models(self.raw@) == with_role(fields, EndpointAttribute::Raw)
        &&& models(self.skip@) == with_role(fields, EndpointAttribute::Skip)
        &&& models(self.untagged@) == with_role(fields, EndpointAttribute::Untagged)
    }
}

proof fn lemma_models_push(fields: Seq<Field>, f: Field)
    ensures
        models(fields.push(f)) == models(fields).push(f@),
{
    assert(models(fields.push(f)) =~= models(fields).push(f@));
}

proof fn lemma_models_take(fields: Seq<Field>, i: int)
    requires
        0 <= i < fields.len(),
    ensures
        models(fields.take(i + 1)) == models(fields.take(i)).push(fields[i]@),
        models(fields).take(i) == models(fields.take(i)),
{
    assert(fields.take(i + 1) =~= fields.take(i).push(fields[i]));
    lemma_models_push(fields.take(i), fields[i]);
    assert(models(fields).take(i) =~= models(fields.take(i)));
}

/// Groups the fields of an endpoint by role.
pub fn field_attributes(fields: &Vec<Field>) -> (groups: FieldGroups)
    ensures
        groups.groups_of(models(fields@)),
{
    let mut groups = FieldGroups {
        body: Vec::new(),
        query: Vec::new(),
        raw: Vec::new(),
        skip: Vec::new(),
        untagged: Vec::new(),
    };
    let mut i: usize = 0;
    proof {
        reveal(Seq::filter);
        assert(fields@.take(0) =~= Seq::<Field>::empty());
        assert(models(Seq::<Field>::empty()) =~= Seq::<FieldModel>::empty());
        assert(models(groups.body@) =~= Seq::<FieldModel>::empty());
    }
    while i < fields.len()
        invariant
            i <= fields.len(),
            groups.groups_of(models(fields@.take(i as int))),
        decreases fields.len() - i,
    {
        let field = fields[i].clone();
        proof {
            broadcast use Seq::lemma_filter_push;

            lemma_models_take(fields@, i as int);
            lemma_models_push(groups.body@, field);
            lemma_models_push(groups.query@, field);
            lemma_models_push(groups.raw@, field);
            lemma_models_push(groups.skip@, field);
            lemma_models_push(groups.untagged@, field);
        }
        match field.role {
            EndpointAttribute::Body => groups.body.push(field),
            EndpointAttribute::Query => groups.query.push(field),
            EndpointAttribute::Raw => groups.raw.push(field),
            EndpointAttribute::Skip => groups.skip.push(field),
            EndpointAttribute::Untagged => groups.untagged.push(field),
        }
        i += 1;
    }
    proof {
        assert(fields@.take(fields.len() as int) =~= fields@);
    }
    groups
}

/// The structure that is serialized in place of the endpoint: the given
/// fields without those that are optional and not set.
pub fn fields_to_struct(fields: &Vec<Field>) -> (object: Vec<Field>)
    ensures
        models(object@) == present(models(fields@)),
{
    let mut object: Vec<Field> = Vec::new();
    let mut i: usize = 0;
    proof {
        reveal(Seq::filter);
        assert(fields@.take(0) =~= Seq::<Field>::empty());
        assert(models(Seq::<Field>::empty()) =~= Seq::<FieldModel>::empty());
        assert(models(object@) =~= Seq::<FieldModel>::empty());
    }
    while i < fields.len()
        invariant
            i <= fields.len(),
            models(object@) == present(models(fields@.take(i as int))),
        decreases fields.len() - i,
    {
        proof {
            broadcast use Seq::lemma_filter_push;

            lemma_models_take(fields@, i as int);
        }
        if !fields[i].is_absent() {
            let field = fields[i].clone();
            proof {
                lemma_models_push(object@, field);
            }
            object.push(field);
        }
        i += 1;
    }
    proof {
        assert(fields@.take(fields.len() as int) =~= fields@);
    }
    object
}

} // verus!
