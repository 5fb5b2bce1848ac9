//! JSON text for the fields of an endpoint. The object is framed here;
//! strings are quoted and escaped by `serde_json`.

use crate::errors::{ClientError, ErrorKind};
use crate::fields::{models, Field, FieldModel, FieldValue, Value};
use crate::text::{decimal, decimal_int, push_decimal, push_decimal_int};
use vstd::prelude::*;
use vstd::string::StringExecFns;

verus! {

#[verifier::external_type_specification]
#[verifier::external_body]
pub struct ExJsonError(serde_json::Error);

/// The JSON string literal that `serde_json::to_string` writes for the text
/// `s`, quotes included; `None` where it reports an error.
pub uninterp spec fn json_string(s: Seq<char>) -> Option<Seq<char>>;

/// `serde_json::to_string` on a string slice. The result is the text in
/// double quotes with the characters escaped that JSON asks for; the
/// contract gives that text a name and states nothing else of it.
#[verifier::external_body]
fn quote(s: &str) -> (r: Result<String, serde_json::Error>)
    ensures
        match r {
            Ok(t) => json_string(s@) == Some(t@),
            Err(_) => json_string(s@) is None,
        },
{
    serde_json::to_string(s)
}

/// The message of a `serde_json::Error`, as its `Display` writes it.
#[verifier::external_body]
pub(crate) fn json_error_text(e: &serde_json::Error) -> String {
    e.to_string()
}

/// The elements of a JSON array of numbers: the decimal text of each byte,
/// with commas between them.
pub open spec fn json_elements(bytes: Seq<u8>) -> Seq<char>
    decreases bytes.len(),
{
    if bytes.len() == 0 {
        Seq::empty()
    } else if bytes.len() == 1 {
        decimal(bytes[0] as nat)
    } else {
        json_elements(bytes.drop_last()) + seq![','] + decimal(bytes.last() as nat)
    }
}

/// The JSON text of a value; `None` where a string cannot be written.
pub open spec fn json_value(v: Value) -> Option<Seq<char>> {
    match v {
        Value::Absent => Some("null"@),
        Value::Bool(b) => Some(
            if b {
                "true"@
            } else {
                "false"@
            },
        ),
        Value::Int(i) => Some(decimal_int(i)),
        Value::Text(s) => json_string(s),
        Value::Bytes(b) => Some(seq!['['] + json_elements(b) + seq![']']),
    }
}

/// One member of a JSON object: the quoted name, a colon, the value.
pub open spec fn json_member(f: FieldModel) -> Option<Seq<char>> {
    match (json_string(f.name), json_value(f.value)) {
        (Some(k), Some(v)) => Some(k + seq![':'] + v),
        _ => None,
    }
}

/// The members of a JSON object, in the order of the fields, with commas
/// between them; `None` where one of them cannot be written.
pub open spec fn json_members(fields: Seq<FieldModel>) -> Option<Seq<char>>
    decreases fields.len(),
{
    if fields.len() == 0 {
        Some(Seq::empty())
    } else {
        match (json_members(fields.drop_last()), json_member(fields.last())) {
            (Some(before), Some(m)) => Some(
                if fields.len() == 1 {
                    m
                } else {
                    before + seq![','] + m
                },
            ),
            _ => None,
        }
    }
}

/// The JSON object that holds one member for each field, in order.
pub open spec fn json_object(fields: Seq<FieldModel>) -> Option<Seq<char>> {
    match json_members(fields) {
        Some(members) => Some(seq!['{'] + members + seq!['}']),
        None => None,
    }
}

/// What the outcome of quoting means for the caller: the quoted text, or a
/// `DataParseError` that carries the serializer's message.
pub fn quoted(outcome: Result<String, serde_json::Error>) -> (r: Result<String, ClientError>)
    ensures
        match outcome {
            Ok(t) => r == Ok::<String, ClientError>(t),
            Err(_) => r matches Err(ClientError::DataParseError { .. }),
        },
{
    match outcome {
        Ok(t) => Ok(t),
        Err(e) => Err(ClientError::DataParseError { source: json_error_text(&e) }),
    }
}

/// Appends the JSON text of `value` to `out`.
fn push_value(out: &mut String, value: &FieldValue) -> (r: Result<(), ClientError>)
    ensures
        match json_value(value@) {
            Some(t) => r is Ok && final(out)@ == old(out)@ + t,
            None => r matches Err(e) && e.kind() == ErrorKind::DataParse,
        },
{
    match value {
        FieldValue::Absent => {
            out.append("null");
        },
        FieldValue::Bool(b) => {
            if *b {
                out.append("true");
            } else {
                out.append("false");
            }
        },
        FieldValue::Int(i) => {
            push_decimal_int(out, *i);
        },
        FieldValue::UInt(u) => {
            push_decimal(out, *u);
        },
        FieldValue::Text(s) => {
            let t = quoted(quote(s.as_str()))?;
            out.append(t.as_str());
        },
        FieldValue::Bytes(b) => {
            out.push('[');
            let ghost start = out@;
            let mut i: usize = 0;
            while i < b.len()
                invariant
                    i <= b.len(),
                    out@ == start + json_elements(b@.take(i as int)),
                decreases b.len() - i,
            {
                if i > 0 {
                    out.push(',');
                }
                push_decimal(out, b[i] as u64);
                proof {
                    assert(b@.take(i + 1).drop_last() == b@.take(i as int));
                }
                i += 1;
            }
            proof {
                assert(b@.take(b.len() as int) == b@);
            }
            out.push(']');
        },
    }
    Ok(())
}

/// The JSON object that holds the given fields, in order.
pub fn to_json(object: &Vec<Field>) -> (r: Result<String, ClientError>)
    ensures
        match json_object(models(object@)) {
            Some(t) => r matches Ok(s) && s@ == t,
            None => r matches Err(e) && e.kind() == ErrorKind::DataParse,
        },
{
    let mut out = String::new();
    out.push('{');
    let mut i: usize = 0;
    while i < object.len()
        invariant
            i <= object.len(),
            json_members(models(object@.take(i as int))) matches Some(members) && out@ == seq![
                '{',
            ] + members,
        decreases object.len() - i,
    {
        let ghost next = models(object@.take(i + 1));
        proof {
            assert(object@.take(i + 1).drop_last() == object@.take(i as int));
            assert(next.drop_last() == models(object@.take(i as int)));
            assert(next.last() == object@[i as int]@);
            assert(models(object@).take(i + 1) == next);
        }
        if i > 0 {
            out.push(',');
        }
        let name = match quoted(quote(object[i].name.as_str())) {
            Ok(name) => name,
            Err(e) => {
                proof {
                    lemma_members_prefix(models(object@), i + 1);
                }
                return Err(e);
            },
        };
        out.append(name.as_str());
        out.push(':');
        match push_value(&mut out, &object[i].value) {
            Ok(()) => {},
            Err(e) => {
                proof {
                    lemma_members_prefix(models(object@), i + 1);
                }
                return Err(e);
            },
        }
        i += 1;
    }
    proof {
        assert(object@.take(object.len() as int) == object@);
    }
    out.push('}');
    Ok(out)
}

/// Where a prefix of the fields cannot be written, neither can the whole.
pub proof fn lemma_members_prefix(fields: Seq<FieldModel>, n: int)
    requires
        0 <= n <= fields.len(),
        json_members(fields.take(n)) is None,
    ensures
        json_members(fields) is None,
    decreases fields.len(),
{
    if n < fields.len() {
        assert(fields.drop_last().take(n) == fields.take(n));
        lemma_members_prefix(fields.drop_last(), n);
    } else {
        assert(fields.take(n) == fields);
    }
}

} // verus!
