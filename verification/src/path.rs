//! Path templates. A template is text in which `{name}` stands for the value
//! of the field `name`; `{self.name}` means the same.

use crate::errors::ClientError;
use crate::fields::{models, Field, FieldModel, FieldValue, Value};
use crate::text::{
    decimal_int, find_char, first_index, push_decimal, push_decimal_int, str_eq, substring,
    to_chars,
};
use vstd::prelude::*;
use vstd::string::StringExecFns;

verus! {

/// The text that stands for a value inside a path or a query string. A field
/// that is not set and a field of bytes have none.
pub open spec fn display_text(v: Value) -> Option<Seq<char>> {
    match v {
        Value::Absent => None,
        Value::Bool(b) => Some(
            if b {
                "true"@
            } else {
                "false"@
            },
        ),
        Value::Int(i) => Some(decimal_int(i)),
        Value::Text(s) => Some(s),
        Value::Bytes(_) => None,
    }
}

/// The prefix that a placeholder may carry before the field's name.
pub open spec fn self_prefix() -> Seq<char> {
    seq!['s', 'e', 'l', 'f', '.']
}

/// The name of the field that a placeholder speaks of.
pub open spec fn placeholder_name(expr: Seq<char>) -> Seq<char> {
    if expr.len() >= 5 && expr.take(5) == self_prefix() {
        expr.skip(5)
    } else {
        expr
    }
}

/// The first field called `name`, if there is one.
pub open spec fn find_field(fields: Seq<FieldModel>, name: Seq<char>) -> Option<FieldModel>
    decreases fields.len(),
{
    if fields.len() == 0 {
        None
    } else if fields[0].name == name {
        Some(fields[0])
    } else {
        find_field(fields.skip(1), name)
    }
}

/// The text that a placeholder resolves to; `None` where no field has that
/// name or the field has no text.
pub open spec fn resolve(fields: Seq<FieldModel>, expr: Seq<char>) -> Option<Seq<char>> {
    match find_field(fields, placeholder_name(expr)) {
        Some(f) => display_text(f.value),
        None => None,
    }
}

/// `before` followed by what `rest` yields; an error stays as it is.
pub open spec fn prepend(before: Seq<char>, rest: Result<Seq<char>, Seq<char>>) -> Result<
    Seq<char>,
    Seq<char>,
> {
    match rest {
        Ok(r) => Ok(before + r),
        Err(e) => Err(e),
    }
}

/// The path that a template stands for: each placeholder replaced by the text
/// of its field, everything else kept. The error is the placeholder that has
/// no value; for an opening brace that is never closed, the text after it.
pub open spec fn interpolate(template: Seq<char>, fields: Seq<FieldModel>) -> Result<
    Seq<char>,
    Seq<char>,
>
    decreases template.len(),
{
    if template.len() == 0 {
        Ok(Seq::empty())
    } else if template[0] == '{' {
        let rest = template.skip(1);
        let k = first_index(rest, '}');
        if 0 <= k < rest.len() {
            match resolve(fields, rest.take(k)) {
                None => Err(rest.take(k)),
                Some(v) => prepend(v, interpolate(rest.skip(k + 1), fields)),
            }
        } else {
            Err(rest)
        }
    } else {
        prepend(seq![template[0]], interpolate(template.skip(1), fields))
    }
}

/// Appends the text that stands for `value` to `out`; tells whether the value
/// has one.
fn push_display(out: &mut String, value: &FieldValue) -> (done: bool)
    ensures
        match display_text(value@) {
            Some(t) => done && final(out)@ == old(out)@ + t,
            None => !done && final(out)@ == old(out)@,
        },
{
    match value {
        FieldValue::Absent => false,
        FieldValue::Bool(b) => {
            if *b {
                out.append("true");
            } else {
                out.append("false");
            }
            true
        },
        FieldValue::Int(i) => {
            push_decimal_int(out, *i);
            true
        },
        FieldValue::UInt(u) => {
            push_decimal(out, *u);
            true
        },
        FieldValue::Text(s) => {
            out.append(s.as_str());
            true
        },
        FieldValue::Bytes(_) => false,
    }
}

/// The text that stands for a value inside a path or a query string.
pub fn display(value: &FieldValue) -> (text: Option<String>)
    ensures
        match display_text(value@) {
            Some(t) => text matches Some(s) && s@ == t,
            None => text is None,
        },
{
    let mut out = String::new();
    if push_display(&mut out, value) {
        Some(out)
    } else {
        None
    }
}

/// The position in `fields` of the first field called `name`.
pub fn position_of(fields: &Vec<Field>, name: &str) -> (at: Option<usize>)
    ensures
        match find_field(models(fields@), name@) {
            Some(f) => at matches Some(i) && i < fields.len() && fields@[i as int]@ == f,
            None => at is None,
        },
{
    let mut i: usize = 0;
    proof {
        assert(models(fields@).skip(0) == models(fields@));
    }
    while i < fields.len()
        invariant
            i <= fields.len(),
            find_field(models(fields@), name@) == find_field(
                models(fields@).skip(i as int),
                name@,
            ),
        decreases fields.len() - i,
    {
        proof {
            let rest = models(fields@).skip(i as int);
            assert(rest[0] == fields@[i as int]@);
            assert(rest.skip(1) == models(fields@).skip(i + 1));
        }
        if str_eq(fields[i].name.as_str(), name) {
            return Some(i);
        }
        i += 1;
    }
    None
}

/// Where the name of the field starts inside a placeholder of `len`
/// characters that starts at `from`.
fn name_start(v: &Vec<char>, from: usize, to: usize) -> (at: usize)
    requires
        from <= to <= v.len(),
    ensures
        from <= at <= to,
        v@.subrange(at as int, to as int) == placeholder_name(v@.subrange(from as int, to as int)),
{
    let ghost expr = v@.subrange(from as int, to as int);
    if to - from >= 5 && v[from] == 's' && v[from + 1] == 'e' && v[from + 2] == 'l' && v[from + 3]
        == 'f' && v[from + 4] == '.' {
        proof {
            assert(expr.take(5) == self_prefix());
            assert(expr.skip(5) == v@.subrange(from + 5, to as int));
        }
        from + 5
    } else {
        proof {
            if expr.len() >= 5 {
                let p = expr.take(5);
                assert(p[0] == v@[from as int] && p[1] == v@[from + 1] && p[2] == v@[from + 2]
                    && p[3] == v@[from + 3] && p[4] == v@[from + 4]);
                assert(self_prefix()[0] == 's' && self_prefix()[1] == 'e' && self_prefix()[2]
                    == 'l' && self_prefix()[3] == 'f' && self_prefix()[4] == '.');
            }
        }
        from
    }
}

/// The path that `template` stands for, given the fields of the endpoint.
pub fn gen_path(template: &str, fields: &Vec<Field>) -> (r: Result<String, ClientError>)
    ensures
        match interpolate(template@, models(fields@)) {
            Ok(path) => r matches Ok(s) && s@ == path,
            Err(missing) => r matches Err(ClientError::PathInterpolationError { placeholder })
                && placeholder@ == missing,
        },
{
    let t = to_chars(template);
    let mut out = String::new();
    let mut i: usize = 0;
    proof {
        assert(t@.skip(0) == t@);
        let whole = interpolate(t@, models(fields@));
        if whole is Ok {
            assert(Seq::<char>::empty() + whole->Ok_0 == whole->Ok_0);
        }
    }
    while i < t.len()
        invariant
            i <= t.len(),
            t@ == template@,
            interpolate(template@, models(fields@)) == prepend(
                out@,
                interpolate(t@.skip(i as int), models(fields@)),
            ),
        decreases t.len() - i,
    {
        let ghost here = t@.skip(i as int);
        let ghost before = out@;
        proof {
            assert(here[0] == t@[i as int]);
            assert(here.skip(1) == t@.skip(i + 1));
        }
        if t[i] == '{' {
            let close = find_char(&t, i + 1, '}');
            proof {
                assert(here.skip(1).take(close - i - 1) == t@.subrange(i + 1, close as int));
            }
            if close >= t.len() {
                return Err(
                    ClientError::PathInterpolationError {
                        placeholder: substring(&t, i + 1, t.len()),
                    },
                );
            }
            let start = name_start(&t, i + 1, close);
            let name = substring(&t, start, close);
            let found = match position_of(fields, name.as_str()) {
                Some(at) => push_display(&mut out, &fields[at].value),
                None => false,
            };
            if !found {
                return Err(
                    ClientError::PathInterpolationError {
                        placeholder: substring(&t, i + 1, close),
                    },
                );
            }
            proof {
                assert(here.skip(1).skip(close - i - 1 + 1) == t@.skip(close + 1));
                let v = resolve(models(fields@), t@.subrange(i + 1, close as int))->0;
                let tail = interpolate(t@.skip(close + 1), models(fields@));
                assert(out@ == before + v);
                if tail is Ok {
                    assert(before + (v + tail->Ok_0) == (before + v) + tail->Ok_0);
                }
            }
            i = close + 1;
        } else {
            out.push(t[i]);
            proof {
                let tail = interpolate(t@.skip(i + 1), models(fields@));
                if tail is Ok {
                    assert(before + (seq![t@[i as int]] + tail->Ok_0) == before.push(t@[i as int])
                        + tail->Ok_0);
                }
            }
            i += 1;
        }
    }
    proof {
        assert(out@ + Seq::<char>::empty() == out@);
    }
    Ok(out)
}

} // verus!
