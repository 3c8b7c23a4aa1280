//! Values as text: the form in which a template shows a value, and the
//! representation for debugging.

use crate::error::join;
use crate::numerics::debugged;
use crate::numerics::displayed;
use crate::numerics::Halt;
use crate::numerics::HaltModel;
use crate::numerics::NumericFact;
use crate::numerics::NumericFacts;
use crate::numerics::QueryModel;
use crate::text::decimal;
use crate::text::from_chars;
use crate::text::int_to_decimal;
use crate::value::array_view;
use crate::value::items;
use crate::value::object_view;
use crate::value::Fields;
use crate::value::Value;
use crate::value::ValueModel;
use vstd::prelude::*;

verus! {

/// The text of `s` as the standard library's debugging format writes a
/// string: between double quotes, with escapes for what cannot stand there.
pub uninterp spec fn quoted(s: Seq<char>) -> Seq<char>;

/// The debugging format of the standard library, `{:?}`, applied to a string
/// slice. Its result depends on the characters of the slice alone.
#[verifier::external_body]
fn quote(s: &str) -> (r: String)
    ensures
        r@ == quoted(s@),
{
    format!("{:?}", s)
}

/// `true` or `false`.
pub open spec fn bool_text(b: bool) -> Seq<char> {
    if b {
        "true"@
    } else {
        "false"@
    }
}

/// What separates the item at position `at` from the one before it.
pub open spec fn separator(at: int) -> Seq<char> {
    if at > 0 {
        ", "@
    } else {
        Seq::empty()
    }
}

/// The representation of a value for debugging: the name of its kind and, in
/// round brackets, what it holds. An array holds its items in square
/// brackets, an object its fields in braces, each name quoted and followed by
/// a colon; both separate their parts by a comma and a space. The text of a
/// floating point number comes from the facts; where it is missing, the query
/// for it is pending.
pub open spec fn debug_text(v: ValueModel, known: Seq<NumericFact>) -> Result<Seq<char>, HaltModel>
    decreases v, 0nat,
{
    match v {
        ValueModel::Null => Ok("Null"@),
        ValueModel::Bool(b) => Ok("Bool("@ + bool_text(b) + ")"@),
        ValueModel::Int(i) => Ok("Int("@ + decimal(i as int) + ")"@),
        ValueModel::Float(f) => match debugged(known, f) {
            Some(t) => Ok("Float("@ + t + ")"@),
            None => Err(HaltModel::Pending(QueryModel::Debug(f))),
        },
        ValueModel::String(s) => Ok("String("@ + quoted(s) + ")"@),
        ValueModel::Array(a) => match debug_items(a, 0, "Array(["@, known) {
            Ok(t) => Ok(t + "])"@),
            Err(h) => Err(h),
        },
        ValueModel::Object(o) => match debug_fields(o, 0, "Object({"@, known) {
            Ok(t) => Ok(t + "})"@),
            Err(h) => Err(h),
        },
    }
}

/// `text` followed by the representations of the items from position `from`
/// on.
pub open spec fn debug_items(
    a: Seq<ValueModel>,
    from: int,
    text: Seq<char>,
    known: Seq<NumericFact>,
) -> Result<Seq<char>, HaltModel>
    decreases a, a.len() - from,
{
    if from < 0 || from >= a.len() {
        Ok(text)
    } else {
        match debug_text(a[from], known) {
            Ok(t) => debug_items(a, from + 1, text + separator(from) + t, known),
            Err(h) => Err(h),
        }
    }
}

/// `text` followed by the representations of the fields from position `from`
/// on.
pub open spec fn debug_fields(
    o: Fields,
    from: int,
    text: Seq<char>,
    known: Seq<NumericFact>,
) -> Result<Seq<char>, HaltModel>
    decreases o, o.len() - from,
{
    if from < 0 || from >= o.len() {
        Ok(text)
    } else {
        match debug_text(o[from].1, known) {
            Ok(t) => debug_fields(
                o,
                from + 1,
                text + separator(from) + quoted(o[from].0) + ": "@ + t,
                known,
            ),
            Err(h) => Err(h),
        }
    }
}

/// The form in which a template shows a value: a string as it is, a number in
/// decimal notation, a boolean as `true` or `false`, and a value of another
/// kind in its representation for debugging.
pub open spec fn display_text(v: ValueModel, known: Seq<NumericFact>) -> Result<
    Seq<char>,
    HaltModel,
> {
    match v {
        ValueModel::String(s) => Ok(s),
        ValueModel::Int(i) => Ok(decimal(i as int)),
        ValueModel::Float(f) => match displayed(known, f) {
            Some(t) => Ok(t),
            None => Err(HaltModel::Pending(QueryModel::Display(f))),
        },
        ValueModel::Bool(b) => Ok(bool_text(b)),
        _ => debug_text(v, known),
    }
}

/// The view of a result that holds a string.
pub open spec fn text_result(r: Result<String, Halt>) -> Result<Seq<char>, HaltModel> {
    match r {
        Ok(s) => Ok(s@),
        Err(h) => Err(h@),
    }
}

fn bool_word(b: bool) -> (r: &'static str)
    ensures
        r@ == bool_text(b),
{
    if b {
        "true"
    } else {
        "false"
    }
}

/// The representation of `v` for debugging.
#[verifier::loop_isolation(false)]
pub fn debug_value(v: &Value, facts: &NumericFacts) -> (r: Result<String, Halt>)
    ensures
        text_result(r) == debug_text(v@, facts@),
    decreases v,
{
    match v {
        Value::Null => Ok(String::from_str("Null")),
        Value::Bool(b) => {
            let mut out = join("Bool(", bool_word(*b));
            out.append(")");
            Ok(out)
        },
        Value::Int(i) => {
            let digits = from_chars(&int_to_decimal(*i));
            let mut out = join("Int(", digits.as_str());
            out.append(")");
            Ok(out)
        },
        Value::Float(f) => match facts.debug(*f) {
            Ok(t) => {
                let mut out = join("Float(", t.as_str());
                out.append(")");
                Ok(out)
            },
            Err(h) => Err(h),
        },
        Value::String(s) => {
            let q = quote(s.as_str());
            let mut out = join("String(", q.as_str());
            out.append(")");
            Ok(out)
        },
        Value::Array(a) => {
            proof {
                array_view(*a);
            }
            let mut out = String::from_str("Array([");
            let mut i: usize = 0;
            while i < a.len()
                invariant
                    i <= a.len(),
                    debug_items(items(a@), 0, "Array(["@, facts@) == debug_items(
                        items(a@),
                        i as int,
                        out@,
                        facts@,
                    ),
                decreases a.len() - i,
            {
                if i > 0 {
                    out.append(", ");
                } else {
                    assert(out@ + Seq::<char>::empty() =~= out@);
                }
                match debug_value(&a[i], facts) {
                    Ok(t) => {
                        out.append(t.as_str());
                    },
                    Err(h) => {
                        return Err(h);
                    },
                }
                i += 1;
            }
            out.append("])");
            Ok(out)
        },
        Value::Object(o) => {
            proof {
                object_view(*o);
                o.entries_decrease();
            }
            let mut out = String::from_str("Object({");
            let n = o.len();
            let mut i: usize = 0;
            while i < n
                invariant
                    i <= n,
                    debug_fields(o@, 0, "Object({"@, facts@) == debug_fields(
                        o@,
                        i as int,
                        out@,
                        facts@,
                    ),
                decreases n - i,
            {
                if i > 0 {
                    out.append(", ");
                } else {
                    assert(out@ + Seq::<char>::empty() =~= out@);
                }
                let e = o.entry(i);
                match debug_value(&e.value, facts) {
                    Ok(t) => {
                        let q = quote(e.key.as_str());
                        out.append(q.as_str());
                        out.append(": ");
                        out.append(t.as_str());
                    },
                    Err(h) => {
                        return Err(h);
                    },
                }
                i += 1;
            }
            out.append("})");
            Ok(out)
        },
    }
}

/// The form in which a template shows `v`.
pub fn display_value(v: &Value, facts: &NumericFacts) -> (r: Result<String, Halt>)
    ensures
        text_result(r) == display_text(v@, facts@),
{
    match v {
        Value::String(s) => Ok(s.clone()),
        Value::Int(i) => Ok(from_chars(&int_to_decimal(*i))),
        Value::Float(f) => facts.display(*f),
        Value::Bool(b) => Ok(String::from_str(bool_word(*b))),
        _ => debug_value(v, facts),
    }
}

} // verus!
