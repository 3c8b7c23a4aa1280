//! The values that flow through a node: a closed sum of null, booleans,
//! integers, floating point numbers, strings, arrays and objects.

use crate::dict::binding_of_mapped;
use crate::dict::bound;
use crate::dict::with_binding;
use crate::dict::lookup;
use crate::dict::mapped;
use crate::dict::position_missing;
use crate::dict::position_of_mapped;
use crate::dict::Dict;
use crate::dict::Entry;
use crate::number::Float;
use vstd::prelude::*;
use vstd::std_specs::cmp::PartialEqSpecImpl;
use vstd::std_specs::convert::FromSpecImpl;

verus! {

/// A runtime value.
#[derive(Debug)]
pub enum Value {
    Null,
    Bool(bool),
    Int(i64),
    Float(Float),
    String(String),
    Array(Vec<Value>),
    Object(Dict<Value>),
}

/// What a value is, mathematically: its view.
pub enum ValueModel {
    Null,
    Bool(bool),
    Int(i64),
    Float(Float),
    String(Seq<char>),
    Array(Seq<ValueModel>),
    Object(Seq<(Seq<char>, ValueModel)>),
}

/// The view of a dictionary of values: its names, each with the view of its
/// value, in the dictionary's order.
pub type Fields = Seq<(Seq<char>, ValueModel)>;

impl View for Value {
    type V = ValueModel;

    open spec fn view(&self) -> ValueModel
        decreases self,
    {
        match self {
            Value::Null => ValueModel::Null,
            Value::Bool(b) => ValueModel::Bool(*b),
            Value::Int(i) => ValueModel::Int(*i),
            Value::Float(f) => ValueModel::Float(*f),
            Value::String(s) => ValueModel::String(s@),
            Value::Array(a) => ValueModel::Array(item_views(a@)),
            Value::Object(o) => {
                proof {
                    o.entries_decrease();
                }
                ValueModel::Object(entry_views(o.entries()))
            },
        }
    }
}

/// The views of a sequence of values, one by one.
pub open spec fn item_views(values: Seq<Value>) -> Seq<ValueModel>
    decreases values,
{
    if values.len() == 0 {
        Seq::empty()
    } else {
        item_views(values.drop_last()).push(values.last()@)
    }
}

/// The views of a sequence of entries: each name with the view of its value.
pub open spec fn entry_views(entries: Seq<Entry<Value>>) -> Fields
    decreases entries,
{
    if entries.len() == 0 {
        Seq::empty()
    } else {
        entry_views(entries.drop_last()).push((entries.last().key@, entries.last().value@))
    }
}

impl View for Dict<Value> {
    type V = Fields;

    open spec fn view(&self) -> Fields {
        mapped(self.bindings(), |v: Value| v@)
    }
}

/// The views of a sequence of values.
pub open spec fn items(values: Seq<Value>) -> Seq<ValueModel> {
    Seq::new(values.len(), |i: int| values[i]@)
}

proof fn item_views_are_items(values: Seq<Value>)
    ensures
        item_views(values) == items(values),
    decreases values.len(),
{
    if values.len() > 0 {
        item_views_are_items(values.drop_last());
        assert(item_views(values) == item_views(values.drop_last()).push(values.last()@));
        assert(item_views(values.drop_last()).len() == values.len() - 1);
        assert(item_views(values).len() == values.len());
    } else {
        assert(item_views(values).len() == 0);
    }
    assert(items(values).len() == values.len());
    assert(item_views(values) =~= items(values));
}

proof fn entry_views_are_mapped(entries: Seq<Entry<Value>>)
    ensures
        entry_views(entries) == Seq::new(
            entries.len(),
            |i: int| (entries[i].key@, entries[i].value@),
        ),
    decreases entries.len(),
{
    if entries.len() > 0 {
        entry_views_are_mapped(entries.drop_last());
        assert(entry_views(entries) == entry_views(entries.drop_last()).push(
            (entries.last().key@, entries.last().value@),
        ));
        assert(entry_views(entries.drop_last()).len() == entries.len() - 1);
    } else {
        assert(entry_views(entries).len() == 0);
    }
    assert(entry_views(entries) =~= Seq::new(
        entries.len(),
        |i: int| (entries[i].key@, entries[i].value@),
    ));
}

/// The view of an array is made of the views of its items.
pub proof fn array_view(a: Vec<Value>)
    ensures
        Value::Array(a)@ == ValueModel::Array(items(a@)),
{
    item_views_are_items(a@);
}

/// The view of an object is the view of its dictionary.
pub proof fn object_view(o: Dict<Value>)
    ensures
        Value::Object(o)@ == ValueModel::Object(o@),
{
    entry_views_are_mapped(o.entries());
    assert(entry_views(o.entries()) =~= o@);
}

/// Whether a value counts as true: null does not, a boolean is itself, a
/// number does unless it is zero, and a string, an array or an object does
/// unless it is empty.
pub open spec fn truthy(v: ValueModel) -> bool {
    match v {
        ValueModel::Null => false,
        ValueModel::Bool(b) => b,
        ValueModel::Int(i) => i != 0,
        ValueModel::Float(f) => !f.zero(),
        ValueModel::String(s) => s.len() != 0,
        ValueModel::Array(a) => a.len() != 0,
        ValueModel::Object(o) => o.len() != 0,
    }
}

/// Structural equality of values. Two values of different kinds are never
/// equal, so an integer never equals a floating point number. Floating point
/// numbers are equal as IEEE-754 has it. Arrays are equal item by item;
/// objects are equal when they bind as many names and each name of the one is
/// bound to an equal value in the other, whatever the order.
pub open spec fn equal_values(a: ValueModel, b: ValueModel) -> bool
    decreases a,
{
    match a {
        ValueModel::Null => b is Null,
        ValueModel::Bool(x) => b == ValueModel::Bool(x),
        ValueModel::Int(x) => b == ValueModel::Int(x),
        ValueModel::Float(x) => b is Float && x.same(b->Float_0),
        ValueModel::String(x) => b == ValueModel::String(x),
        ValueModel::Array(x) => b is Array && x.len() == b->Array_0.len() && forall|i: int|
            0 <= i < x.len() ==> equal_values(#[trigger] x[i], b->Array_0[i]),
        ValueModel::Object(x) => b is Object && x.len() == b->Object_0.len() && forall|i: int|
            0 <= i < x.len() ==> match lookup(b->Object_0, (#[trigger] x[i]).0) {
                Some(w) => equal_values(x[i].1, w),
                None => false,
            },
    }
}

impl Value {
    /// The string value with the text `s`.
    pub fn from_str(s: &str) -> (r: Value)
        ensures
            r@ == ValueModel::String(s@),
    {
        Value::String(String::from_str(s))
    }

    /// Whether the value counts as true.
    pub fn is_truthy(&self) -> (r: bool)
        ensures
            r == truthy(self@),
    {
        match self {
            Value::Null => false,
            Value::Bool(b) => *b,
            Value::Int(i) => *i != 0,
            Value::Float(f) => !f.is_zero(),
            Value::String(s) => s.as_str().unicode_len() != 0,
            Value::Array(a) => {
                proof {
                    array_view(*a);
                }
                a.len() != 0
            },
            Value::Object(o) => {
                proof {
                    object_view(*o);
                }
                !o.is_empty()
            },
        }
    }

    /// The text of a string value; none for a value of another kind.
    pub fn as_str(&self) -> (r: Option<&str>)
        ensures
            match r {
                Some(s) => self@ == ValueModel::String(s@),
                None => !(self@ is String),
            },
    {
        match self {
            Value::String(s) => Some(s.as_str()),
            _ => None,
        }
    }

    /// The number of an integer value; none for a value of another kind.
    pub fn as_int(&self) -> (r: Option<i64>)
        ensures
            match r {
                Some(i) => self@ == ValueModel::Int(i),
                None => !(self@ is Int),
            },
    {
        match self {
            Value::Int(i) => Some(*i),
            _ => None,
        }
    }

    /// Structural equality.
    #[verifier::loop_isolation(false)]
    pub fn equals(&self, other: &Value) -> (r: bool)
        ensures
            r == equal_values(self@, other@),
        decreases self,
    {
        match self {
            Value::Null => matches!(other, Value::Null),
            Value::Bool(x) => match other {
                Value::Bool(y) => *x == *y,
                _ => false,
            },
            Value::Int(x) => match other {
                Value::Int(y) => *x == *y,
                _ => false,
            },
            Value::Float(x) => match other {
                Value::Float(y) => *x == *y,
                _ => false,
            },
            Value::String(x) => match other {
                Value::String(y) => *x == *y,
                _ => false,
            },
            Value::Array(x) => match other {
                Value::Array(y) => {
                    proof {
                        array_view(*x);
                        array_view(*y);
                    }
                    if x.len() != y.len() {
                        return false;
                    }
                    let mut i: usize = 0;
                    while i < x.len()
                        invariant
                            i <= x.len(),
                            forall|j: int| 0 <= j < i ==> equal_values(x@[j]@, y@[j]@),
                        decreases x.len() - i,
                    {
                        if !x[i].equals(&y[i]) {
                            assert(!equal_values(items(x@)[i as int], items(y@)[i as int]));
                            return false;
                        }
                        i += 1;
                    }
                    true
                },
                _ => false,
            },
            Value::Object(x) => match other {
                Value::Object(y) => {
                    proof {
                        object_view(*x);
                        object_view(*y);
                        x.entries_decrease();
                    }
                    let n = x.len();
                    if n != y.len() {
                        return false;
                    }
                    let mut i: usize = 0;
                    while i < n
                        invariant
                            i <= n,
                            forall|j: int|
                                0 <= j < i ==> match lookup(y@, (#[trigger] x@[j]).0) {
                                    Some(w) => equal_values(x@[j].1, w),
                                    None => false,
                                },
                        decreases n - i,
                    {
                        let e = x.entry(i);
                        proof {
                            position_of_mapped(y.bindings(), |v: Value| v@, e.key@);
                        }
                        match y.get(e.key.as_str()) {
                            Some(w) => {
                                if !e.value.equals(w) {
                                    assert(lookup(y@, x@[i as int].0) == Some(w@));
                                    return false;
                                }
                            },
                            None => {
                                assert(lookup(y@, x@[i as int].0) is None);
                                return false;
                            },
                        }
                        i += 1;
                    }
                    true
                },
                _ => false,
            },
        }
    }
}

impl Clone for Value {
    /// A copy of the value, with the same view.
    #[verifier::loop_isolation(false)]
    fn clone(&self) -> (r: Value)
        ensures
            r@ == self@,
        decreases self,
    {
        match self {
            Value::Null => Value::Null,
            Value::Bool(b) => Value::Bool(*b),
            Value::Int(i) => Value::Int(*i),
            Value::Float(f) => Value::Float(*f),
            Value::String(s) => Value::String(s.clone()),
            Value::Array(a) => {
                let mut copy: Vec<Value> = Vec::new();
                let mut i: usize = 0;
                while i < a.len()
                    invariant
                        i <= a.len(),
                        copy@.len() == i,
                        forall|j: int| 0 <= j < i ==> copy@[j]@ == a@[j]@,
                    decreases a.len() - i,
                {
                    copy.push(a[i].clone());
                    i += 1;
                }
                proof {
                    array_view(*a);
                    array_view(copy);
                    assert(items(copy@) =~= items(a@));
                }
                Value::Array(copy)
            },
            Value::Object(o) => {
                let copy = copy_fields(o);
                proof {
                    object_view(*o);
                    object_view(copy);
                }
                Value::Object(copy)
            },
        }
    }
}

/// What `key` is bound to in a dictionary of values.
pub fn get_value<'a>(d: &'a Dict<Value>, key: &str) -> (r: Option<&'a Value>)
    ensures
        match r {
            Some(v) => lookup(d@, key@) == Some(v@),
            None => lookup(d@, key@) is None,
        },
{
    proof {
        position_of_mapped(d.bindings(), |v: Value| v@, key@);
    }
    d.get(key)
}

/// Binds `key` to `value` in a dictionary of values.
pub fn bind_value(d: &mut Dict<Value>, key: String, value: Value)
    ensures
        final(d)@ == with_binding(old(d)@, key@, value@),
{
    proof {
        binding_of_mapped(d.bindings(), |v: Value| v@, key@, value);
    }
    d.insert(key, value);
}

/// A copy of a dictionary of values, with the same view.
#[verifier::loop_isolation(false)]
pub fn copy_fields(o: &Dict<Value>) -> (copy: Dict<Value>)
    ensures
        copy@ == o@,
    decreases o,
{
    let mut copy: Dict<Value> = Dict::new();
    let n = o.len();
    let mut i: usize = 0;
    proof {
        o.entries_decrease();
    }
    while i < n
        invariant
            i <= n,
            copy.bindings().len() == i,
            forall|j: int|
                0 <= j < i ==> (#[trigger] copy.bindings()[j]).0 == o.bindings()[j].0
                    && copy.bindings()[j].1@ == o.bindings()[j].1@,
        decreases n - i,
    {
        let e = o.entry(i);
        let ghost before = copy.bindings();
        proof {
            assert forall|j: int| 0 <= j < before.len() implies (#[trigger] before[j]).0
                != e.key@ by {
                assert(o.bindings()[j].0 != o.bindings()[i as int].0);
            }
            position_missing(before, e.key@);
        }
        copy.push_new(e.key.clone(), e.value.clone());
        i += 1;
    }
    assert(copy@ =~= o@);
    copy
}

impl PartialEq for Value {
    /// Structural equality.
    fn eq(&self, other: &Value) -> (r: bool) {
        self.equals(other)
    }
}

impl PartialEqSpecImpl for Value {
    open spec fn obeys_eq_spec() -> bool {
        true
    }

    open spec fn eq_spec(&self, other: &Value) -> bool {
        equal_values(self@, other@)
    }
}

impl From<String> for Value {
    fn from(s: String) -> (r: Value) {
        Value::String(s)
    }
}

impl FromSpecImpl<String> for Value {
    open spec fn obeys_from_spec() -> bool {
        true
    }

    open spec fn from_spec(s: String) -> Value {
        Value::String(s)
    }
}

impl From<i64> for Value {
    fn from(i: i64) -> (r: Value) {
        Value::Int(i)
    }
}

impl FromSpecImpl<i64> for Value {
    open spec fn obeys_from_spec() -> bool {
        true
    }

    open spec fn from_spec(i: i64) -> Value {
        Value::Int(i)
    }
}

impl From<Float> for Value {
    fn from(f: Float) -> (r: Value) {
        Value::Float(f)
    }
}

impl FromSpecImpl<Float> for Value {
    open spec fn obeys_from_spec() -> bool {
        true
    }

    open spec fn from_spec(f: Float) -> Value {
        Value::Float(f)
    }
}

impl From<bool> for Value {
    fn from(b: bool) -> (r: Value) {
        Value::Bool(b)
    }
}

impl FromSpecImpl<bool> for Value {
    open spec fn obeys_from_spec() -> bool {
        true
    }

    open spec fn from_spec(b: bool) -> Value {
        Value::Bool(b)
    }
}

} // verus!
