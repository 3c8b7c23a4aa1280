//! The language of conditions: one comparison of two operands, or several
//! conditions joined by `AND` or by `OR`.

use crate::dict::lookup;
use crate::dict::Dict;
use crate::numerics::converted;
use crate::numerics::parsed;
use crate::numerics::Halt;
use crate::numerics::HaltModel;
use crate::numerics::NumericFact;
use crate::numerics::NumericFacts;
use crate::numerics::QueryModel;
use crate::text::contains;
use crate::text::equal;
use crate::text::find;
use crate::text::first_occurrence;
use crate::text::first_occurrence_is_least;
use crate::text::from_chars;
use crate::text::int_literal;
use crate::text::parse_int;
use crate::text::slice;
use crate::text::to_chars;
use crate::text::trim;
use crate::text::trimmed;
use crate::text::trimmed_is_no_longer;
use crate::text::trimming_keeps_occurrences;
use crate::value::equal_values;
use crate::value::get_value;
use crate::value::Fields;
use crate::value::Value;
use crate::value::ValueModel;
use vstd::prelude::*;

verus! {

/// The comparisons of the language, in the order in which a condition is
/// searched for them.
#[derive(Clone, Copy, Debug, PartialEq, Eq, Structural)]
pub enum Comparison {
    Equal,
    NotEqual,
    AtLeast,
    AtMost,
    Greater,
    Less,
}

impl Comparison {
    /// How the comparison is written.
    pub open spec fn sign(self) -> Seq<char> {
        match self {
            Comparison::Equal => seq!['=', '='],
            Comparison::NotEqual => seq!['!', '='],
            Comparison::AtLeast => seq!['>', '='],
            Comparison::AtMost => seq!['<', '='],
            Comparison::Greater => seq!['>'],
            Comparison::Less => seq!['<'],
        }
    }

    /// How the comparison is written.
    pub fn sign_chars(self) -> (r: Vec<char>)
        ensures
            r@ == self.sign(),
    {
        let r = match self {
            Comparison::Equal => vec!['=', '='],
            Comparison::NotEqual => vec!['!', '='],
            Comparison::AtLeast => vec!['>', '='],
            Comparison::AtMost => vec!['<', '='],
            Comparison::Greater => vec!['>'],
            Comparison::Less => vec!['<'],
        };
        assert(r@ =~= self.sign());
        r
    }
}

/// The word that joins conditions which all have to hold.
pub open spec fn and_word() -> Seq<char> {
    seq![' ', 'A', 'N', 'D', ' ']
}

/// The word that joins conditions of which one has to hold.
pub open spec fn or_word() -> Seq<char> {
    seq![' ', 'O', 'R', ' ']
}

/// The comparison that a condition makes: the first, in the order `==`, `!=`,
/// `>=`, `<=`, `>`, `<`, whose sign stands anywhere in the condition. Where
/// in the condition the signs stand plays no part.
pub open spec fn leading_comparison(cond: Seq<char>) -> Option<Comparison> {
    if contains(cond, Comparison::Equal.sign()) {
        Some(Comparison::Equal)
    } else if contains(cond, Comparison::NotEqual.sign()) {
        Some(Comparison::NotEqual)
    } else if contains(cond, Comparison::AtLeast.sign()) {
        Some(Comparison::AtLeast)
    } else if contains(cond, Comparison::AtMost.sign()) {
        Some(Comparison::AtMost)
    } else if contains(cond, Comparison::Greater.sign()) {
        Some(Comparison::Greater)
    } else if contains(cond, Comparison::Less.sign()) {
        Some(Comparison::Less)
    } else {
        None
    }
}

/// `s` without the quotes around it, if it stands between two single or two
/// double quotes: one pair is taken off.
pub open spec fn unquoted(s: Seq<char>) -> Seq<char> {
    if s.len() >= 2 && s[0] == s.last() && (s[0] == '\'' || s[0] == '"') {
        s.subrange(1, s.len() - 1)
    } else {
        s
    }
}

/// The value of an operand. The operand is trimmed and unquoted. If it is
/// the name of an output, it stands for that output; else, if it is the name
/// of an input, for that input. Else it is a literal: an integer if it
/// denotes one, else a floating point number if the facts say that it denotes
/// one, else a boolean if it is `true` or `false`, else the string that it
/// is.
pub open spec fn operand(
    text: Seq<char>,
    inputs: Fields,
    outputs: Fields,
    known: Seq<NumericFact>,
) -> Result<ValueModel, HaltModel> {
    let s = unquoted(trimmed(text));
    match lookup(outputs, s) {
        Some(v) => Ok(v),
        None => match lookup(inputs, s) {
            Some(v) => Ok(v),
            None => match int_literal(s) {
                Some(i) => Ok(ValueModel::Int(i)),
                None => match parsed(known, s) {
                    None => Err(HaltModel::Pending(QueryModel::Parse(s))),
                    Some(Some(f)) => Ok(ValueModel::Float(f)),
                    Some(None) => if s == "true"@ {
                        Ok(ValueModel::Bool(true))
                    } else if s == "false"@ {
                        Ok(ValueModel::Bool(false))
                    } else {
                        Ok(ValueModel::String(s))
                    },
                },
            },
        },
    }
}

/// Whether `l` is greater than `r`. Two integers compare as integers, two
/// floating point numbers as IEEE-754 has it; of an integer and a floating
/// point number, the integer is converted first. Values of other kinds are
/// never greater than one another.
pub open spec fn greater(l: ValueModel, r: ValueModel, known: Seq<NumericFact>) -> Result<
    bool,
    HaltModel,
> {
    match (l, r) {
        (ValueModel::Int(a), ValueModel::Int(b)) => Ok(a > b),
        (ValueModel::Float(a), ValueModel::Float(b)) => Ok(b.below(a)),
        (ValueModel::Int(a), ValueModel::Float(b)) => match converted(known, a) {
            Some(fa) => Ok(b.below(fa)),
            None => Err(HaltModel::Pending(QueryModel::FromInt(a))),
        },
        (ValueModel::Float(a), ValueModel::Int(b)) => match converted(known, b) {
            Some(fb) => Ok(fb.below(a)),
            None => Err(HaltModel::Pending(QueryModel::FromInt(b))),
        },
        _ => Ok(false),
    }
}

/// Whether `l` is less than `r`: as `greater`, the other way round.
pub open spec fn less(l: ValueModel, r: ValueModel, known: Seq<NumericFact>) -> Result<
    bool,
    HaltModel,
> {
    match (l, r) {
        (ValueModel::Int(a), ValueModel::Int(b)) => Ok(a < b),
        (ValueModel::Float(a), ValueModel::Float(b)) => Ok(a.below(b)),
        (ValueModel::Int(a), ValueModel::Float(b)) => match converted(known, a) {
            Some(fa) => Ok(fa.below(b)),
            None => Err(HaltModel::Pending(QueryModel::FromInt(a))),
        },
        (ValueModel::Float(a), ValueModel::Int(b)) => match converted(known, b) {
            Some(fb) => Ok(a.below(fb)),
            None => Err(HaltModel::Pending(QueryModel::FromInt(b))),
        },
        _ => Ok(false),
    }
}

/// `r`, or true where `also` holds.
pub open spec fn or_also(r: Result<bool, HaltModel>, also: bool) -> Result<bool, HaltModel> {
    match r {
        Ok(b) => Ok(b || also),
        Err(h) => Err(h),
    }
}

/// What a comparison says of two values. `==` and `!=` go by structural
/// equality; `>=` is `>` or `==`, and `<=` is `<` or `==`.
pub open spec fn compare(
    c: Comparison,
    l: ValueModel,
    r: ValueModel,
    known: Seq<NumericFact>,
) -> Result<bool, HaltModel> {
    match c {
        Comparison::Equal => Ok(equal_values(l, r)),
        Comparison::NotEqual => Ok(!equal_values(l, r)),
        Comparison::AtLeast => or_also(greater(l, r, known), equal_values(l, r)),
        Comparison::AtMost => or_also(less(l, r, known), equal_values(l, r)),
        Comparison::Greater => greater(l, r, known),
        Comparison::Less => less(l, r, known),
    }
}

/// What the comparison `c` says of the condition `cond`, split at the first
/// place where the sign of `c` stands: of the operand before the sign and the
/// operand after it.
pub open spec fn comparison_holds(
    c: Comparison,
    cond: Seq<char>,
    inputs: Fields,
    outputs: Fields,
    known: Seq<NumericFact>,
) -> Result<bool, HaltModel> {
    let i = first_occurrence(cond, c.sign())->0;
    match operand(cond.subrange(0, i), inputs, outputs, known) {
        Err(h) => Err(h),
        Ok(l) => match operand(
            cond.subrange(i + c.sign().len(), cond.len() as int),
            inputs,
            outputs,
            known,
        ) {
            Err(h) => Err(h),
            Ok(r) => compare(c, l, r, known),
        },
    }
}

/// Whether a condition holds. The condition is trimmed. If the sign of a
/// comparison stands in it, it is that comparison. Else, if ` AND ` stands in
/// it, it holds if each of the parts between the ` AND `s holds; else, if
/// ` OR ` stands in it, it holds if one of the parts between the ` OR `s
/// holds. The parts are taken from the left, and the first that decides ends
/// the evaluation. A condition of no such form holds.
pub open spec fn holds(
    cond: Seq<char>,
    inputs: Fields,
    outputs: Fields,
    known: Seq<NumericFact>,
) -> Result<bool, HaltModel>
    decreases cond.len(), 0nat,
{
    let c = trimmed(cond);
    match leading_comparison(c) {
        Some(op) => comparison_holds(op, c, inputs, outputs, known),
        None => {
            proof {
                trimmed_is_no_longer(cond);
                first_occurrence_is_least(c, and_word());
                first_occurrence_is_least(c, or_word());
            }
            match first_occurrence(c, and_word()) {
                Some(i) => match holds(c.subrange(0, i), inputs, outputs, known) {
                    Err(h) => Err(h),
                    Ok(false) => Ok(false),
                    Ok(true) => all_hold(
                        c.subrange(i + and_word().len(), c.len() as int),
                        inputs,
                        outputs,
                        known,
                    ),
                },
                None => match first_occurrence(c, or_word()) {
                    Some(i) => match holds(c.subrange(0, i), inputs, outputs, known) {
                        Err(h) => Err(h),
                        Ok(true) => Ok(true),
                        Ok(false) => one_holds(
                            c.subrange(i + or_word().len(), c.len() as int),
                            inputs,
                            outputs,
                            known,
                        ),
                    },
                    None => Ok(true),
                },
            }
        },
    }
}

/// Whether each of the parts of `rest` between ` AND `s holds.
pub open spec fn all_hold(
    rest: Seq<char>,
    inputs: Fields,
    outputs: Fields,
    known: Seq<NumericFact>,
) -> Result<bool, HaltModel>
    decreases rest.len(), 1nat,
{
    proof {
        first_occurrence_is_least(rest, and_word());
    }
    match first_occurrence(rest, and_word()) {
        None => holds(rest, inputs, outputs, known),
        Some(i) => match holds(rest.subrange(0, i), inputs, outputs, known) {
            Err(h) => Err(h),
            Ok(false) => Ok(false),
            Ok(true) => all_hold(
                rest.subrange(i + and_word().len(), rest.len() as int),
                inputs,
                outputs,
                known,
            ),
        },
    }
}

/// Whether one of the parts of `rest` between ` OR `s holds.
pub open spec fn one_holds(
    rest: Seq<char>,
    inputs: Fields,
    outputs: Fields,
    known: Seq<NumericFact>,
) -> Result<bool, HaltModel>
    decreases rest.len(), 1nat,
{
    proof {
        first_occurrence_is_least(rest, or_word());
    }
    match first_occurrence(rest, or_word()) {
        None => holds(rest, inputs, outputs, known),
        Some(i) => match holds(rest.subrange(0, i), inputs, outputs, known) {
            Err(h) => Err(h),
            Ok(true) => Ok(true),
            Ok(false) => one_holds(
                rest.subrange(i + or_word().len(), rest.len() as int),
                inputs,
                outputs,
                known,
            ),
        },
    }
}

/// Evaluating a condition never fails: it gives a truth value, or it is
/// pending.
pub proof fn condition_never_fails(
    cond: Seq<char>,
    inputs: Fields,
    outputs: Fields,
    known: Seq<NumericFact>,
)
    ensures
        !(holds(cond, inputs, outputs, known) matches Err(HaltModel::Failed(_))),
        !(all_hold(cond, inputs, outputs, known) matches Err(HaltModel::Failed(_))),
        !(one_holds(cond, inputs, outputs, known) matches Err(HaltModel::Failed(_))),
    decreases cond.len(),
{
    let c = trimmed(cond);
    trimmed_is_no_longer(cond);
    first_occurrence_is_least(c, and_word());
    first_occurrence_is_least(c, or_word());
    first_occurrence_is_least(cond, and_word());
    first_occurrence_is_least(cond, or_word());
    if leading_comparison(c) is None {
        match first_occurrence(c, and_word()) {
            Some(i) => {
                condition_never_fails(c.subrange(0, i), inputs, outputs, known);
                condition_never_fails(
                    c.subrange(i + and_word().len(), c.len() as int),
                    inputs,
                    outputs,
                    known,
                );
            },
            None => match first_occurrence(c, or_word()) {
                Some(i) => {
                    condition_never_fails(c.subrange(0, i), inputs, outputs, known);
                    condition_never_fails(
                        c.subrange(i + or_word().len(), c.len() as int),
                        inputs,
                        outputs,
                        known,
                    );
                },
                None => {},
            },
        }
    }
    match first_occurrence(cond, and_word()) {
        Some(i) => {
            condition_never_fails(cond.subrange(0, i), inputs, outputs, known);
            condition_never_fails(
                cond.subrange(i + and_word().len(), cond.len() as int),
                inputs,
                outputs,
                known,
            );
        },
        None => {},
    }
    match first_occurrence(cond, or_word()) {
        Some(i) => {
            condition_never_fails(cond.subrange(0, i), inputs, outputs, known);
            condition_never_fails(
                cond.subrange(i + or_word().len(), cond.len() as int),
                inputs,
                outputs,
                known,
            );
        },
        None => {},
    }
}

/// A condition in which `==` stands is an `==` comparison, whatever other
/// signs stand in it and wherever they stand: it is split at the first `==`.
pub proof fn equality_comes_first(
    cond: Seq<char>,
    inputs: Fields,
    outputs: Fields,
    known: Seq<NumericFact>,
)
    requires
        contains(cond, Comparison::Equal.sign()),
    ensures
        leading_comparison(trimmed(cond)) == Some(Comparison::Equal),
        holds(cond, inputs, outputs, known) == comparison_holds(
            Comparison::Equal,
            trimmed(cond),
            inputs,
            outputs,
            known,
        ),
{
    trimming_keeps_occurrences(cond, Comparison::Equal.sign());
}

/// The view of a result that holds a value.
pub open spec fn value_result(r: Result<Value, Halt>) -> Result<ValueModel, HaltModel> {
    match r {
        Ok(v) => Ok(v@),
        Err(h) => Err(h@),
    }
}

/// The view of a result that holds a truth value.
pub open spec fn bool_result(r: Result<bool, Halt>) -> Result<bool, HaltModel> {
    match r {
        Ok(b) => Ok(b),
        Err(h) => Err(h@),
    }
}

fn strip_quotes(s: Vec<char>) -> (r: Vec<char>)
    ensures
        r@ == unquoted(s@),
{
    let n = s.len();
    if n >= 2 && s[0] == s[n - 1] && (s[0] == '\'' || s[0] == '"') {
        slice(&s, 1, n - 1)
    } else {
        s
    }
}

/// The value of the operand `text`.
pub fn resolve_operand(
    text: &Vec<char>,
    inputs: &Dict<Value>,
    outputs: &Dict<Value>,
    facts: &NumericFacts,
) -> (r: Result<Value, Halt>)
    ensures
        value_result(r) == operand(text@, inputs@, outputs@, facts@),
{
    let s = strip_quotes(trim(text));
    let name = from_chars(&s);
    if let Some(v) = get_value(outputs, name.as_str()) {
        return Ok(v.clone());
    }
    if let Some(v) = get_value(inputs, name.as_str()) {
        return Ok(v.clone());
    }
    if let Some(i) = parse_int(&s) {
        return Ok(Value::Int(i));
    }
    match facts.parse(name.as_str()) {
        Err(h) => Err(h),
        Ok(Some(f)) => Ok(Value::Float(f)),
        Ok(None) => {
            if equal(&s, &to_chars("true")) {
                Ok(Value::Bool(true))
            } else if equal(&s, &to_chars("false")) {
                Ok(Value::Bool(false))
            } else {
                Ok(Value::String(name))
            }
        },
    }
}

/// Whether `l` is greater than `r`.
pub fn eval_gt(l: &Value, r: &Value, facts: &NumericFacts) -> (res: Result<bool, Halt>)
    ensures
        bool_result(res) == greater(l@, r@, facts@),
{
    match l {
        Value::Int(a) => match r {
            Value::Int(b) => Ok(*a > *b),
            Value::Float(b) => match facts.from_int(*a) {
                Ok(fa) => Ok(b.lt(&fa)),
                Err(h) => Err(h),
            },
            _ => Ok(false),
        },
        Value::Float(a) => match r {
            Value::Float(b) => Ok(b.lt(a)),
            Value::Int(b) => match facts.from_int(*b) {
                Ok(fb) => Ok(fb.lt(a)),
                Err(h) => Err(h),
            },
            _ => Ok(false),
        },
        _ => Ok(false),
    }
}

/// Whether `l` is less than `r`.
pub fn eval_lt(l: &Value, r: &Value, facts: &NumericFacts) -> (res: Result<bool, Halt>)
    ensures
        bool_result(res) == less(l@, r@, facts@),
{
    match l {
        Value::Int(a) => match r {
            Value::Int(b) => Ok(*a < *b),
            Value::Float(b) => match facts.from_int(*a) {
                Ok(fa) => Ok(fa.lt(b)),
                Err(h) => Err(h),
            },
            _ => Ok(false),
        },
        Value::Float(a) => match r {
            Value::Float(b) => Ok(a.lt(b)),
            Value::Int(b) => match facts.from_int(*b) {
                Ok(fb) => Ok(a.lt(&fb)),
                Err(h) => Err(h),
            },
            _ => Ok(false),
        },
        _ => Ok(false),
    }
}

/// What the comparison `c` says of `l` and `r`.
pub fn eval_comparison(c: Comparison, l: &Value, r: &Value, facts: &NumericFacts) -> (res: Result<
    bool,
    Halt,
>)
    ensures
        bool_result(res) == compare(c, l@, r@, facts@),
{
    match c {
        Comparison::Equal => Ok(l.equals(r)),
        Comparison::NotEqual => Ok(!l.equals(r)),
        Comparison::AtLeast => match eval_gt(l, r, facts) {
            Ok(g) => Ok(g || l.equals(r)),
            Err(h) => Err(h),
        },
        Comparison::AtMost => match eval_lt(l, r, facts) {
            Ok(g) => Ok(g || l.equals(r)),
            Err(h) => Err(h),
        },
        Comparison::Greater => eval_gt(l, r, facts),
        Comparison::Less => eval_lt(l, r, facts),
    }
}

/// The comparison that `cond` makes, and the first place where its sign
/// stands.
pub fn find_comparison(cond: &Vec<char>) -> (r: Option<(Comparison, usize)>)
    ensures
        match r {
            Some((c, i)) => leading_comparison(cond@) == Some(c) && first_occurrence(
                cond@,
                c.sign(),
            ) == Some(i as int),
            None => leading_comparison(cond@) is None,
        },
{
    if let Some(i) = find(cond, &Comparison::Equal.sign_chars()) {
        return Some((Comparison::Equal, i));
    }
    if let Some(i) = find(cond, &Comparison::NotEqual.sign_chars()) {
        return Some((Comparison::NotEqual, i));
    }
    if let Some(i) = find(cond, &Comparison::AtLeast.sign_chars()) {
        return Some((Comparison::AtLeast, i));
    }
    if let Some(i) = find(cond, &Comparison::AtMost.sign_chars()) {
        return Some((Comparison::AtMost, i));
    }
    if let Some(i) = find(cond, &Comparison::Greater.sign_chars()) {
        return Some((Comparison::Greater, i));
    }
    if let Some(i) = find(cond, &Comparison::Less.sign_chars()) {
        return Some((Comparison::Less, i));
    }
    None
}

fn and_chars() -> (r: Vec<char>)
    ensures
        r@ == and_word(),
{
    let r = vec![' ', 'A', 'N', 'D', ' '];
    assert(r@ =~= and_word());
    r
}

fn or_chars() -> (r: Vec<char>)
    ensures
        r@ == or_word(),
{
    let r = vec![' ', 'O', 'R', ' '];
    assert(r@ =~= or_word());
    r
}

/// Whether the condition `cond` holds.
pub fn evaluate_chars(
    cond: &Vec<char>,
    inputs: &Dict<Value>,
    outputs: &Dict<Value>,
    facts: &NumericFacts,
) -> (r: Result<bool, Halt>)
    ensures
        bool_result(r) == holds(cond@, inputs@, outputs@, facts@),
    decreases cond@.len(), 0nat,
{
    let c = trim(cond);
    let n = c.len();
    proof {
        trimmed_is_no_longer(cond@);
    }
    if let Some((op, i)) = find_comparison(&c) {
        proof {
            first_occurrence_is_least(c@, op.sign());
        }
        let left = slice(&c, 0, i);
        let right = slice(&c, i + op.sign_chars().len(), n);
        let l = match resolve_operand(&left, inputs, outputs, facts) {
            Ok(l) => l,
            Err(h) => {
                return Err(h);
            },
        };
        let r = match resolve_operand(&right, inputs, outputs, facts) {
            Ok(r) => r,
            Err(h) => {
                return Err(h);
            },
        };
        return eval_comparison(op, &l, &r, facts);
    }
    proof {
        first_occurrence_is_least(c@, and_word());
        first_occurrence_is_least(c@, or_word());
    }
    if let Some(i) = find(&c, &and_chars()) {
        let first = slice(&c, 0, i);
        return match evaluate_chars(&first, inputs, outputs, facts) {
            Err(h) => Err(h),
            Ok(false) => Ok(false),
            Ok(true) => {
                let rest = slice(&c, i + 5, n);
                evaluate_parts(&rest, true, inputs, outputs, facts)
            },
        };
    }
    if let Some(i) = find(&c, &or_chars()) {
        let first = slice(&c, 0, i);
        return match evaluate_chars(&first, inputs, outputs, facts) {
            Err(h) => Err(h),
            Ok(true) => Ok(true),
            Ok(false) => {
                let rest = slice(&c, i + 4, n);
                evaluate_parts(&rest, false, inputs, outputs, facts)
            },
        };
    }
    Ok(true)
}

/// Whether each of the parts of `rest` holds, where `all` is set, or one of
/// them, where it is not.
fn evaluate_parts(
    rest: &Vec<char>,
    all: bool,
    inputs: &Dict<Value>,
    outputs: &Dict<Value>,
    facts: &NumericFacts,
) -> (r: Result<bool, Halt>)
    ensures
        bool_result(r) == if all {
            all_hold(rest@, inputs@, outputs@, facts@)
        } else {
            one_holds(rest@, inputs@, outputs@, facts@)
        },
    decreases rest@.len(), 1nat,
{
    let word = if all {
        and_chars()
    } else {
        or_chars()
    };
    let n = rest.len();
    proof {
        first_occurrence_is_least(rest@, word@);
    }
    match find(rest, &word) {
        None => evaluate_chars(rest, inputs, outputs, facts),
        Some(i) => {
            let first = slice(rest, 0, i);
            match evaluate_chars(&first, inputs, outputs, facts) {
                Err(h) => Err(h),
                Ok(b) => {
                    if b != all {
                        Ok(b)
                    } else {
                        let tail = slice(rest, i + word.len(), n);
                        evaluate_parts(&tail, all, inputs, outputs, facts)
                    }
                },
            }
        },
    }
}

/// Whether the condition holds, for the given inputs and outputs.
pub fn evaluate_condition(
    condition: &str,
    inputs: &Dict<Value>,
    outputs: &Dict<Value>,
    facts: &NumericFacts,
) -> (r: Result<bool, Halt>)
    ensures
        bool_result(r) == holds(condition@, inputs@, outputs@, facts@),
{
    let chars = to_chars(condition);
    evaluate_chars(&chars, inputs, outputs, facts)
}

} // verus!
