//! The language of arithmetic expressions: one operand, or two operands
//! around one operator.

use crate::condition::value_result;
use crate::context::bound_value;
use crate::context::ContextModel;
use crate::context::ExecutionContext;
use crate::error::ErrorModel;
use crate::error::VesperError;
use crate::number::saturated;
use crate::number::Float;
use crate::numerics::applied;
use crate::numerics::converted;
use crate::numerics::parsed;
use crate::numerics::Halt;
use crate::numerics::HaltModel;
use crate::numerics::NumericFact;
use crate::numerics::NumericFacts;
use crate::numerics::Operator;
use crate::numerics::QueryModel;
use crate::render::debug_text;
use crate::render::debug_value;
use crate::text::contains;
use crate::text::find;
use crate::text::first_occurrence;
use crate::text::first_occurrence_is_least;
use crate::text::from_chars;
use crate::text::slice;
use crate::text::to_chars;
use crate::text::trim;
use crate::text::trimmed;
use crate::value::Value;
use crate::value::ValueModel;
use vstd::prelude::*;

verus! {

impl Operator {
    /// How the operator is written: its sign between two spaces.
    pub open spec fn sign(self) -> Seq<char> {
        match self {
            Operator::Add => seq![' ', '+', ' '],
            Operator::Subtract => seq![' ', '-', ' '],
            Operator::Multiply => seq![' ', '*', ' '],
            Operator::Divide => seq![' ', '/', ' '],
        }
    }

    /// How the operator is written.
    pub fn sign_chars(self) -> (r: Vec<char>)
        ensures
            r@ == self.sign(),
    {
        let r = match self {
            Operator::Add => vec![' ', '+', ' '],
            Operator::Subtract => vec![' ', '-', ' '],
            Operator::Multiply => vec![' ', '*', ' '],
            Operator::Divide => vec![' ', '/', ' '],
        };
        assert(r@ =~= self.sign());
        r
    }
}

/// The operator of an expression: the first, in the order `+`, `-`, `*`, `/`,
/// that stands anywhere in the expression between two spaces.
pub open spec fn leading_operator(e: Seq<char>) -> Option<Operator> {
    if contains(e, Operator::Add.sign()) {
        Some(Operator::Add)
    } else if contains(e, Operator::Subtract.sign()) {
        Some(Operator::Subtract)
    } else if contains(e, Operator::Multiply.sign()) {
        Some(Operator::Multiply)
    } else if contains(e, Operator::Divide.sign()) {
        Some(Operator::Divide)
    } else {
        None
    }
}

/// The floating point number that a value stands for in arithmetic: itself,
/// or what the integer converts to. A value of another kind is a type error,
/// which shows the value in its representation for debugging.
pub open spec fn number_of(v: ValueModel, known: Seq<NumericFact>) -> Result<Float, HaltModel> {
    match v {
        ValueModel::Float(f) => Ok(f),
        ValueModel::Int(i) => match converted(known, i) {
            Some(f) => Ok(f),
            None => Err(HaltModel::Pending(QueryModel::FromInt(i))),
        },
        _ => match debug_text(v, known) {
            Ok(t) => Err(HaltModel::Failed(ErrorModel::TypeError { expected: "number"@, actual: t })),
            Err(h) => Err(h),
        },
    }
}

/// The number that an operand stands for: the number that it denotes as a
/// literal, if the facts say that it denotes one; else the number of the
/// variable or input of that name. An operand that is neither is a type
/// error, which names the operand.
pub open spec fn numeric_operand(
    token: Seq<char>,
    env: ContextModel,
    known: Seq<NumericFact>,
) -> Result<Float, HaltModel> {
    match parsed(known, token) {
        None => Err(HaltModel::Pending(QueryModel::Parse(token))),
        Some(Some(f)) => Ok(f),
        Some(None) => match bound_value(env, token) {
            Some(v) => number_of(v, known),
            None => Err(
                HaltModel::Failed(ErrorModel::TypeError { expected: "number"@, actual: token }),
            ),
        },
    }
}

/// The value that a number becomes as a result: the integer that it equals,
/// brought into the range of 64-bit integers, if it is finite and has no
/// fractional part; else the number itself.
pub open spec fn number_value(f: Float) -> ValueModel {
    match f.whole() {
        Some(v) => ValueModel::Int(saturated(v)),
        None => ValueModel::Float(f),
    }
}

/// What the operator makes of two numbers, as the facts have it. A division
/// by zero, of either sign, is an error.
pub open spec fn operation(op: Operator, l: Float, r: Float, known: Seq<NumericFact>) -> Result<
    ValueModel,
    HaltModel,
> {
    if op == Operator::Divide && r.zero() {
        Err(HaltModel::Failed(ErrorModel::ExecutionError("Division by zero"@)))
    } else {
        match applied(known, op, l, r) {
            Some(x) => Ok(number_value(x)),
            None => Err(HaltModel::Pending(QueryModel::Apply(op, l, r))),
        }
    }
}

/// The value of an expression. The expression is trimmed. If an operator
/// stands in it, it is split at the first place where that operator stands,
/// and the operator is applied to the two operands, each trimmed: the left
/// one is resolved first. Else the whole expression is one operand.
pub open spec fn expression_value(
    expr: Seq<char>,
    env: ContextModel,
    known: Seq<NumericFact>,
) -> Result<ValueModel, HaltModel> {
    let e = trimmed(expr);
    match leading_operator(e) {
        Some(op) => {
            let i = first_occurrence(e, op.sign())->0;
            match numeric_operand(trimmed(e.subrange(0, i)), env, known) {
                Err(h) => Err(h),
                Ok(l) => match numeric_operand(
                    trimmed(e.subrange(i + op.sign().len(), e.len() as int)),
                    env,
                    known,
                ) {
                    Err(h) => Err(h),
                    Ok(r) => operation(op, l, r, known),
                },
            }
        },
        None => match numeric_operand(e, env, known) {
            Ok(v) => Ok(number_value(v)),
            Err(h) => Err(h),
        },
    }
}

/// The view of a result that holds a number.
pub open spec fn number_result(r: Result<Float, Halt>) -> Result<Float, HaltModel> {
    match r {
        Ok(f) => Ok(f),
        Err(h) => Err(h@),
    }
}

impl Value {
    /// The floating point number of a numeric value: of a floating point
    /// number itself, of an integer what it converts to. None for a value of
    /// another kind.
    pub fn as_float(&self, facts: &NumericFacts) -> (r: Result<Option<Float>, Halt>)
        ensures
            match self@ {
                ValueModel::Float(f) => r == Ok::<Option<Float>, Halt>(Some(f)),
                ValueModel::Int(i) => match r {
                    Ok(f) => f is Some && converted(facts@, i) == f,
                    Err(h) => converted(facts@, i) is None && h@ == HaltModel::Pending(
                        QueryModel::FromInt(i),
                    ),
                },
                _ => r == Ok::<Option<Float>, Halt>(None),
            },
    {
        match self {
            Value::Float(f) => Ok(Some(*f)),
            Value::Int(i) => match facts.from_int(*i) {
                Ok(f) => Ok(Some(f)),
                Err(h) => Err(h),
            },
            _ => Ok(None),
        }
    }
}

/// The value that the number `f` becomes as a result.
pub fn number_to_value(f: Float) -> (r: Value)
    ensures
        r@ == number_value(f),
{
    match f.to_int() {
        Some(i) => Value::Int(i),
        None => Value::Float(f),
    }
}

fn number_of_value(v: &Value, facts: &NumericFacts) -> (r: Result<Float, Halt>)
    ensures
        number_result(r) == number_of(v@, facts@),
{
    match v {
        Value::Float(f) => Ok(*f),
        Value::Int(i) => facts.from_int(*i),
        _ => match debug_value(v, facts) {
            Ok(t) => Err(
                Halt::Failed(
                    VesperError::TypeError { expected: String::from_str("number"), actual: t },
                ),
            ),
            Err(h) => Err(h),
        },
    }
}

/// The number that the operand `token` stands for.
pub fn get_numeric_value(token: &Vec<char>, ctx: &ExecutionContext, facts: &NumericFacts) -> (r:
    Result<Float, Halt>)
    ensures
        number_result(r) == numeric_operand(token@, ctx@, facts@),
{
    let name = from_chars(token);
    match facts.parse(name.as_str()) {
        Err(h) => Err(h),
        Ok(Some(f)) => Ok(f),
        Ok(None) => match ctx.get(name.as_str()) {
            Some(v) => number_of_value(v, facts),
            None => Err(
                Halt::Failed(
                    VesperError::TypeError { expected: String::from_str("number"), actual: name },
                ),
            ),
        },
    }
}

/// The operator of `e`, and the first place where it stands.
pub fn find_operator(e: &Vec<char>) -> (r: Option<(Operator, usize)>)
    ensures
        match r {
            Some((op, i)) => leading_operator(e@) == Some(op) && first_occurrence(e@, op.sign())
                == Some(i as int),
            None => leading_operator(e@) is None,
        },
{
    if let Some(i) = find(e, &Operator::Add.sign_chars()) {
        return Some((Operator::Add, i));
    }
    if let Some(i) = find(e, &Operator::Subtract.sign_chars()) {
        return Some((Operator::Subtract, i));
    }
    if let Some(i) = find(e, &Operator::Multiply.sign_chars()) {
        return Some((Operator::Multiply, i));
    }
    if let Some(i) = find(e, &Operator::Divide.sign_chars()) {
        return Some((Operator::Divide, i));
    }
    None
}

/// What `op` makes of `l` and `r`.
pub fn apply_operator(op: Operator, l: Float, r: Float, facts: &NumericFacts) -> (res: Result<
    Value,
    Halt,
>)
    ensures
        value_result(res) == operation(op, l, r, facts@),
{
    if op == Operator::Divide && r.is_zero() {
        return Err(
            Halt::Failed(VesperError::ExecutionError(String::from_str("Division by zero"))),
        );
    }
    match facts.apply(op, l, r) {
        Ok(x) => Ok(number_to_value(x)),
        Err(h) => Err(h),
    }
}

/// The value of the expression.
pub fn evaluate_simple_expression(
    expression: &str,
    ctx: &ExecutionContext,
    facts: &NumericFacts,
) -> (r: Result<Value, Halt>)
    ensures
        value_result(r) == expression_value(expression@, ctx@, facts@),
{
    let e = trim(&to_chars(expression));
    match find_operator(&e) {
        Some((op, i)) => {
            proof {
                first_occurrence_is_least(e@, op.sign());
            }
            let left = trim(&slice(&e, 0, i));
            let n = e.len();
            let right = trim(&slice(&e, i + op.sign_chars().len(), n));
            let l = match get_numeric_value(&left, ctx, facts) {
                Ok(l) => l,
                Err(h) => {
                    return Err(h);
                },
            };
            let r = match get_numeric_value(&right, ctx, facts) {
                Ok(r) => r,
                Err(h) => {
                    return Err(h);
                },
            };
            apply_operator(op, l, r, facts)
        },
        None => match get_numeric_value(&e, ctx, facts) {
            Ok(v) => Ok(number_to_value(v)),
            Err(h) => Err(h),
        },
    }
}

} // verus!
