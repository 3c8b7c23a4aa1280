//! The flow of a node: its steps, run one after the other.

use crate::context::bound_value;
use crate::context::with_variable;
use crate::context::ContextModel;
use crate::context::ExecutionContext;
use crate::dict::lookup;
use crate::dict::with_binding;
use crate::dict::Dict;
use crate::error::error_views;
use crate::error::ErrorModel;
use crate::error::VesperError;
use crate::expression::evaluate_simple_expression;
use crate::expression::expression_value;
use crate::numerics::Halt;
use crate::numerics::HaltModel;
use crate::numerics::NumericFact;
use crate::numerics::NumericFacts;
use crate::template::fill_template;
use crate::template::filled;
use crate::text::from_chars;
use crate::text::same_text;
use crate::text::slice;
use crate::text::to_chars;
use crate::types::FlowStep;
use crate::types::Literal;
use crate::types::LiteralPair;
use crate::types::VesperNode;
use crate::value::array_view;
use crate::value::bind_value;
use crate::value::items;
use crate::value::object_view;
use crate::value::Fields;
use crate::value::Value;
use crate::value::ValueModel;
use vstd::prelude::*;

verus! {

/// Whether a text refers to a variable: a name, not empty, in braces, and
/// nothing else.
pub open spec fn is_reference(s: Seq<char>) -> bool {
    s.len() > 2 && s[0] == '{' && s.last() == '}'
}

/// The value that a literal stands for. A string that refers to a variable or
/// an input stands for its value, if there is one of that name; any other
/// string for itself. Numbers, booleans and null stand for themselves, a
/// sequence for the array of what its items stand for, a mapping for the
/// object of what the values under its string keys stand for. A tagged
/// literal stands for null.
pub open spec fn resolved(lit: Literal, env: ContextModel) -> ValueModel
    decreases lit,
{
    match lit {
        Literal::Null => ValueModel::Null,
        Literal::Bool(b) => ValueModel::Bool(b),
        Literal::Int(i) => ValueModel::Int(i),
        Literal::Float(f) => ValueModel::Float(f),
        Literal::String(s) => if is_reference(s@) {
            match bound_value(env, s@.subrange(1, s@.len() - 1)) {
                Some(v) => v,
                None => ValueModel::String(s@),
            }
        } else {
            ValueModel::String(s@)
        },
        Literal::Sequence(a) => ValueModel::Array(resolved_items(a@, env)),
        Literal::Mapping(pairs) => ValueModel::Object(resolved_pairs(pairs@, env)),
        Literal::Tagged => ValueModel::Null,
    }
}

/// What the items of a sequence stand for, one by one.
pub open spec fn resolved_items(a: Seq<Literal>, env: ContextModel) -> Seq<ValueModel>
    decreases a,
{
    if a.len() == 0 {
        Seq::empty()
    } else {
        resolved_items(a.drop_last(), env).push(resolved(a.last(), env))
    }
}

/// The fields that the pairs of a mapping make: each pair whose key is a
/// string binds that name, a later pair in place of an earlier one of the
/// same name; a pair with another key is passed over.
pub open spec fn resolved_pairs(pairs: Seq<LiteralPair>, env: ContextModel) -> Fields
    decreases pairs,
{
    if pairs.len() == 0 {
        Seq::empty()
    } else {
        match pairs.last().key {
            Literal::String(k) => with_binding(
                resolved_pairs(pairs.drop_last(), env),
                k@,
                resolved(pairs.last().value, env),
            ),
            _ => resolved_pairs(pairs.drop_last(), env),
        }
    }
}

/// The fields of the object that a step returns: each declared field bound
/// to what its literal stands for.
pub open spec fn returned_fields(fields: Seq<(Seq<char>, Literal)>, env: ContextModel) -> Fields
    decreases fields.len(),
{
    if fields.len() == 0 {
        Seq::empty()
    } else {
        with_binding(
            returned_fields(fields.drop_last(), env),
            fields.last().0,
            resolved(fields.last().1, env),
        )
    }
}

/// The text of the field `name`, or `default` where the field is missing or
/// is no string.
pub open spec fn text_field(
    fields: Seq<(Seq<char>, Literal)>,
    name: Seq<char>,
    default: Seq<char>,
) -> Seq<char> {
    match lookup(fields, name) {
        Some(Literal::String(s)) => s@,
        _ => default,
    }
}

/// The error that a step returns: its code, `unknown` if it has none, then a
/// colon and its message, `An error occurred` if it has none.
pub open spec fn returned_error(fields: Seq<(Seq<char>, Literal)>) -> ErrorModel {
    ErrorModel::ExecutionError(
        text_field(fields, "error_code"@, "unknown"@) + ": "@ + text_field(
            fields,
            "message"@,
            "An error occurred"@,
        ),
    )
}

/// The environment after a step has bound its result to its output variable,
/// if it has one.
pub open spec fn with_output(env: ContextModel, output: Option<String>, value: ValueModel) -> ContextModel {
    match output {
        Some(name) => with_variable(env, name@, value),
        None => env,
    }
}

/// The failure of a step that lacks the field that its operation needs.
pub open spec fn missing_field(message: Seq<char>) -> HaltModel {
    HaltModel::Failed(ErrorModel::ExecutionError(message))
}

/// What a step produces, and the environment that it leaves.
///
/// A validation produces true. A template step fills its template from the
/// inputs and produces the text; an arithmetic step produces the value of its
/// expression; both bind what they produce to the step's output variable. A
/// return step produces the object of its success fields; without success
/// fields it fails with its error, if it has one, and produces null if it has
/// none. A conditional step produces null. A step of any other operation
/// produces null too, and the flow goes on.
pub open spec fn step_outcome(step: FlowStep, env: ContextModel, known: Seq<NumericFact>) -> Result<
    (ValueModel, ContextModel),
    HaltModel,
> {
    if step.operation@ == "validation"@ {
        Ok((ValueModel::Bool(true), env))
    } else if step.operation@ == "string_template"@ {
        match step.template {
            None => Err(missing_field("Template step missing template"@)),
            Some(t) => match filled(t@, env.inputs, 0, known) {
                Err(h) => Err(h),
                Ok(text) => Ok(
                    (ValueModel::String(text), with_output(env, step.output, ValueModel::String(text))),
                ),
            },
        }
    } else if step.operation@ == "arithmetic"@ {
        match step.expression {
            None => Err(missing_field("Arithmetic step missing expression"@)),
            Some(e) => match expression_value(e@, env, known) {
                Err(h) => Err(h),
                Ok(v) => Ok((v, with_output(env, step.output, v))),
            },
        }
    } else if step.operation@ == "return"@ {
        match step.return_success {
            Some(fields) => Ok((ValueModel::Object(returned_fields(fields.bindings(), env)), env)),
            None => match step.return_error {
                Some(fields) => Err(HaltModel::Failed(returned_error(fields.bindings()))),
                None => Ok((ValueModel::Null, env)),
            },
        }
    } else if step.operation@ == "conditional"@ {
        match step.condition {
            None => Err(missing_field("Conditional step missing condition"@)),
            Some(_) => Ok((ValueModel::Null, env)),
        }
    } else {
        Ok((ValueModel::Null, env))
    }
}

/// Whether an operation is one that a step can carry out.
pub open spec fn known_operation(operation: Seq<char>) -> bool {
    operation == "validation"@ || operation == "string_template"@ || operation == "arithmetic"@
        || operation == "return"@ || operation == "conditional"@
}

/// `found`, followed by the unknown operations of the steps from position
/// `from` on, up to the first step that ends the flow.
pub open spec fn unknown_from(steps: Seq<FlowStep>, from: int, found: Seq<ErrorModel>) -> Seq<
    ErrorModel,
>
    decreases steps.len() - from,
{
    if from < 0 || from >= steps.len() {
        found
    } else {
        let next = if known_operation(steps[from].operation@) {
            found
        } else {
            found.push(ErrorModel::UnknownOperation(steps[from].operation@))
        };
        if ends_flow(steps[from]) {
            next
        } else {
            unknown_from(steps, from + 1, next)
        }
    }
}

/// A step of an unknown operation produces null, whatever else it holds, and
/// leaves the environment as it is.
pub proof fn unknown_operation_gives_null(
    step: FlowStep,
    env: ContextModel,
    known: Seq<NumericFact>,
)
    requires
        !known_operation(step.operation@),
    ensures
        step_outcome(step, env, known) == Ok::<(ValueModel, ContextModel), HaltModel>(
            (ValueModel::Null, env),
        ),
{
}

/// Whether the flow ends after this step: it does where the step carries
/// success fields or an error to return, whatever its operation.
pub open spec fn ends_flow(step: FlowStep) -> bool {
    step.return_success is Some || step.return_error is Some
}

/// What the steps from position `from` on produce, in their order: the value
/// of the last step that ran, or `last` if none ran, and the environment that
/// the steps leave. The first step that fails ends the flow with its failure.
pub open spec fn flow_outcome(
    steps: Seq<FlowStep>,
    from: int,
    last: ValueModel,
    env: ContextModel,
    known: Seq<NumericFact>,
) -> Result<(ValueModel, ContextModel), HaltModel>
    decreases steps.len() - from,
{
    if from < 0 || from >= steps.len() {
        Ok((last, env))
    } else {
        match step_outcome(steps[from], env, known) {
            Err(h) => Err(h),
            Ok((v, after)) => if ends_flow(steps[from]) {
                Ok((v, after))
            } else {
                flow_outcome(steps, from + 1, v, after, known)
            },
        }
    }
}

/// The environment that the steps from position `from` on leave, whether the
/// flow ends well or not: what the steps before the first failing step have
/// bound. A step that fails binds nothing, and no step runs after it.
pub open spec fn flow_environment(
    steps: Seq<FlowStep>,
    from: int,
    env: ContextModel,
    known: Seq<NumericFact>,
) -> ContextModel
    decreases steps.len() - from,
{
    if from < 0 || from >= steps.len() {
        env
    } else {
        match step_outcome(steps[from], env, known) {
            Err(_) => env,
            Ok((_, after)) => if ends_flow(steps[from]) {
                after
            } else {
                flow_environment(steps, from + 1, after, known)
            },
        }
    }
}

/// No step changes the inputs: the environment that a flow leaves holds the
/// inputs that it started with.
pub proof fn flow_keeps_inputs(
    steps: Seq<FlowStep>,
    from: int,
    last: ValueModel,
    env: ContextModel,
    known: Seq<NumericFact>,
)
    ensures
        match flow_outcome(steps, from, last, env, known) {
            Ok((_, after)) => after.inputs == env.inputs,
            Err(_) => true,
        },
    decreases steps.len() - from,
{
    if 0 <= from < steps.len() {
        match step_outcome(steps[from], env, known) {
            Err(_) => {},
            Ok((v, after)) => {
                if !ends_flow(steps[from]) {
                    flow_keeps_inputs(steps, from + 1, v, after, known);
                }
            },
        }
    }
}

/// The value that the literal stands for.
#[verifier::loop_isolation(false)]
pub fn resolve_value(lit: &Literal, ctx: &ExecutionContext) -> (r: Value)
    ensures
        r@ == resolved(*lit, ctx@),
    decreases lit,
{
    match lit {
        Literal::Null => Value::Null,
        Literal::Bool(b) => Value::Bool(*b),
        Literal::Int(i) => Value::Int(*i),
        Literal::Float(f) => Value::Float(*f),
        Literal::String(s) => {
            let chars = to_chars(s.as_str());
            let n = chars.len();
            if n > 2 && chars[0] == '{' && chars[n - 1] == '}' {
                let name = from_chars(&slice(&chars, 1, n - 1));
                if let Some(v) = ctx.get(name.as_str()) {
                    return v.clone();
                }
            }
            Value::String(s.clone())
        },
        Literal::Sequence(a) => {
            let mut out: Vec<Value> = Vec::new();
            let mut i: usize = 0;
            assert(items(out@) =~= resolved_items(a@.take(0), ctx@));
            while i < a.len()
                invariant
                    i <= a.len(),
                    items(out@) == resolved_items(a@.take(i as int), ctx@),
                decreases a.len() - i,
            {
                let v = resolve_value(&a[i], ctx);
                let ghost before = out@;
                out.push(v);
                proof {
                    assert(a@.take(i + 1).drop_last() =~= a@.take(i as int));
                    assert(items(out@) =~= items(before).push(v@));
                }
                i += 1;
            }
            proof {
                assert(a@.take(a@.len() as int) =~= a@);
                array_view(out);
            }
            Value::Array(out)
        },
        Literal::Mapping(pairs) => {
            let mut out: Dict<Value> = Dict::new();
            let mut i: usize = 0;
            assert(out@ =~= resolved_pairs(pairs@.take(0), ctx@));
            while i < pairs.len()
                invariant
                    i <= pairs.len(),
                    out@ == resolved_pairs(pairs@.take(i as int), ctx@),
                decreases pairs.len() - i,
            {
                proof {
                    assert(pairs@.take(i + 1).drop_last() =~= pairs@.take(i as int));
                }
                match &pairs[i].key {
                    Literal::String(k) => {
                        let v = resolve_value(&pairs[i].value, ctx);
                        bind_value(&mut out, k.clone(), v);
                    },
                    _ => {},
                }
                i += 1;
            }
            proof {
                assert(pairs@.take(pairs@.len() as int) =~= pairs@);
                object_view(out);
            }
            Value::Object(out)
        },
        Literal::Tagged => Value::Null,
    }
}

/// The object of the fields that a step returns.
pub fn build_object(fields: &Dict<Literal>, ctx: &ExecutionContext) -> (r: Value)
    ensures
        r@ == ValueModel::Object(returned_fields(fields.bindings(), ctx@)),
{
    let mut out: Dict<Value> = Dict::new();
    let n = fields.len();
    let mut i: usize = 0;
    assert(out@ =~= returned_fields(fields.bindings().take(0), ctx@));
    while i < n
        invariant
            i <= n,
            n == fields.bindings().len(),
            out@ == returned_fields(fields.bindings().take(i as int), ctx@),
        decreases n - i,
    {
        let e = fields.entry(i);
        proof {
            assert(fields.bindings().take(i + 1).drop_last() =~= fields.bindings().take(i as int));
        }
        let v = resolve_value(&e.value, ctx);
        bind_value(&mut out, e.key.clone(), v);
        i += 1;
    }
    proof {
        assert(fields.bindings().take(n as int) =~= fields.bindings());
        object_view(out);
    }
    Value::Object(out)
}

fn field_text(fields: &Dict<Literal>, name: &str, default: &str) -> (r: String)
    ensures
        r@ == text_field(fields.bindings(), name@, default@),
{
    match fields.get(name) {
        Some(Literal::String(s)) => s.clone(),
        _ => String::from_str(default),
    }
}

/// The error that a step returns.
pub fn build_error(fields: &Dict<Literal>) -> (r: VesperError)
    ensures
        r@ == returned_error(fields.bindings()),
{
    let mut text = field_text(fields, "error_code", "unknown");
    text.append(": ");
    let message = field_text(fields, "message", "An error occurred");
    text.append(message.as_str());
    VesperError::ExecutionError(text)
}

/// The view of the result of a step, with the environment that it leaves.
pub open spec fn step_result(r: Result<Value, Halt>, env: ContextModel) -> Result<
    (ValueModel, ContextModel),
    HaltModel,
> {
    match r {
        Ok(v) => Ok((v@, env)),
        Err(h) => Err(h@),
    }
}

fn bind_output(ctx: &mut ExecutionContext, output: &Option<String>, value: &Value)
    ensures
        final(ctx)@ == with_output(old(ctx)@, *output, value@),
{
    if let Some(name) = output {
        ctx.set(name.clone(), value.clone());
    }
}

fn missing(message: &str) -> (r: Halt)
    ensures
        r@ == missing_field(message@),
{
    Halt::Failed(VesperError::ExecutionError(String::from_str(message)))
}

/// Runs a validation step.
pub fn execute_validation(step: &FlowStep, ctx: &ExecutionContext) -> (r: Value)
    ensures
        r@ == ValueModel::Bool(true),
{
    Value::Bool(true)
}

/// Runs a template step.
pub fn execute_template(step: &FlowStep, ctx: &mut ExecutionContext, facts: &NumericFacts) -> (r:
    Result<Value, Halt>)
    ensures
        match step.template {
            None => r is Err && r->Err_0@ == missing_field("Template step missing template"@)
                && final(ctx)@ == old(ctx)@,
            Some(t) => match filled(t@, old(ctx)@.inputs, 0, facts@) {
                Err(h) => r is Err && r->Err_0@ == h && final(ctx)@ == old(ctx)@,
                Ok(text) => r is Ok && r->Ok_0@ == ValueModel::String(text) && final(ctx)@
                    == with_output(old(ctx)@, step.output, ValueModel::String(text)),
            },
        },
{
    match &step.template {
        None => Err(missing("Template step missing template")),
        Some(t) => match fill_template(t.as_str(), ctx.inputs(), facts) {
            Err(h) => Err(h),
            Ok(text) => {
                let v = Value::String(text);
                bind_output(ctx, &step.output, &v);
                Ok(v)
            },
        },
    }
}

/// Runs an arithmetic step.
pub fn execute_arithmetic(step: &FlowStep, ctx: &mut ExecutionContext, facts: &NumericFacts) -> (r:
    Result<Value, Halt>)
    ensures
        match step.expression {
            None => r is Err && r->Err_0@ == missing_field("Arithmetic step missing expression"@)
                && final(ctx)@ == old(ctx)@,
            Some(e) => match expression_value(e@, old(ctx)@, facts@) {
                Err(h) => r is Err && r->Err_0@ == h && final(ctx)@ == old(ctx)@,
                Ok(v) => r is Ok && r->Ok_0@ == v && final(ctx)@ == with_output(
                    old(ctx)@,
                    step.output,
                    v,
                ),
            },
        },
{
    match &step.expression {
        None => Err(missing("Arithmetic step missing expression")),
        Some(e) => match evaluate_simple_expression(e.as_str(), ctx, facts) {
            Err(h) => Err(h),
            Ok(v) => {
                bind_output(ctx, &step.output, &v);
                Ok(v)
            },
        },
    }
}

/// Runs a return step.
pub fn execute_return(step: &FlowStep, ctx: &ExecutionContext) -> (r: Result<Value, Halt>)
    ensures
        match step.return_success {
            Some(fields) => r is Ok && r->Ok_0@ == ValueModel::Object(
                returned_fields(fields.bindings(), ctx@),
            ),
            None => match step.return_error {
                Some(fields) => r is Err && r->Err_0@ == HaltModel::Failed(
                    returned_error(fields.bindings()),
                ),
                None => r is Ok && r->Ok_0@ == ValueModel::Null,
            },
        },
{
    if let Some(fields) = &step.return_success {
        return Ok(build_object(fields, ctx));
    }
    if let Some(fields) = &step.return_error {
        return Err(Halt::Failed(build_error(fields)));
    }
    Ok(Value::Null)
}

/// Runs a conditional step: the condition decides nothing yet.
pub fn execute_conditional(step: &FlowStep, ctx: &ExecutionContext) -> (r: Result<Value, Halt>)
    ensures
        match step.condition {
            None => r is Err && r->Err_0@ == missing_field("Conditional step missing condition"@),
            Some(_) => r is Ok && r->Ok_0@ == ValueModel::Null,
        },
{
    match &step.condition {
        None => Err(missing("Conditional step missing condition")),
        Some(_) => Ok(Value::Null),
    }
}

/// Whether `operation` is one that a step can carry out.
pub fn is_known_operation(operation: &str) -> (r: bool)
    ensures
        r == known_operation(operation@),
{
    same_text(operation, "validation") || same_text(operation, "string_template") || same_text(
        operation,
        "arithmetic",
    ) || same_text(operation, "return") || same_text(operation, "conditional")
}

/// The unknown operations of the steps that a flow reaches if none of its
/// steps fails, each as an error for the caller to report; the flow itself
/// passes over them.
pub fn unknown_operations(flow: &Vec<FlowStep>) -> (r: Vec<VesperError>)
    ensures
        error_views(r@) == unknown_from(flow@, 0, Seq::empty()),
{
    let mut found: Vec<VesperError> = Vec::new();
    let mut i: usize = 0;
    assert(error_views(found@) =~= Seq::<ErrorModel>::empty());
    while i < flow.len()
        invariant
            i <= flow.len(),
            unknown_from(flow@, 0, Seq::empty()) == unknown_from(
                flow@,
                i as int,
                error_views(found@),
            ),
        decreases flow.len() - i,
    {
        let step = &flow[i];
        if !is_known_operation(step.operation.as_str()) {
            let ghost before = found@;
            found.push(VesperError::UnknownOperation(step.operation.clone()));
            assert(error_views(found@) =~= error_views(before).push(
                ErrorModel::UnknownOperation(step.operation@),
            ));
        }
        if step.return_success.is_some() || step.return_error.is_some() {
            return found;
        }
        i += 1;
    }
    found
}

/// Runs one step in the environment `ctx`. A step that fails leaves the
/// environment as it was.
pub fn execute_step(step: &FlowStep, ctx: &mut ExecutionContext, facts: &NumericFacts) -> (r:
    Result<Value, Halt>)
    ensures
        step_result(r, final(ctx)@) == step_outcome(*step, old(ctx)@, facts@),
        r is Err ==> final(ctx)@ == old(ctx)@,
{
    let operation = step.operation.as_str();
    if same_text(operation, "validation") {
        Ok(execute_validation(step, ctx))
    } else if same_text(operation, "string_template") {
        execute_template(step, ctx, facts)
    } else if same_text(operation, "arithmetic") {
        execute_arithmetic(step, ctx, facts)
    } else if same_text(operation, "return") {
        execute_return(step, ctx)
    } else if same_text(operation, "conditional") {
        execute_conditional(step, ctx)
    } else {
        Ok(Value::Null)
    }
}

/// Runs the flow of `node` in the environment `ctx`. Where the flow fails,
/// the environment holds what the steps before the failing one have bound.
pub fn execute_flow(node: &VesperNode, ctx: &mut ExecutionContext, facts: &NumericFacts) -> (r:
    Result<Value, Halt>)
    ensures
        step_result(r, final(ctx)@) == flow_outcome(
            node.flow@,
            0,
            ValueModel::Null,
            old(ctx)@,
            facts@,
        ),
        final(ctx)@ == flow_environment(node.flow@, 0, old(ctx)@, facts@),
{
    let mut last = Value::Null;
    let mut i: usize = 0;
    while i < node.flow.len()
        invariant
            i <= node.flow.len(),
            flow_outcome(node.flow@, 0, ValueModel::Null, old(ctx)@, facts@) == flow_outcome(
                node.flow@,
                i as int,
                last@,
                ctx@,
                facts@,
            ),
            flow_environment(node.flow@, 0, old(ctx)@, facts@) == flow_environment(
                node.flow@,
                i as int,
                ctx@,
                facts@,
            ),
        decreases node.flow.len() - i,
    {
        let step = &node.flow[i];
        match execute_step(step, ctx, facts) {
            Err(h) => {
                return Err(h);
            },
            Ok(v) => {
                last = v;
            },
        }
        if step.return_success.is_some() || step.return_error.is_some() {
            return Ok(last);
        }
        i += 1;
    }
    Ok(last)
}

} // verus!
