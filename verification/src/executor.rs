//! The engine: a registry of nodes, and the run of one of them on the inputs
//! of a call.

use crate::context::ContextModel;
use crate::context::ExecutionContext;
use crate::contracts::check;
use crate::contracts::errors_result;
use crate::contracts::failing;
use crate::contracts::violations;
use crate::contracts::ContractKind;
use crate::contracts::ContractValidator;
use crate::dict::bound;
use crate::dict::position_of_mapped;
use crate::dict::Dict;
use crate::error::error_views;
use crate::error::join;
use crate::error::ErrorModel;
use crate::error::VesperError;
use crate::flow::execute_flow;
use crate::flow::flow_keeps_inputs;
use crate::flow::flow_outcome;
use crate::numerics::Halt;
use crate::numerics::HaltModel;
use crate::numerics::NumericFact;
use crate::numerics::NumericFacts;
use crate::types::Contracts;
use crate::types::InputSpec;
use crate::types::VesperNode;
use crate::value::object_view;
use crate::value::Fields;
use crate::value::Value;
use crate::value::ValueModel;
use core::time::Duration;
use std::time::Instant;
use vstd::hash_map::StringHashMap;
use vstd::prelude::*;

verus! {

/// What a run of a node gave.
#[derive(Debug)]
pub struct ExecutionResult {
    /// Whether the run succeeded.
    pub success: bool,
    /// What the flow produced.
    pub data: Option<Value>,
    /// What went wrong.
    pub error: Option<ExecutionError>,
    /// How long the flow took.
    pub duration: Duration,
}

/// The code and the message of a failure.
#[derive(Clone, Debug)]
pub struct ExecutionError {
    pub code: String,
    pub message: String,
}

/// The name of the first required input, from position `from` on, that the
/// call does not supply.
pub open spec fn first_missing(
    declared: Seq<(Seq<char>, InputSpec)>,
    from: int,
    inputs: Fields,
) -> Option<Seq<char>>
    decreases declared.len() - from,
{
    if from < 0 || from >= declared.len() {
        None
    } else if declared[from].1.required && !bound(inputs, declared[from].0) {
        Some(declared[from].0)
    } else {
        first_missing(declared, from + 1, inputs)
    }
}

/// The outcome of checking the pre- or the postconditions of a node; a node
/// without contracts passes.
pub open spec fn gate(
    contracts: Option<Contracts>,
    kind: ContractKind,
    strict: bool,
    inputs: Fields,
    outputs: Fields,
    known: Seq<NumericFact>,
) -> Result<(), HaltModel> {
    match contracts {
        None => Ok(()),
        Some(c) => check(
            if kind == ContractKind::Precondition {
                c.preconditions@
            } else {
                c.postconditions@
            },
            0,
            strict,
            kind,
            inputs,
            outputs,
            known,
        ),
    }
}

/// The outputs that the postconditions speak of: the fields of the object
/// that the flow produced, or, where it produced no object, the variables
/// that its steps have bound.
pub open spec fn outputs_of(produced: ValueModel, env: ContextModel) -> Fields {
    match produced {
        ValueModel::Object(fields) => fields,
        _ => env.variables,
    }
}

/// What a run of `node` on `inputs` gives. A required input that is missing
/// ends the run before anything else happens. Then the preconditions are
/// checked against the inputs, the flow runs, and the postconditions are
/// checked against the inputs and the outputs. The first of these that fails
/// is the outcome; if none fails, what the flow produced is.
pub open spec fn node_outcome(
    node: VesperNode,
    strict: bool,
    inputs: Fields,
    known: Seq<NumericFact>,
) -> Result<ValueModel, HaltModel> {
    match first_missing(node.inputs.bindings(), 0, inputs) {
        Some(name) => Err(HaltModel::Failed(ErrorModel::MissingInput(name))),
        None => match gate(
            node.contracts,
            ContractKind::Precondition,
            strict,
            inputs,
            Seq::empty(),
            known,
        ) {
            Err(h) => Err(h),
            Ok(_) => match flow_outcome(
                node.flow@,
                0,
                ValueModel::Null,
                ContextModel { variables: Seq::empty(), inputs: inputs },
                known,
            ) {
                Err(h) => Err(h),
                Ok((produced, env)) => match gate(
                    node.contracts,
                    ContractKind::Postcondition,
                    strict,
                    inputs,
                    outputs_of(produced, env),
                    known,
                ) {
                    Err(h) => Err(h),
                    Ok(_) => Ok(produced),
                },
            },
        },
    }
}

/// The conditions of a node's contracts that do not hold in a run on
/// `inputs`: the preconditions first, then, if the flow ends well, the
/// postconditions. A run that lacks a required input comes to no condition,
/// and a node without contracts has none.
pub open spec fn node_violations(node: VesperNode, inputs: Fields, known: Seq<NumericFact>) -> Result<
    Seq<ErrorModel>,
    HaltModel,
> {
    match node.contracts {
        None => Ok(Seq::empty()),
        Some(c) => if first_missing(node.inputs.bindings(), 0, inputs) is Some {
            Ok(Seq::empty())
        } else {
            match failing(
                c.preconditions@,
                0,
                ContractKind::Precondition,
                inputs,
                Seq::empty(),
                known,
                Seq::empty(),
            ) {
                Err(h) => Err(h),
                Ok(before) => match flow_outcome(
                    node.flow@,
                    0,
                    ValueModel::Null,
                    ContextModel { variables: Seq::empty(), inputs: inputs },
                    known,
                ) {
                    Err(HaltModel::Pending(q)) => Err(HaltModel::Pending(q)),
                    Err(HaltModel::Failed(_)) => Ok(before),
                    Ok((produced, env)) => failing(
                        c.postconditions@,
                        0,
                        ContractKind::Postcondition,
                        inputs,
                        outputs_of(produced, env),
                        known,
                        before,
                    ),
                },
            }
        },
    }
}

/// What a run of the node registered under `id` gives; an error if there is
/// none.
pub open spec fn outcome_in(
    nodes: Map<Seq<char>, VesperNode>,
    strict: bool,
    id: Seq<char>,
    inputs: Fields,
    known: Seq<NumericFact>,
) -> Result<ValueModel, HaltModel> {
    if nodes.contains_key(id) {
        node_outcome(nodes[id], strict, inputs, known)
    } else {
        Err(HaltModel::Failed(ErrorModel::ExecutionError("Node not found: "@ + id)))
    }
}

/// A node registered under the name of an earlier one takes its place: every
/// run sees the registry as if the earlier one had never been registered.
pub proof fn registration_replaces(
    nodes: Map<Seq<char>, VesperNode>,
    first: VesperNode,
    second: VesperNode,
    strict: bool,
    id: Seq<char>,
    inputs: Fields,
    known: Seq<NumericFact>,
)
    requires
        first.node_id@ == second.node_id@,
    ensures
        nodes.insert(first.node_id@, first).insert(second.node_id@, second) == nodes.insert(
            second.node_id@,
            second,
        ),
        outcome_in(
            nodes.insert(first.node_id@, first).insert(second.node_id@, second),
            strict,
            id,
            inputs,
            known,
        ) == outcome_in(nodes.insert(second.node_id@, second), strict, id, inputs, known),
        id == second.node_id@ ==> outcome_in(
            nodes.insert(first.node_id@, first).insert(second.node_id@, second),
            strict,
            id,
            inputs,
            known,
        ) == node_outcome(second, strict, inputs, known),
{
    assert(nodes.insert(first.node_id@, first).insert(second.node_id@, second) =~= nodes.insert(
        second.node_id@,
        second,
    ));
}

/// A run that lacks a required input fails with the name of the first such
/// input, whatever the contracts, the flow and the facts are: nothing of them
/// is looked at.
pub proof fn missing_input_ends_the_run(
    node: VesperNode,
    strict: bool,
    inputs: Fields,
    known: Seq<NumericFact>,
    at: int,
)
    requires
        0 <= at < node.inputs.bindings().len(),
        node.inputs.bindings()[at].1.required,
        !bound(inputs, node.inputs.bindings()[at].0),
    ensures
        first_missing(node.inputs.bindings(), 0, inputs) is Some,
        node_outcome(node, strict, inputs, known) == Err::<ValueModel, HaltModel>(
            HaltModel::Failed(
                ErrorModel::MissingInput(first_missing(node.inputs.bindings(), 0, inputs)->0),
            ),
        ),
        (forall|j: int|
            0 <= j < node.inputs.bindings().len() && j != at && (
            #[trigger] node.inputs.bindings()[j]).1.required ==> bound(
                inputs,
                node.inputs.bindings()[j].0,
            )) ==> node_outcome(node, strict, inputs, known) == Err::<ValueModel, HaltModel>(
            HaltModel::Failed(ErrorModel::MissingInput(node.inputs.bindings()[at].0)),
        ),
{
    first_missing_finds(node.inputs.bindings(), 0, inputs, at);
}

proof fn first_missing_finds(
    declared: Seq<(Seq<char>, InputSpec)>,
    from: int,
    inputs: Fields,
    at: int,
)
    requires
        0 <= from <= at < declared.len(),
        declared[at].1.required,
        !bound(inputs, declared[at].0),
    ensures
        first_missing(declared, from, inputs) is Some,
        (forall|j: int|
            0 <= j < declared.len() && j != at && (#[trigger] declared[j]).1.required ==> bound(
                inputs,
                declared[j].0,
            )) ==> first_missing(declared, from, inputs) == Some(declared[at].0),
    decreases at - from,
{
    if from < at {
        first_missing_finds(declared, from + 1, inputs, at);
        if declared[from].1.required && !bound(inputs, declared[from].0) {
            assert(!(forall|j: int|
                0 <= j < declared.len() && j != at && (#[trigger] declared[j]).1.required ==> bound(
                    inputs,
                    declared[j].0,
                )));
        }
    }
}

/// Checks that the call supplies every required input of the node.
pub fn validate_inputs(node: &VesperNode, inputs: &Dict<Value>) -> (r: Result<(), VesperError>)
    ensures
        match r {
            Ok(_) => first_missing(node.inputs.bindings(), 0, inputs@) is None,
            Err(e) => first_missing(node.inputs.bindings(), 0, inputs@) is Some && e@
                == ErrorModel::MissingInput(first_missing(node.inputs.bindings(), 0, inputs@)->0),
        },
{
    let n = node.inputs.len();
    let mut i: usize = 0;
    while i < n
        invariant
            i <= n,
            n == node.inputs.bindings().len(),
            first_missing(node.inputs.bindings(), 0, inputs@) == first_missing(
                node.inputs.bindings(),
                i as int,
                inputs@,
            ),
        decreases n - i,
    {
        let e = node.inputs.entry(i);
        proof {
            position_of_mapped(inputs.bindings(), |v: Value| v@, e.key@);
        }
        if e.value.required && !inputs.contains_key(e.key.as_str()) {
            return Err(VesperError::MissingInput(e.key.clone()));
        }
        i += 1;
    }
    Ok(())
}

/// The engine.
pub struct SemanticExecutor {
    nodes: StringHashMap<VesperNode>,
    validator: ContractValidator,
}

impl SemanticExecutor {
    #[verifier::type_invariant]
    spec fn well_formed(self) -> bool {
        forall|id: Seq<char>| #[trigger]
            self.nodes@.contains_key(id) ==> self.nodes@[id].node_id@ == id
    }

    /// The registry: the nodes by their names.
    pub closed spec fn nodes(&self) -> Map<Seq<char>, VesperNode> {
        self.nodes@
    }

    /// Whether the engine checks contracts strictly.
    pub closed spec fn is_strict(&self) -> bool {
        self.validator.is_strict()
    }

    /// What a run of the node registered under `id` gives.
    pub open spec fn outcome(&self, id: Seq<char>, inputs: Fields, known: Seq<NumericFact>) -> Result<
        ValueModel,
        HaltModel,
    > {
        outcome_in(self.nodes(), self.is_strict(), id, inputs, known)
    }

    /// An engine without nodes, which checks contracts strictly.
    pub fn new() -> (r: Self)
        ensures
            r.nodes() == Map::<Seq<char>, VesperNode>::empty(),
            r.is_strict(),
    {
        SemanticExecutor { nodes: StringHashMap::new(), validator: ContractValidator::new() }
    }

    /// An engine without nodes, which checks contracts as `validator` does.
    pub fn with_validator(validator: ContractValidator) -> (r: Self)
        ensures
            r.nodes() == Map::<Seq<char>, VesperNode>::empty(),
            r.is_strict() == validator.is_strict(),
    {
        SemanticExecutor { nodes: StringHashMap::new(), validator }
    }

    /// Whether the engine checks contracts strictly.
    pub fn strict(&self) -> (r: bool)
        ensures
            r == self.is_strict(),
    {
        self.validator.strict()
    }

    /// The conditions of the contracts of the node under `node_id` that do
    /// not hold in a run on `inputs`, each as the error that a strict check
    /// would raise for it. A permissive engine passes over them; this is for
    /// the caller to report them. A node that is not registered has none.
    pub fn violations(&self, node_id: &str, inputs: Dict<Value>, facts: &NumericFacts) -> (r:
        Result<Vec<VesperError>, Halt>)
        ensures
            errors_result(r) == if self.nodes().contains_key(node_id@) {
                node_violations(self.nodes()[node_id@], inputs@, facts@)
            } else {
                Ok::<Seq<ErrorModel>, HaltModel>(Seq::empty())
            },
    {
        let none: Vec<VesperError> = Vec::new();
        assert(error_views(none@) =~= Seq::<ErrorModel>::empty());
        let node = match self.nodes.get(node_id) {
            Some(node) => node,
            None => {
                return Ok(none);
            },
        };
        let contracts = match &node.contracts {
            Some(contracts) => contracts,
            None => {
                return Ok(none);
            },
        };
        if validate_inputs(node, &inputs).is_err() {
            return Ok(none);
        }
        let empty: Dict<Value> = Dict::new();
        assert(empty@ =~= Seq::empty());
        let before = match violations(
            &contracts.preconditions,
            ContractKind::Precondition,
            &inputs,
            &empty,
            facts,
            none,
        ) {
            Ok(before) => before,
            Err(h) => {
                return Err(h);
            },
        };
        proof {
            flow_keeps_inputs(
                node.flow@,
                0,
                ValueModel::Null,
                ContextModel { variables: Seq::empty(), inputs: inputs@ },
                facts@,
            );
        }
        let mut ctx = ExecutionContext::new(inputs);
        let produced = match execute_flow(node, &mut ctx, facts) {
            Ok(v) => v,
            Err(Halt::Pending(q)) => {
                return Err(Halt::Pending(q));
            },
            Err(Halt::Failed(_)) => {
                return Ok(before);
            },
        };
        match &produced {
            Value::Object(fields) => {
                proof {
                    object_view(*fields);
                }
                violations(
                    &contracts.postconditions,
                    ContractKind::Postcondition,
                    ctx.inputs(),
                    fields,
                    facts,
                    before,
                )
            },
            _ => violations(
                &contracts.postconditions,
                ContractKind::Postcondition,
                ctx.inputs(),
                ctx.variables(),
                facts,
                before,
            ),
        }
    }

    /// Registers `node` under its name, in place of any node of that name.
    pub fn register(&mut self, node: VesperNode)
        ensures
            final(self).nodes() == old(self).nodes().insert(node.node_id@, node),
            final(self).is_strict() == old(self).is_strict(),
    {
        let mut nodes: StringHashMap<VesperNode> = StringHashMap::new();
        proof {
            use_type_invariant(&*self);
        }
        core::mem::swap(&mut self.nodes, &mut nodes);
        nodes.insert(node.node_id.clone(), node);
        core::mem::swap(&mut self.nodes, &mut nodes);
    }

    /// The node registered under `node_id`, which is the name that the node
    /// bears.
    pub fn get(&self, node_id: &str) -> (r: Option<&VesperNode>)
        ensures
            match r {
                Some(node) => self.nodes().contains_key(node_id@) && self.nodes()[node_id@] == *node
                    && node.node_id@ == node_id@,
                None => !self.nodes().contains_key(node_id@),
            },
    {
        proof {
            use_type_invariant(self);
        }
        self.nodes.get(node_id)
    }

    /// Runs the node registered under `node_id` on `inputs`.
    pub fn execute(&self, node_id: &str, inputs: Dict<Value>, facts: &NumericFacts) -> (r: Result<
        ExecutionResult,
        Halt,
    >)
        ensures
            match r {
                Ok(res) => res.success && res.error is None && res.data is Some && self.outcome(
                    node_id@,
                    inputs@,
                    facts@,
                ) == Ok::<ValueModel, HaltModel>(res.data->0@),
                Err(h) => self.outcome(node_id@, inputs@, facts@) == Err::<ValueModel, HaltModel>(
                    h@,
                ),
            },
    {
        let node = match self.nodes.get(node_id) {
            Some(node) => node,
            None => {
                return Err(
                    Halt::Failed(VesperError::ExecutionError(join("Node not found: ", node_id))),
                );
            },
        };
        if let Err(e) = validate_inputs(node, &inputs) {
            return Err(Halt::Failed(e));
        }
        if let Some(contracts) = &node.contracts {
            if let Err(h) = self.validator.check_preconditions(contracts, &inputs, facts) {
                return Err(h);
            }
        }
        proof {
            flow_keeps_inputs(
                node.flow@,
                0,
                ValueModel::Null,
                ContextModel { variables: Seq::empty(), inputs: inputs@ },
                facts@,
            );
        }
        let mut ctx = ExecutionContext::new(inputs);
        let start = Instant::now();
        let produced = match execute_flow(node, &mut ctx, facts) {
            Ok(v) => v,
            Err(h) => {
                return Err(h);
            },
        };
        let duration = start.elapsed();
        if let Some(contracts) = &node.contracts {
            let checked = match &produced {
                Value::Object(fields) => {
                    proof {
                        object_view(*fields);
                    }
                    self.validator.check_postconditions(contracts, ctx.inputs(), fields, facts)
                },
                _ => self.validator.check_postconditions(
                    contracts,
                    ctx.inputs(),
                    ctx.variables(),
                    facts,
                ),
            };
            if let Err(h) = checked {
                return Err(h);
            }
        }
        Ok(ExecutionResult { success: true, data: Some(produced), error: None, duration })
    }
}

impl Default for SemanticExecutor {
    /// An engine without nodes, which checks contracts strictly.
    fn default() -> (r: Self)
        ensures
            r.nodes() == Map::<Seq<char>, VesperNode>::empty(),
            r.is_strict(),
    {
        SemanticExecutor::new()
    }
}

} // verus!
