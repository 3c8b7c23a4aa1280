//! What a node is made of: its inputs and outputs, its contracts and the
//! steps of its flow.

use crate::dict::Dict;
use crate::number::Float;
use vstd::prelude::*;

verus! {

/// A literal of a node's description, as its author wrote it.
#[derive(Debug)]
pub enum Literal {
    Null,
    Bool(bool),
    Int(i64),
    Float(Float),
    String(String),
    Sequence(Vec<Literal>),
    Mapping(Vec<LiteralPair>),
    /// A literal under a tag; the library reads nothing of it.
    Tagged,
}

/// One pair of a mapping literal.
#[derive(Debug)]
pub struct LiteralPair {
    pub key: Literal,
    pub value: Literal,
}

impl Clone for Literal {
    #[verifier::loop_isolation(false)]
    fn clone(&self) -> (r: Literal)
        decreases self,
    {
        match self {
            Literal::Null => Literal::Null,
            Literal::Bool(b) => Literal::Bool(*b),
            Literal::Int(i) => Literal::Int(*i),
            Literal::Float(f) => Literal::Float(*f),
            Literal::String(s) => Literal::String(s.clone()),
            Literal::Sequence(items) => {
                let mut copy: Vec<Literal> = Vec::new();
                let mut i: usize = 0;
                while i < items.len()
                    invariant
                        i <= items.len(),
                    decreases items.len() - i,
                {
                    copy.push(items[i].clone());
                    i += 1;
                }
                Literal::Sequence(copy)
            },
            Literal::Mapping(pairs) => {
                let mut copy: Vec<LiteralPair> = Vec::new();
                let mut i: usize = 0;
                while i < pairs.len()
                    invariant
                        i <= pairs.len(),
                    decreases pairs.len() - i,
                {
                    copy.push(
                        LiteralPair { key: pairs[i].key.clone(), value: pairs[i].value.clone() },
                    );
                    i += 1;
                }
                Literal::Mapping(copy)
            },
            Literal::Tagged => Literal::Tagged,
        }
    }
}

impl Clone for LiteralPair {
    fn clone(&self) -> (r: LiteralPair) {
        LiteralPair { key: self.key.clone(), value: self.value.clone() }
    }
}

/// The kinds of nodes.
#[derive(Clone, Copy, Debug, PartialEq, Eq, Structural)]
pub enum NodeType {
    Function,
    HttpHandler,
    EventHandler,
    DataTransform,
    StateMachine,
    Aggregation,
    ScheduledJob,
}

/// Who wrote a node, and when.
#[derive(Clone, Debug)]
pub struct Metadata {
    pub author: Option<String>,
    pub created: Option<String>,
    pub version: Option<String>,
    pub description: Option<String>,
    pub tags: Vec<String>,
    pub dependencies: Vec<String>,
}

/// What a node says of one of its inputs.
#[derive(Clone, Debug)]
pub struct InputSpec {
    /// The name of the input's type; never empty in a valid node.
    pub input_type: String,
    /// Whether a call has to supply the input.
    pub required: bool,
    pub constraints: Vec<String>,
    pub default: Option<Literal>,
    pub description: Option<String>,
}

/// Whether an input is required where its description does not say: it is.
pub fn default_true() -> (r: bool)
    ensures
        r,
{
    true
}

/// The outputs of a node: the fields of a success and those of an error.
#[derive(Clone, Debug)]
pub struct Outputs {
    pub success: Dict<OutputField>,
    pub error: Dict<OutputField>,
}

/// What a node says of one field of its output.
#[derive(Clone, Debug)]
pub struct OutputField {
    pub output_type: Option<String>,
    pub description: Option<String>,
    pub values: Vec<String>,
}

/// A type that a node defines for itself.
#[derive(Clone, Debug)]
pub struct CustomType {
    pub base: Option<String>,
    pub fields: Dict<Literal>,
    pub constraints: Vec<String>,
}

/// The contracts of a node: conditions on its inputs, on its outputs, and on
/// both all the time.
#[derive(Clone, Debug)]
pub struct Contracts {
    pub preconditions: Vec<String>,
    pub postconditions: Vec<String>,
    pub invariants: Vec<String>,
}

/// One step of a node's flow.
#[derive(Clone, Debug)]
pub struct FlowStep {
    /// The name of the step.
    pub step: String,
    /// The kind of operation: `validation`, `string_template`, `arithmetic`,
    /// `return`, `conditional`, or any other word.
    pub operation: String,
    pub description: Option<String>,
    pub parameters: Dict<Literal>,
    /// The guards of a validation.
    pub guards: Vec<String>,
    /// The condition of a conditional step.
    pub condition: Option<String>,
    /// The template of a template step.
    pub template: Option<String>,
    /// The expression of an arithmetic step.
    pub expression: Option<String>,
    /// The variable that the step's result is bound to.
    pub output: Option<String>,
    pub on_success: Option<Literal>,
    pub on_error: Option<Literal>,
    pub on_failure: Option<Literal>,
    /// The fields of the object that the flow returns at this step.
    pub return_success: Option<Dict<Literal>>,
    /// The code and the message of the error that the flow fails with at this
    /// step.
    pub return_error: Option<Dict<Literal>>,
}

/// How fast a node has to be.
#[derive(Clone, Debug)]
pub struct Performance {
    pub expected_latency_ms: Option<u64>,
    pub p99_latency_ms: Option<u64>,
    pub max_latency_ms: Option<u64>,
    pub memory_limit_mb: Option<u64>,
    pub timeout_seconds: Option<u64>,
}

/// What a node may touch.
#[derive(Clone, Debug)]
pub struct Security {
    pub capabilities_required: Vec<String>,
    pub denied_capabilities: Vec<String>,
    pub sensitive_data: Vec<String>,
    pub audit_level: Option<String>,
}

/// A node: a versioned description of inputs, outputs, contracts and a flow
/// of steps.
#[derive(Clone, Debug)]
pub struct VesperNode {
    /// The node's name, which ends in its version, as in `greet_v1`.
    pub node_id: String,
    pub node_type: NodeType,
    /// What the node is for.
    pub intent: String,
    pub metadata: Option<Metadata>,
    pub inputs: Dict<InputSpec>,
    pub outputs: Option<Outputs>,
    pub types: Dict<CustomType>,
    pub contracts: Option<Contracts>,
    /// The steps, in the order in which they run.
    pub flow: Vec<FlowStep>,
    pub performance: Option<Performance>,
    pub security: Option<Security>,
}

} // verus!
