//! The contracts of a node, checked before and after its flow runs.

use crate::condition::evaluate_condition;
use crate::condition::holds;
use crate::dict::Dict;
use crate::error::error_views;
use crate::error::ErrorModel;
use crate::error::VesperError;
use crate::numerics::Halt;
use crate::numerics::HaltModel;
use crate::numerics::NumericFact;
use crate::numerics::NumericFacts;
use crate::types::Contracts;
use crate::value::Fields;
use crate::value::Value;
use vstd::prelude::*;

verus! {

/// The three kinds of conditions in a contract.
#[derive(Clone, Copy, Debug, PartialEq, Eq, Structural)]
pub enum ContractKind {
    Precondition,
    Postcondition,
    Invariant,
}

/// The error that a strict validator raises for a condition that does not
/// hold.
pub open spec fn violation(kind: ContractKind, condition: Seq<char>) -> ErrorModel {
    match kind {
        ContractKind::Precondition => ErrorModel::PreconditionFailed(condition),
        ContractKind::Postcondition => ErrorModel::PostconditionFailed(condition),
        ContractKind::Invariant => ErrorModel::InvariantViolated(condition),
    }
}

/// The outcome of checking the conditions from position `from` on, one after
/// the other. A strict check fails at the first condition that does not hold
/// and looks at no other; a check that is not strict goes on to the next.
pub open spec fn check(
    conditions: Seq<String>,
    from: int,
    strict: bool,
    kind: ContractKind,
    inputs: Fields,
    outputs: Fields,
    known: Seq<NumericFact>,
) -> Result<(), HaltModel>
    decreases conditions.len() - from,
{
    if from < 0 || from >= conditions.len() {
        Ok(())
    } else {
        match holds(conditions[from]@, inputs, outputs, known) {
            Err(h) => Err(h),
            Ok(false) if strict => Err(HaltModel::Failed(violation(kind, conditions[from]@))),
            Ok(_) => check(conditions, from + 1, strict, kind, inputs, outputs, known),
        }
    }
}

/// A check that is not strict never fails: it passes, or it is pending.
pub proof fn permissive_check_never_fails(
    conditions: Seq<String>,
    from: int,
    kind: ContractKind,
    inputs: Fields,
    outputs: Fields,
    known: Seq<NumericFact>,
)
    ensures
        match check(conditions, from, false, kind, inputs, outputs, known) {
            Ok(_) => true,
            Err(HaltModel::Pending(_)) => true,
            Err(HaltModel::Failed(_)) => false,
        },
    decreases conditions.len() - from,
{
    if 0 <= from < conditions.len() {
        crate::condition::condition_never_fails(conditions[from]@, inputs, outputs, known);
        permissive_check_never_fails(conditions, from + 1, kind, inputs, outputs, known);
    }
}

/// `found`, followed by the violations of the conditions from position `from`
/// on that do not hold, in the order of the conditions. This is what a
/// permissive check passes over.
pub open spec fn failing(
    conditions: Seq<String>,
    from: int,
    kind: ContractKind,
    inputs: Fields,
    outputs: Fields,
    known: Seq<NumericFact>,
    found: Seq<ErrorModel>,
) -> Result<Seq<ErrorModel>, HaltModel>
    decreases conditions.len() - from,
{
    if from < 0 || from >= conditions.len() {
        Ok(found)
    } else {
        match holds(conditions[from]@, inputs, outputs, known) {
            Err(h) => Err(h),
            Ok(true) => failing(conditions, from + 1, kind, inputs, outputs, known, found),
            Ok(false) => failing(
                conditions,
                from + 1,
                kind,
                inputs,
                outputs,
                known,
                found.push(violation(kind, conditions[from]@)),
            ),
        }
    }
}

/// The view of a result that holds a row of errors.
pub open spec fn errors_result(r: Result<Vec<VesperError>, Halt>) -> Result<
    Seq<ErrorModel>,
    HaltModel,
> {
    match r {
        Ok(errors) => Ok(error_views(errors@)),
        Err(h) => Err(h@),
    }
}

/// Adds to `reported` the violations of the conditions that do not hold, for the
/// caller to report them.
#[verifier::loop_isolation(false)]
pub fn violations(
    conditions: &Vec<String>,
    kind: ContractKind,
    inputs: &Dict<Value>,
    outputs: &Dict<Value>,
    facts: &NumericFacts,
    reported: Vec<VesperError>,
) -> (r: Result<Vec<VesperError>, Halt>)
    ensures
        errors_result(r) == failing(
            conditions@,
            0,
            kind,
            inputs@,
            outputs@,
            facts@,
            error_views(reported@),
        ),
{
    let ghost start = error_views(reported@);
    let mut found = reported;
    let mut i: usize = 0;
    while i < conditions.len()
        invariant
            i <= conditions.len(),
            failing(conditions@, 0, kind, inputs@, outputs@, facts@, start) == failing(
                conditions@,
                i as int,
                kind,
                inputs@,
                outputs@,
                facts@,
                error_views(found@),
            ),
        decreases conditions.len() - i,
    {
        match evaluate_condition(conditions[i].as_str(), inputs, outputs, facts) {
            Err(h) => {
                return Err(h);
            },
            Ok(true) => {},
            Ok(false) => {
                let text = conditions[i].clone();
                let ghost before = found@;
                let e = match kind {
                    ContractKind::Precondition => VesperError::PreconditionFailed(text),
                    ContractKind::Postcondition => VesperError::PostconditionFailed(text),
                    ContractKind::Invariant => VesperError::InvariantViolated(text),
                };
                found.push(e);
                assert(error_views(found@) =~= error_views(before).push(
                    violation(kind, conditions@[i as int]@),
                ));
            },
        }
        i += 1;
    }
    Ok(found)
}

/// The view of a result that holds nothing.
pub open spec fn unit_result(r: Result<(), Halt>) -> Result<(), HaltModel> {
    match r {
        Ok(_) => Ok(()),
        Err(h) => Err(h@),
    }
}

/// Checks contracts: strictly, so that a condition that does not hold is an
/// error, or permissively, so that it is passed over.
#[derive(Clone, Copy, Debug)]
pub struct ContractValidator {
    strict: bool,
}

impl ContractValidator {
    /// Whether a condition that does not hold is an error.
    pub closed spec fn is_strict(self) -> bool {
        self.strict
    }

    /// A strict validator.
    pub fn new() -> (r: Self)
        ensures
            r.is_strict(),
    {
        ContractValidator { strict: true }
    }

    /// A permissive validator.
    pub fn permissive() -> (r: Self)
        ensures
            !r.is_strict(),
    {
        ContractValidator { strict: false }
    }

    /// Whether the validator is strict.
    pub fn strict(&self) -> (r: bool)
        ensures
            r == self.is_strict(),
    {
        self.strict
    }

    fn check_all(
        &self,
        conditions: &Vec<String>,
        kind: ContractKind,
        inputs: &Dict<Value>,
        outputs: &Dict<Value>,
        facts: &NumericFacts,
    ) -> (r: Result<(), Halt>)
        ensures
            unit_result(r) == check(
                conditions@,
                0,
                self.is_strict(),
                kind,
                inputs@,
                outputs@,
                facts@,
            ),
    {
        let mut i: usize = 0;
        while i < conditions.len()
            invariant
                i <= conditions.len(),
                check(conditions@, 0, self.is_strict(), kind, inputs@, outputs@, facts@) == check(
                    conditions@,
                    i as int,
                    self.is_strict(),
                    kind,
                    inputs@,
                    outputs@,
                    facts@,
                ),
            decreases conditions.len() - i,
        {
            match evaluate_condition(conditions[i].as_str(), inputs, outputs, facts) {
                Err(h) => {
                    return Err(h);
                },
                Ok(true) => {},
                Ok(false) => {
                    if self.strict {
                        let text = conditions[i].clone();
                        return Err(
                            Halt::Failed(
                                match kind {
                                    ContractKind::Precondition => VesperError::PreconditionFailed(
                                        text,
                                    ),
                                    ContractKind::Postcondition => VesperError::PostconditionFailed(
                                        text,
                                    ),
                                    ContractKind::Invariant => VesperError::InvariantViolated(text),
                                },
                            ),
                        );
                    }
                },
            }
            i += 1;
        }
        Ok(())
    }

    /// Checks the preconditions against the inputs, with no outputs.
    pub fn check_preconditions(
        &self,
        contracts: &Contracts,
        inputs: &Dict<Value>,
        facts: &NumericFacts,
    ) -> (r: Result<(), Halt>)
        ensures
            unit_result(r) == check(
                contracts.preconditions@,
                0,
                self.is_strict(),
                ContractKind::Precondition,
                inputs@,
                Seq::empty(),
                facts@,
            ),
    {
        let outputs: Dict<Value> = Dict::new();
        assert(outputs@ =~= Seq::empty());
        self.check_all(&contracts.preconditions, ContractKind::Precondition, inputs, &outputs, facts)
    }

    /// Checks the postconditions against the inputs and the outputs.
    pub fn check_postconditions(
        &self,
        contracts: &Contracts,
        inputs: &Dict<Value>,
        outputs: &Dict<Value>,
        facts: &NumericFacts,
    ) -> (r: Result<(), Halt>)
        ensures
            unit_result(r) == check(
                contracts.postconditions@,
                0,
                self.is_strict(),
                ContractKind::Postcondition,
                inputs@,
                outputs@,
                facts@,
            ),
    {
        self.check_all(
            &contracts.postconditions,
            ContractKind::Postcondition,
            inputs,
            outputs,
            facts,
        )
    }

    /// Checks the invariants against one context, with no outputs.
    pub fn check_invariants(
        &self,
        contracts: &Contracts,
        context: &Dict<Value>,
        facts: &NumericFacts,
    ) -> (r: Result<(), Halt>)
        ensures
            unit_result(r) == check(
                contracts.invariants@,
                0,
                self.is_strict(),
                ContractKind::Invariant,
                context@,
                Seq::empty(),
                facts@,
            ),
    {
        let outputs: Dict<Value> = Dict::new();
        assert(outputs@ =~= Seq::empty());
        self.check_all(&contracts.invariants, ContractKind::Invariant, context, &outputs, facts)
    }
}

impl Default for ContractValidator {
    /// The strict validator.
    fn default() -> (r: Self)
        ensures
            r.is_strict(),
    {
        ContractValidator::new()
    }
}

} // verus!
