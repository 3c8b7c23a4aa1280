//! The environment of one run: the inputs of the call, which never change,
//! and the variables that the steps bind.

use crate::dict::lookup;
use crate::dict::with_binding;
use crate::dict::Dict;
use crate::value::bind_value;
use crate::value::get_value;
use crate::value::Fields;
use crate::value::Value;
use crate::value::ValueModel;
use vstd::prelude::*;

verus! {

/// The environment of one run.
#[derive(Debug)]
pub struct ExecutionContext {
    variables: Dict<Value>,
    inputs: Dict<Value>,
}

/// What an environment is, mathematically: its view.
pub struct ContextModel {
    pub variables: Fields,
    pub inputs: Fields,
}

/// What `name` stands for in an environment: the variable of that name if
/// there is one, else the input of that name.
pub open spec fn bound_value(env: ContextModel, name: Seq<char>) -> Option<ValueModel> {
    match lookup(env.variables, name) {
        Some(v) => Some(v),
        None => lookup(env.inputs, name),
    }
}

/// The environment with the variable `name` bound to `value`.
pub open spec fn with_variable(env: ContextModel, name: Seq<char>, value: ValueModel) -> ContextModel {
    ContextModel { variables: with_binding(env.variables, name, value), inputs: env.inputs }
}

impl View for ExecutionContext {
    type V = ContextModel;

    closed spec fn view(&self) -> ContextModel {
        ContextModel { variables: self.variables@, inputs: self.inputs@ }
    }
}

impl ExecutionContext {
    /// The environment with the given inputs and no variable.
    pub fn new(inputs: Dict<Value>) -> (r: Self)
        ensures
            r@ == (ContextModel { variables: Seq::empty(), inputs: inputs@ }),
    {
        let variables: Dict<Value> = Dict::new();
        assert(variables@ =~= Seq::empty());
        ExecutionContext { variables, inputs }
    }

    /// What `name` stands for: a variable first, an input second.
    pub fn get(&self, name: &str) -> (r: Option<&Value>)
        ensures
            match r {
                Some(v) => bound_value(self@, name@) == Some(v@),
                None => bound_value(self@, name@) is None,
            },
    {
        match get_value(&self.variables, name) {
            Some(v) => Some(v),
            None => get_value(&self.inputs, name),
        }
    }

    /// Binds the variable `name` to `value`.
    pub fn set(&mut self, name: String, value: Value)
        ensures
            final(self)@ == with_variable(old(self)@, name@, value@),
    {
        bind_value(&mut self.variables, name, value);
    }

    /// The input of the given name.
    pub fn get_input(&self, name: &str) -> (r: Option<&Value>)
        ensures
            match r {
                Some(v) => lookup(self@.inputs, name@) == Some(v@),
                None => lookup(self@.inputs, name@) is None,
            },
    {
        get_value(&self.inputs, name)
    }

    /// The inputs.
    pub fn inputs(&self) -> (r: &Dict<Value>)
        ensures
            r@ == self@.inputs,
    {
        &self.inputs
    }

    /// The variables.
    pub fn variables(&self) -> (r: &Dict<Value>)
        ensures
            r@ == self@.variables,
    {
        &self.variables
    }
}

} // verus!
