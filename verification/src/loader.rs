//! The rules that a node has to meet before it is registered.

use crate::error::join;
use crate::error::ErrorModel;
use crate::error::VesperError;
use crate::text::is_digit;
use crate::text::to_chars;
use crate::types::InputSpec;
use crate::types::VesperNode;
use vstd::prelude::*;

verus! {

/// Whether a version marker stands in `id` at position `i`: `_v` and a
/// decimal digit.
pub open spec fn marker_at(id: Seq<char>, i: int) -> bool {
    0 <= i && i + 2 < id.len() && id[i] == '_' && id[i + 1] == 'v' && is_digit(id[i + 2])
}

/// Whether a name carries a version: a marker `_v` followed by digits, as in
/// `greet_v1`.
pub open spec fn versioned(id: Seq<char>) -> bool {
    exists|i: int| marker_at(id, i)
}

/// The name of the first input, from position `from` on, whose type is left
/// empty.
pub open spec fn first_untyped(declared: Seq<(Seq<char>, InputSpec)>, from: int) -> Option<
    Seq<char>,
>
    decreases declared.len() - from,
{
    if from < 0 || from >= declared.len() {
        None
    } else if declared[from].1.input_type@.len() == 0 {
        Some(declared[from].0)
    } else {
        first_untyped(declared, from + 1)
    }
}

/// What is wrong with a node, if anything: a name without a version, or an
/// input without a type. A node without steps is valid.
pub open spec fn defect(node: VesperNode) -> Option<ErrorModel> {
    if !versioned(node.node_id@) {
        Some(
            ErrorModel::ValidationError {
                path: "node_id"@,
                message: "Invalid node_id format: "@ + node.node_id@ + ". Expected: name_vN"@,
            },
        )
    } else {
        match first_untyped(node.inputs.bindings(), 0) {
            Some(name) => Some(
                ErrorModel::ValidationError {
                    path: "inputs."@ + name,
                    message: "Missing type field"@,
                },
            ),
            None => None,
        }
    }
}

/// Whether `id` carries a version.
pub fn has_version(id: &str) -> (r: bool)
    ensures
        r == versioned(id@),
{
    let chars = to_chars(id);
    let n = chars.len();
    if n < 3 {
        return false;
    }
    let mut i: usize = 0;
    while i < n - 2
        invariant
            i <= n - 2,
            n == chars@.len(),
            chars@ == id@,
            n >= 3,
            forall|j: int| 0 <= j < i ==> !marker_at(chars@, j),
        decreases n - i,
    {
        let c: u32 = chars[i + 2] as u32;
        if chars[i] == '_' && chars[i + 1] == 'v' && 48 <= c && c <= 57 {
            assert(marker_at(chars@, i as int));
            return true;
        }
        i += 1;
    }
    false
}

/// Holds nodes to the rules of the library before they are registered.
#[derive(Clone, Debug)]
pub struct VesperLoader {
    base_path: Option<String>,
}

impl VesperLoader {
    /// The path against which relative paths are resolved, if one was given.
    pub closed spec fn base(&self) -> Option<Seq<char>> {
        match self.base_path {
            Some(p) => Some(p@),
            None => None,
        }
    }

    /// A loader without a base path.
    pub fn new() -> (r: Self)
        ensures
            r.base() is None,
    {
        VesperLoader { base_path: None }
    }

    /// A loader with the base path `path`.
    pub fn with_base_path(path: &str) -> (r: Self)
        ensures
            r.base() == Some(path@),
    {
        VesperLoader { base_path: Some(String::from_str(path)) }
    }

    /// The base path, if one was given.
    pub fn base_path(&self) -> (r: Option<&str>)
        ensures
            match r {
                Some(p) => self.base() == Some(p@),
                None => self.base() is None,
            },
    {
        match &self.base_path {
            Some(p) => Some(p.as_str()),
            None => None,
        }
    }

    /// Checks a node: its name has to carry a version, and each input a type.
    pub fn validate(&self, node: &VesperNode) -> (r: Result<(), VesperError>)
        ensures
            match r {
                Ok(_) => defect(*node) is None,
                Err(e) => defect(*node) == Some(e@),
            },
    {
        if !has_version(node.node_id.as_str()) {
            let mut message = join("Invalid node_id format: ", node.node_id.as_str());
            message.append(". Expected: name_vN");
            return Err(
                VesperError::ValidationError { path: String::from_str("node_id"), message },
            );
        }
        let n = node.inputs.len();
        let mut i: usize = 0;
        while i < n
            invariant
                i <= n,
                n == node.inputs.bindings().len(),
                versioned(node.node_id@),
                first_untyped(node.inputs.bindings(), 0) == first_untyped(
                    node.inputs.bindings(),
                    i as int,
                ),
            decreases n - i,
        {
            let e = node.inputs.entry(i);
            if e.value.input_type.as_str().unicode_len() == 0 {
                return Err(
                    VesperError::ValidationError {
                        path: join("inputs.", e.key.as_str()),
                        message: String::from_str("Missing type field"),
                    },
                );
            }
            i += 1;
        }
        Ok(())
    }
}

impl Default for VesperLoader {
    /// A loader without a base path.
    fn default() -> (r: Self)
        ensures
            r.base() is None,
    {
        VesperLoader::new()
    }
}

} // verus!
