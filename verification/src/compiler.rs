//! The compiled tier: a cache of compiled artifacts, one for each node name.
//!
//! The cache goes by the name of a node alone, not by what its flow holds: a
//! node that is registered again under its name with another flow keeps the
//! artifact that was compiled first, until the cache is cleared.

use crate::clock::earlier;
use crate::dict::bound;
use crate::dict::lookup;
use crate::dict::position_is_first;
use crate::dict::Dict;
use crate::executor::ExecutionResult;
use crate::executor::SemanticExecutor;
use crate::numerics::Halt;
use crate::numerics::HaltModel;
use crate::numerics::NumericFacts;
use crate::types::VesperNode;
use crate::value::Value;
use crate::value::ValueModel;
use std::time::Instant;
use vstd::prelude::*;

verus! {

/// A compiled artifact: the name of the node that it was made for, and the
/// time at which it was made.
#[derive(Debug)]
pub struct CompiledCode {
    pub node_id: String,
    pub compiled_at: Instant,
}

impl CompiledCode {
    /// An artifact for the node `node_id`, made now.
    pub fn new(node_id: String) -> (r: Self)
        ensures
            r.node_id == node_id,
    {
        CompiledCode { node_id, compiled_at: Instant::now() }
    }

    /// Runs the artifact. There is no compiled code yet, so the artifact says
    /// that it is not available, and never gives a value.
    pub fn execute(&self, inputs: &Dict<Value>) -> (r: Result<Value, String>)
        ensures
            r is Err,
            r->Err_0@ == "JIT execution not yet implemented"@,
    {
        Err(String::from_str("JIT execution not yet implemented"))
    }
}

/// How many artifacts the cache holds, and when the oldest was made.
#[derive(Debug)]
pub struct CacheStats {
    pub entries: usize,
    pub oldest: Option<Instant>,
}

/// The cache after `code` was compiled for `id`: as it was if it held an
/// artifact for `id`, with `code` at its end if it held none.
pub open spec fn compiled(
    cache: Seq<(Seq<char>, CompiledCode)>,
    id: Seq<char>,
    code: CompiledCode,
) -> Seq<(Seq<char>, CompiledCode)> {
    if bound(cache, id) {
        cache
    } else {
        cache.push((id, code))
    }
}

/// Whether each artifact of the cache is filed under the name that it bears.
pub open spec fn filed(cache: Seq<(Seq<char>, CompiledCode)>) -> bool {
    forall|i: int| 0 <= i < cache.len() ==> (#[trigger] cache[i]).1.node_id@ == cache[i].0
}

/// Compiling a node a second time changes nothing: the cache holds the
/// artifact of the first time, and it has grown by one artifact at most. The
/// artifact that the cache holds for the node bears the node's name, as every
/// artifact bears the name that it is filed under.
pub proof fn compiling_again_changes_nothing(
    cache: Seq<(Seq<char>, CompiledCode)>,
    id: Seq<char>,
    first: CompiledCode,
    second: CompiledCode,
)
    requires
        filed(cache),
        first.node_id@ == id,
        second.node_id@ == id,
    ensures
        filed(compiled(compiled(cache, id, first), id, second)),
        lookup(compiled(compiled(cache, id, first), id, second), id) is Some,
        lookup(compiled(compiled(cache, id, first), id, second), id)->0.node_id@ == id,
        bound(compiled(cache, id, first), id),
        compiled(compiled(cache, id, first), id, second) == compiled(cache, id, first),
        compiled(compiled(cache, id, first), id, second).len() <= cache.len() + 1,
        !bound(cache, id) ==> lookup(compiled(compiled(cache, id, first), id, second), id) == Some(
            first,
        ),
        bound(cache, id) ==> lookup(compiled(compiled(cache, id, first), id, second), id) == lookup(
            cache,
            id,
        ),
{
    position_is_first(cache, id);
    position_is_first(cache.push((id, first)), id);
    if !bound(cache, id) {
        crate::dict::position_found(cache.push((id, first)), id, cache.len() as int);
    }
}

/// The compiler of the second tier, with its cache.
pub struct JitCompiler {
    cache: Dict<CompiledCode>,
    opt_level: u8,
}

impl JitCompiler {
    #[verifier::type_invariant]
    spec fn well_formed(self) -> bool {
        filed(self.cache.bindings())
    }

    /// The artifacts, each under the name of its node, in the order in which
    /// they were compiled.
    pub closed spec fn cache(&self) -> Seq<(Seq<char>, CompiledCode)> {
        self.cache.bindings()
    }

    /// The level of optimization, from 0 to 3.
    pub closed spec fn level(&self) -> u8 {
        self.opt_level
    }

    /// A compiler with an empty cache, at level 2.
    pub fn new() -> (r: Self)
        ensures
            r.cache().len() == 0,
            r.level() == 2,
    {
        JitCompiler { cache: Dict::new(), opt_level: 2 }
    }

    /// A compiler with an empty cache, at the given level, or at level 3 if
    /// that is more than 3.
    pub fn with_opt_level(opt_level: u8) -> (r: Self)
        ensures
            r.cache().len() == 0,
            r.level() == if opt_level > 3 {
                3
            } else {
                opt_level
            },
    {
        JitCompiler {
            cache: Dict::new(),
            opt_level: if opt_level > 3 {
                3
            } else {
                opt_level
            },
        }
    }

    /// The level of optimization.
    pub fn opt_level(&self) -> (r: u8)
        ensures
            r == self.level(),
    {
        self.opt_level
    }

    /// The artifact of the node: the one in the cache if there is one, else
    /// one that is made now and put into the cache.
    pub fn compile(&mut self, node: &VesperNode) -> (r: Result<&CompiledCode, String>)
        ensures
            r is Ok,
            r->Ok_0.node_id@ == node.node_id@,
            final(self).cache() == compiled(old(self).cache(), node.node_id@, *r->Ok_0),
            lookup(final(self).cache(), node.node_id@) == Some(*r->Ok_0),
            filed(old(self).cache()),
            filed(final(self).cache()),
            final(self).level() == old(self).level(),
    {
        let ghost before = self.cache.bindings();
        proof {
            use_type_invariant(&*self);
            position_is_first(before, node.node_id@);
        }
        if !self.cache.contains_key(node.node_id.as_str()) {
            let code = CompiledCode::new(node.node_id.clone());
            let mut cache: Dict<CompiledCode> = Dict::new();
            core::mem::swap(&mut self.cache, &mut cache);
            cache.push_new(node.node_id.clone(), code);
            core::mem::swap(&mut self.cache, &mut cache);
            proof {
                crate::dict::position_found(
                    self.cache.bindings(),
                    node.node_id@,
                    before.len() as int,
                );
            }
        }
        match self.cache.get(node.node_id.as_str()) {
            Some(code) => Ok(code),
            None => Err(String::from_str("The artifact is not in the cache")),
        }
    }

    /// Whether the cache holds an artifact for the node.
    pub fn is_compiled(&self, node_id: &str) -> (r: bool)
        ensures
            r == bound(self.cache(), node_id@),
    {
        self.cache.contains_key(node_id)
    }

    /// The artifact that the cache holds for the node.
    pub fn get_compiled(&self, node_id: &str) -> (r: Option<&CompiledCode>)
        ensures
            match r {
                Some(code) => lookup(self.cache(), node_id@) == Some(*code) && code.node_id@
                    == node_id@,
                None => lookup(self.cache(), node_id@) is None,
            },
            filed(self.cache()),
    {
        proof {
            use_type_invariant(self);
            position_is_first(self.cache.bindings(), node_id@);
        }
        self.cache.get(node_id)
    }

    /// Takes every artifact out of the cache.
    pub fn clear_cache(&mut self)
        ensures
            final(self).cache().len() == 0,
            final(self).level() == old(self).level(),
    {
        let mut cache: Dict<CompiledCode> = Dict::new();
        core::mem::swap(&mut self.cache, &mut cache);
    }

    /// Runs the node under `node_id`: by its artifact, if the cache holds one
    /// and the artifact is available, and by the engine otherwise. Either
    /// way the run gives what the engine gives.
    pub fn execute(
        &self,
        engine: &SemanticExecutor,
        node_id: &str,
        inputs: Dict<Value>,
        facts: &NumericFacts,
    ) -> (r: Result<ExecutionResult, Halt>)
        ensures
            match r {
                Ok(res) => res.success && res.error is None && res.data is Some && engine.outcome(
                    node_id@,
                    inputs@,
                    facts@,
                ) == Ok::<ValueModel, HaltModel>(res.data->0@),
                Err(h) => engine.outcome(node_id@, inputs@, facts@) == Err::<ValueModel, HaltModel>(
                    h@,
                ),
            },
    {
        if let Some(code) = self.cache.get(node_id) {
            let start = Instant::now();
            if let Ok(value) = code.execute(&inputs) {
                return Ok(
                    ExecutionResult {
                        success: true,
                        data: Some(value),
                        error: None,
                        duration: start.elapsed(),
                    },
                );
            }
        }
        engine.execute(node_id, inputs, facts)
    }

    /// The number of artifacts in the cache, and the time of the oldest: one
    /// of the times at which the artifacts were made, none if there are no
    /// artifacts.
    pub fn cache_stats(&self) -> (r: CacheStats)
        ensures
            r.entries == self.cache().len(),
            r.oldest is Some <==> self.cache().len() > 0,
            r.oldest is Some ==> exists|i: int|
                0 <= i < self.cache().len() && (#[trigger] self.cache()[i]).1.compiled_at
                    == r.oldest->0,
    {
        let n = self.cache.len();
        let mut oldest: Option<Instant> = None;
        let mut i: usize = 0;
        while i < n
            invariant
                i <= n,
                n == self.cache().len(),
                oldest is Some <==> i > 0,
                oldest is Some ==> exists|j: int|
                    0 <= j < i && (#[trigger] self.cache()[j]).1.compiled_at == oldest->0,
            decreases n - i,
        {
            let at = self.cache.entry(i).value.compiled_at;
            oldest = match oldest {
                None => Some(at),
                Some(t) => Some(earlier(t, at)),
            };
            assert(self.cache()[i as int].1.compiled_at == at);
            i += 1;
        }
        CacheStats { entries: n, oldest }
    }
}

impl Default for JitCompiler {
    /// A compiler with an empty cache, at level 2.
    fn default() -> (r: Self)
        ensures
            r.cache().len() == 0,
            r.level() == 2,
    {
        JitCompiler::new()
    }
}

} // verus!
