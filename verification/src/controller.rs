//! The two tiers together: every settled run of a node is counted, a node
//! that has become hot is compiled once, and a run goes by the artifact where
//! one is available and by the engine where none is.

use crate::compiler::compiled;
use crate::compiler::CompiledCode;
use crate::compiler::JitCompiler;
use crate::dict::Dict;
use crate::executor::ExecutionResult;
use crate::executor::SemanticExecutor;
use crate::hot_path::counted;
use crate::hot_path::HotPathDetector;
use crate::numerics::Halt;
use crate::numerics::HaltModel;
use crate::numerics::NumericFacts;
use crate::types::VesperNode;
use crate::value::Value;
use crate::value::ValueModel;
use vstd::prelude::*;

verus! {

/// An engine with its detector of hot nodes and its compiler.
pub struct TieringController {
    pub engine: SemanticExecutor,
    pub detector: HotPathDetector,
    pub compiler: JitCompiler,
}

impl TieringController {
    /// A controller of the given parts.
    pub fn new(engine: SemanticExecutor, detector: HotPathDetector, compiler: JitCompiler) -> (r:
        Self)
        ensures
            r.engine == engine,
            r.detector == detector,
            r.compiler == compiler,
    {
        TieringController { engine, detector, compiler }
    }

    /// Registers `node` with the engine. An artifact that was compiled for a
    /// node of that name stays in the cache.
    pub fn register(&mut self, node: VesperNode)
        ensures
            final(self).engine.nodes() == old(self).engine.nodes().insert(node.node_id@, node),
            final(self).engine.is_strict() == old(self).engine.is_strict(),
            final(self).detector == old(self).detector,
            final(self).compiler == old(self).compiler,
    {
        self.engine.register(node);
    }

    /// Runs the node under `node_id` on `inputs`, and gives what the engine
    /// gives. A run that is pending changes nothing. A run that is settled is
    /// counted; if the node is hot after it, the node's artifact is compiled,
    /// unless the cache holds one.
    pub fn execute(&mut self, node_id: &str, inputs: Dict<Value>, facts: &NumericFacts) -> (r:
        Result<ExecutionResult, Halt>)
        ensures
            final(self).engine == old(self).engine,
            final(self).detector.threshold() == old(self).detector.threshold(),
            final(self).compiler.level() == old(self).compiler.level(),
            match r {
                Ok(res) => res.success && res.error is None && res.data is Some && old(
                    self,
                ).engine.outcome(node_id@, inputs@, facts@) == Ok::<ValueModel, HaltModel>(
                    res.data->0@,
                ),
                Err(h) => old(self).engine.outcome(node_id@, inputs@, facts@) == Err::<
                    ValueModel,
                    HaltModel,
                >(h@),
            },
            r matches Err(Halt::Pending(_)) ==> final(self).detector.counts() == old(
                self,
            ).detector.counts() && final(self).compiler.cache() == old(self).compiler.cache(),
            !(r matches Err(Halt::Pending(_))) ==> final(self).detector.counts() == counted(
                old(self).detector.counts(),
                node_id@,
            ),
            !(r matches Err(Halt::Pending(_))) ==> (if final(self).detector.hot(node_id@) && old(
                self,
            ).engine.nodes().contains_key(node_id@) {
                exists|code: CompiledCode|
                    code.node_id@ == node_id@ && final(self).compiler.cache() == compiled(
                        old(self).compiler.cache(),
                        node_id@,
                        code,
                    )
            } else {
                final(self).compiler.cache() == old(self).compiler.cache()
            }),
    {
        let r = self.compiler.execute(&self.engine, node_id, inputs, facts);
        if let Err(Halt::Pending(_)) = &r {
            return r;
        }
        if self.detector.record_execution(node_id) {
            if let Some(node) = self.engine.get(node_id) {
                let made = self.compiler.compile(node);
                assert(self.compiler.cache() == compiled(
                    old(self).compiler.cache(),
                    node_id@,
                    *made->Ok_0,
                ));
            }
        }
        r
    }
}

} // verus!
