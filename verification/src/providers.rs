//! Execution provider descriptors and the default selection.

use vstd::prelude::*;

verus! {

/// A hardware backend that an inference session can be bound to. The list
/// handed to a load call is ordered: earlier entries are preferred.
#[derive(Clone, Copy, PartialEq, Eq, Structural, Debug)]
pub enum ExecutionProvider {
    /// The CPU backend; always the default.
    Cpu,
    /// A CUDA-capable GPU backend.
    Cuda,
}

/// The default provider selection: a single CPU backend.
pub open spec fn spec_default_providers() -> Seq<ExecutionProvider> {
    seq![ExecutionProvider::Cpu]
}

/// Produces the default provider selection, used whenever a caller does not
/// supply its own ordered list.
pub fn default_execution_providers() -> (r: Vec<ExecutionProvider>)
    ensures
        r@ == spec_default_providers(),
{
    let mut v: Vec<ExecutionProvider> = Vec::new();
    v.push(ExecutionProvider::Cpu);
    proof {
        assert(v@ =~= spec_default_providers());
    }
    v
}

} // verus!
