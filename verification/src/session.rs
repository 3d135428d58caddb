//! Binding model bytes to execution providers.

use vstd::prelude::*;
use crate::model::Model;
use crate::providers::ExecutionProvider;

verus! {

/// A bound inference session: the complete model bytes together with the
/// ordered execution providers they are bound to. The caller owns it after
/// return; this library keeps no reference to it. Whether the bytes are a
/// valid model encoding, and whether a provider can be initialized on the
/// host, is decided by the inference engine that consumes the session.
#[derive(Debug, Clone, PartialEq, Eq)]
pub struct InferenceSession {
    /// Which logical model the session was built for.
    pub model: Model,
    /// The raw model bytes, exactly as read from cache or fetched.
    pub model_bytes: Vec<u8>,
    /// The ordered providers the session is bound to; earlier entries are
    /// preferred.
    pub providers: Vec<ExecutionProvider>,
}

/// What a built session holds: the requested model, the given bytes,
/// byte for byte, and the given providers, in the given order.
pub open spec fn spec_session(
    model: Model,
    bytes: Seq<u8>,
    providers: Seq<ExecutionProvider>,
    s: InferenceSession,
) -> bool {
    s.model == model && s.model_bytes@ == bytes && s.providers@ == providers
}

/// Builds a session from bytes already resident in memory and an ordered
/// provider set. Consumes both exactly once and binds them unchanged.
pub fn build_session(
    model: Model,
    model_bytes: Vec<u8>,
    providers: Vec<ExecutionProvider>,
) -> (s: InferenceSession)
    ensures
        spec_session(model, model_bytes@, providers@, s),
{
    InferenceSession { model, model_bytes, providers }
}

} // verus!
