//! The loader facade: identifier in, bound session out.
//!
//! The facade is split along the one boundary this library does not cross:
//! I/O. [`ModelLoaderTrait::plan`] decides, from the identifier and the
//! cache probe, whether bytes come from the cache file or from the network;
//! the driver executes that plan (reading the file, or streaming a fetch
//! through [`crate::fetch::Download`]) and hands the bytes back to
//! [`ModelLoaderTrait::load`] or
//! [`ModelLoaderTrait::load_with_execution_providers`], which bind them to
//! the chosen providers.

use vstd::prelude::*;
use crate::error::LoadError;
use crate::model::{spec_cache_path, spec_url, Model};
use crate::providers::{
    default_execution_providers,
    spec_default_providers,
    ExecutionProvider,
};
use crate::session::{build_session, spec_session, InferenceSession};

verus! {

/// How the bytes of one load are to be obtained.
#[derive(Debug, Clone, PartialEq, Eq)]
pub enum LoadPlan {
    /// The cache file exists: read it; no network activity occurs.
    UseCache {
        /// The cache file to read.
        path: String,
    },
    /// The cache file is absent: fetch from the remote source, stream into
    /// the temporary sibling of `path`, and commit by rename.
    Fetch {
        /// The canonical remote URL of the model.
        url: String,
        /// The destination cache path of the model.
        path: String,
    },
}

/// The default plan: use the cache exactly when the cache file exists,
/// fetch from the model's canonical URL otherwise.
pub fn default_plan(model: Model, cache_exists: bool) -> (r: LoadPlan)
    ensures
        cache_exists ==> (r matches LoadPlan::UseCache { path } && path@ == spec_cache_path(
            model,
        )),
        !cache_exists ==> (r matches LoadPlan::Fetch { url, path } && url@ == spec_url(model)
            && path@ == spec_cache_path(model)),
{
    if cache_exists {
        LoadPlan::UseCache { path: model.cache_path() }
    } else {
        LoadPlan::Fetch { url: model.url(), path: model.cache_path() }
    }
}

/// A loading strategy: the capability to decide where bytes come from and
/// to bind delivered bytes to providers. The default strategy is
/// [`DefaultModelLoader`]; a caller may substitute its own (to load from a
/// different source, or to add verification of the bytes), in which case
/// only the contracts below are promised.
pub trait ModelLoaderTrait {
    /// Decides how the bytes for `model` are to be obtained, given whether
    /// the cache file for `model` exists.
    fn plan(&self, model: Model, cache_exists: bool) -> (r: LoadPlan) {
        default_plan(model, cache_exists)
    }

    /// Binds delivered bytes for `model` with the default provider
    /// selection, exactly as `load_with_execution_providers` would with
    /// that selection. On success the session binds the requested model,
    /// the delivered bytes byte for byte, and the default selection; a
    /// failure of this step is a construction failure — an invalid model
    /// encoding or an uninitializable provider — distinguished from
    /// network and filesystem failures.
    fn load(&self, model: Model, model_bytes: Vec<u8>) -> (r: Result<
        InferenceSession,
        LoadError,
    >)
        ensures
            r is Ok ==> spec_session(model, model_bytes@, spec_default_providers(), r->Ok_0),
            r is Err ==> (r->Err_0 matches LoadError::InvalidModel(_) || r->Err_0
                matches LoadError::ProviderUnavailable(_)),
    {
        self.load_with_execution_providers(model, model_bytes, default_execution_providers())
    }

    /// Binds delivered bytes for `model` to the given ordered providers.
    /// On success the session binds the requested model, the delivered
    /// bytes byte for byte, and the given providers in order; a failure of
    /// this step is a construction failure, distinguished from network and
    /// filesystem failures.
    fn load_with_execution_providers(
        &self,
        model: Model,
        model_bytes: Vec<u8>,
        providers: Vec<ExecutionProvider>,
    ) -> (r: Result<InferenceSession, LoadError>)
        ensures
            r is Ok ==> spec_session(model, model_bytes@, providers@, r->Ok_0),
            r is Err ==> (r->Err_0 matches LoadError::InvalidModel(_) || r->Err_0
                matches LoadError::ProviderUnavailable(_)),
    ;
}

/// The default loading strategy.
#[derive(Clone, Copy, PartialEq, Eq, Structural, Debug)]
pub struct DefaultModelLoader;

impl Default for DefaultModelLoader {
    /// The default strategy has no state: there is exactly one value.
    fn default() -> (r: DefaultModelLoader)
        ensures
            r == DefaultModelLoader,
    {
        DefaultModelLoader
    }
}

impl ModelLoaderTrait for DefaultModelLoader {
    /// The default strategy plans exactly the default plan.
    fn plan(&self, model: Model, cache_exists: bool) -> (r: LoadPlan)
        ensures
            cache_exists ==> (r matches LoadPlan::UseCache { path } && path@ == spec_cache_path(
                model,
            )),
            !cache_exists ==> (r matches LoadPlan::Fetch { url, path } && url@ == spec_url(model)
                && path@ == spec_cache_path(model)),
    {
        default_plan(model, cache_exists)
    }

    /// The default strategy's bind of delivered bytes with the default
    /// selection cannot fail, and the session binds the bytes byte for
    /// byte.
    fn load(&self, model: Model, model_bytes: Vec<u8>) -> (r: Result<InferenceSession, LoadError>)
        ensures
            r is Ok,
            spec_session(model, model_bytes@, spec_default_providers(), r->Ok_0),
    {
        self.load_with_execution_providers(model, model_bytes, default_execution_providers())
    }

    /// The default strategy binds the delivered bytes to the given
    /// providers, all unchanged. The bind itself makes no outside call and
    /// cannot fail; whether the bytes are a valid model encoding, and
    /// whether a provider can be initialized on the host, is decided by
    /// the inference engine that consumes the session, and those
    /// construction failures are surfaced there, not here.
    fn load_with_execution_providers(
        &self,
        model: Model,
        model_bytes: Vec<u8>,
        providers: Vec<ExecutionProvider>,
    ) -> (r: Result<InferenceSession, LoadError>)
        ensures
            r is Ok,
            spec_session(model, model_bytes@, providers@, r->Ok_0),
    {
        Ok(build_session(model, model_bytes, providers))
    }
}

/// Provider defaulting: a session produced by the single-argument load and
/// a session produced by the provider-explicit load with the default
/// selection agree in everything observable — the model, every byte, and
/// the provider order.
pub proof fn lemma_provider_defaulting(
    model: Model,
    bytes: Seq<u8>,
    from_load: InferenceSession,
    from_explicit: InferenceSession,
)
    requires
        spec_session(model, bytes, spec_default_providers(), from_load),
        spec_session(model, bytes, spec_default_providers(), from_explicit),
    ensures
        from_load.model == from_explicit.model,
        from_load.model_bytes@ == from_explicit.model_bytes@,
        from_load.providers@ == from_explicit.providers@,
{
}

/// The strategy chosen for one load call: the default one, or a
/// caller-supplied override.
pub enum ModelLoader {
    /// Use the default strategy.
    DefaultModelLoader,
    /// Use the given strategy instead.
    CustomModelLoader(Box<dyn ModelLoaderTrait>),
}

impl ModelLoader {
    /// Hands out the strategy this selection stands for.
    pub fn get_model_loader(self) -> Box<dyn ModelLoaderTrait> {
        match self {
            ModelLoader::DefaultModelLoader => Box::new(DefaultModelLoader),
            ModelLoader::CustomModelLoader(loader) => loader,
        }
    }
}

} // verus!
