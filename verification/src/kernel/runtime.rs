//! The runtime: the provider that messages are sent to.

use vstd::prelude::*;
use crate::ai::ollama::OllamaProvider;

verus! {

/// Holds the provider that messages are processed by.
#[derive(Debug, Clone, Copy, PartialEq, Eq, Structural)]
pub struct AxonRuntime {
    provider: OllamaProvider,
}

impl AxonRuntime {
    /// A runtime with the local provider.
    pub fn init() -> (runtime: AxonRuntime)
        ensures
            runtime.provider() == OllamaProvider,
    {
        AxonRuntime { provider: OllamaProvider::new() }
    }

    /// The provider of this runtime.
    pub closed spec fn provider(&self) -> OllamaProvider {
        self.provider
    }

    /// The provider that messages are processed by.
    pub fn local_provider(&self) -> (provider: OllamaProvider)
        ensures
            provider == self.provider(),
    {
        self.provider
    }
}

} // verus!
