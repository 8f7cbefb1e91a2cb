//! The answer of a provider, as every provider gives it.

use vstd::prelude::*;

verus! {

/// The answer of a provider.
#[derive(Debug, Clone, PartialEq, Eq)]
pub struct LlmResponse {
    pub output: String,
    pub model: String,
    pub tokens_used: Option<u32>,
}

} // verus!
