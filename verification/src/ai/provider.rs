//! What an inference provider is asked and what it answers.

use vstd::prelude::*;
use vstd::string::StringExecFns;

verus! {

/// The answer of a provider.
#[derive(Debug, Clone, PartialEq, Eq)]
pub struct LlmResponse {
    pub output: String,
    pub model: String,
    pub tokens_used: Option<u32>,
}

/// Where a local provider listens and how long a call may take.
#[derive(Debug, Clone, PartialEq, Eq)]
pub struct OllamaProvider {
    pub endpoint: String,
    pub timeout_seconds: u64,
}

impl OllamaProvider {
    pub fn new(endpoint: String, timeout_seconds: u64) -> (provider: OllamaProvider)
        ensures
            provider.endpoint == endpoint,
            provider.timeout_seconds == timeout_seconds,
    {
        OllamaProvider { endpoint, timeout_seconds }
    }

    /// The address that completions are asked from.
    pub open spec fn generate_url_of(endpoint: Seq<char>) -> Seq<char> {
        endpoint + "/api/generate"@
    }

    /// The address that the health check asks.
    pub open spec fn health_url_of(endpoint: Seq<char>) -> Seq<char> {
        endpoint + "/api/tags"@
    }

    /// The address that completions are asked from.
    pub fn generate_url(&self) -> (url: String)
        ensures
            url@ == OllamaProvider::generate_url_of(self.endpoint@),
    {
        let mut url = self.endpoint.clone();
        url.append("/api/generate");
        url
    }

    /// The address that the health check asks.
    pub fn health_url(&self) -> (url: String)
        ensures
            url@ == OllamaProvider::health_url_of(self.endpoint@),
    {
        let mut url = self.endpoint.clone();
        url.append("/api/tags");
        url
    }
}

/// The answer to a completion: the text of the member `response`, empty
/// if the provider sent none.
pub fn completion(response: Option<String>, model: &str) -> (answer: LlmResponse)
    ensures
        answer.output@ == match response {
            Some(text) => text@,
            None => Seq::<char>::empty(),
        },
        answer.model@ == model@,
        answer.tokens_used is None,
{
    let output = match response {
        Some(text) => text,
        None => String::new(),
    };
    LlmResponse { output, model: String::from_str(model), tokens_used: None }
}

} // verus!
