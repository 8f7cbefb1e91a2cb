//! The local provider with its fixed settings.

use vstd::prelude::*;
use vstd::string::StringExecFns;

verus! {

/// The local provider.
#[derive(Debug, Clone, Copy, PartialEq, Eq, Structural)]
pub struct OllamaProvider;

/// Seconds a completion may take.
pub const GENERATE_TIMEOUT_SECS: u64 = 30;

impl OllamaProvider {
    pub fn new() -> (provider: OllamaProvider)
        ensures
            provider == OllamaProvider,
    {
        OllamaProvider
    }

    /// The model that the local provider is asked.
    pub open spec fn model_name() -> Seq<char> {
        "qwen2.5:7b"@
    }

    /// The address that completions are asked from.
    pub open spec fn endpoint() -> Seq<char> {
        "http://127.0.0.1:11434/api/generate"@
    }

    /// What a call yields once the provider has answered: the text of the
    /// answer if the status is a success, the provider's complaint if not.
    pub fn generate(&self, status_ok: bool, body: String) -> (answer: Result<String, String>)
        ensures
            match answer {
                Ok(text) => status_ok && text@ == body@,
                Err(reason) => !status_ok && reason@ == "Ollama API Error: "@ + body@,
            },
    {
        if status_ok {
            Ok(body)
        } else {
            let mut reason = String::from_str("Ollama API Error: ");
            reason.append(body.as_str());
            Err(reason)
        }
    }
}

} // verus!
