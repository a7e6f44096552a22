//! Best-effort remediation hints for backend failures.
//!
//! The hint is chosen by substring matching on the failure's message. It only
//! adds text for the user: it never changes the failure itself.
use vstd::prelude::*;
use crate::text::{contains, contains_text};

verus! {

/// Signature of a backend that is not listening.
pub const CONNECTION_REFUSED: &'static str = "connection refused";

/// Signature of a failure that concerns the requested model.
pub const MODEL_SIGNATURE: &'static str = "model";

/// A remediation hint shown beside a failure.
#[derive(Clone, Copy, Debug, PartialEq, Eq, Structural)]
pub enum Hint {
    /// The completion backend should be started.
    StartBackend,
    /// The requested model should be installed.
    InstallModel,
}

/// The hint that a failure message calls for: the first signature that the
/// message contains decides it.
pub open spec fn hint_for(message: Seq<char>) -> Option<Hint> {
    if contains(message, CONNECTION_REFUSED@) {
        Some(Hint::StartBackend)
    } else if contains(message, MODEL_SIGNATURE@) {
        Some(Hint::InstallModel)
    } else {
        None
    }
}

/// Picks the remediation hint for a failure message, if one applies.
pub fn classify_failure(message: &str) -> (r: Option<Hint>)
    ensures
        r == hint_for(message@),
{
    if contains_text(message, CONNECTION_REFUSED) {
        Some(Hint::StartBackend)
    } else if contains_text(message, MODEL_SIGNATURE) {
        Some(Hint::InstallModel)
    } else {
        None
    }
}

impl Hint {
    /// What the hint tells the user.
    pub open spec fn spec_text(self) -> Seq<char> {
        match self {
            Hint::StartBackend => "Make sure Ollama is running (ollama serve)"@,
            Hint::InstallModel => "Make sure the model is installed (ollama pull llama3.2)"@,
        }
    }

    /// The hint's text.
    pub fn text(&self) -> (r: String)
        ensures
            r@ == self.spec_text(),
    {
        match self {
            Hint::StartBackend => String::from_str("Make sure Ollama is running (ollama serve)"),
            Hint::InstallModel => String::from_str(
                "Make sure the model is installed (ollama pull llama3.2)",
            ),
        }
    }
}

} // verus!
