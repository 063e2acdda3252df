//! The provider a request goes to.

use vstd::prelude::*;

verus! {

/// A remote service that speaks the OpenAI-compatible transcription API.
#[derive(Debug, Clone)]
pub struct TranscriptionProvider {
    /// The name the provider is known by.
    pub id: String,
    /// The URL that the endpoint paths are appended to; it may end in a slash.
    pub base_url: String,
}

} // verus!
