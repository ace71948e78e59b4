//! Token accounting reported with each response.
use vstd::prelude::*;

verus! {

/// The tokens that a request consumed.
#[derive(Debug, Clone, Copy, PartialEq, Eq, Structural)]
pub struct Usage {
    pub prompt_tokens: usize,
    /// The total number of tokens used for computing the embeddings.
    pub total_tokens: usize,
}

} // verus!
