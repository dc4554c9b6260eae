//! Opaque causal errors retained for diagnostics and error chaining.

use std::error::Error;
use std::sync::Arc;

use vstd::prelude::*;

verus! {

/// A shared underlying error retained as the cause of a provider failure.
///
/// The library only carries the cause through; it never inspects it.
#[verifier::external_body]
#[derive(Debug)]
pub struct ErrorCause {
    /// The shared underlying error.
    pub error: Arc<dyn Error + Send + Sync + 'static>,
}

impl ErrorCause {
    /// Wraps `error` as a shared cause (`Arc::new`).
    #[verifier::external_body]
    pub fn new<E: Error + Send + Sync + 'static>(error: E) -> ErrorCause {
        ErrorCause { error: Arc::new(error) }
    }
}

impl Clone for ErrorCause {
    /// Shares the same underlying error (`Arc::clone`).
    #[verifier::external_body]
    fn clone(&self) -> Self {
        ErrorCause { error: Arc::clone(&self.error) }
    }
}

} // verus!
