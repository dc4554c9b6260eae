//! Errors raised while constructing provider selections.

use vstd::prelude::*;

use super::{invalid_selector_text, render_invalid_selector};
use super::{ProviderSelectorError, ProviderSelectorFailure};
use crate::text::{debug_string, debug_text};

verus! {

/// Error returned when a provider selection cannot be constructed.
#[derive(Clone, Debug, Eq, PartialEq)]
#[non_exhaustive]
pub enum ProviderSelectionBuildError {
    /// One selector input cannot be parsed.
    #[non_exhaustive]
    InvalidSelector {
        /// Zero-based selector position, or `None` for a named selection.
        selector_index: Option<usize>,
        /// Selector parsing failure owning the verbatim input.
        source: ProviderSelectorError,
    },
    /// A chained selection contains no selector inputs.
    EmptyChain,
}

/// Mathematical content of a [`ProviderSelectionBuildError`].
pub enum ProviderSelectionBuildFailure {
    InvalidSelector { selector_index: Option<usize>, source: ProviderSelectorFailure },
    EmptyChain,
}

impl ProviderSelectionBuildFailure {
    /// The diagnostic text of the failure, given the `Debug` rendering of an
    /// invalid selector's verbatim input.
    pub open spec fn message_with(self, quoted_input: Seq<char>) -> Seq<char> {
        match self {
            ProviderSelectionBuildFailure::InvalidSelector { selector_index, .. } => {
                invalid_selector_text("selection"@, selector_index, quoted_input)
            },
            ProviderSelectionBuildFailure::EmptyChain => "provider selection chain must not be empty"@,
        }
    }

    /// The diagnostic text of the failure.
    pub open spec fn message(self) -> Seq<char> {
        match self {
            ProviderSelectionBuildFailure::InvalidSelector { source, .. } => self.message_with(
                debug_text(source.input()),
            ),
            ProviderSelectionBuildFailure::EmptyChain => self.message_with(Seq::empty()),
        }
    }
}

impl View for ProviderSelectionBuildError {
    type V = ProviderSelectionBuildFailure;

    open spec fn view(&self) -> ProviderSelectionBuildFailure {
        match self {
            ProviderSelectionBuildError::InvalidSelector { selector_index, source } => {
                ProviderSelectionBuildFailure::InvalidSelector {
                    selector_index: *selector_index,
                    source: source@,
                }
            },
            ProviderSelectionBuildError::EmptyChain => ProviderSelectionBuildFailure::EmptyChain,
        }
    }
}

impl ProviderSelectionBuildError {
    /// Returns the selector parsing failure, when construction failed because
    /// of an invalid selector.
    pub fn selector_error(&self) -> (r: Option<&ProviderSelectorError>)
        ensures
            match (r, self@) {
                (Some(e), ProviderSelectionBuildFailure::InvalidSelector { source, .. }) => e@
                    == source,
                (None, ProviderSelectionBuildFailure::EmptyChain) => true,
                _ => false,
            },
    {
        match self {
            ProviderSelectionBuildError::InvalidSelector { source, .. } => Some(source),
            ProviderSelectionBuildError::EmptyChain => None,
        }
    }

    /// Returns the zero-based position of an invalid chained selector.
    pub fn selector_index(&self) -> (r: Option<usize>)
        ensures
            r == (match self@ {
                ProviderSelectionBuildFailure::InvalidSelector { selector_index, .. } => selector_index,
                ProviderSelectionBuildFailure::EmptyChain => None,
            }),
    {
        match self {
            ProviderSelectionBuildError::InvalidSelector { selector_index, .. } => *selector_index,
            ProviderSelectionBuildError::EmptyChain => None,
        }
    }

    /// Tests whether an empty selector chain caused this failure.
    pub fn is_empty_chain(&self) -> (r: bool)
        ensures
            r == (self@ is EmptyChain),
    {
        match self {
            ProviderSelectionBuildError::EmptyChain => true,
            _ => false,
        }
    }

    /// Creates an error for an invalid selection input.
    pub fn invalid_selector(
        selector_index: Option<usize>,
        source: ProviderSelectorError,
    ) -> (r: Self)
        ensures
            r@ == (ProviderSelectionBuildFailure::InvalidSelector {
                selector_index,
                source: source@,
            }),
    {
        ProviderSelectionBuildError::InvalidSelector { selector_index, source }
    }

    /// Creates an error for an empty chained selection.
    pub fn empty_chain() -> (r: Self)
        ensures
            r@ == ProviderSelectionBuildFailure::EmptyChain,
    {
        ProviderSelectionBuildError::EmptyChain
    }

    /// Renders the diagnostic text from the `Debug` rendering of an invalid
    /// selector's verbatim input.
    pub fn render_message(&self, quoted_input: &str) -> (r: String)
        ensures
            r@ == self@.message_with(quoted_input@),
    {
        match self {
            ProviderSelectionBuildError::InvalidSelector { selector_index, .. } => {
                render_invalid_selector("selection", *selector_index, quoted_input)
            },
            ProviderSelectionBuildError::EmptyChain => {
                "provider selection chain must not be empty".to_owned()
            },
        }
    }

    /// Returns the diagnostic text of this error.
    pub fn message(&self) -> (r: String)
        ensures
            r@ == self@.message(),
    {
        match self {
            ProviderSelectionBuildError::InvalidSelector { source, .. } => {
                let quoted = debug_string(source.input());
                self.render_message(quoted.as_str())
            },
            ProviderSelectionBuildError::EmptyChain => {
                proof {
                    reveal_strlit("");
                }
                self.render_message("")
            },
        }
    }
}

} // verus!
