//! Errors raised while constructing and resolving provider selections.

use vstd::prelude::*;
use vstd::string::StringExecFns;

use super::{ProviderSelectorError, ProviderSelectorFailure};
use crate::text::{debug_string, debug_text, decimal, decimal_string};
use crate::{push_selector_list, selector_list_text, ProviderSelector};

verus! {

/// Diagnostic text for invalid selector input: with its position when the
/// input belongs to a list (`position_label` names the list), or without.
pub open spec fn invalid_selector_text(
    position_label: Seq<char>,
    selector_index: Option<usize>,
    quoted_input: Seq<char>,
) -> Seq<char> {
    match selector_index {
        Some(index) => "invalid provider selector at "@ + position_label + " index "@ + decimal(
            index as nat,
        ) + ": "@ + quoted_input,
        None => "invalid provider selector "@ + quoted_input,
    }
}

/// Renders [`invalid_selector_text`].
pub(crate) fn render_invalid_selector(
    position_label: &str,
    selector_index: Option<usize>,
    quoted_input: &str,
) -> (r: String)
    ensures
        r@ == invalid_selector_text(position_label@, selector_index, quoted_input@),
{
    match selector_index {
        Some(index) => {
            let mut s = "invalid provider selector at ".to_owned();
            s.append(position_label);
            s.append(" index ");
            let digits = decimal_string(index as u64);
            s.append(digits.as_str());
            s.append(": ");
            s.append(quoted_input);
            s
        },
        None => {
            let mut s = "invalid provider selector ".to_owned();
            s.append(quoted_input);
            s
        },
    }
}

/// Error returned when a provider selection cannot be constructed or resolved.
#[derive(Clone, Debug, Eq, PartialEq)]
#[non_exhaustive]
pub enum ProviderSelectionError {
    /// One selector input cannot be parsed.
    #[non_exhaustive]
    InvalidSelector {
        /// Zero-based selector position, or `None` for a named selection.
        selector_index: Option<usize>,
        /// Selector parsing failure owning the verbatim input.
        source: ProviderSelectorError,
    },
    /// A chained selection contains no selector inputs.
    EmptyChain,
    /// One named selection matched no registered provider.
    #[non_exhaustive]
    UnknownProvider {
        /// Normalized selector that matched no provider.
        selector: ProviderSelector,
    },
    /// A nonempty selector chain matched no registered provider candidates.
    #[non_exhaustive]
    NoCandidates {
        /// Normalized selectors that matched no candidates, in input order.
        selectors: Vec<ProviderSelector>,
    },
    /// Automatic selection was requested from an empty registry.
    EmptyRegistry,
}

/// Mathematical content of a [`ProviderSelectionError`].
pub enum ProviderSelectionFailure {
    InvalidSelector { selector_index: Option<usize>, source: ProviderSelectorFailure },
    EmptyChain,
    UnknownProvider { selector: Seq<char> },
    NoCandidates { selectors: Seq<Seq<char>> },
    EmptyRegistry,
}

impl ProviderSelectionFailure {
    /// The diagnostic text of the failure, given the `Debug` rendering of an
    /// invalid selector's verbatim input.
    pub open spec fn message_with(self, quoted_input: Seq<char>) -> Seq<char> {
        match self {
            ProviderSelectionFailure::InvalidSelector { selector_index, .. } => invalid_selector_text(
                "selection"@,
                selector_index,
                quoted_input,
            ),
            ProviderSelectionFailure::EmptyChain => "provider selection chain must not be empty"@,
            ProviderSelectionFailure::UnknownProvider { selector } => "unknown provider: "@
                + selector,
            ProviderSelectionFailure::NoCandidates { selectors } => "no provider candidates matched"@
                + selector_list_text(selectors),
            ProviderSelectionFailure::EmptyRegistry => "cannot select a provider from an empty registry"@,
        }
    }

    /// The verbatim input of an invalid selector, and empty text otherwise.
    pub open spec fn invalid_input(self) -> Seq<char> {
        match self {
            ProviderSelectionFailure::InvalidSelector { source, .. } => source.input(),
            _ => Seq::empty(),
        }
    }

    /// The diagnostic text of the failure.
    pub open spec fn message(self) -> Seq<char> {
        self.message_with(debug_text(self.invalid_input()))
    }
}

impl View for ProviderSelectionError {
    type V = ProviderSelectionFailure;

    open spec fn view(&self) -> ProviderSelectionFailure {
        match self {
            ProviderSelectionError::InvalidSelector { selector_index, source } => {
                ProviderSelectionFailure::InvalidSelector {
                    selector_index: *selector_index,
                    source: source@,
                }
            },
            ProviderSelectionError::EmptyChain => ProviderSelectionFailure::EmptyChain,
            ProviderSelectionError::UnknownProvider { selector } => {
                ProviderSelectionFailure::UnknownProvider { selector: selector@ }
            },
            ProviderSelectionError::NoCandidates { selectors } => {
                ProviderSelectionFailure::NoCandidates { selectors: selectors.deep_view() }
            },
            ProviderSelectionError::EmptyRegistry => ProviderSelectionFailure::EmptyRegistry,
        }
    }
}

impl ProviderSelectionError {
    /// Creates an error for an invalid selection input.
    pub fn invalid_selector(
        selector_index: Option<usize>,
        source: ProviderSelectorError,
    ) -> (r: Self)
        ensures
            r@ == (ProviderSelectionFailure::InvalidSelector { selector_index, source: source@ }),
    {
        ProviderSelectionError::InvalidSelector { selector_index, source }
    }

    /// Creates an error for an empty chained selection.
    pub fn empty_chain() -> (r: Self)
        ensures
            r@ == ProviderSelectionFailure::EmptyChain,
    {
        ProviderSelectionError::EmptyChain
    }

    /// Creates an error for a named selector that matched no provider.
    pub fn unknown_provider(selector: ProviderSelector) -> (r: Self)
        ensures
            r@ == (ProviderSelectionFailure::UnknownProvider { selector: selector@ }),
    {
        ProviderSelectionError::UnknownProvider { selector }
    }

    /// Creates an error when a nonempty selector chain yields no provider
    /// candidates.
    pub fn no_candidates(selectors: Vec<ProviderSelector>) -> (r: Self)
        requires
            selectors@.len() > 0,
        ensures
            r@ == (ProviderSelectionFailure::NoCandidates { selectors: selectors.deep_view() }),
    {
        ProviderSelectionError::NoCandidates { selectors }
    }

    /// Creates an error for automatic selection from an empty registry.
    pub fn empty_registry() -> (r: Self)
        ensures
            r@ == ProviderSelectionFailure::EmptyRegistry,
    {
        ProviderSelectionError::EmptyRegistry
    }

    /// Returns the selector parsing failure of an invalid input.
    pub fn selector_error(&self) -> (r: Option<&ProviderSelectorError>)
        ensures
            match (r, self@) {
                (Some(e), ProviderSelectionFailure::InvalidSelector { source, .. }) => e@ == source,
                (None, ProviderSelectionFailure::InvalidSelector { .. }) => false,
                (Some(_), _) => false,
                (None, _) => true,
            },
    {
        match self {
            ProviderSelectionError::InvalidSelector { source, .. } => Some(source),
            _ => None,
        }
    }

    /// Renders the diagnostic text from the `Debug` rendering of an invalid
    /// selector's verbatim input.
    pub fn render_message(&self, quoted_input: &str) -> (r: String)
        ensures
            r@ == self@.message_with(quoted_input@),
    {
        match self {
            ProviderSelectionError::InvalidSelector { selector_index, .. } => {
                render_invalid_selector("selection", *selector_index, quoted_input)
            },
            ProviderSelectionError::EmptyChain => "provider selection chain must not be empty".to_owned(),
            ProviderSelectionError::UnknownProvider { selector } => {
                let mut s = "unknown provider: ".to_owned();
                s.append(selector.as_str());
                s
            },
            ProviderSelectionError::NoCandidates { selectors } => {
                let mut s = "no provider candidates matched".to_owned();
                push_selector_list(&mut s, selectors.as_slice());
                s
            },
            ProviderSelectionError::EmptyRegistry => {
                "cannot select a provider from an empty registry".to_owned()
            },
        }
    }

    /// Returns the diagnostic text of this error.
    pub fn message(&self) -> (r: String)
        ensures
            r@ == self@.message(),
    {
        let quoted = match self {
            ProviderSelectionError::InvalidSelector { source, .. } => debug_string(source.input()),
            _ => {
                proof {
                    reveal_strlit("");
                }
                debug_string("")
            },
        };
        self.render_message(quoted.as_str())
    }
}

} // verus!
