//! Errors raised while resolving provider selections.

use vstd::prelude::*;
use vstd::string::StringExecFns;

use crate::{push_selector_list, selector_list_text, ProviderSelector};

verus! {

/// Error returned when a registry cannot resolve provider candidates.
#[derive(Clone, Debug, Eq, PartialEq)]
#[non_exhaustive]
pub enum ProviderResolutionError {
    /// One or more required selectors matched no registered provider.
    #[non_exhaustive]
    UnknownProviders {
        /// Unknown normalized selectors retained in input order.
        selectors: Vec<ProviderSelector>,
    },
    /// A nonempty selector chain matched no registered provider candidates.
    #[non_exhaustive]
    NoCandidates {
        /// Normalized selectors that matched no candidates, in input order.
        selectors: Vec<ProviderSelector>,
    },
    /// Automatic selection was requested from an empty registry.
    EmptyRegistry,
}

/// Mathematical content of a [`ProviderResolutionError`].
pub enum ProviderResolutionFailure {
    UnknownProviders { selectors: Seq<Seq<char>> },
    NoCandidates { selectors: Seq<Seq<char>> },
    EmptyRegistry,
}

impl ProviderResolutionFailure {
    /// The diagnostic text of the failure.
    pub open spec fn message(self) -> Seq<char> {
        match self {
            ProviderResolutionFailure::UnknownProviders { selectors } => (if selectors.len() == 1 {
                "unknown provider selector"@
            } else {
                "unknown provider selectors"@
            }) + selector_list_text(selectors),
            ProviderResolutionFailure::NoCandidates { selectors } => "no provider candidates matched"@
                + selector_list_text(selectors),
            ProviderResolutionFailure::EmptyRegistry => "cannot select a provider from an empty registry"@,
        }
    }
}

impl View for ProviderResolutionError {
    type V = ProviderResolutionFailure;

    open spec fn view(&self) -> ProviderResolutionFailure {
        match self {
            ProviderResolutionError::UnknownProviders { selectors } => {
                ProviderResolutionFailure::UnknownProviders { selectors: selectors.deep_view() }
            },
            ProviderResolutionError::NoCandidates { selectors } => {
                ProviderResolutionFailure::NoCandidates { selectors: selectors.deep_view() }
            },
            ProviderResolutionError::EmptyRegistry => ProviderResolutionFailure::EmptyRegistry,
        }
    }
}

impl ProviderResolutionError {
    /// Returns the selectors retained by this resolution failure, or `None`
    /// for an empty registry.
    pub fn selectors(&self) -> (r: Option<&[ProviderSelector]>)
        ensures
            match (r, self@) {
                (Some(s), ProviderResolutionFailure::UnknownProviders { selectors }) => s.deep_view()
                    == selectors,
                (Some(s), ProviderResolutionFailure::NoCandidates { selectors }) => s.deep_view()
                    == selectors,
                (None, ProviderResolutionFailure::EmptyRegistry) => true,
                _ => false,
            },
    {
        match self {
            ProviderResolutionError::UnknownProviders { selectors } => Some(selectors.as_slice()),
            ProviderResolutionError::NoCandidates { selectors } => Some(selectors.as_slice()),
            ProviderResolutionError::EmptyRegistry => None,
        }
    }

    /// Tests whether required selectors matched no registered provider.
    pub fn is_unknown_providers(&self) -> (r: bool)
        ensures
            r == (self@ is UnknownProviders),
    {
        match self {
            ProviderResolutionError::UnknownProviders { .. } => true,
            _ => false,
        }
    }

    /// Tests whether a selector chain yielded no provider candidates.
    pub fn is_no_candidates(&self) -> (r: bool)
        ensures
            r == (self@ is NoCandidates),
    {
        match self {
            ProviderResolutionError::NoCandidates { .. } => true,
            _ => false,
        }
    }

    /// Tests whether automatic selection targeted an empty registry.
    pub fn is_empty_registry(&self) -> (r: bool)
        ensures
            r == (self@ is EmptyRegistry),
    {
        match self {
            ProviderResolutionError::EmptyRegistry => true,
            _ => false,
        }
    }

    /// Creates an error for nonempty required selectors that matched no
    /// provider.
    pub fn unknown_providers(selectors: Vec<ProviderSelector>) -> (r: Self)
        requires
            selectors@.len() > 0,
        ensures
            r@ == (ProviderResolutionFailure::UnknownProviders { selectors: selectors.deep_view() }),
    {
        ProviderResolutionError::UnknownProviders { selectors }
    }

    /// Creates an error when a nonempty selector chain yields no provider
    /// candidates.
    pub fn no_candidates(selectors: Vec<ProviderSelector>) -> (r: Self)
        requires
            selectors@.len() > 0,
        ensures
            r@ == (ProviderResolutionFailure::NoCandidates { selectors: selectors.deep_view() }),
    {
        ProviderResolutionError::NoCandidates { selectors }
    }

    /// Creates an error for automatic selection from an empty registry.
    pub fn empty_registry() -> (r: Self)
        ensures
            r@ == ProviderResolutionFailure::EmptyRegistry,
    {
        ProviderResolutionError::EmptyRegistry
    }

    /// Returns the diagnostic text of this error.
    pub fn message(&self) -> (r: String)
        ensures
            r@ == self@.message(),
    {
        match self {
            ProviderResolutionError::UnknownProviders { selectors } => {
                let mut s = if selectors.len() == 1 {
                    "unknown provider selector".to_owned()
                } else {
                    "unknown provider selectors".to_owned()
                };
                push_selector_list(&mut s, selectors.as_slice());
                s
            },
            ProviderResolutionError::NoCandidates { selectors } => {
                let mut s = "no provider candidates matched".to_owned();
                push_selector_list(&mut s, selectors.as_slice());
                s
            },
            ProviderResolutionError::EmptyRegistry => {
                "cannot select a provider from an empty registry".to_owned()
            },
        }
    }
}

} // verus!
