//! Errors raised while validating canonical provider IDs.

use vstd::prelude::*;
use vstd::string::StringExecFns;

use super::ProviderIdErrorKind;

verus! {

/// Error returned when a canonical provider ID cannot be constructed.
#[derive(Clone, Debug, Eq, PartialEq)]
#[non_exhaustive]
pub enum ProviderIdError {
    /// The supplied provider ID was empty.
    Empty {
        /// Verbatim empty input retained for diagnostics.
        input: String,
    },
    /// The supplied provider ID violated canonical syntax.
    NonCanonical {
        /// Verbatim noncanonical input retained for diagnostics.
        input: String,
    },
}

/// Mathematical content of a [`ProviderIdError`].
pub enum ProviderIdFailure {
    Empty { input: Seq<char> },
    NonCanonical { input: Seq<char> },
}

impl ProviderIdFailure {
    /// The diagnostic text of the failure.
    pub open spec fn message(self) -> Seq<char> {
        match self {
            ProviderIdFailure::Empty { .. } => "provider ID must not be empty"@,
            ProviderIdFailure::NonCanonical { input } => "provider ID is not canonical: "@ + input,
        }
    }
}

impl View for ProviderIdError {
    type V = ProviderIdFailure;

    open spec fn view(&self) -> ProviderIdFailure {
        match self {
            ProviderIdError::Empty { input } => ProviderIdFailure::Empty { input: input@ },
            ProviderIdError::NonCanonical { input } => ProviderIdFailure::NonCanonical {
                input: input@,
            },
        }
    }
}

impl ProviderIdError {
    /// Creates an error for an empty canonical provider ID.
    pub(crate) fn empty(input: &str) -> (r: Self)
        ensures
            r@ == (ProviderIdFailure::Empty { input: input@ }),
    {
        ProviderIdError::Empty { input: input.to_owned() }
    }

    /// Creates an error for a noncanonical provider ID.
    pub(crate) fn noncanonical(input: &str) -> (r: Self)
        ensures
            r@ == (ProviderIdFailure::NonCanonical { input: input@ }),
    {
        ProviderIdError::NonCanonical { input: input.to_owned() }
    }

    /// Returns this provider ID error's stable classification.
    pub fn kind(&self) -> (r: ProviderIdErrorKind)
        ensures
            r == (match self@ {
                ProviderIdFailure::Empty { .. } => ProviderIdErrorKind::Empty,
                ProviderIdFailure::NonCanonical { .. } => ProviderIdErrorKind::NonCanonical,
            }),
    {
        match self {
            ProviderIdError::Empty { .. } => ProviderIdErrorKind::Empty,
            ProviderIdError::NonCanonical { .. } => ProviderIdErrorKind::NonCanonical,
        }
    }

    /// Returns the diagnostic text of this error.
    pub fn message(&self) -> (r: String)
        ensures
            r@ == self@.message(),
    {
        match self {
            ProviderIdError::Empty { .. } => "provider ID must not be empty".to_owned(),
            ProviderIdError::NonCanonical { input } => {
                let mut s = "provider ID is not canonical: ".to_owned();
                s.append(input.as_str());
                s
            },
        }
    }

    /// Returns the verbatim provider ID input.
    pub fn input(&self) -> (r: &str)
        ensures
            r@ == (match self@ {
                ProviderIdFailure::Empty { input } => input,
                ProviderIdFailure::NonCanonical { input } => input,
            }),
    {
        match self {
            ProviderIdError::Empty { input } => input.as_str(),
            ProviderIdError::NonCanonical { input } => input.as_str(),
        }
    }
}

} // verus!
