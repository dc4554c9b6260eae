//! Errors raised while constructing provider descriptors.

use vstd::prelude::*;
use vstd::string::StringExecFns;

use crate::text::{debug_string, debug_text, decimal, decimal_string};

use super::{ProviderSelectorError, ProviderSelectorFailure};

verus! {

/// Error returned when provider descriptor aliases are invalid or ambiguous.
#[derive(Clone, Debug, Eq, PartialEq)]
#[non_exhaustive]
pub enum ProviderDescriptorError {
    /// An alias cannot be parsed as a selector.
    #[non_exhaustive]
    InvalidAlias {
        /// Zero-based position of the invalid alias.
        alias_index: usize,
        /// Selector parsing failure owning the verbatim alias.
        source: ProviderSelectorError,
    },
    /// Two aliases normalize to the same selector.
    #[non_exhaustive]
    DuplicateAlias {
        /// Normalized duplicate alias.
        alias: String,
    },
    /// An alias normalizes to the canonical provider ID.
    #[non_exhaustive]
    AliasMatchesId {
        /// Normalized alias matching the canonical ID.
        alias: String,
    },
}

/// Mathematical content of a [`ProviderDescriptorError`].
pub enum ProviderDescriptorFailure {
    InvalidAlias { alias_index: usize, source: ProviderSelectorFailure },
    DuplicateAlias { alias: Seq<char> },
    AliasMatchesId { alias: Seq<char> },
}

impl ProviderDescriptorFailure {
    /// The alias text retained by the failure: the verbatim input of an
    /// unparsable alias, or the normalized conflicting alias.
    pub open spec fn alias(self) -> Seq<char> {
        match self {
            ProviderDescriptorFailure::InvalidAlias { source, .. } => source.input(),
            ProviderDescriptorFailure::DuplicateAlias { alias } => alias,
            ProviderDescriptorFailure::AliasMatchesId { alias } => alias,
        }
    }

    /// The diagnostic text of the failure, given the `Debug` rendering of
    /// the retained alias.
    pub open spec fn message_with(self, quoted_alias: Seq<char>) -> Seq<char> {
        match self {
            ProviderDescriptorFailure::InvalidAlias { alias_index, .. } => "invalid provider alias at index "@
                + decimal(alias_index as nat) + ": "@ + quoted_alias,
            ProviderDescriptorFailure::DuplicateAlias { alias } => "duplicate provider alias: "@
                + alias,
            ProviderDescriptorFailure::AliasMatchesId { alias } => "provider alias matches canonical ID: "@
                + alias,
        }
    }

    /// The diagnostic text of the failure.
    pub open spec fn message(self) -> Seq<char> {
        self.message_with(debug_text(self.alias()))
    }
}

impl View for ProviderDescriptorError {
    type V = ProviderDescriptorFailure;

    open spec fn view(&self) -> ProviderDescriptorFailure {
        match self {
            ProviderDescriptorError::InvalidAlias { alias_index, source } => {
                ProviderDescriptorFailure::InvalidAlias { alias_index: *alias_index, source: source@ }
            },
            ProviderDescriptorError::DuplicateAlias { alias } => {
                ProviderDescriptorFailure::DuplicateAlias { alias: alias@ }
            },
            ProviderDescriptorError::AliasMatchesId { alias } => {
                ProviderDescriptorFailure::AliasMatchesId { alias: alias@ }
            },
        }
    }
}

impl ProviderDescriptorError {
    /// Creates an error for an alias that cannot be parsed.
    pub(crate) fn invalid_alias(alias_index: usize, source: ProviderSelectorError) -> (r: Self)
        ensures
            r@ == (ProviderDescriptorFailure::InvalidAlias { alias_index, source: source@ }),
    {
        ProviderDescriptorError::InvalidAlias { alias_index, source }
    }

    /// Creates an error for aliases that normalize to the same selector.
    pub(crate) fn duplicate_alias(alias: &str) -> (r: Self)
        ensures
            r@ == (ProviderDescriptorFailure::DuplicateAlias { alias: alias@ }),
    {
        ProviderDescriptorError::DuplicateAlias { alias: alias.to_owned() }
    }

    /// Creates an error for an alias matching the canonical provider ID.
    pub(crate) fn alias_matches_id(alias: &str) -> (r: Self)
        ensures
            r@ == (ProviderDescriptorFailure::AliasMatchesId { alias: alias@ }),
    {
        ProviderDescriptorError::AliasMatchesId { alias: alias.to_owned() }
    }

    /// Returns the alias retained by this error: the verbatim invalid alias
    /// or the normalized conflicting alias.
    pub fn alias(&self) -> (r: &str)
        ensures
            r@ == self@.alias(),
    {
        match self {
            ProviderDescriptorError::InvalidAlias { source, .. } => source.input(),
            ProviderDescriptorError::DuplicateAlias { alias } => alias.as_str(),
            ProviderDescriptorError::AliasMatchesId { alias } => alias.as_str(),
        }
    }

    /// Renders the diagnostic text from the `Debug` rendering of the
    /// retained alias.
    pub fn render_message(&self, quoted_alias: &str) -> (r: String)
        ensures
            r@ == self@.message_with(quoted_alias@),
    {
        match self {
            ProviderDescriptorError::InvalidAlias { alias_index, .. } => {
                let mut s = "invalid provider alias at index ".to_owned();
                let index = decimal_string(*alias_index as u64);
                s.append(index.as_str());
                s.append(": ");
                s.append(quoted_alias);
                s
            },
            ProviderDescriptorError::DuplicateAlias { alias } => {
                let mut s = "duplicate provider alias: ".to_owned();
                s.append(alias.as_str());
                s
            },
            ProviderDescriptorError::AliasMatchesId { alias } => {
                let mut s = "provider alias matches canonical ID: ".to_owned();
                s.append(alias.as_str());
                s
            },
        }
    }

    /// Returns the diagnostic text of this error.
    pub fn message(&self) -> (r: String)
        ensures
            r@ == self@.message(),
    {
        let quoted = debug_string(self.alias());
        self.render_message(quoted.as_str())
    }

    /// Returns the selector parsing failure of an unparsable alias.
    pub fn selector_error(&self) -> (r: Option<&ProviderSelectorError>)
        ensures
            match (r, self@) {
                (Some(e), ProviderDescriptorFailure::InvalidAlias { source, .. }) => e@ == source,
                (None, ProviderDescriptorFailure::InvalidAlias { .. }) => false,
                (Some(_), _) => false,
                (None, _) => true,
            },
    {
        match self {
            ProviderDescriptorError::InvalidAlias { source, .. } => Some(source),
            _ => None,
        }
    }
}

} // verus!
