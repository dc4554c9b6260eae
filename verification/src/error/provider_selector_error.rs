//! Errors raised while parsing provider selectors.

use vstd::prelude::*;
use vstd::string::StringExecFns;

use crate::text::{debug_string, debug_text};

verus! {

/// Error returned when provider selector input cannot be parsed.
#[derive(Debug, Eq, PartialEq)]
#[non_exhaustive]
pub enum ProviderSelectorError {
    /// Trimming the input produced an empty selector.
    #[non_exhaustive]
    Empty {
        /// Verbatim selector input.
        input: String,
    },
    /// The normalized selector violated selector syntax.
    #[non_exhaustive]
    Invalid {
        /// Verbatim selector input.
        input: String,
        /// Trimmed and ASCII-lowercased selector input.
        normalized: String,
    },
}

/// Mathematical content of a [`ProviderSelectorError`].
pub enum ProviderSelectorFailure {
    Empty { input: Seq<char> },
    Invalid { input: Seq<char>, normalized: Seq<char> },
}

impl ProviderSelectorFailure {
    /// The verbatim input retained by either variant.
    pub open spec fn input(self) -> Seq<char> {
        match self {
            ProviderSelectorFailure::Empty { input } => input,
            ProviderSelectorFailure::Invalid { input, .. } => input,
        }
    }

    /// The diagnostic text of the failure, given the `Debug` renderings of
    /// the verbatim and the normalized input.
    pub open spec fn message_with(self, quoted_input: Seq<char>, quoted_normalized: Seq<char>) -> Seq<
        char,
    > {
        match self {
            ProviderSelectorFailure::Empty { .. } => "provider selector must not be empty"@,
            ProviderSelectorFailure::Invalid { .. } => "invalid provider selector "@ + quoted_input
                + " (normalized as "@ + quoted_normalized + ")"@,
        }
    }

    /// The normalized input retained by an invalid selector, and empty text
    /// for an empty one.
    pub open spec fn normalized(self) -> Seq<char> {
        match self {
            ProviderSelectorFailure::Empty { .. } => Seq::empty(),
            ProviderSelectorFailure::Invalid { normalized, .. } => normalized,
        }
    }

    /// The diagnostic text of the failure.
    pub open spec fn message(self) -> Seq<char> {
        self.message_with(debug_text(self.input()), debug_text(self.normalized()))
    }
}

impl View for ProviderSelectorError {
    type V = ProviderSelectorFailure;

    open spec fn view(&self) -> ProviderSelectorFailure {
        match self {
            ProviderSelectorError::Empty { input } => ProviderSelectorFailure::Empty {
                input: input@,
            },
            ProviderSelectorError::Invalid { input, normalized } => ProviderSelectorFailure::Invalid {
                input: input@,
                normalized: normalized@,
            },
        }
    }
}

impl ProviderSelectorError {
    /// Creates an error for selector input that becomes empty after trimming.
    pub fn empty(input: &str) -> (r: Self)
        ensures
            r@ == (ProviderSelectorFailure::Empty { input: input@ }),
    {
        ProviderSelectorError::Empty { input: input.to_owned() }
    }

    /// Creates an error for invalid normalized selector input.
    pub fn invalid(input: &str, normalized: String) -> (r: Self)
        ensures
            r@ == (ProviderSelectorFailure::Invalid { input: input@, normalized: normalized@ }),
    {
        ProviderSelectorError::Invalid { input: input.to_owned(), normalized }
    }

    /// Returns the verbatim selector input.
    pub fn input(&self) -> (r: &str)
        ensures
            r@ == self@.input(),
    {
        match self {
            ProviderSelectorError::Empty { input } => input.as_str(),
            ProviderSelectorError::Invalid { input, .. } => input.as_str(),
        }
    }

    /// Renders the diagnostic text from the `Debug` renderings of the
    /// verbatim and the normalized input.
    pub fn render_message(&self, quoted_input: &str, quoted_normalized: &str) -> (r: String)
        ensures
            r@ == self@.message_with(quoted_input@, quoted_normalized@),
    {
        match self {
            ProviderSelectorError::Empty { .. } => "provider selector must not be empty".to_owned(),
            ProviderSelectorError::Invalid { .. } => {
                let mut s = "invalid provider selector ".to_owned();
                s.append(quoted_input);
                s.append(" (normalized as ");
                s.append(quoted_normalized);
                s.append(")");
                s
            },
        }
    }

    /// Returns the diagnostic text of this error.
    pub fn message(&self) -> (r: String)
        ensures
            r@ == self@.message(),
    {
        let quoted_input = debug_string(self.input());
        let quoted_normalized = match self {
            ProviderSelectorError::Empty { .. } => debug_string(""),
            ProviderSelectorError::Invalid { normalized, .. } => debug_string(normalized.as_str()),
        };
        proof {
            assert(""@ =~= Seq::<char>::empty()) by {
                reveal_strlit("");
            }
        }
        self.render_message(quoted_input.as_str(), quoted_normalized.as_str())
    }
}

impl Clone for ProviderSelectorError {
    /// Copies the verbatim input and, for invalid input, its normalized form.
    fn clone(&self) -> (r: Self)
        ensures
            r@ == self@,
    {
        match self {
            ProviderSelectorError::Empty { input } => ProviderSelectorError::Empty {
                input: input.clone(),
            },
            ProviderSelectorError::Invalid { input, normalized } => ProviderSelectorError::Invalid {
                input: input.clone(),
                normalized: normalized.clone(),
            },
        }
    }
}

} // verus!
