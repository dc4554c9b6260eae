//! Strict canonical provider identifiers.

use std::str::FromStr;

use vstd::prelude::*;

use crate::error::ProviderIdError;
use crate::error::ProviderIdFailure;
use crate::text::{is_body_char, is_canonical_token, is_endpoint_char};

verus! {

/// Stable canonical identifier of a provider.
///
/// A legal ID is a nonempty ASCII token of lowercase letters, digits and the
/// separators `-`, `_`, `.`, `+`, whose first and last characters are letters
/// or digits. The text is never trimmed, lowercased or otherwise normalized.
#[derive(Debug, Eq, Hash, Ord, PartialOrd)]
pub struct ProviderId {
    /// Canonical identifier text.
    value: String,
}

impl View for ProviderId {
    type V = Seq<char>;

    closed spec fn view(&self) -> Seq<char> {
        self.value@
    }
}

impl DeepView for ProviderId {
    type V = Seq<char>;

    open spec fn deep_view(&self) -> Seq<char> {
        self@
    }
}

impl ProviderId {
    #[verifier::type_invariant]
    closed spec fn wf(self) -> bool {
        is_canonical_token(self.value@)
    }

    /// Creates a canonical provider identifier from already canonical text.
    ///
    /// Returns `Empty` for the empty string and `NonCanonical` for any other
    /// text that violates the canonical grammar; the error keeps the input.
    pub fn new(value: &str) -> (r: Result<ProviderId, ProviderIdError>)
        ensures
            match r {
                Ok(id) => is_canonical_token(value@) && id@ == value@,
                Err(e) => e@ == (if value@.len() == 0 {
                    ProviderIdFailure::Empty { input: value@ }
                } else {
                    ProviderIdFailure::NonCanonical { input: value@ }
                }) && !is_canonical_token(value@),
            },
            r is Ok <==> is_canonical_token(value@),
    {
        if value.is_empty() {
            return Err(ProviderIdError::empty(value));
        }
        if !Self::is_canonical_token(value) {
            return Err(ProviderIdError::noncanonical(value));
        }
        Ok(ProviderId { value: value.to_owned() })
    }

    /// Returns the canonical identifier text.
    pub fn as_str(&self) -> (r: &str)
        ensures
            r@ == self@,
            is_canonical_token(r@),
    {
        proof {
            use_type_invariant(self);
        }
        self.value.as_str()
    }

    /// Tests the canonical-token grammar shared by IDs and selectors without
    /// normalizing the input.
    pub(crate) fn is_canonical_token(value: &str) -> (r: bool)
        ensures
            r == is_canonical_token(value@),
    {
        let ghost s = value@;
        let mut ok = true;
        let mut first = true;
        let mut last_endpoint = false;
        for c in it: value.chars()
            invariant
                it.seq() == s,
                first == (it.index() == 0),
                ok == ((forall|i: int| 0 <= i < it.index() ==> #[trigger] is_body_char(s[i]))
                    && (it.index() > 0 ==> is_endpoint_char(s[0]))),
                it.index() > 0 ==> last_endpoint == is_endpoint_char(s[it.index() - 1]),
        {
            let ghost k = it.index();
            assert(c == s[k]);
            let body = ('a' <= c && c <= 'z') || ('0' <= c && c <= '9') || c == '-' || c == '_'
                || c == '.' || c == '+';
            let endpoint = ('a' <= c && c <= 'z') || ('0' <= c && c <= '9');
            assert(body == is_body_char(s[k]));
            assert(endpoint == is_endpoint_char(s[k]));
            if first && !endpoint {
                ok = false;
            }
            if !body {
                ok = false;
            }
            last_endpoint = endpoint;
            first = false;
            assert(ok == ((forall|i: int| 0 <= i < k + 1 ==> #[trigger] is_body_char(s[i]))
                && is_endpoint_char(s[0])));
        }
        ok && !first && last_endpoint
    }
}

impl AsRef<str> for ProviderId {
    /// Forwards to [`ProviderId::as_str`].
    fn as_ref(&self) -> (r: &str)
        ensures
            r@ == self@,
            is_canonical_token(r@),
    {
        self.as_str()
    }
}

impl FromStr for ProviderId {
    type Err = ProviderIdError;

    /// Parses an already canonical provider identifier, as
    /// [`ProviderId::new`] does.
    fn from_str(value: &str) -> (r: Result<Self, Self::Err>)
        ensures
            match r {
                Ok(id) => is_canonical_token(value@) && id@ == value@,
                Err(e) => e@ == (if value@.len() == 0 {
                    ProviderIdFailure::Empty { input: value@ }
                } else {
                    ProviderIdFailure::NonCanonical { input: value@ }
                }) && !is_canonical_token(value@),
            },
            r is Ok <==> is_canonical_token(value@),
    {
        ProviderId::new(value)
    }
}

impl Clone for ProviderId {
    fn clone(&self) -> (r: Self)
        ensures
            r@ == self@,
    {
        proof {
            use_type_invariant(self);
        }
        ProviderId { value: self.value.clone() }
    }
}

impl PartialEq for ProviderId {
    fn eq(&self, other: &Self) -> (r: bool) {
        self.value == other.value
    }
}

impl vstd::std_specs::cmp::PartialEqSpecImpl for ProviderId {
    open spec fn obeys_eq_spec() -> bool {
        true
    }

    open spec fn eq_spec(&self, other: &Self) -> bool {
        self@ == other@
    }
}

} // verus!
