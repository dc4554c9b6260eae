//! Normalized provider selectors used for lookup by ID or alias.

use vstd::prelude::*;
use vstd::string::StringExecFns;

use crate::error::{ProviderSelectorError, ProviderSelectorFailure};
use crate::text::{
    ascii_lower, ascii_lower_char, chars_of, is_body_char, is_canonical_token,
    is_white_space_char, lowered_string, trim, trim_bounds, trim_end, trim_start,
};
use crate::ProviderId;

verus! {

/// The normalization applied to selector input: trimming followed by ASCII
/// lowercasing.
pub open spec fn normalize_selector(input: Seq<char>) -> Seq<char> {
    ascii_lower(trim(input))
}

/// What parsing does with raw selector input: the normalized token, or the
/// failure that rejects it.
pub open spec fn parse_selector(input: Seq<char>) -> Result<Seq<char>, ProviderSelectorFailure> {
    let normalized = normalize_selector(input);
    if normalized.len() == 0 {
        Err(ProviderSelectorFailure::Empty { input })
    } else if !is_canonical_token(normalized) {
        Err(ProviderSelectorFailure::Invalid { input, normalized })
    } else {
        Ok(normalized)
    }
}

/// A canonical token is already normalized: parsing it as a selector
/// succeeds and yields the token itself. In particular every canonical
/// provider ID parses as the selector with the same text.
pub proof fn lemma_canonical_token_parses_to_itself(s: Seq<char>)
    requires
        is_canonical_token(s),
    ensures
        trim(s) == s,
        normalize_selector(s) == s,
        parse_selector(s) == Ok::<Seq<char>, ProviderSelectorFailure>(s),
{
    assert(is_body_char(s[0]));
    assert(!is_white_space_char(s[0]));
    assert(trim_start(s) == s);
    assert(is_body_char(s[s.len() - 1]));
    assert(trim_end(s) == s);
    assert forall|i: int| 0 <= i < s.len() implies #[trigger] ascii_lower(s)[i] == s[i] by {
        assert(is_body_char(s[i]));
    }
    assert(ascii_lower(s) == s);
}

/// Parsing is idempotent: the text of a parsed selector parses again to the
/// same selector, and it is a canonical provider ID.
pub proof fn lemma_parse_idempotent(input: Seq<char>)
    requires
        parse_selector(input) is Ok,
    ensures
        is_canonical_token(parse_selector(input)->Ok_0),
        parse_selector(parse_selector(input)->Ok_0) == parse_selector(input),
{
    lemma_canonical_token_parses_to_itself(parse_selector(input)->Ok_0);
}

/// Normalization keeps the trimmed input's length, lowercases each ASCII
/// uppercase letter to the letter 32 code points above it, keeps every other
/// character, and leaves no ASCII uppercase letter.
pub proof fn lemma_normalized_selector_is_lowercase(input: Seq<char>)
    ensures
        normalize_selector(input).len() == trim(input).len(),
        forall|i: int|
            0 <= i < trim(input).len() ==> (if 'A' <= trim(input)[i] && trim(input)[i] <= 'Z' {
                #[trigger] normalize_selector(input)[i] as u32 == trim(input)[i] as u32 + 32
            } else {
                normalize_selector(input)[i] == trim(input)[i]
            }),
        forall|i: int|
            0 <= i < normalize_selector(input).len() ==> !('A' <= #[trigger] normalize_selector(
                input,
            )[i] && normalize_selector(input)[i] <= 'Z'),
{
    crate::text::lemma_ascii_lower(trim(input));
}

/// Normalized selector naming a provider by canonical ID or alias.
///
/// Parsing trims surrounding white space and lowercases ASCII letters; the
/// result must be a canonical token.
#[derive(Debug, Eq, Hash, Ord, PartialOrd)]
pub struct ProviderSelector {
    /// Normalized canonical token.
    value: String,
}

impl View for ProviderSelector {
    type V = Seq<char>;

    closed spec fn view(&self) -> Seq<char> {
        self.value@
    }
}

impl DeepView for ProviderSelector {
    type V = Seq<char>;

    open spec fn deep_view(&self) -> Seq<char> {
        self@
    }
}

impl ProviderSelector {
    #[verifier::type_invariant]
    closed spec fn wf(self) -> bool {
        is_canonical_token(self.value@)
    }

    /// Parses raw selector input: trims it, lowercases ASCII letters and
    /// validates the canonical grammar.
    pub fn parse(input: &str) -> (r: Result<ProviderSelector, ProviderSelectorError>)
        ensures
            match (r, parse_selector(input@)) {
                (Ok(selector), Ok(normalized)) => selector@ == normalized,
                (Err(e), Err(failure)) => e@ == failure,
                _ => false,
            },
    {
        let chars = chars_of(input);
        let (start, end) = trim_bounds(&chars);
        let normalized = lowered_string(&chars, start, end);
        if normalized.as_str().is_empty() {
            return Err(ProviderSelectorError::empty(input));
        }
        if !ProviderId::is_canonical_token(normalized.as_str()) {
            return Err(ProviderSelectorError::invalid(input, normalized));
        }
        Ok(ProviderSelector { value: normalized })
    }

    /// The selector naming a provider by its canonical ID.
    pub fn from_id(id: &ProviderId) -> (r: ProviderSelector)
        ensures
            r@ == id@,
    {
        let text = id.as_str();
        proof {
            lemma_canonical_token_parses_to_itself(text@);
        }
        ProviderSelector { value: text.to_owned() }
    }

    /// Returns the normalized selector text.
    pub fn as_str(&self) -> (r: &str)
        ensures
            r@ == self@,
            is_canonical_token(r@),
    {
        proof {
            use_type_invariant(self);
        }
        self.value.as_str()
    }

    /// Tests whether two selectors hold the same normalized text.
    pub fn same_as(&self, other: &ProviderSelector) -> (r: bool)
        ensures
            r == (self@ == other@),
    {
        self.value == other.value
    }
}

impl Clone for ProviderSelector {
    fn clone(&self) -> (r: Self)
        ensures
            r@ == self@,
    {
        proof {
            use_type_invariant(self);
        }
        ProviderSelector { value: self.value.clone() }
    }
}

impl PartialEq for ProviderSelector {
    fn eq(&self, other: &Self) -> (r: bool) {
        self.value == other.value
    }
}

impl vstd::std_specs::cmp::PartialEqSpecImpl for ProviderSelector {
    open spec fn obeys_eq_spec() -> bool {
        true
    }

    open spec fn eq_spec(&self, other: &Self) -> bool {
        self@ == other@
    }
}

} // verus!

verus! {

/// Diagnostic listing of selectors: each one preceded by `"; "`.
pub open spec fn selector_list_text(selectors: Seq<Seq<char>>) -> Seq<char>
    decreases selectors.len(),
{
    if selectors.len() == 0 {
        Seq::empty()
    } else {
        selector_list_text(selectors.drop_last()) + "; "@ + selectors.last()
    }
}

/// Appends the diagnostic listing of `selectors` to `out`.
pub fn push_selector_list(out: &mut String, selectors: &[ProviderSelector])
    ensures
        final(out)@ == old(out)@ + selector_list_text(selectors.deep_view()),
{
    let ghost start = out@;
    let ghost all = selectors.deep_view();
    let mut index: usize = 0;
    assert(all.take(0) =~= Seq::<Seq<char>>::empty());
    assert(out@ =~= start + selector_list_text(all.take(0)));
    while index < selectors.len()
        invariant
            all == selectors.deep_view(),
            index <= all.len(),
            out@ == start + selector_list_text(all.take(index as int)),
        decreases all.len() - index,
    {
        out.append("; ");
        out.append(selectors[index].as_str());
        assert(all.take(index + 1).drop_last() =~= all.take(index as int));
        assert(out@ =~= start + selector_list_text(all.take(index + 1)));
        index = index + 1;
    }
    assert(all.take(all.len() as int) =~= all);
}

} // verus!
