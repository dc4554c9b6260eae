//! Immutable provider registration metadata.

use vstd::prelude::*;

use crate::error::{ProviderDescriptorError, ProviderDescriptorFailure};
use crate::provider::provider_selector::{lemma_canonical_token_parses_to_itself, parse_selector};
use crate::text::{is_canonical_token, text_eq};
use crate::{ProviderId, ProviderSelector};

verus! {

/// What alias normalization yields for raw alias inputs in order: the
/// normalized aliases, or the first failure met. An input fails when it does
/// not parse, when it normalizes to the canonical ID, or when it normalizes
/// to an alias already accepted.
pub open spec fn normalize_aliases_spec(id: Seq<char>, inputs: Seq<Seq<char>>) -> Result<
    Seq<Seq<char>>,
    ProviderDescriptorFailure,
>
    decreases inputs.len(),
{
    if inputs.len() == 0 {
        Ok(Seq::empty())
    } else {
        match normalize_aliases_spec(id, inputs.drop_last()) {
            Err(failure) => Err(failure),
            Ok(accepted) => match parse_selector(inputs.last()) {
                Err(source) => Err(
                    ProviderDescriptorFailure::InvalidAlias {
                        alias_index: (inputs.len() - 1) as usize,
                        source,
                    },
                ),
                Ok(alias) => if alias == id {
                    Err(ProviderDescriptorFailure::AliasMatchesId { alias })
                } else if accepted.contains(alias) {
                    Err(ProviderDescriptorFailure::DuplicateAlias { alias })
                } else {
                    Ok(accepted.push(alias))
                },
            },
        }
    }
}

/// The aliases of a descriptor with canonical ID `id` are well formed when
/// every alias is a canonical token, no alias equals the ID and no two
/// aliases are equal.
pub open spec fn descriptor_aliases_valid(id: Seq<char>, aliases: Seq<Seq<char>>) -> bool {
    &&& forall|i: int| 0 <= i < aliases.len() ==> is_canonical_token(#[trigger] aliases[i])
    &&& forall|i: int| 0 <= i < aliases.len() ==> #[trigger] aliases[i] != id
    &&& forall|i: int, j: int|
        0 <= i < j < aliases.len() ==> #[trigger] aliases[i] != #[trigger] aliases[j]
}

/// Static descriptor literals are valid when the ID and every alias are
/// canonical tokens, no alias equals the ID and no two aliases are equal.
pub open spec fn static_literals_valid(id: Seq<char>, aliases: Seq<Seq<char>>) -> bool {
    &&& is_canonical_token(id)
    &&& forall|i: int| 0 <= i < aliases.len() ==> is_canonical_token(#[trigger] aliases[i])
    &&& forall|i: int| 0 <= i < aliases.len() ==> #[trigger] aliases[i] != id
    &&& forall|i: int, j: int|
        0 <= i < j < aliases.len() ==> #[trigger] aliases[i] != #[trigger] aliases[j]
}

/// Mathematical content of a [`ProviderDescriptor`].
pub struct DescriptorView {
    pub id: Seq<char>,
    pub aliases: Seq<Seq<char>>,
    pub priority: i32,
}

/// Immutable metadata that identifies and ranks a registered provider.
///
/// Its ID and aliases control explicit lookup, while its priority controls
/// automatic selection order.
#[derive(Debug)]
pub struct ProviderDescriptor {
    /// Canonical identifier unique within one registry and service family.
    id: ProviderId,
    /// Normalized alternative selectors that resolve to `id`.
    aliases: Vec<ProviderSelector>,
    /// Descending sort key used during automatic provider selection.
    priority: i32,
}

impl View for ProviderDescriptor {
    type V = DescriptorView;

    closed spec fn view(&self) -> DescriptorView {
        DescriptorView { id: self.id@, aliases: self.aliases.deep_view(), priority: self.priority }
    }
}

impl ProviderDescriptor {
    /// Every descriptor's aliases are canonical, distinct and never its ID.
    #[verifier::type_invariant]
    closed spec fn wf(self) -> bool {
        descriptor_aliases_valid(self.id@, self.aliases.deep_view())
    }

    /// Creates metadata for a canonical provider ID, with no aliases and
    /// priority zero.
    pub fn new(id: ProviderId) -> (r: Self)
        ensures
            r@ == (DescriptorView { id: id@, aliases: Seq::empty(), priority: 0 }),
    {
        let aliases: Vec<ProviderSelector> = Vec::new();
        assert(aliases.deep_view() =~= Seq::<Seq<char>>::empty());
        ProviderDescriptor { id, aliases, priority: 0 }
    }

    /// Returns the canonical provider ID.
    pub fn id(&self) -> (r: &ProviderId)
        ensures
            r@ == self@.id,
    {
        &self.id
    }

    /// Returns the normalized aliases in descriptor order.
    pub fn aliases(&self) -> (r: &[ProviderSelector])
        ensures
            r.deep_view() == self@.aliases,
            descriptor_aliases_valid(self@.id, r.deep_view()),
    {
        proof {
            use_type_invariant(self);
        }
        self.aliases.as_slice()
    }

    /// Replaces the aliases with the normalized form of `aliases`.
    ///
    /// Each raw alias is trimmed, lowercased and validated in order. The
    /// first alias that fails to parse, that normalizes to the canonical ID,
    /// or that repeats an earlier normalized alias is reported as the error.
    pub fn with_aliases(self, aliases: &[&str]) -> (r: Result<Self, ProviderDescriptorError>)
        ensures
            match (r, normalize_aliases_spec(self@.id, aliases.deep_view())) {
                (Ok(d), Ok(normalized)) => d@ == (DescriptorView {
                    id: self@.id,
                    aliases: normalized,
                    priority: self@.priority,
                }),
                (Err(e), Err(failure)) => e@ == failure,
                _ => false,
            },
    {
        let mut this = self;
        match normalize_aliases(&this.id, aliases) {
            Ok(normalized) => {
                proof {
                    lemma_normalized_aliases_properties(this.id@, aliases.deep_view());
                }
                this.aliases = normalized;
                Ok(this)
            },
            Err(e) => Err(e),
        }
    }

    /// Returns the priority used to order automatic selection candidates.
    pub fn priority(&self) -> (r: i32)
        ensures
            r == self@.priority,
    {
        self.priority
    }

    /// Sets the priority used by automatic selection.
    pub fn with_priority(self, priority: i32) -> (r: Self)
        ensures
            r@ == (DescriptorView { priority, ..self@ }),
    {
        let mut this = self;
        proof {
            use_type_invariant(&this);
        }
        this.priority = priority;
        this
    }

    /// Reports whether static descriptor literals satisfy the descriptor
    /// invariants: every literal is canonical, no alias matches `id`, and no
    /// aliases duplicate one another.
    pub fn __are_valid_static_literals(id: &str, aliases: &[&str]) -> (r: bool)
        ensures
            r == static_literals_valid(id@, aliases.deep_view()),
    {
        if !ProviderId::is_canonical_token(id) {
            return false;
        }
        let ghost lits = aliases.deep_view();
        let mut alias_index: usize = 0;
        while alias_index < aliases.len()
            invariant
                lits == aliases.deep_view(),
                alias_index <= lits.len(),
                is_canonical_token(id@),
                forall|i: int| 0 <= i < alias_index ==> is_canonical_token(#[trigger] lits[i]),
                forall|i: int| 0 <= i < alias_index ==> #[trigger] lits[i] != id@,
                forall|i: int, j: int|
                    0 <= i < j < alias_index ==> #[trigger] lits[i] != #[trigger] lits[j],
            decreases lits.len() - alias_index,
        {
            let alias = aliases[alias_index];
            assert(alias@ == lits[alias_index as int]);
            if !ProviderId::is_canonical_token(alias) || text_eq(alias, id) {
                return false;
            }
            let mut previous_index: usize = 0;
            while previous_index < alias_index
                invariant
                    lits == aliases.deep_view(),
                    alias_index < lits.len(),
                    alias@ == lits[alias_index as int],
                    previous_index <= alias_index,
                    forall|i: int| 0 <= i < previous_index ==> #[trigger] lits[i] != alias@,
                decreases alias_index - previous_index,
            {
                if text_eq(alias, aliases[previous_index]) {
                    assert(lits[previous_index as int] == lits[alias_index as int]);
                    return false;
                }
                previous_index = previous_index + 1;
            }
            alias_index = alias_index + 1;
        }
        true
    }

    /// Creates a descriptor from literals that satisfy
    /// [`ProviderDescriptor::__are_valid_static_literals`].
    pub fn __from_static_literals(id: &str, aliases: &[&str], priority: i32) -> (r: Self)
        requires
            static_literals_valid(id@, aliases.deep_view()),
        ensures
            r@ == (DescriptorView { id: id@, aliases: aliases.deep_view(), priority }),
    {
        proof {
            lemma_static_literals_normalize_to_themselves(id@, aliases.deep_view());
        }
        let descriptor = match ProviderId::new(id) {
            Ok(provider_id) => ProviderDescriptor::new(provider_id),
            Err(_) => vstd::pervasive::unreached(),
        };
        let descriptor = match descriptor.with_aliases(aliases) {
            Ok(d) => d,
            Err(_) => vstd::pervasive::unreached(),
        };
        descriptor.with_priority(priority)
    }
}

impl Clone for ProviderDescriptor {
    fn clone(&self) -> (r: Self)
        ensures
            r@ == self@,
    {
        proof {
            use_type_invariant(self);
        }
        let mut aliases: Vec<ProviderSelector> = Vec::new();
        let mut index: usize = 0;
        while index < self.aliases.len()
            invariant
                index <= self.aliases@.len(),
                aliases.deep_view() == self.aliases.deep_view().take(index as int),
            decreases self.aliases@.len() - index,
        {
            let ghost before = aliases.deep_view();
            aliases.push(self.aliases[index].clone());
            assert(aliases.deep_view() =~= before.push(self.aliases@[index as int]@));
            assert(self.aliases.deep_view().take(index + 1) =~= self.aliases.deep_view().take(
                index as int,
            ).push(self.aliases@[index as int]@));
            index = index + 1;
        }
        assert(self.aliases.deep_view().take(index as int) =~= self.aliases.deep_view());
        ProviderDescriptor { id: self.id.clone(), aliases, priority: self.priority }
    }
}

impl PartialEq for ProviderDescriptor {
    fn eq(&self, other: &Self) -> (r: bool) {
        if self.priority != other.priority || self.id != other.id {
            return false;
        }
        if self.aliases.len() != other.aliases.len() {
            assert(self.aliases.deep_view().len() != other.aliases.deep_view().len());
            return false;
        }
        let mut index: usize = 0;
        while index < self.aliases.len()
            invariant
                self.aliases@.len() == other.aliases@.len(),
                index <= self.aliases@.len(),
                forall|i: int| 0 <= i < index ==> self.aliases@[i]@ == other.aliases@[i]@,
            decreases self.aliases@.len() - index,
        {
            if !self.aliases[index].same_as(&other.aliases[index]) {
                assert(self.aliases.deep_view()[index as int] != other.aliases.deep_view()[index as int]);
                return false;
            }
            index = index + 1;
        }
        assert(self.aliases.deep_view() =~= other.aliases.deep_view());
        true
    }
}

impl vstd::std_specs::cmp::PartialEqSpecImpl for ProviderDescriptor {
    open spec fn obeys_eq_spec() -> bool {
        true
    }

    open spec fn eq_spec(&self, other: &Self) -> bool {
        self@ == other@
    }
}

impl Eq for ProviderDescriptor {
}

/// Normalizes and validates raw alias inputs for one canonical provider ID.
fn normalize_aliases(id: &ProviderId, inputs: &[&str]) -> (r: Result<
    Vec<ProviderSelector>,
    ProviderDescriptorError,
>)
    ensures
        match (r, normalize_aliases_spec(id@, inputs.deep_view())) {
            (Ok(v), Ok(normalized)) => v.deep_view() == normalized,
            (Err(e), Err(failure)) => e@ == failure,
            _ => false,
        },
{
    let ghost raw = inputs.deep_view();
    let canonical_selector = ProviderSelector::from_id(id);
    let mut normalized: Vec<ProviderSelector> = Vec::new();
    let mut alias_index: usize = 0;
    assert(raw.take(0) =~= Seq::<Seq<char>>::empty());
    assert(normalized.deep_view() =~= Seq::<Seq<char>>::empty());
    while alias_index < inputs.len()
        invariant
            raw == inputs.deep_view(),
            alias_index <= raw.len(),
            canonical_selector@ == id@,
            normalize_aliases_spec(id@, raw.take(alias_index as int)) == Ok::<
                Seq<Seq<char>>,
                ProviderDescriptorFailure,
            >(normalized.deep_view()),
        decreases raw.len() - alias_index,
    {
        let ghost prefix = raw.take(alias_index as int);
        let ghost next = raw.take(alias_index + 1);
        assert(next.drop_last() == prefix);
        assert(next.last() == inputs[alias_index as int]@);
        let input = inputs[alias_index];
        let alias = match ProviderSelector::parse(input) {
            Ok(alias) => alias,
            Err(source) => {
                proof {
                    lemma_normalize_failure_persists(id@, raw, alias_index as int + 1);
                }
                return Err(ProviderDescriptorError::invalid_alias(alias_index, source));
            },
        };
        if alias.same_as(&canonical_selector) {
            proof {
                lemma_normalize_failure_persists(id@, raw, alias_index as int + 1);
            }
            return Err(ProviderDescriptorError::alias_matches_id(alias.as_str()));
        }
        let mut seen: usize = 0;
        while seen < normalized.len()
            invariant
                raw == inputs.deep_view(),
                alias_index < raw.len(),
                prefix == raw.take(alias_index as int),
                next == raw.take(alias_index + 1),
                next.drop_last() == prefix,
                normalize_aliases_spec(id@, prefix) == Ok::<
                    Seq<Seq<char>>,
                    ProviderDescriptorFailure,
                >(normalized.deep_view()),
                parse_selector(next.last()) == Ok::<Seq<char>, crate::error::ProviderSelectorFailure>(alias@),
                alias@ != id@,
                seen <= normalized@.len(),
                forall|i: int| 0 <= i < seen ==> normalized.deep_view()[i] != alias@,
            decreases normalized@.len() - seen,
        {
            if normalized[seen].same_as(&alias) {
                proof {
                    assert(normalized.deep_view()[seen as int] == alias@);
                    assert(normalized.deep_view().contains(alias@));
                    lemma_normalize_failure_persists(id@, raw, alias_index as int + 1);
                }
                return Err(ProviderDescriptorError::duplicate_alias(alias.as_str()));
            }
            seen = seen + 1;
        }
        assert(!normalized.deep_view().contains(alias@));
        let ghost before = normalized.deep_view();
        normalized.push(alias);
        assert(normalized.deep_view() =~= before.push(alias@));
        alias_index = alias_index + 1;
    }
    assert(raw.take(raw.len() as int) =~= raw);
    Ok(normalized)
}

/// Once alias normalization fails on a prefix, it fails the same way on
/// every longer prefix.
proof fn lemma_normalize_failure_persists(id: Seq<char>, inputs: Seq<Seq<char>>, k: int)
    requires
        0 <= k <= inputs.len(),
        normalize_aliases_spec(id, inputs.take(k)) is Err,
    ensures
        normalize_aliases_spec(id, inputs) == normalize_aliases_spec(id, inputs.take(k)),
    decreases inputs.len() - k,
{
    if k < inputs.len() {
        let longer = inputs.take(k + 1);
        assert(longer.drop_last() == inputs.take(k));
        lemma_normalize_failure_persists(id, inputs, k + 1);
    } else {
        assert(inputs.take(k) == inputs);
    }
}

/// Valid static literals are already normalized: alias normalization
/// accepts them unchanged.
pub proof fn lemma_static_literals_normalize_to_themselves(id: Seq<char>, aliases: Seq<Seq<char>>)
    requires
        static_literals_valid(id, aliases),
    ensures
        normalize_aliases_spec(id, aliases) == Ok::<Seq<Seq<char>>, ProviderDescriptorFailure>(
            aliases,
        ),
    decreases aliases.len(),
{
    if aliases.len() > 0 {
        let prefix = aliases.drop_last();
        assert(static_literals_valid(id, prefix)) by {
            assert forall|i: int, j: int| 0 <= i < j < prefix.len() implies #[trigger] prefix[i]
                != #[trigger] prefix[j] by {
                assert(prefix[i] == aliases[i] && prefix[j] == aliases[j]);
            }
        }
        lemma_static_literals_normalize_to_themselves(id, prefix);
        let last = aliases.last();
        assert(is_canonical_token(aliases[aliases.len() - 1]));
        lemma_canonical_token_parses_to_itself(last);
        assert(last != id);
        if prefix.contains(last) {
            let j = choose|j: int| 0 <= j < prefix.len() && prefix[j] == last;
            assert(aliases[j] != aliases[aliases.len() - 1]);
        }
        assert(prefix.push(last) == aliases);
    } else {
        assert(aliases =~= Seq::<Seq<char>>::empty());
    }
}

} // verus!

verus! {

/// Successful alias normalization keeps one alias per input, in input
/// order; each alias is the parsed form of its input, differs from the
/// canonical ID, and no two aliases are equal.
pub proof fn lemma_normalized_aliases_properties(id: Seq<char>, inputs: Seq<Seq<char>>)
    requires
        normalize_aliases_spec(id, inputs) is Ok,
    ensures
        ({
            let aliases = normalize_aliases_spec(id, inputs)->Ok_0;
            &&& aliases.len() == inputs.len()
            &&& forall|i: int|
                0 <= i < inputs.len() ==> parse_selector(#[trigger] inputs[i]) == Ok::<
                    Seq<char>,
                    crate::error::ProviderSelectorFailure,
                >(aliases[i])
            &&& forall|i: int| 0 <= i < aliases.len() ==> #[trigger] aliases[i] != id
            &&& forall|i: int, j: int|
                0 <= i < j < aliases.len() ==> #[trigger] aliases[i] != #[trigger] aliases[j]
            &&& descriptor_aliases_valid(id, aliases)
        }),
    decreases inputs.len(),
{
    if inputs.len() > 0 {
        let prefix = inputs.drop_last();
        lemma_normalized_aliases_properties(id, prefix);
        let accepted = normalize_aliases_spec(id, prefix)->Ok_0;
        let aliases = normalize_aliases_spec(id, inputs)->Ok_0;
        let alias = parse_selector(inputs.last())->Ok_0;
        assert(aliases == accepted.push(alias));
        assert forall|i: int|
            0 <= i < inputs.len() implies parse_selector(#[trigger] inputs[i]) == Ok::<
                Seq<char>,
                crate::error::ProviderSelectorFailure,
            >(aliases[i]) by {
            if i < prefix.len() {
                assert(inputs[i] == prefix[i]);
            }
        }
        assert forall|i: int| 0 <= i < aliases.len() implies is_canonical_token(
            #[trigger] aliases[i],
        ) by {
            if i < prefix.len() {
                assert(accepted[i] == aliases[i]);
            }
        }
        assert forall|i: int, j: int| 0 <= i < j < aliases.len() implies #[trigger] aliases[i]
            != #[trigger] aliases[j] by {
            if j == aliases.len() - 1 {
                assert(accepted[i] == aliases[i]);
                if aliases[i] == aliases[j] {
                    assert(accepted.contains(alias));
                }
            } else {
                assert(accepted[i] == aliases[i] && accepted[j] == aliases[j]);
            }
        }
    }
}

} // verus!
