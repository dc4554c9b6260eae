//! Linear reference model of provider registration, candidate resolution
//! and fallback traversal.
//!
//! Ownership lookup scans canonical IDs and aliases in registration order,
//! without any index; it states what a registry must answer.

use vstd::prelude::*;
use vstd::string::StringExecFns;

use crate::error::ProviderFailureKind;
use crate::{
    normalize_aliases_spec, parse_selector, DescriptorView, FallbackPolicy, ProviderCreationTermination, ProviderDescriptor,
    ProviderId,
};
use crate::text::is_canonical_token;
use crate::text::{
    decimal, decimal_string, lemma_text_lt_asymmetric, lemma_text_lt_total,
    lemma_text_lt_transitive, text_eq, text_less, text_lt,
};

verus! {

/// One registered provider of the model: its canonical ID, an optional
/// alias, its automatic-selection priority, and the creation outcome it
/// reports (`0` success; `1`..=`4` unsupported, unavailable, invalid
/// configuration, initialization failure).
#[derive(Debug)]
pub struct ModelEntry {
    pub id: String,
    pub alias: Option<String>,
    pub priority: i32,
    pub outcome: u8,
}

/// Mathematical content of a [`ModelEntry`].
pub struct EntryView {
    pub id: Seq<char>,
    pub alias: Option<Seq<char>>,
    pub priority: i32,
    pub outcome: u8,
}

impl View for ModelEntry {
    type V = EntryView;

    open spec fn view(&self) -> EntryView {
        EntryView {
            id: self.id@,
            alias: match self.alias {
                Some(a) => Some(a@),
                None => None,
            },
            priority: self.priority,
            outcome: self.outcome,
        }
    }
}

impl Clone for ModelEntry {
    fn clone(&self) -> (r: Self)
        ensures
            r@ == self@,
    {
        let alias = match &self.alias {
            Some(a) => Some(a.clone()),
            None => None,
        };
        ModelEntry { id: self.id.clone(), alias, priority: self.priority, outcome: self.outcome }
    }
}

impl ModelEntry {
    /// Builds the registration metadata of the entry: its canonical ID, its
    /// alias in normalized form, and its priority.
    pub fn descriptor(&self) -> (r: ProviderDescriptor)
        requires
            is_canonical_token(self.id@),
            self.alias matches Some(alias) ==> parse_selector(alias@) is Ok && parse_selector(
                alias@,
            )->Ok_0 != self.id@,
        ensures
            r@ == (DescriptorView {
                id: self.id@,
                aliases: match self.alias {
                    Some(alias) => seq![parse_selector(alias@)->Ok_0],
                    None => Seq::empty(),
                },
                priority: self.priority,
            }),
    {
        let id = match ProviderId::new(self.id.as_str()) {
            Ok(id) => id,
            Err(_) => vstd::pervasive::unreached(),
        };
        let mut inputs: Vec<&str> = Vec::new();
        match &self.alias {
            Some(alias) => inputs.push(alias.as_str()),
            None => {},
        }
        let slice = inputs.as_slice();
        let ghost raw = slice.deep_view();
        proof {
            if self.alias is Some {
                assert(raw =~= seq![self.alias->Some_0@]);
                assert(raw.drop_last() =~= Seq::<Seq<char>>::empty());
                assert(normalize_aliases_spec(self.id@, raw.drop_last()) == Ok::<
                    Seq<Seq<char>>,
                    crate::error::ProviderDescriptorFailure,
                >(Seq::empty()));
                assert(!Seq::<Seq<char>>::empty().contains(parse_selector(self.alias->Some_0@)->Ok_0));
                assert(Seq::<Seq<char>>::empty().push(parse_selector(self.alias->Some_0@)->Ok_0)
                    =~= seq![parse_selector(self.alias->Some_0@)->Ok_0]);
            } else {
                assert(raw =~= Seq::<Seq<char>>::empty());
            }
        }
        let descriptor = ProviderDescriptor::new(id).with_priority(self.priority);
        match descriptor.with_aliases(slice) {
            Ok(d) => d,
            Err(_) => vstd::pervasive::unreached(),
        }
    }
}

/// The views of a slice of entries.
pub open spec fn entry_views(entries: Seq<ModelEntry>) -> Seq<EntryView> {
    entries.map_values(|e: ModelEntry| e@)
}

/// Whether `entry` owns `selector` as its canonical ID or its alias.
pub open spec fn owns(entry: EntryView, selector: Seq<char>) -> bool {
    entry.id == selector || entry.alias == Some(selector)
}

/// The first entry, in registration order, that owns `selector`.
pub open spec fn first_owner(entries: Seq<EntryView>, selector: Seq<char>) -> Option<EntryView>
    decreases entries.len(),
{
    if entries.len() == 0 {
        None
    } else if owns(entries[0], selector) {
        Some(entries[0])
    } else {
        first_owner(entries.drop_first(), selector)
    }
}

/// Whether registering `entry` succeeds: neither its ID nor its alias is
/// owned by an earlier registration.
pub open spec fn registration_accepted(entries: Seq<EntryView>, entry: EntryView) -> bool {
    &&& first_owner(entries, entry.id) is None
    &&& match entry.alias {
        Some(alias) => first_owner(entries, alias) is None,
        None => true,
    }
}

/// Whether one entry owns `selector`.
fn entry_owns(entry: &ModelEntry, selector: &str) -> (r: bool)
    ensures
        r == owns(entry@, selector@),
{
    if text_eq(entry.id.as_str(), selector) {
        return true;
    }
    match &entry.alias {
        Some(alias) => text_eq(alias.as_str(), selector),
        None => false,
    }
}

/// Finds the first entry, in registration order, that owns `selector` as
/// its canonical ID or alias.
pub fn owner<'a>(entries: &'a [ModelEntry], selector: &str) -> (r: Option<&'a ModelEntry>)
    ensures
        match (r, first_owner(entry_views(entries@), selector@)) {
            (Some(e), Some(v)) => e@ == v,
            (None, None) => true,
            _ => false,
        },
{
    let ghost views = entry_views(entries@);
    let mut index: usize = 0;
    assert(views.skip(0) =~= views);
    while index < entries.len()
        invariant
            views == entry_views(entries@),
            index <= entries@.len(),
            first_owner(views, selector@) == first_owner(views.skip(index as int), selector@),
        decreases entries@.len() - index,
    {
        let ghost rest = views.skip(index as int);
        assert(rest[0] == entries@[index as int]@);
        assert(rest.drop_first() =~= views.skip(index + 1));
        if entry_owns(&entries[index], selector) {
            return Some(&entries[index]);
        }
        index = index + 1;
    }
    assert(views.skip(index as int).len() == 0);
    None
}

/// Whether registering `entry` after `entries` succeeds.
pub fn accepts_registration(entries: &[ModelEntry], entry: &ModelEntry) -> (r: bool)
    ensures
        r == registration_accepted(entry_views(entries@), entry@),
{
    if owner(entries, entry.id.as_str()).is_some() {
        return false;
    }
    match &entry.alias {
        Some(alias) => owner(entries, alias.as_str()).is_none(),
        None => true,
    }
}

/// The selector text derived from one input byte: `provider-N` for values
/// below 128 and `alias-N` otherwise, with `N` the value modulo 16.
pub open spec fn selector_text(value: u8) -> Seq<char> {
    (if value < 128 {
        "provider"@
    } else {
        "alias"@
    }) + "-"@ + decimal((value % 16) as nat)
}

/// Creates deliberate canonical/alias collisions and unknown selectors.
pub fn selector(value: u8) -> (r: String)
    ensures
        r@ == selector_text(value),
{
    let mut s = if value < 128 {
        "provider".to_owned()
    } else {
        "alias".to_owned()
    };
    s.append("-");
    let digits = decimal_string((value % 16) as u64);
    s.append(digits.as_str());
    s
}


/// Automatic selection order: higher priority first, then ascending
/// canonical ID.
pub open spec fn auto_before(a: EntryView, b: EntryView) -> bool {
    a.priority > b.priority || (a.priority == b.priority && text_lt(a.id, b.id))
}

/// Entries of equal rank in automatic order.
pub open spec fn same_rank(a: EntryView, b: EntryView) -> bool {
    a.priority == b.priority && a.id == b.id
}

/// `perm` maps each position of `sorted` to a distinct position of
/// `entries` holding the same entry, keeping entries of equal rank in their
/// original relative order.
pub open spec fn stable_witness(perm: Seq<int>, sorted: Seq<EntryView>, entries: Seq<EntryView>) -> bool {
    &&& perm.len() == entries.len()
    &&& sorted.len() == entries.len()
    &&& forall|k: int|
        0 <= k < perm.len() ==> 0 <= #[trigger] perm[k] < entries.len() && sorted[k]
            == entries[perm[k]]
    &&& forall|k: int, l: int| 0 <= k < l < perm.len() ==> #[trigger] perm[k] != #[trigger] perm[l]
    &&& forall|k: int, l: int|
        0 <= k < l < perm.len() && same_rank(#[trigger] sorted[k], #[trigger] sorted[l]) ==> perm[k]
            < perm[l]
}

/// `sorted` is the stable sort of `entries` by automatic selection order.
pub open spec fn is_stable_auto_order(sorted: Seq<EntryView>, entries: Seq<EntryView>) -> bool {
    &&& sorted.len() == entries.len()
    &&& forall|k: int, l: int|
        0 <= k < l < sorted.len() ==> !auto_before(#[trigger] sorted[l], #[trigger] sorted[k])
    &&& exists|perm: Seq<int>| stable_witness(perm, sorted, entries)
}

/// Automatic order is a strict order: irreflexive on equal ranks and
/// asymmetric.
pub proof fn lemma_auto_before_asymmetric(a: EntryView, b: EntryView)
    ensures
        auto_before(a, b) ==> !auto_before(b, a),
        same_rank(a, b) ==> !auto_before(a, b),
{
    lemma_text_lt_asymmetric(a.id, b.id);
}

/// Automatic order is transitive.
pub proof fn lemma_auto_before_transitive(a: EntryView, b: EntryView, c: EntryView)
    requires
        auto_before(a, b),
        auto_before(b, c),
    ensures
        auto_before(a, c),
{
    if a.priority == b.priority && b.priority == c.priority {
        lemma_text_lt_transitive(a.id, b.id, c.id);
    }
}

/// Entries of different rank are ordered one way or the other.
pub proof fn lemma_auto_before_total(a: EntryView, b: EntryView)
    ensures
        same_rank(a, b) || auto_before(a, b) || auto_before(b, a),
{
    if a.priority == b.priority && a.id != b.id {
        lemma_text_lt_total(a.id, b.id);
    }
}

/// "May precede" is transitive: if `y` is not after `x` and `z` is not after
/// `y`, then `z` is not after `x`.
proof fn lemma_not_before_transitive(x: EntryView, y: EntryView, z: EntryView)
    requires
        !auto_before(x, y),
        !auto_before(y, z),
    ensures
        !auto_before(x, z),
{
    lemma_auto_before_total(x, y);
    if auto_before(x, z) {
        if auto_before(y, x) {
            lemma_auto_before_transitive(y, x, z);
        }
    }
}

/// Compares two entries in automatic selection order.
fn entry_before(a: &ModelEntry, b: &ModelEntry) -> (r: bool)
    ensures
        r == auto_before(a@, b@),
{
    a.priority > b.priority || (a.priority == b.priority && text_less(a.id.as_str(), b.id.as_str()))
}

/// Sorts entries stably into automatic selection order.
pub fn auto_order(entries: &[ModelEntry]) -> (r: Vec<ModelEntry>)
    ensures
        is_stable_auto_order(entry_views(r@), entry_views(entries@)),
{
    let ghost ev = entry_views(entries@);
    let n = entries.len();
    let mut order: Vec<usize> = Vec::new();
    let mut i: usize = 0;
    while i < n
        invariant
            n == entries@.len(),
            ev == entry_views(entries@),
            i <= n,
            order@.len() == i,
            forall|k: int| 0 <= k < i ==> #[trigger] order@[k] < i,
            forall|k: int, l: int| 0 <= k < l < i ==> #[trigger] order@[k] != #[trigger] order@[l],
            forall|k: int, l: int|
                0 <= k < l < i ==> !auto_before(
                    ev[#[trigger] order@[l] as int],
                    ev[#[trigger] order@[k] as int],
                ),
            forall|k: int, l: int|
                0 <= k < l < i && same_rank(ev[#[trigger] order@[k] as int], ev[#[trigger] order@[l] as int])
                    ==> order@[k] < order@[l],
        decreases n - i,
    {
        let mut p: usize = i;
        while p > 0 && entry_before(&entries[i], &entries[order[p - 1]])
            invariant
                n == entries@.len(),
                ev == entry_views(entries@),
                i < n,
                p <= i,
                order@.len() == i,
                forall|k: int| 0 <= k < i ==> #[trigger] order@[k] < i,
                forall|q: int| p <= q < i ==> auto_before(ev[i as int], ev[#[trigger] order@[q] as int]),
            decreases p,
        {
            p = p - 1;
        }
        let ghost old_order = order@;
        order.insert(p, i);
        proof {
            assert(forall|q: int| 0 <= q < p ==> order@[q] == old_order[q]);
            assert(order@[p as int] == i);
            assert(forall|q: int| p < q <= i ==> order@[q] == old_order[q - 1]);
            assert forall|k: int, l: int| 0 <= k < l < i + 1 implies !auto_before(
                ev[#[trigger] order@[l] as int],
                ev[#[trigger] order@[k] as int],
            ) by {
                if l == p {
                    if k < p - 1 {
                        assert(!auto_before(ev[old_order[p - 1] as int], ev[old_order[k] as int]));
                        lemma_not_before_transitive(
                            ev[i as int],
                            ev[old_order[p - 1] as int],
                            ev[old_order[k] as int],
                        );
                    }
                } else if k == p {
                    lemma_auto_before_asymmetric(ev[i as int], ev[old_order[l - 1] as int]);
                } else {
                    let ok = if k < p { k } else { k - 1 };
                    let ol = if l < p { l } else { l - 1 };
                    assert(order@[k] == old_order[ok] && order@[l] == old_order[ol]);
                }
            }
            assert forall|k: int, l: int|
                0 <= k < l < i + 1 && same_rank(
                    ev[#[trigger] order@[k] as int],
                    ev[#[trigger] order@[l] as int],
                ) implies order@[k] < order@[l] by {
                if k == p {
                    lemma_auto_before_asymmetric(ev[i as int], ev[old_order[l - 1] as int]);
                } else if l != p {
                    let ok = if k < p { k } else { k - 1 };
                    let ol = if l < p { l } else { l - 1 };
                    assert(order@[k] == old_order[ok] && order@[l] == old_order[ol]);
                }
            }
            assert forall|k: int, l: int| 0 <= k < l < i + 1 implies #[trigger] order@[k]
                != #[trigger] order@[l] by {
                if k != p && l != p {
                    let ok = if k < p { k } else { k - 1 };
                    let ol = if l < p { l } else { l - 1 };
                    assert(order@[k] == old_order[ok] && order@[l] == old_order[ol]);
                }
            }
        }
        i = i + 1;
    }
    let mut sorted: Vec<ModelEntry> = Vec::new();
    let mut k: usize = 0;
    while k < n
        invariant
            n == entries@.len(),
            ev == entry_views(entries@),
            order@.len() == n,
            forall|j: int| 0 <= j < n ==> #[trigger] order@[j] < n,
            k <= n,
            sorted@.len() == k,
            forall|j: int| 0 <= j < k ==> (#[trigger] sorted@[j])@ == ev[order@[j] as int],
        decreases n - k,
    {
        let e = entries[order[k]].clone();
        sorted.push(e);
        k = k + 1;
    }
    proof {
        let sv = entry_views(sorted@);
        let perm = order@.map_values(|x: usize| x as int);
        assert forall|j: int| 0 <= j < n implies sv[j] == ev[perm[j]] by {
            assert(sorted@[j]@ == ev[order@[j] as int]);
        }
        assert(stable_witness(perm, sv, ev));
    }
    sorted
}


/// A resolution request: a selection mode (`0` automatic, `1` named by the
/// first selector, `2` strict chain, `3` chain allowing missing providers),
/// its selector inputs, and a fallback policy code (`0` never, `1` on
/// absence, `2` on any error).
#[derive(Clone, Debug)]
pub struct Request {
    pub mode: u8,
    pub selectors: Vec<String>,
    pub policy: u8,
}

/// The text views of a sequence of strings.
pub open spec fn string_views(strings: Seq<String>) -> Seq<Seq<char>> {
    strings.map_values(|s: String| s@)
}

/// Whether some entry of `entries` has canonical ID `id`.
pub open spec fn has_id(entries: Seq<EntryView>, id: Seq<char>) -> bool {
    exists|k: int| 0 <= k < entries.len() && #[trigger] entries[k].id == id
}

/// The providers reached by `selectors` in order, each provider listed once
/// at its first occurrence.
pub open spec fn selected_owners(entries: Seq<EntryView>, selectors: Seq<Seq<char>>) -> Seq<EntryView>
    decreases selectors.len(),
{
    if selectors.len() == 0 {
        Seq::empty()
    } else {
        let earlier = selected_owners(entries, selectors.drop_last());
        match first_owner(entries, selectors.last()) {
            Some(entry) => if has_id(earlier, entry.id) {
                earlier
            } else {
                earlier.push(entry)
            },
            None => earlier,
        }
    }
}

/// The selectors, in order, that no entry owns.
pub open spec fn missing_selectors(entries: Seq<EntryView>, selectors: Seq<Seq<char>>) -> Seq<Seq<char>>
    decreases selectors.len(),
{
    if selectors.len() == 0 {
        Seq::empty()
    } else {
        let earlier = missing_selectors(entries, selectors.drop_last());
        if first_owner(entries, selectors.last()) is None {
            earlier.push(selectors.last())
        } else {
            earlier
        }
    }
}

/// The selectors a request consults: only the first one for a named
/// selection, all of them otherwise.
pub open spec fn requested_selectors(mode: u8, selectors: Seq<Seq<char>>) -> Seq<Seq<char>> {
    if mode == 1 {
        selectors.take(1)
    } else {
        selectors
    }
}

/// The outcome of an explicit (named or chained) request: the reached
/// providers, or `(1, missing)` when a strict request names unknown
/// selectors, or `(2, requested)` when no provider is reached at all.
pub open spec fn explicit_candidates(entries: Seq<EntryView>, mode: u8, selectors: Seq<Seq<char>>) -> Result<
    Seq<EntryView>,
    (u8, Seq<Seq<char>>),
> {
    let requested = requested_selectors(mode, selectors);
    let missing = missing_selectors(entries, requested);
    let selected = selected_owners(entries, requested);
    if mode != 3 && missing.len() > 0 {
        Err((1u8, missing))
    } else if selected.len() == 0 {
        Err((2u8, requested))
    } else {
        Ok(selected)
    }
}

/// Collects the providers reached by `selectors` and the selectors that
/// reach none.
fn reach(entries: &[ModelEntry], selectors: &[String]) -> (r: (Vec<ModelEntry>, Vec<String>))
    ensures
        entry_views(r.0@) == selected_owners(entry_views(entries@), string_views(selectors@)),
        string_views(r.1@) == missing_selectors(entry_views(entries@), string_views(selectors@)),
{
    let ghost ev = entry_views(entries@);
    let ghost sv = string_views(selectors@);
    let mut selected: Vec<ModelEntry> = Vec::new();
    let mut missing: Vec<String> = Vec::new();
    let mut i: usize = 0;
    assert(sv.take(0) =~= Seq::<Seq<char>>::empty());
    assert(entry_views(selected@) =~= Seq::<EntryView>::empty());
    assert(string_views(missing@) =~= Seq::<Seq<char>>::empty());
    while i < selectors.len()
        invariant
            ev == entry_views(entries@),
            sv == string_views(selectors@),
            i <= sv.len(),
            entry_views(selected@) == selected_owners(ev, sv.take(i as int)),
            string_views(missing@) == missing_selectors(ev, sv.take(i as int)),
        decreases sv.len() - i,
    {
        let ghost prefix = sv.take(i + 1);
        assert(prefix.drop_last() =~= sv.take(i as int));
        assert(prefix.last() == selectors@[i as int]@);
        let selector = &selectors[i];
        match owner(entries, selector.as_str()) {
            Some(entry) => {
                let ghost sel = entry_views(selected@);
                let mut k: usize = 0;
                let mut seen = false;
                while k < selected.len()
                    invariant
                        sel == entry_views(selected@),
                        k <= selected@.len(),
                        seen == (exists|j: int| 0 <= j < k && #[trigger] sel[j].id == entry@.id),
                    decreases selected@.len() - k,
                {
                    assert(sel[k as int] == selected@[k as int]@);
                    let same = text_eq(selected[k].id.as_str(), entry.id.as_str());
                    assert(same == (sel[k as int].id == entry@.id));
                    if same {
                        seen = true;
                    }
                    k = k + 1;
                }
                assert(seen == has_id(sel, entry@.id));
                if !seen {
                    selected.push(entry.clone());
                    assert(entry_views(selected@) =~= sel.push(entry@));
                }
            },
            None => {
                let ghost miss = string_views(missing@);
                missing.push(selector.clone());
                assert(string_views(missing@) =~= miss.push(selector@));
            },
        }
        i = i + 1;
    }
    assert(sv.take(sv.len() as int) =~= sv);
    (selected, missing)
}

/// The text views of an error of [`candidates`].
pub open spec fn candidates_view(r: Result<Vec<ModelEntry>, (u8, Vec<String>)>) -> Result<
    Seq<EntryView>,
    (u8, Seq<Seq<char>>),
> {
    match r {
        Ok(v) => Ok(entry_views(v@)),
        Err((kind, selectors)) => Err((kind, string_views(selectors@))),
    }
}

/// Computes the candidate list of a request, or the resolution failure:
/// `(0, [])` for automatic selection from no entries, `(1, missing)` for
/// unknown selectors of a strict request, `(2, requested)` when no provider
/// is reached. Automatic selection lists every entry in stable automatic
/// order.
pub fn candidates(entries: &[ModelEntry], request: &Request) -> (r: Result<
    Vec<ModelEntry>,
    (u8, Vec<String>),
>)
    requires
        request.mode == 1 ==> request.selectors@.len() >= 1,
    ensures
        request.mode == 0 ==> match r {
            Ok(v) => entries@.len() > 0 && is_stable_auto_order(
                entry_views(v@),
                entry_views(entries@),
            ),
            Err((kind, selectors)) => entries@.len() == 0 && kind == 0 && selectors@.len() == 0,
        },
        request.mode != 0 ==> candidates_view(r) == explicit_candidates(
            entry_views(entries@),
            request.mode,
            string_views(request.selectors@),
        ),
{
    if request.mode == 0 {
        if entries.len() == 0 {
            return Err((0, Vec::new()));
        }
        return Ok(auto_order(entries));
    }
    let mut requested: Vec<String> = Vec::new();
    let ghost all = string_views(request.selectors@);
    if request.mode == 1 {
        requested.push(request.selectors[0].clone());
        assert(string_views(requested@) =~= all.take(1));
    } else {
        requested = request.selectors.clone();
        assert(string_views(requested@) =~= all) by {
            assert forall|j: int| 0 <= j < requested@.len() implies requested@[j]@ == request.selectors@[j]@ by {
                assert(cloned::<String>(request.selectors@[j], requested@[j]));
            }
        }
    }
    let (selected, missing) = reach(entries, requested.as_slice());
    if request.mode != 3 && missing.len() > 0 {
        return Err((1, missing));
    }
    if selected.len() == 0 {
        return Err((2, requested));
    }
    Ok(selected)
}


/// The failure kind an entry's outcome code reports (`1` unsupported, `2`
/// unavailable, `3` invalid configuration, `4` initialization failure).
pub open spec fn outcome_kind(outcome: u8) -> ProviderFailureKind {
    if outcome == 1 {
        ProviderFailureKind::Unsupported
    } else if outcome == 2 {
        ProviderFailureKind::Unavailable
    } else if outcome == 3 {
        ProviderFailureKind::InvalidConfiguration
    } else {
        ProviderFailureKind::InitializationFailed
    }
}

/// Maps a failure outcome code to its failure kind.
pub fn failure_kind_of(outcome: u8) -> (r: ProviderFailureKind)
    requires
        1 <= outcome <= 4,
    ensures
        r == outcome_kind(outcome),
{
    if outcome == 1 {
        ProviderFailureKind::Unsupported
    } else if outcome == 2 {
        ProviderFailureKind::Unavailable
    } else if outcome == 3 {
        ProviderFailureKind::InvalidConfiguration
    } else {
        ProviderFailureKind::InitializationFailed
    }
}

/// The fallback policy a request's policy code selects.
pub open spec fn policy_of(code: u8) -> FallbackPolicy {
    if code == 0 {
        FallbackPolicy::Never
    } else if code == 1 {
        FallbackPolicy::OnAbsence
    } else {
        FallbackPolicy::OnAnyError
    }
}

/// Maps a policy code (`0`, `1` or `2`) to its fallback policy.
pub fn fallback_policy_of(code: u8) -> (r: FallbackPolicy)
    requires
        code <= 2,
    ensures
        r == policy_of(code),
{
    if code == 0 {
        FallbackPolicy::Never
    } else if code == 1 {
        FallbackPolicy::OnAbsence
    } else {
        FallbackPolicy::OnAnyError
    }
}

/// Whether traversal ends at candidate `i`: it succeeded, it is the last
/// candidate, or the policy forbids trying another one after its failure.
pub open spec fn halts_at(entries: Seq<EntryView>, policy: FallbackPolicy, i: int) -> bool {
    entries[i].outcome == 0 || i == entries.len() - 1 || !policy.permits_after(
        outcome_kind(entries[i].outcome),
    )
}

/// What creating a service through a candidate list does: the providers
/// invoked in order, the failed attempts, the winner, and why traversal
/// ended without one.
#[derive(Debug)]
pub struct CreationOutcome {
    pub calls: Vec<String>,
    pub attempts: Vec<(String, ProviderFailureKind)>,
    pub success: Option<String>,
    pub termination: ProviderCreationTermination,
}

/// Traverses candidates in order under `policy`: each candidate is invoked;
/// the first success wins; a failure is recorded, and traversal goes on only
/// when another candidate remains and the policy permits fallback after the
/// failure's kind.
pub fn expected_creation(entries: &[ModelEntry], policy: FallbackPolicy) -> (r: CreationOutcome)
    requires
        forall|i: int| 0 <= i < entries@.len() ==> (#[trigger] entries@[i]).outcome <= 4,
    ensures
        ({
            let ev = entry_views(entries@);
            let m = r.calls@.len();
            &&& m <= ev.len()
            &&& ev.len() > 0 ==> m >= 1 && halts_at(ev, policy, m - 1)
            &&& forall|j: int| 0 <= j < m - 1 ==> !#[trigger] halts_at(ev, policy, j)
            &&& forall|j: int| 0 <= j < m ==> (#[trigger] r.calls@[j])@ == ev[j].id
            &&& match r.success {
                Some(winner) => m >= 1 && ev[m - 1].outcome == 0 && winner@ == ev[m - 1].id
                    && r.attempts@.len() == m - 1,
                None => (m >= 1 ==> ev[m - 1].outcome != 0) && r.attempts@.len() == m,
            }
            &&& forall|j: int|
                0 <= j < r.attempts@.len() ==> (#[trigger] r.attempts@[j]).0@ == ev[j].id
                    && r.attempts@[j].1 == outcome_kind(ev[j].outcome)
            &&& (r.termination == ProviderCreationTermination::StoppedByPolicy <==> (r.success is None
                && m < ev.len()))
        }),
{
    let ghost ev = entry_views(entries@);
    let n = entries.len();
    let mut calls: Vec<String> = Vec::new();
    let mut attempts: Vec<(String, ProviderFailureKind)> = Vec::new();
    let mut index: usize = 0;
    while index < n
        invariant
            n == ev.len(),
            ev == entry_views(entries@),
            forall|i: int| 0 <= i < entries@.len() ==> (#[trigger] entries@[i]).outcome <= 4,
            index <= n,
            calls@.len() == index,
            attempts@.len() == index,
            forall|j: int| 0 <= j < index ==> !#[trigger] halts_at(ev, policy, j),
            forall|j: int| 0 <= j < index ==> (#[trigger] calls@[j])@ == ev[j].id,
            forall|j: int|
                0 <= j < index ==> (#[trigger] attempts@[j]).0@ == ev[j].id && attempts@[j].1
                    == outcome_kind(ev[j].outcome),
        decreases n - index,
    {
        let entry = &entries[index];
        assert(ev[index as int] == entry@);
        calls.push(entry.id.clone());
        if entry.outcome == 0 {
            return CreationOutcome {
                calls,
                attempts,
                success: Some(entry.id.clone()),
                termination: ProviderCreationTermination::Exhausted,
            };
        }
        let kind = failure_kind_of(entry.outcome);
        attempts.push((entry.id.clone(), kind));
        if index + 1 == n {
            return CreationOutcome {
                calls,
                attempts,
                success: None,
                termination: ProviderCreationTermination::Exhausted,
            };
        }
        if !policy.should_continue_after(kind) {
            return CreationOutcome {
                calls,
                attempts,
                success: None,
                termination: ProviderCreationTermination::StoppedByPolicy,
            };
        }
        index = index + 1;
    }
    proof {
        if n > 0 {
            assert(halts_at(ev, policy, n - 1));
        }
    }
    CreationOutcome {
        calls,
        attempts,
        success: None,
        termination: ProviderCreationTermination::Exhausted,
    }
}


/// The first owner found in a longer registration list is the first owner
/// of the earlier entries when one exists there.
proof fn lemma_first_owner_push(entries: Seq<EntryView>, entry: EntryView, selector: Seq<char>)
    ensures
        first_owner(entries.push(entry), selector) == (match first_owner(entries, selector) {
            Some(found) => Some(found),
            None => if owns(entry, selector) {
                Some(entry)
            } else {
                None
            },
        }),
    decreases entries.len(),
{
    if entries.len() > 0 {
        assert(entries.push(entry)[0] == entries[0]);
        assert(entries.push(entry).drop_first() =~= entries.drop_first().push(entry));
        lemma_first_owner_push(entries.drop_first(), entry, selector);
    } else {
        assert(entries.push(entry)[0] == entry);
        assert(entries.push(entry).drop_first() =~= Seq::<EntryView>::empty());
        assert(first_owner(Seq::<EntryView>::empty(), selector) is None);
    }
}

/// Registration law: after an accepted registration the new entry owns its
/// canonical ID and its alias, and every selector that had an owner keeps
/// the same owner.
pub proof fn lemma_registration_keeps_owners(
    entries: Seq<EntryView>,
    entry: EntryView,
    selector: Seq<char>,
)
    requires
        registration_accepted(entries, entry),
    ensures
        first_owner(entries.push(entry), entry.id) == Some(entry),
        entry.alias matches Some(alias) ==> first_owner(entries.push(entry), alias) == Some(entry),
        first_owner(entries, selector) is Some ==> first_owner(entries.push(entry), selector)
            == first_owner(entries, selector),
{
    lemma_first_owner_push(entries, entry, entry.id);
    lemma_first_owner_push(entries, entry, selector);
    if entry.alias is Some {
        lemma_first_owner_push(entries, entry, entry.alias->Some_0);
    }
}

/// The first owner, when there is one, owns the selector and is one of the
/// entries.
proof fn lemma_first_owner_owns(entries: Seq<EntryView>, selector: Seq<char>)
    ensures
        first_owner(entries, selector) matches Some(found) ==> owns(found, selector)
            && entries.contains(found),
    decreases entries.len(),
{
    if entries.len() > 0 && !owns(entries[0], selector) {
        lemma_first_owner_owns(entries.drop_first(), selector);
        if first_owner(entries, selector) is Some {
            let found = first_owner(entries, selector)->Some_0;
            let k = choose|k: int| 0 <= k < entries.drop_first().len() && entries.drop_first()[k] == found;
            assert(entries[k + 1] == found);
        }
    } else if entries.len() > 0 {
        assert(entries[0] == entries[0]);
    }
}

/// Explicit selection law: the providers reached by a selector list are
/// registered entries, each owning one of the selectors, and no canonical
/// ID is listed twice.
pub proof fn lemma_selected_owners_distinct(entries: Seq<EntryView>, selectors: Seq<Seq<char>>)
    ensures
        forall|k: int, l: int|
            0 <= k < l < selected_owners(entries, selectors).len() ==> (#[trigger] selected_owners(
                entries,
                selectors,
            )[k]).id != (#[trigger] selected_owners(entries, selectors)[l]).id,
        forall|k: int|
            0 <= k < selected_owners(entries, selectors).len() ==> entries.contains(
                #[trigger] selected_owners(entries, selectors)[k],
            ) && exists|j: int|
                0 <= j < selectors.len() && owns(
                    selected_owners(entries, selectors)[k],
                    #[trigger] selectors[j],
                ),
    decreases selectors.len(),
{
    if selectors.len() > 0 {
        let earlier_selectors = selectors.drop_last();
        lemma_selected_owners_distinct(entries, earlier_selectors);
        lemma_first_owner_owns(entries, selectors.last());
        let earlier = selected_owners(entries, earlier_selectors);
        let now = selected_owners(entries, selectors);
        assert forall|k: int|
            0 <= k < now.len() implies entries.contains(#[trigger] now[k]) && exists|j: int|
                0 <= j < selectors.len() && owns(now[k], #[trigger] selectors[j]) by {
            if k < earlier.len() {
                assert(now[k] == earlier[k]);
                let j = choose|j: int|
                    0 <= j < earlier_selectors.len() && owns(earlier[k], #[trigger] earlier_selectors[j]);
                assert(selectors[j] == earlier_selectors[j]);
            } else {
                assert(owns(now[k], selectors[selectors.len() - 1]));
            }
        }
        assert forall|k: int, l: int| 0 <= k < l < now.len() implies (#[trigger] now[k]).id
            != (#[trigger] now[l]).id by {
            if l < earlier.len() {
                assert(now[k] == earlier[k] && now[l] == earlier[l]);
            } else {
                assert(now[k] == earlier[k]);
                if now[k].id == now[l].id {
                    assert(has_id(earlier, now[l].id));
                }
            }
        }
    }
}


/// The earliest entry owning a selector, as canonical ID or alias, is its
/// first owner.
proof fn lemma_first_owner_is_earliest(entries: Seq<EntryView>, selector: Seq<char>, k: int)
    requires
        0 <= k < entries.len(),
        entries[k].id == selector || entries[k].alias == Some(selector),
        forall|m: int|
            0 <= m < k ==> !((#[trigger] entries[m]).id == selector || entries[m].alias == Some(
                selector,
            )),
    ensures
        first_owner(entries, selector) == Some(entries[k]),
    decreases k,
{
    if k > 0 {
        assert(!(entries[0].id == selector || entries[0].alias == Some(selector)));
        let rest = entries.drop_first();
        assert forall|m: int|
            0 <= m < k - 1 implies !((#[trigger] rest[m]).id == selector || rest[m].alias == Some(
                selector,
            )) by {
            assert(rest[m] == entries[m + 1]);
        }
        lemma_first_owner_is_earliest(rest, selector, k - 1);
    }
}

/// A selector that no entry owns has no first owner.
proof fn lemma_first_owner_of_unowned(entries: Seq<EntryView>, selector: Seq<char>)
    requires
        forall|m: int|
            0 <= m < entries.len() ==> !((#[trigger] entries[m]).id == selector
                || entries[m].alias == Some(selector)),
    ensures
        first_owner(entries, selector) is None,
    decreases entries.len(),
{
    if entries.len() > 0 {
        assert(!(entries[0].id == selector || entries[0].alias == Some(selector)));
        let rest = entries.drop_first();
        assert forall|m: int|
            0 <= m < rest.len() implies !((#[trigger] rest[m]).id == selector || rest[m].alias
                == Some(selector)) by {
            assert(rest[m] == entries[m + 1]);
        }
        lemma_first_owner_of_unowned(rest, selector);
    }
}

/// A longer selector list keeps the selection of its prefix as a prefix.
proof fn lemma_selected_owners_extends(entries: Seq<EntryView>, selectors: Seq<Seq<char>>)
    requires
        selectors.len() > 0,
    ensures
        selected_owners(entries, selectors.drop_last()).len() <= selected_owners(
            entries,
            selectors,
        ).len(),
        forall|j: int|
            0 <= j < selected_owners(entries, selectors.drop_last()).len() ==> #[trigger] selected_owners(
                entries,
                selectors,
            )[j] == selected_owners(entries, selectors.drop_last())[j],
{
}

/// Selection completeness: every selector that some entry owns brings its
/// provider into the selection. The earliest entry owning `selectors[i]` is
/// listed by canonical ID, whatever the other selectors are, unknown
/// selectors before it included.
pub proof fn lemma_selected_owners_complete(
    entries: Seq<EntryView>,
    selectors: Seq<Seq<char>>,
    i: int,
    k: int,
)
    requires
        0 <= i < selectors.len(),
        0 <= k < entries.len(),
        entries[k].id == selectors[i] || entries[k].alias == Some(selectors[i]),
        forall|m: int|
            0 <= m < k ==> !((#[trigger] entries[m]).id == selectors[i] || entries[m].alias == Some(
                selectors[i],
            )),
    ensures
        exists|j: int|
            0 <= j < selected_owners(entries, selectors).len() && (#[trigger] selected_owners(
                entries,
                selectors,
            )[j]).id == entries[k].id,
    decreases selectors.len(),
{
    let earlier_selectors = selectors.drop_last();
    let earlier = selected_owners(entries, earlier_selectors);
    let now = selected_owners(entries, selectors);
    lemma_selected_owners_extends(entries, selectors);
    if i < selectors.len() - 1 {
        assert(earlier_selectors[i] == selectors[i]);
        lemma_selected_owners_complete(entries, earlier_selectors, i, k);
        let j = choose|j: int| 0 <= j < earlier.len() && (#[trigger] earlier[j]).id == entries[k].id;
        assert(now[j] == earlier[j]);
    } else {
        lemma_first_owner_is_earliest(entries, selectors[i], k);
        assert(selectors.last() == selectors[i]);
        if has_id(earlier, entries[k].id) {
            let j = choose|j: int| 0 <= j < earlier.len() && #[trigger] earlier[j].id == entries[k].id;
            assert(now[j] == earlier[j]);
        } else {
            assert(now == earlier.push(entries[k]));
            assert(now[earlier.len() as int].id == entries[k].id);
        }
    }
}

/// With no entry owning any selector, nothing is selected.
proof fn lemma_selected_owners_of_unowned(entries: Seq<EntryView>, selectors: Seq<Seq<char>>)
    requires
        forall|i: int, m: int|
            0 <= i < selectors.len() && 0 <= m < entries.len() ==> !((#[trigger] entries[m]).id
                == #[trigger] selectors[i] || entries[m].alias == Some(selectors[i])),
    ensures
        selected_owners(entries, selectors).len() == 0,
    decreases selectors.len(),
{
    if selectors.len() > 0 {
        let earlier_selectors = selectors.drop_last();
        assert forall|i: int, m: int|
            0 <= i < earlier_selectors.len() && 0 <= m < entries.len() implies !((
            #[trigger] entries[m]).id == #[trigger] earlier_selectors[i] || entries[m].alias == Some(
                earlier_selectors[i],
            )) by {
            assert(earlier_selectors[i] == selectors[i]);
        }
        lemma_selected_owners_of_unowned(entries, earlier_selectors);
        let last = selectors.last();
        assert forall|m: int|
            0 <= m < entries.len() implies !((#[trigger] entries[m]).id == last
                || entries[m].alias == Some(last)) by {
            assert(last == selectors[selectors.len() - 1]);
        }
        lemma_first_owner_of_unowned(entries, last);
    }
}

/// Chain law when missing providers are allowed: every selector is looked
/// up, unknown ones are skipped. The request fails, with every selector,
/// only when no entry owns any of them; otherwise its candidates are the
/// selection, which lists the earliest owner of each owned selector.
pub proof fn lemma_lenient_chain_candidates(entries: Seq<EntryView>, selectors: Seq<Seq<char>>)
    ensures
        (exists|i: int, k: int|
            0 <= i < selectors.len() && 0 <= k < entries.len() && ((#[trigger] entries[k]).id
                == #[trigger] selectors[i] || entries[k].alias == Some(selectors[i])))
            ==> explicit_candidates(entries, 3, selectors) == Ok::<
            Seq<EntryView>,
            (u8, Seq<Seq<char>>),
        >(selected_owners(entries, selectors)),
        !(exists|i: int, k: int|
            0 <= i < selectors.len() && 0 <= k < entries.len() && ((#[trigger] entries[k]).id
                == #[trigger] selectors[i] || entries[k].alias == Some(selectors[i])))
            ==> explicit_candidates(entries, 3, selectors) == Err::<
            Seq<EntryView>,
            (u8, Seq<Seq<char>>),
        >((2u8, selectors)),
{
    if exists|i: int, k: int|
        0 <= i < selectors.len() && 0 <= k < entries.len() && ((#[trigger] entries[k]).id
            == #[trigger] selectors[i] || entries[k].alias == Some(selectors[i])) {
        let (i, k0) = choose|i: int, k: int|
            0 <= i < selectors.len() && 0 <= k < entries.len() && ((#[trigger] entries[k]).id
                == #[trigger] selectors[i] || entries[k].alias == Some(selectors[i]));
        let k = lemma_earliest_owner(entries, selectors[i], k0);
        lemma_selected_owners_complete(entries, selectors, i, k);
    } else {
        lemma_selected_owners_of_unowned(entries, selectors);
    }
}

/// Some entry owning a selector means there is an earliest one.
proof fn lemma_earliest_owner(entries: Seq<EntryView>, selector: Seq<char>, k: int) -> (e: int)
    requires
        0 <= k < entries.len(),
        entries[k].id == selector || entries[k].alias == Some(selector),
    ensures
        0 <= e <= k,
        entries[e].id == selector || entries[e].alias == Some(selector),
        forall|m: int|
            0 <= m < e ==> !((#[trigger] entries[m]).id == selector || entries[m].alias == Some(
                selector,
            )),
    decreases k,
{
    if exists|m: int|
        0 <= m < k && ((#[trigger] entries[m]).id == selector || entries[m].alias == Some(selector)) {
        let m = choose|m: int|
            0 <= m < k && ((#[trigger] entries[m]).id == selector || entries[m].alias == Some(
                selector,
            ));
        lemma_earliest_owner(entries, selector, m)
    } else {
        k
    }
}

/// Named selection law: a named request reaches at most one provider, so it
/// never falls back to another candidate.
pub proof fn lemma_named_selection_has_one_candidate(
    entries: Seq<EntryView>,
    selectors: Seq<Seq<char>>,
)
    requires
        selectors.len() >= 1,
    ensures
        explicit_candidates(entries, 1, selectors) matches Ok(found) ==> found.len() == 1,
{
    let requested = selectors.take(1);
    assert(requested.drop_last() =~= Seq::<Seq<char>>::empty());
    assert(selected_owners(entries, requested.drop_last()) =~= Seq::<EntryView>::empty());
}

} // verus!
