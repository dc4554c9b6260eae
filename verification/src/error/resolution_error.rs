//! Errors raised while resolving provider selections.

use vstd::prelude::*;
use vstd::string::StringExecFns;

use super::{
    invalid_selector_text, render_invalid_selector, AttemptFailure, AttemptFailureView, ProviderErrorKind,
    ProviderSelectionBuildError, ProviderSelectionBuildFailure, ProviderSelectorError,
    ProviderSelectorFailure,
};
use crate::text::{debug_string, debug_text, decimal, decimal_string};
use crate::{ProviderSelector, ResolutionTermination};

verus! {

/// Opening sentence of an aggregate resolution failure report.
pub open spec fn resolution_header(termination: ResolutionTermination, count: nat) -> Seq<char> {
    match termination {
        ResolutionTermination::Exhausted => "no provider succeeded after "@ + decimal(count)
            + " attempt(s)"@,
        ResolutionTermination::StoppedByPolicy => "provider resolution stopped by fallback policy after "@
            + decimal(count) + " attempt(s)"@,
    }
}

/// Numbered listing of failed attempts.
pub open spec fn resolution_attempts_text(attempts: Seq<AttemptFailureView>) -> Seq<char>
    decreases attempts.len(),
{
    if attempts.len() == 0 {
        Seq::empty()
    } else {
        resolution_attempts_text(attempts.drop_last()) + "; attempt "@ + decimal(attempts.len())
            + ": "@ + attempts.last().message()
    }
}

/// Aggregate error returned when provider resolution cannot create a service.
#[derive(Debug)]
#[non_exhaustive]
pub enum ResolutionError {
    /// Raw selector input failed normalization or syntax validation.
    InvalidSelector {
        /// Zero-based chain position, or `None` for direct named selection.
        selector_index: Option<usize>,
        /// Parser error owning the verbatim selector input.
        source: ProviderSelectorError,
    },
    /// A raw chained selection contained no selectors.
    EmptySelection,
    /// A valid normalized selector matched no registry entry.
    UnknownProvider {
        /// Normalized selector that matched no provider.
        selector: ProviderSelector,
    },
    /// Automatic selection was requested from an empty registry.
    EmptyRegistry,
    /// Every considered candidate failed or resolution stopped by policy.
    NoProviderSucceeded {
        /// Attempt diagnostics in encounter order.
        attempts: Vec<AttemptFailure>,
        /// Reason candidate traversal ended without a service.
        termination: ResolutionTermination,
    },
}

/// Mathematical content of a [`ResolutionError`].
pub enum ResolutionFailure {
    InvalidSelector { selector_index: Option<usize>, source: ProviderSelectorFailure },
    EmptySelection,
    UnknownProvider { selector: Seq<char> },
    EmptyRegistry,
    NoProviderSucceeded { attempts: Seq<AttemptFailureView>, termination: ResolutionTermination },
}

impl ResolutionFailure {
    /// The aggregate attempts, and none for the other failures.
    pub open spec fn attempts(self) -> Seq<AttemptFailureView> {
        match self {
            ResolutionFailure::NoProviderSucceeded { attempts, .. } => attempts,
            _ => Seq::empty(),
        }
    }

    /// The position of the attempt that directly explains an aggregate: the
    /// terminal attempt after a policy stop, the only attempt after singleton
    /// exhaustion; none for ambiguous exhaustion and non-aggregate errors.
    pub open spec fn decisive_index(self) -> Option<int> {
        match self {
            ResolutionFailure::NoProviderSucceeded { attempts, termination } => {
                if attempts.len() == 0 {
                    None
                } else if termination is StoppedByPolicy {
                    Some(attempts.len() - 1)
                } else if attempts.len() == 1 {
                    Some(0)
                } else {
                    None
                }
            },
            _ => None,
        }
    }

    /// Whether the failure means providers were absent or unavailable: an
    /// unknown direct provider, or an aggregate whose attempts all show an
    /// absent provider.
    pub open spec fn denotes_absence(self) -> bool {
        match self {
            ResolutionFailure::UnknownProvider { .. } => true,
            ResolutionFailure::NoProviderSucceeded { attempts, .. } => forall|i: int|
                0 <= i < attempts.len() ==> (#[trigger] attempts[i]).denotes_absence(),
            _ => false,
        }
    }

    /// The diagnostic text of the failure, given the `Debug` rendering of an
    /// invalid selector's verbatim input.
    pub open spec fn message_with(self, quoted_input: Seq<char>) -> Seq<char> {
        match self {
            ResolutionFailure::InvalidSelector { selector_index, .. } => invalid_selector_text(
                "chain"@,
                selector_index,
                quoted_input,
            ),
            ResolutionFailure::EmptySelection => "provider selection chain must not be empty"@,
            ResolutionFailure::UnknownProvider { selector } => "unknown provider: "@ + selector,
            ResolutionFailure::EmptyRegistry => "cannot resolve a provider from an empty registry"@,
            ResolutionFailure::NoProviderSucceeded { attempts, termination } => resolution_header(
                termination,
                attempts.len(),
            ) + resolution_attempts_text(attempts),
        }
    }

    /// The verbatim input of an invalid selector, and empty text otherwise.
    pub open spec fn invalid_input(self) -> Seq<char> {
        match self {
            ResolutionFailure::InvalidSelector { source, .. } => source.input(),
            _ => Seq::empty(),
        }
    }

    /// The diagnostic text of the failure.
    pub open spec fn message(self) -> Seq<char> {
        self.message_with(debug_text(self.invalid_input()))
    }
}

impl View for ResolutionError {
    type V = ResolutionFailure;

    open spec fn view(&self) -> ResolutionFailure {
        match self {
            ResolutionError::InvalidSelector { selector_index, source } => {
                ResolutionFailure::InvalidSelector { selector_index: *selector_index, source: source@ }
            },
            ResolutionError::EmptySelection => ResolutionFailure::EmptySelection,
            ResolutionError::UnknownProvider { selector } => ResolutionFailure::UnknownProvider {
                selector: selector@,
            },
            ResolutionError::EmptyRegistry => ResolutionFailure::EmptyRegistry,
            ResolutionError::NoProviderSucceeded { attempts, termination } => {
                ResolutionFailure::NoProviderSucceeded {
                    attempts: attempts@.map_values(|a: AttemptFailure| a@),
                    termination: *termination,
                }
            },
        }
    }
}

impl Clone for ResolutionError {
    /// Copies the failure, every attempt of an aggregate included.
    fn clone(&self) -> (r: Self)
        ensures
            r@ == self@,
    {
        match self {
            ResolutionError::InvalidSelector { selector_index, source } => {
                ResolutionError::InvalidSelector {
                    selector_index: *selector_index,
                    source: source.clone(),
                }
            },
            ResolutionError::EmptySelection => ResolutionError::EmptySelection,
            ResolutionError::UnknownProvider { selector } => ResolutionError::UnknownProvider {
                selector: selector.clone(),
            },
            ResolutionError::EmptyRegistry => ResolutionError::EmptyRegistry,
            ResolutionError::NoProviderSucceeded { attempts, termination } => {
                let mut copies: Vec<AttemptFailure> = Vec::new();
                let mut index: usize = 0;
                while index < attempts.len()
                    invariant
                        index <= attempts@.len(),
                        copies@.len() == index,
                        forall|i: int| 0 <= i < index ==> (#[trigger] copies@[i])@ == attempts@[i]@,
                    decreases attempts@.len() - index,
                {
                    copies.push(attempts[index].clone());
                    index = index + 1;
                }
                assert(copies@.map_values(|a: AttemptFailure| a@) =~= attempts@.map_values(
                    |a: AttemptFailure| a@,
                ));
                ResolutionError::NoProviderSucceeded { attempts: copies, termination: *termination }
            },
        }
    }
}

impl ResolutionError {
    /// Creates an error for a direct selector that matched no provider.
    pub fn unknown_provider(selector: ProviderSelector) -> (r: Self)
        ensures
            r@ == (ResolutionFailure::UnknownProvider { selector: selector@ }),
    {
        ResolutionError::UnknownProvider { selector }
    }

    /// Creates an error for invalid raw selector input.
    pub fn invalid_selector(
        selector_index: Option<usize>,
        source: ProviderSelectorError,
    ) -> (r: Self)
        ensures
            r@ == (ResolutionFailure::InvalidSelector { selector_index, source: source@ }),
    {
        ResolutionError::InvalidSelector { selector_index, source }
    }

    /// Creates an error for an empty raw chained selection.
    pub fn empty_selection() -> (r: Self)
        ensures
            r@ == ResolutionFailure::EmptySelection,
    {
        ResolutionError::EmptySelection
    }

    /// Creates an error for automatic resolution from an empty registry.
    pub fn empty_registry() -> (r: Self)
        ensures
            r@ == ResolutionFailure::EmptyRegistry,
    {
        ResolutionError::EmptyRegistry
    }

    /// Creates an aggregate error when every considered candidate failed.
    pub fn exhausted(attempts: Vec<AttemptFailure>) -> (r: Self)
        requires
            attempts@.len() > 0,
        ensures
            r@ == (ResolutionFailure::NoProviderSucceeded {
                attempts: attempts@.map_values(|a: AttemptFailure| a@),
                termination: ResolutionTermination::Exhausted,
            }),
    {
        Self::no_provider_succeeded(attempts, ResolutionTermination::Exhausted)
    }

    /// Creates an aggregate error after fallback policy stops traversal.
    pub fn stopped_by_policy(attempts: Vec<AttemptFailure>) -> (r: Self)
        requires
            attempts@.len() > 0,
        ensures
            r@ == (ResolutionFailure::NoProviderSucceeded {
                attempts: attempts@.map_values(|a: AttemptFailure| a@),
                termination: ResolutionTermination::StoppedByPolicy,
            }),
    {
        Self::no_provider_succeeded(attempts, ResolutionTermination::StoppedByPolicy)
    }

    /// Creates an aggregate resolution error with an explicit termination.
    fn no_provider_succeeded(attempts: Vec<AttemptFailure>, termination: ResolutionTermination) -> (r:
        Self)
        requires
            attempts@.len() > 0,
        ensures
            r@ == (ResolutionFailure::NoProviderSucceeded {
                attempts: attempts@.map_values(|a: AttemptFailure| a@),
                termination,
            }),
    {
        ResolutionError::NoProviderSucceeded { attempts, termination }
    }

    /// Returns the ordered failed attempts, or an empty slice for
    /// non-aggregate errors.
    pub fn attempts(&self) -> (r: &[AttemptFailure])
        ensures
            r@.map_values(|a: AttemptFailure| a@) == self@.attempts(),
    {
        match self {
            ResolutionError::NoProviderSucceeded { attempts, .. } => attempts.as_slice(),
            _ => {
                let r: &[AttemptFailure] = &[];
                assert(r@.map_values(|a: AttemptFailure| a@) =~= Seq::<AttemptFailureView>::empty());
                r
            },
        }
    }

    /// Returns why aggregate candidate traversal ended, or `None` for
    /// non-aggregate errors.
    pub fn termination(&self) -> (r: Option<ResolutionTermination>)
        ensures
            r == (match self@ {
                ResolutionFailure::NoProviderSucceeded { termination, .. } => Some(termination),
                _ => None,
            }),
    {
        match self {
            ResolutionError::NoProviderSucceeded { termination, .. } => Some(*termination),
            _ => None,
        }
    }

    /// Returns the final recorded attempt, or `None` when no attempts are
    /// stored.
    pub fn terminal_attempt(&self) -> (r: Option<&AttemptFailure>)
        ensures
            match r {
                Some(a) => self@.attempts().len() > 0 && a@ == self@.attempts().last(),
                None => self@.attempts().len() == 0,
            },
    {
        let attempts = self.attempts();
        if attempts.len() == 0 {
            None
        } else {
            let a = &attempts[attempts.len() - 1];
            assert(a@ == attempts@.map_values(|a: AttemptFailure| a@)[attempts@.len() - 1]);
            Some(a)
        }
    }

    /// Returns the attempt that directly explains the aggregate outcome: the
    /// terminal attempt after a policy stop, the only attempt after singleton
    /// exhaustion, or `None` for non-aggregate errors and ambiguous
    /// multi-attempt exhaustion.
    pub fn decisive_attempt(&self) -> (r: Option<&AttemptFailure>)
        ensures
            match (r, self@.decisive_index()) {
                (Some(a), Some(i)) => a@ == self@.attempts()[i],
                (None, None) => true,
                _ => false,
            },
    {
        match self {
            ResolutionError::NoProviderSucceeded { attempts, termination } => {
                let n = attempts.len();
                let ghost views = attempts@.map_values(|a: AttemptFailure| a@);
                if n == 0 {
                    None
                } else {
                    match termination {
                        ResolutionTermination::StoppedByPolicy => {
                            assert(attempts[n - 1]@ == views[n - 1]);
                            Some(&attempts[n - 1])
                        },
                        ResolutionTermination::Exhausted => {
                            if n == 1 {
                                assert(attempts[0]@ == views[0]);
                                Some(&attempts[0])
                            } else {
                                None
                            }
                        },
                    }
                }
            },
            _ => None,
        }
    }

    /// Reports whether failure means providers were absent or unavailable:
    /// an unknown direct provider, or an aggregate containing only unknown,
    /// unsupported or unavailable attempts.
    pub fn is_absence(&self) -> (r: bool)
        ensures
            r == self@.denotes_absence(),
    {
        match self {
            ResolutionError::UnknownProvider { .. } => true,
            ResolutionError::NoProviderSucceeded { attempts, .. } => {
                let ghost views = attempts@.map_values(|a: AttemptFailure| a@);
                let mut index: usize = 0;
                while index < attempts.len()
                    invariant
                        views == attempts@.map_values(|a: AttemptFailure| a@),
                        self@.attempts() == views,
                        self@ is NoProviderSucceeded,
                        index <= attempts@.len(),
                        forall|i: int| 0 <= i < index ==> (#[trigger] views[i]).denotes_absence(),
                    decreases attempts@.len() - index,
                {
                    assert(views[index as int] == attempts@[index as int]@);
                    if !attempts[index].is_absence() {
                        assert(!views[index as int].denotes_absence());
                        assert(self@.attempts() == views);
                        assert(!self@.denotes_absence());
                        return false;
                    }
                    index = index + 1;
                }
                assert(views.len() == attempts@.len());
                true
            },
            _ => false,
        }
    }

    /// Renders the diagnostic text from the `Debug` rendering of an invalid
    /// selector's verbatim input.
    pub fn render_message(&self, quoted_input: &str) -> (r: String)
        ensures
            r@ == self@.message_with(quoted_input@),
    {
        match self {
            ResolutionError::InvalidSelector { selector_index, .. } => {
                render_invalid_selector("chain", *selector_index, quoted_input)
            },
            ResolutionError::EmptySelection => "provider selection chain must not be empty".to_owned(),
            ResolutionError::UnknownProvider { selector } => {
                let mut s = "unknown provider: ".to_owned();
                s.append(selector.as_str());
                s
            },
            ResolutionError::EmptyRegistry => {
                "cannot resolve a provider from an empty registry".to_owned()
            },
            ResolutionError::NoProviderSucceeded { attempts, termination } => {
                let count = attempts.len();
                let digits = decimal_string(count as u64);
                let mut s = match termination {
                    ResolutionTermination::Exhausted => "no provider succeeded after ".to_owned(),
                    ResolutionTermination::StoppedByPolicy => {
                        "provider resolution stopped by fallback policy after ".to_owned()
                    },
                };
                s.append(digits.as_str());
                s.append(" attempt(s)");
                let ghost header = s@;
                let ghost views = attempts@.map_values(|a: AttemptFailure| a@);
                let mut index: usize = 0;
                assert(views.take(0) =~= Seq::<AttemptFailureView>::empty());
                assert(s@ =~= header + resolution_attempts_text(views.take(0)));
                while index < count
                    invariant
                        count == attempts@.len(),
                        views == attempts@.map_values(|a: AttemptFailure| a@),
                        index <= count,
                        s@ == header + resolution_attempts_text(views.take(index as int)),
                    decreases count - index,
                {
                    s.append("; attempt ");
                    let number = decimal_string(index as u64 + 1);
                    s.append(number.as_str());
                    s.append(": ");
                    let attempt = attempts[index].message();
                    s.append(attempt.as_str());
                    assert(views.take(index + 1).drop_last() =~= views.take(index as int));
                    assert(s@ =~= header + resolution_attempts_text(views.take(index + 1)));
                    index = index + 1;
                }
                assert(views.take(count as int) =~= views);
                s
            },
        }
    }

    /// Returns the diagnostic text of this error.
    pub fn message(&self) -> (r: String)
        ensures
            r@ == self@.message(),
    {
        let quoted = match self {
            ResolutionError::InvalidSelector { source, .. } => debug_string(source.input()),
            _ => {
                proof {
                    reveal_strlit("");
                }
                debug_string("")
            },
        };
        self.render_message(quoted.as_str())
    }
}

impl From<ProviderSelectionBuildError> for ResolutionError {
    /// Converts selection construction failures for resolver use: an invalid
    /// selector stays an invalid selector, an empty chain becomes an empty
    /// selection.
    fn from(error: ProviderSelectionBuildError) -> (r: Self) {
        match error {
            ProviderSelectionBuildError::InvalidSelector { selector_index, source } => {
                ResolutionError::InvalidSelector { selector_index, source }
            },
            ProviderSelectionBuildError::EmptyChain => ResolutionError::EmptySelection,
        }
    }
}

/// What converting a selection construction failure yields.
pub open spec fn resolution_failure_from_build(failure: ProviderSelectionBuildFailure) -> ResolutionFailure {
    match failure {
        ProviderSelectionBuildFailure::InvalidSelector { selector_index, source } => {
            ResolutionFailure::InvalidSelector { selector_index, source }
        },
        ProviderSelectionBuildFailure::EmptyChain => ResolutionFailure::EmptySelection,
    }
}

impl vstd::std_specs::convert::FromSpecImpl<ProviderSelectionBuildError> for ResolutionError {
    open spec fn obeys_from_spec() -> bool {
        true
    }

    open spec fn from_spec(v: ProviderSelectionBuildError) -> Self {
        match v {
            ProviderSelectionBuildError::InvalidSelector { selector_index, source } => {
                ResolutionError::InvalidSelector { selector_index, source }
            },
            ProviderSelectionBuildError::EmptyChain => ResolutionError::EmptySelection,
        }
    }
}

/// Absence law of an aggregate: one attempt at any position that reached a
/// provider which failed with an invalid configuration or an initialization
/// failure makes the whole failure not an absence.
pub proof fn lemma_aggregate_with_hard_failure_is_not_absence(
    attempts: Seq<AttemptFailureView>,
    termination: ResolutionTermination,
    i: int,
)
    requires
        0 <= i < attempts.len(),
        attempts[i] matches AttemptFailureView::ProviderError { error, .. } && (error.kind
            == ProviderErrorKind::InvalidConfiguration || error.kind
            == ProviderErrorKind::InitializationFailed),
    ensures
        !(ResolutionFailure::NoProviderSucceeded { attempts, termination }).denotes_absence(),
{
    let failure = ResolutionFailure::NoProviderSucceeded { attempts, termination };
    assert(!attempts[i].denotes_absence());
    assert(!(forall|j: int| 0 <= j < attempts.len() ==> (#[trigger] attempts[j]).denotes_absence()));
    assert(failure is NoProviderSucceeded);
    assert(failure->NoProviderSucceeded_attempts == attempts);
    assert(failure.denotes_absence() == (forall|j: int|
        0 <= j < attempts.len() ==> (#[trigger] attempts[j]).denotes_absence()));
    assert(!failure.denotes_absence());
}

/// Absence law of an aggregate: when every attempt names an unknown
/// selector or reached a provider that was unsupported or unavailable, the
/// whole failure is an absence.
pub proof fn lemma_aggregate_of_absent_attempts_is_absence(
    attempts: Seq<AttemptFailureView>,
    termination: ResolutionTermination,
)
    requires
        forall|i: int|
            0 <= i < attempts.len() ==> match #[trigger] attempts[i] {
                AttemptFailureView::UnknownProvider { .. } => true,
                AttemptFailureView::ProviderError { error, .. } => error.kind
                    == ProviderErrorKind::Unsupported || error.kind
                    == ProviderErrorKind::Unavailable,
            },
    ensures
        (ResolutionFailure::NoProviderSucceeded { attempts, termination }).denotes_absence(),
{
}

} // verus!
