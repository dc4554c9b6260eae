//! Aggregate errors raised while a resolver tries provider candidates.

use vstd::prelude::*;
use vstd::string::StringExecFns;

use super::provider_attempt_failure::{attempt_cloned, provider_attempt_text};
use super::provider_failure::provider_failure_text;
use super::ProviderAttemptFailure;
use crate::text::{decimal, decimal_string};
use crate::ProviderCreationTermination;

verus! {

/// Opening sentence of a creation failure report.
pub open spec fn creation_header(termination: ProviderCreationTermination, count: nat) -> Seq<char> {
    match termination {
        ProviderCreationTermination::Exhausted => "no provider succeeded after "@ + decimal(count)
            + " attempt(s)"@,
        ProviderCreationTermination::StoppedByPolicy => "provider creation stopped by fallback policy after "@
            + decimal(count) + " attempt(s)"@,
    }
}

/// Numbered listing of failed attempts, given the renderings of their domain
/// errors.
pub open spec fn creation_attempts_text<E>(
    attempts: Seq<ProviderAttemptFailure<E>>,
    error_texts: Seq<Seq<char>>,
) -> Seq<char>
    decreases attempts.len(),
{
    if attempts.len() == 0 || error_texts.len() == 0 {
        Seq::empty()
    } else {
        creation_attempts_text(attempts.drop_last(), error_texts.drop_last()) + "; attempt "@
            + decimal(attempts.len()) + ": "@ + provider_attempt_text(
            attempts.last().spec_provider_id(),
            provider_failure_text(attempts.last().spec_failure().spec_kind(), error_texts.last()),
        )
    }
}

/// Nonempty aggregate returned when a resolver cannot create a service.
#[derive(Debug)]
#[non_exhaustive]
pub struct ProviderCreationError<E> {
    /// Actual provider failures in encounter order.
    attempts: Vec<ProviderAttemptFailure<E>>,
    /// Reason candidate traversal ended without a service.
    termination: ProviderCreationTermination,
}

impl<E> ProviderCreationError<E> {
    #[verifier::type_invariant]
    closed spec fn wf(self) -> bool {
        self.attempts@.len() > 0
    }

    /// The attempts in encounter order.
    pub closed spec fn spec_attempts(&self) -> Seq<ProviderAttemptFailure<E>> {
        self.attempts@
    }

    /// The reason traversal ended.
    pub closed spec fn spec_termination(&self) -> ProviderCreationTermination {
        self.termination
    }

    /// Whether every attempt failed as unsupported or unavailable.
    pub open spec fn all_absent(&self) -> bool {
        forall|i: int|
            0 <= i < self.spec_attempts().len()
                ==> (#[trigger] self.spec_attempts()[i]).spec_failure().spec_kind().denotes_absence()
    }

    /// Creates an aggregate after every admitted candidate fails.
    pub fn exhausted(attempts: Vec<ProviderAttemptFailure<E>>) -> (r: Self)
        requires
            attempts@.len() > 0,
        ensures
            r.spec_attempts() == attempts@,
            r.spec_termination() == ProviderCreationTermination::Exhausted,
    {
        Self::new(attempts, ProviderCreationTermination::Exhausted)
    }

    /// Creates an aggregate after fallback policy stops traversal.
    pub fn stopped_by_policy(attempts: Vec<ProviderAttemptFailure<E>>) -> (r: Self)
        requires
            attempts@.len() > 0,
        ensures
            r.spec_attempts() == attempts@,
            r.spec_termination() == ProviderCreationTermination::StoppedByPolicy,
    {
        Self::new(attempts, ProviderCreationTermination::StoppedByPolicy)
    }

    /// Creates an aggregate with an explicit traversal termination.
    fn new(attempts: Vec<ProviderAttemptFailure<E>>, termination: ProviderCreationTermination) -> (r:
        Self)
        requires
            attempts@.len() > 0,
        ensures
            r.spec_attempts() == attempts@,
            r.spec_termination() == termination,
    {
        ProviderCreationError { attempts, termination }
    }

    /// Returns the ordered actual provider failures; there is at least one.
    pub fn attempts(&self) -> (r: &[ProviderAttemptFailure<E>])
        ensures
            r@ == self.spec_attempts(),
            r@.len() > 0,
    {
        proof {
            use_type_invariant(self);
        }
        self.attempts.as_slice()
    }

    /// Returns why candidate traversal ended.
    pub fn termination(&self) -> (r: ProviderCreationTermination)
        ensures
            r == self.spec_termination(),
    {
        self.termination
    }

    /// Returns the final actual provider failure, which directly terminated
    /// or exhausted traversal.
    pub fn decisive_attempt(&self) -> (r: &ProviderAttemptFailure<E>)
        ensures
            self.spec_attempts().len() > 0,
            *r == self.spec_attempts().last(),
    {
        proof {
            use_type_invariant(self);
        }
        &self.attempts[self.attempts.len() - 1]
    }

    /// Reports whether every failure denotes an unsupported or unavailable
    /// provider.
    pub fn is_absence(&self) -> (r: bool)
        ensures
            r == self.all_absent(),
    {
        let mut index: usize = 0;
        while index < self.attempts.len()
            invariant
                index <= self.spec_attempts().len(),
                forall|i: int|
                    0 <= i < index
                        ==> (#[trigger] self.spec_attempts()[i]).spec_failure().spec_kind().denotes_absence(),
            decreases self.spec_attempts().len() - index,
        {
            if !self.attempts[index].failure().kind().is_absence() {
                return false;
            }
            index = index + 1;
        }
        true
    }

    /// Transfers ownership of all attempts and the termination reason.
    pub fn into_parts(self) -> (r: (Vec<ProviderAttemptFailure<E>>, ProviderCreationTermination))
        ensures
            r.0@ == self.spec_attempts(),
            r.1 == self.spec_termination(),
    {
        (self.attempts, self.termination)
    }

    /// Renders the diagnostic text, given the renderings of the domain errors
    /// of the attempts, in attempt order.
    pub fn render_message(&self, error_texts: &[&str]) -> (r: String)
        requires
            error_texts@.len() == self.spec_attempts().len(),
        ensures
            r@ == creation_header(self.spec_termination(), self.spec_attempts().len())
                + creation_attempts_text(self.spec_attempts(), error_texts.deep_view()),
    {
        let count = self.attempts.len();
        let digits = decimal_string(count as u64);
        let mut s = match self.termination {
            ProviderCreationTermination::Exhausted => "no provider succeeded after ".to_owned(),
            ProviderCreationTermination::StoppedByPolicy => {
                "provider creation stopped by fallback policy after ".to_owned()
            },
        };
        s.append(digits.as_str());
        s.append(" attempt(s)");
        let ghost header = s@;
        let ghost all = self.spec_attempts();
        let ghost texts = error_texts.deep_view();
        let mut index: usize = 0;
        assert(all.take(0) =~= Seq::<ProviderAttemptFailure<E>>::empty());
        assert(s@ =~= header + creation_attempts_text(all.take(0), texts.take(0)));
        while index < count
            invariant
                count == all.len(),
                texts == error_texts.deep_view(),
                texts.len() == all.len(),
                all == self.spec_attempts(),
                index <= count,
                s@ == header + creation_attempts_text(all.take(index as int), texts.take(index as int)),
            decreases count - index,
        {
            s.append("; attempt ");
            let number = decimal_string(index as u64 + 1);
            s.append(number.as_str());
            s.append(": ");
            let attempt = self.attempts[index].render_message(error_texts[index]);
            s.append(attempt.as_str());
            assert(all.take(index + 1).drop_last() =~= all.take(index as int));
            assert(texts.take(index + 1).drop_last() =~= texts.take(index as int));
            assert(s@ =~= header + creation_attempts_text(
                all.take(index + 1),
                texts.take(index + 1),
            ));
            index = index + 1;
        }
        assert(all.take(count as int) =~= all);
        assert(texts.take(count as int) =~= texts);
        s
    }
}

impl<E: Clone> Clone for ProviderCreationError<E> {
    /// Clones every attempt, in order, and keeps the termination reason.
    fn clone(&self) -> (r: Self)
        ensures
            r.spec_attempts().len() == self.spec_attempts().len(),
            forall|i: int|
                0 <= i < self.spec_attempts().len() ==> attempt_cloned(
                    self.spec_attempts()[i],
                    #[trigger] r.spec_attempts()[i],
                ),
            r.spec_termination() == self.spec_termination(),
    {
        proof {
            use_type_invariant(self);
        }
        let mut attempts: Vec<ProviderAttemptFailure<E>> = Vec::new();
        let mut index: usize = 0;
        while index < self.attempts.len()
            invariant
                index <= self.attempts@.len(),
                attempts@.len() == index,
                forall|i: int|
                    0 <= i < index ==> attempt_cloned(self.attempts@[i], #[trigger] attempts@[i]),
            decreases self.attempts@.len() - index,
        {
            attempts.push(self.attempts[index].clone());
            index = index + 1;
        }
        ProviderCreationError { attempts, termination: self.termination }
    }
}

} // verus!
