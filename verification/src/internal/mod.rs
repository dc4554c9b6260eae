//! Private storage used by the public diagnostics.

mod attempt_failure_repr;

pub(crate) use attempt_failure_repr::AttemptFailureRepr;
