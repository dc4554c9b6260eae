//! Error classifications reported by provider service construction.

use vstd::prelude::*;

verus! {

/// Classification of a failure reported while a provider creates a service.
///
/// Leaf providers return these variants so a resolver can decide whether its
/// fallback policy permits another provider attempt.
#[derive(Clone, Copy, Debug, PartialEq, Eq, Structural)]
#[non_exhaustive]
pub enum ProviderErrorKind {
    /// The provider does not support this request or configuration.
    Unsupported,
    /// The provider cannot run in the current environment.
    Unavailable,
    /// The provider-specific configuration is invalid.
    InvalidConfiguration,
    /// Provider initialization failed unexpectedly.
    InitializationFailed,
}

impl ProviderErrorKind {
    /// The variant name, as `Debug` renders it.
    pub open spec fn name(self) -> Seq<char> {
        match self {
            ProviderErrorKind::Unsupported => "Unsupported"@,
            ProviderErrorKind::Unavailable => "Unavailable"@,
            ProviderErrorKind::InvalidConfiguration => "InvalidConfiguration"@,
            ProviderErrorKind::InitializationFailed => "InitializationFailed"@,
        }
    }

    /// Whether the kind denotes an unsupported or unavailable provider.
    pub open spec fn denotes_absence(self) -> bool {
        self is Unsupported || self is Unavailable
    }

    /// Returns the variant name, as `Debug` renders it.
    pub fn name_str(self) -> (r: &'static str)
        ensures
            r@ == self.name(),
    {
        match self {
            ProviderErrorKind::Unsupported => "Unsupported",
            ProviderErrorKind::Unavailable => "Unavailable",
            ProviderErrorKind::InvalidConfiguration => "InvalidConfiguration",
            ProviderErrorKind::InitializationFailed => "InitializationFailed",
        }
    }
}

} // verus!
