//! Fallback classifications reported by provider construction.

use vstd::prelude::*;

verus! {

/// Classification of a failure reported while a provider creates a service.
///
/// Resolver fallback uses this classification while the associated domain
/// error remains in a provider failure.
#[derive(Clone, Copy, Debug, PartialEq, Eq, Hash, Structural)]
#[non_exhaustive]
pub enum ProviderFailureKind {
    /// The provider does not support this otherwise valid request.
    Unsupported,
    /// The provider cannot run in the current environment.
    Unavailable,
    /// The provider-specific configuration is invalid.
    InvalidConfiguration,
    /// Provider initialization failed after accepting the request.
    InitializationFailed,
}

impl ProviderFailureKind {
    /// The variant name, as `Debug` renders it.
    pub open spec fn name(self) -> Seq<char> {
        match self {
            ProviderFailureKind::Unsupported => "Unsupported"@,
            ProviderFailureKind::Unavailable => "Unavailable"@,
            ProviderFailureKind::InvalidConfiguration => "InvalidConfiguration"@,
            ProviderFailureKind::InitializationFailed => "InitializationFailed"@,
        }
    }

    /// Whether the kind denotes an unsupported or unavailable provider.
    pub open spec fn denotes_absence(self) -> bool {
        self is Unsupported || self is Unavailable
    }

    /// Reports whether this failure denotes provider absence: true for
    /// unsupported and unavailable providers.
    pub fn is_absence(self) -> (r: bool)
        ensures
            r == self.denotes_absence(),
    {
        match self {
            ProviderFailureKind::Unsupported | ProviderFailureKind::Unavailable => true,
            _ => false,
        }
    }

    /// Returns the variant name, as `Debug` renders it.
    pub fn name_str(self) -> (r: &'static str)
        ensures
            r@ == self.name(),
    {
        match self {
            ProviderFailureKind::Unsupported => "Unsupported",
            ProviderFailureKind::Unavailable => "Unavailable",
            ProviderFailureKind::InvalidConfiguration => "InvalidConfiguration",
            ProviderFailureKind::InitializationFailed => "InitializationFailed",
        }
    }
}

} // verus!
