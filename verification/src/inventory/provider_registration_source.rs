//! Source locations of provider registrations submitted through discovery.

use vstd::prelude::*;
use vstd::string::StringExecFns;

use crate::text::{decimal, decimal_string};

verus! {

/// Mathematical content of a [`ProviderRegistrationSource`].
pub struct RegistrationSourceView {
    pub crate_name: Seq<char>,
    pub module_name: Seq<char>,
    pub file: Seq<char>,
    pub line: u32,
}

impl RegistrationSourceView {
    /// The location rendered as `crate::module, file:line`.
    pub open spec fn message(self) -> Seq<char> {
        self.crate_name + "::"@ + self.module_name + ", "@ + self.file + ":"@ + decimal(
            self.line as nat,
        )
    }
}

/// Identifies the source location of a provider registration submitted
/// through link-time discovery.
#[derive(Clone, Copy, Debug, Eq, Ord, PartialEq, PartialOrd)]
pub struct ProviderRegistrationSource {
    crate_name: &'static str,
    module_name: &'static str,
    file: &'static str,
    line: u32,
}

impl View for ProviderRegistrationSource {
    type V = RegistrationSourceView;

    closed spec fn view(&self) -> RegistrationSourceView {
        RegistrationSourceView {
            crate_name: self.crate_name@,
            module_name: self.module_name@,
            file: self.file@,
            line: self.line,
        }
    }
}

impl ProviderRegistrationSource {
    /// Creates a source location from its crate, module, file, and line.
    pub fn new(
        crate_name: &'static str,
        module_name: &'static str,
        file: &'static str,
        line: u32,
    ) -> (r: Self)
        ensures
            r@ == (RegistrationSourceView {
                crate_name: crate_name@,
                module_name: module_name@,
                file: file@,
                line,
            }),
    {
        ProviderRegistrationSource { crate_name, module_name, file, line }
    }

    /// Returns the crate that submitted the provider.
    pub fn crate_name(self) -> (r: &'static str)
        ensures
            r@ == self@.crate_name,
    {
        self.crate_name
    }

    /// Returns the module path containing the provider submission.
    pub fn module_name(self) -> (r: &'static str)
        ensures
            r@ == self@.module_name,
    {
        self.module_name
    }

    /// Returns the source file containing the provider submission.
    pub fn file(self) -> (r: &'static str)
        ensures
            r@ == self@.file,
    {
        self.file
    }

    /// Returns the one-based source line containing the provider submission.
    pub fn line(self) -> (r: u32)
        ensures
            r == self@.line,
    {
        self.line
    }

    /// Returns the complete declaration location as `crate::module,
    /// file:line`.
    pub fn message(self) -> (r: String)
        ensures
            r@ == self@.message(),
    {
        let mut s = self.crate_name.to_owned();
        s.append("::");
        s.append(self.module_name);
        s.append(", ");
        s.append(self.file);
        s.append(":");
        let digits = decimal_string(self.line as u64);
        s.append(digits.as_str());
        s
    }
}

} // verus!
