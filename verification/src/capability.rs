//! The capability modules that the shell wires into its application builder.

use vstd::prelude::*;

verus! {

/// A pluggable unit that provides one host integration feature.
///
/// The shell depends on exactly one: the facility for opening files and URLs
/// with the operating system's default handler.
#[derive(Clone, Copy, Debug, PartialEq, Eq, Structural)]
pub enum Module {
    Opener,
}

impl Module {
    /// The identifier under which the framework knows the module.
    pub open spec fn spec_identifier(&self) -> Seq<char> {
        match self {
            Module::Opener => "opener"@,
        }
    }

    /// The identifier under which the framework knows the module.
    pub fn identifier(&self) -> (name: &'static str)
        ensures
            name@ == self.spec_identifier(),
    {
        match self {
            Module::Opener => "opener",
        }
    }
}

/// The one module that is registered before the run loop starts.
pub open spec fn required_module() -> Module {
    Module::Opener
}

} // verus!
