//! Errors reported while assembling a context or a backend.
use vstd::prelude::*;

verus! {

/// An error as reported by the collaborator that derives the environment of
/// a Nix invocation; carried through unchanged.
#[verifier::external_type_specification]
#[verifier::external_body]
pub struct ExAnyhowError(anyhow::Error);

/// A directory that a context cannot do without.
#[derive(Clone, Copy, Debug, PartialEq, Eq, Structural)]
pub enum RequiredField {
    ConfigDir,
    CacheDir,
    DataDir,
}

impl RequiredField {
    /// The name of the field as the builder's setter spells it.
    pub open spec fn spec_name(self) -> Seq<char> {
        match self {
            RequiredField::ConfigDir => "config_dir"@,
            RequiredField::CacheDir => "cache_dir"@,
            RequiredField::DataDir => "data_dir"@,
        }
    }

    pub fn name(&self) -> (r: &'static str)
        ensures
            r@ == self.spec_name(),
    {
        match self {
            RequiredField::ConfigDir => "config_dir",
            RequiredField::CacheDir => "cache_dir",
            RequiredField::DataDir => "data_dir",
        }
    }
}

/// Everything that can go wrong while building a context or a backend.
#[derive(Debug)]
pub enum FloxError {
    /// The builder was finished before this directory was set.
    MissingRequiredField(RequiredField),
    /// The environment for the Nix invocation could not be derived.
    EnvironmentDerivationFailed(anyhow::Error),
    /// The Nix configuration could not be assembled.
    ConfigurationBuildFailed,
}

} // verus!
