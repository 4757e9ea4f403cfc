//! Identities and concrete artifacts.

use vstd::prelude::*;
use crate::short_path::ShortPath;

verus! {

/// Opaque identity of one promise artifact, unique within the owning
/// analysis's namespace.  Allocation of the numeric value is the caller's
/// policy; the identifier itself only supports equality, hashing and a
/// stable decimal rendering for diagnostics.
#[derive(Debug, Clone, Copy, PartialEq, Eq, Structural, Hash)]
pub struct PromiseArtifactId {
    /// The identifying value.
    pub value: u64,
}

impl PromiseArtifactId {
    /// Decimal rendering used in diagnostics.
    pub fn render(&self) -> (r: String)
        ensures
            r@ == crate::text::spec_decimal(self.value as nat),
    {
        crate::text::u64_to_string(self.value)
    }
}

/// Opaque key of an anon sub-target whose analysis produces promise
/// artifacts; the incremental computation engine is queried by this key.
#[derive(Debug, Clone, Copy, PartialEq, Eq, Structural, Hash)]
pub struct TargetKey {
    /// The identifying value.
    pub value: u64,
}

/// A concrete build artifact, identified by its project-relative short
/// path once the producing analysis has completed.
#[derive(Debug)]
pub struct ConcreteArtifact {
    /// The project-relative short path of the artifact.
    pub short_path: ShortPath,
}

impl View for ConcreteArtifact {
    type V = Seq<char>;

    open spec fn view(&self) -> Seq<char> {
        self.short_path@
    }
}

impl Clone for ConcreteArtifact {
    fn clone(&self) -> (r: Self)
        ensures
            r == *self,
    {
        ConcreteArtifact { short_path: self.short_path.clone() }
    }
}

impl PartialEq for ConcreteArtifact {
    fn eq(&self, other: &Self) -> (r: bool) {
        self.short_path == other.short_path
    }
}

impl Eq for ConcreteArtifact {

}

impl vstd::std_specs::cmp::PartialEqSpecImpl for ConcreteArtifact {
    open spec fn obeys_eq_spec() -> bool {
        true
    }

    open spec fn eq_spec(&self, other: &Self) -> bool {
        self@ == other@
    }
}

} // verus!
