//! The promise artifact registry: the single-assignment cells and the
//! shared handles that name them.
//!
//! One registry exists per analysis evaluation and owns one cell per
//! registered promise.  A `PromiseArtifact` handle is a shared reference
//! to one cell: `register` returns one, the consumer's extracted list
//! holds others, and every copy for the same registration names the same
//! cell.  A cell starts empty, is filled exactly once by the resolution
//! protocol, and is readable through any handle at any time; before the
//! fill, reads observe the explicit "not yet resolved" state.  Filling an
//! already-filled cell is an invariant violation of the caller's draining
//! discipline and is surfaced as an error, never performed.

use vstd::prelude::*;
use crate::artifact::ConcreteArtifact;
use crate::artifact::PromiseArtifactId;
use crate::errors::PromiseArtifactResolveError;
use crate::location::FileSpan;

verus! {

/// A shared handle to one promise artifact cell: the identifier it was
/// registered under, and the cell's position in the owning registry.
/// Copies are references: they all read, and are filled by, one cell.
#[derive(Debug, Clone, Copy, PartialEq, Eq, Structural)]
pub struct PromiseArtifact {
    id: PromiseArtifactId,
    index: usize,
}

/// One registration: the identifier, the optional source location kept
/// purely for diagnostics when its resolution fails, and the
/// single-assignment cell for the resolved artifact.
#[derive(Debug)]
pub struct PromiseArtifactEntry {
    /// The identifier the promise was registered under.
    pub id: PromiseArtifactId,
    /// Where the promise was declared, when known.
    pub location: Option<FileSpan>,
    /// The cell: empty until the single successful resolution.
    pub slot: Option<ConcreteArtifact>,
}

/// The ordered collection of promise cells registered during one
/// analysis.
#[derive(Debug)]
pub struct PromiseArtifactRegistry {
    artifacts: Vec<PromiseArtifactEntry>,
}

/// What any operation on one cell leaves untouched: the store's length,
/// every other entry wholly, and the touched entry's identifier and
/// location.
pub open spec fn store_shape_preserved(
    before: PromiseArtifactRegistry,
    after: PromiseArtifactRegistry,
    at: int,
) -> bool {
    &&& after.spec_entries().len() == before.spec_entries().len()
    &&& forall|k: int|
        0 <= k < before.spec_entries().len() && k != at ==> after.spec_entries()[k]
            == before.spec_entries()[k]
    &&& after.spec_entries()[at].id == before.spec_entries()[at].id
    &&& after.spec_entries()[at].location == before.spec_entries()[at].location
}

impl PromiseArtifact {
    /// The identifier this handle was registered under.
    pub closed spec fn spec_id(&self) -> PromiseArtifactId {
        self.id
    }

    /// The position of the cell this handle names.
    pub closed spec fn spec_index(&self) -> int {
        self.index as int
    }

    /// Whether this handle names a cell of `cells`, under the identifier
    /// the cell was registered with.
    pub open spec fn valid_in(&self, cells: PromiseArtifactRegistry) -> bool {
        &&& 0 <= self.spec_index() < cells.spec_entries().len()
        &&& cells.spec_entries()[self.spec_index()].id == self.spec_id()
    }

    /// The content of the cell this handle names.
    pub open spec fn spec_read(&self, cells: PromiseArtifactRegistry) -> Option<ConcreteArtifact> {
        cells.spec_entries()[self.spec_index()].slot
    }

    /// The identifier this handle was registered under.
    pub fn id(&self) -> (r: PromiseArtifactId)
        ensures
            r == self.spec_id(),
    {
        self.id
    }

    /// The position of the cell this handle names.
    pub fn index(&self) -> (r: usize)
        ensures
            r == self.spec_index(),
    {
        self.index
    }

    /// Reads the cell: the resolved artifact, or `None` while unresolved.
    /// Safe for any holder at any time; never blocks and never fails.
    pub fn read<'a>(&self, cells: &'a PromiseArtifactRegistry) -> (r: Option<&'a ConcreteArtifact>)
        requires
            self.valid_in(*cells),
        ensures
            r is Some <==> self.spec_read(*cells) is Some,
            r matches Some(a) ==> self.spec_read(*cells) == Some(*a),
    {
        match &cells.artifacts[self.index].slot {
            Some(a) => Some(a),
            None => None,
        }
    }

    /// Writes `value` into the cell this handle names.  Succeeds exactly
    /// when the cell was still empty; an already-filled cell is left
    /// unchanged and reported.  The write is observable through every
    /// handle for the same registration.
    pub fn try_resolve(&self, cells: &mut PromiseArtifactRegistry, value: ConcreteArtifact) -> (r:
        Result<(), PromiseArtifactResolveError>)
        requires
            self.valid_in(*old(cells)),
        ensures
            store_shape_preserved(*old(cells), *final(cells), self.spec_index()),
            self.valid_in(*final(cells)),
            r is Ok <==> self.spec_read(*old(cells)) is None,
            r is Ok ==> self.spec_read(*final(cells)) == Some(value),
            r is Err ==> *final(cells) == *old(cells),
            r matches Err(e) ==> e == (PromiseArtifactResolveError::AlreadyResolved {
                id: self.spec_id(),
            }),
    {
        if cells.artifacts[self.index].slot.is_some() {
            Err(PromiseArtifactResolveError::AlreadyResolved { id: self.id })
        } else {
            let entry = &mut cells.artifacts[self.index];
            entry.slot = Some(value);
            Ok(())
        }
    }
}

impl PromiseArtifactRegistry {
    /// The registered entries, in registration order.
    pub closed spec fn spec_entries(&self) -> Seq<PromiseArtifactEntry> {
        self.artifacts@
    }

    /// Creates an empty registry for a fresh analysis evaluation.
    pub fn new() -> (r: PromiseArtifactRegistry)
        ensures
            r.spec_entries().len() == 0,
    {
        PromiseArtifactRegistry { artifacts: Vec::new() }
    }

    /// The number of registered promises.
    pub fn len(&self) -> (n: usize)
        ensures
            n == self.spec_entries().len(),
    {
        self.artifacts.len()
    }

    /// The recorded declaration location of registration `i`.
    pub fn location_at(&self, i: usize) -> (l: &Option<FileSpan>)
        requires
            i < self.spec_entries().len(),
        ensures
            *l == self.spec_entries()[i as int].location,
    {
        &self.artifacts[i].location
    }

    /// A handle for the cell at position `i`: it names the same cell as
    /// every other handle for that registration.
    pub fn handle_at(&self, i: usize) -> (h: PromiseArtifact)
        requires
            i < self.spec_entries().len(),
        ensures
            h.valid_in(*self),
            h.spec_index() == i,
            h.spec_id() == self.spec_entries()[i as int].id,
    {
        PromiseArtifact { id: self.artifacts[i].id, index: i }
    }

    /// Registers a promise under `id`: appends a fresh, empty cell paired
    /// with `location`, and returns the caller's handle to it (the
    /// registry retains the cell for later extraction and resolution).
    /// Never fails.
    pub fn register(&mut self, location: Option<FileSpan>, id: PromiseArtifactId) -> (h:
        PromiseArtifact)
        ensures
            final(self).spec_entries().len() == old(self).spec_entries().len() + 1,
            forall|i: int|
                0 <= i < old(self).spec_entries().len() ==> final(self).spec_entries()[i] == old(
                    self,
                ).spec_entries()[i],
            final(self).spec_entries().last().id == id,
            final(self).spec_entries().last().location == location,
            final(self).spec_entries().last().slot is None,
            h.spec_id() == id,
            h.spec_index() == old(self).spec_entries().len(),
            h.valid_in(*final(self)),
            h.spec_read(*final(self)) is None,
    {
        let index = self.artifacts.len();
        self.artifacts.push(PromiseArtifactEntry { id, location, slot: None });
        PromiseArtifact { id, index }
    }

    /// Returns one handle for every promise ever registered, in
    /// registration order: the consuming analysis's list of artifacts to
    /// resolve and read.  The registry is not changed; each returned
    /// handle names the same cell as the one `register` returned, so a
    /// resolution performed before or after the extraction is observable
    /// through it.
    pub fn consumer_analysis_artifacts(&self) -> (r: Vec<PromiseArtifact>)
        ensures
            r@.len() == self.spec_entries().len(),
            forall|i: int|
                0 <= i < r@.len() ==> (#[trigger] r@[i]).spec_index() == i && r@[i].spec_id()
                    == self.spec_entries()[i].id && r@[i].valid_in(*self),
    {
        let n = self.artifacts.len();
        let mut r: Vec<PromiseArtifact> = Vec::new();
        let mut i: usize = 0;
        while i < n
            invariant
                i <= n,
                n == self.spec_entries().len(),
                r@.len() == i,
                forall|k: int|
                    0 <= k < i ==> (#[trigger] r@[k]).spec_index() == k && r@[k].spec_id()
                        == self.spec_entries()[k].id && r@[k].valid_in(*self),
            decreases n - i,
        {
            let h = self.handle_at(i);
            r.push(h);
            i = i + 1;
        }
        r
    }
}

/// All handles for one registration alias one cell: a read through the
/// handle `register` returned, through any element of the extracted
/// list, or through any copy, observes the same content.
pub proof fn lemma_handles_alias_one_cell(
    cells: PromiseArtifactRegistry,
    a: PromiseArtifact,
    b: PromiseArtifact,
)
    requires
        a.spec_index() == b.spec_index(),
    ensures
        a.spec_read(cells) == b.spec_read(cells),
{
}

/// Handles extracted by `consumer_analysis_artifacts` are pairwise
/// distinct by identity: each names its own cell, one per registration,
/// in registration order.
pub proof fn lemma_extracted_handles_distinct(out: Seq<PromiseArtifact>)
    requires
        forall|i: int| 0 <= i < out.len() ==> (#[trigger] out[i]).spec_index() == i,
    ensures
        forall|i: int, j: int| 0 <= i < j < out.len() ==> out[i] != out[j],
{
    assert forall|i: int, j: int| 0 <= i < j < out.len() implies out[i] != out[j] by {
        assert(out[i].spec_index() != out[j].spec_index());
    }
}

} // verus!
