//! The resolution coordinator.
//!
//! Runs once per analysis, strictly after the scripting engine has turned
//! its own promise objects into raw values naming each promise's owning
//! anon sub-target.  Per registered entry it looks up the owning target's
//! memoized analysis outcome, extracts the concrete artifact registered
//! under the entry's identifier, validates any asserted short path, and
//! performs the single write into the entry's cell.  The write is made in
//! place, so every handle for the registration — the one `register`
//! returned, the extracted consumer list — reads the resolved artifact
//! afterwards.  A failing owning analysis or a failing assertion leaves
//! the cell unresolved and surfaces a diagnostic instead.

use vstd::prelude::*;
use crate::analysis::AnalysisEngine;
use crate::analysis::AnalysisFailure;
use crate::analysis::AnalysisResult;
use crate::analysis::spec_artifact_for;
use crate::artifact::ConcreteArtifact;
use crate::artifact::PromiseArtifactId;
use crate::artifact::TargetKey;
use crate::errors::PromiseArtifactResolveError;
use crate::location::FileSpan;
use crate::location::clone_location;
use crate::registry::PromiseArtifact;
use crate::registry::PromiseArtifactEntry;
use crate::registry::PromiseArtifactRegistry;
use crate::registry::store_shape_preserved;
use crate::short_path::ShortPath;

verus! {

/// What the owning analysis produced under `id`, if it succeeded at all.
pub open spec fn spec_found(
    outcome: Result<AnalysisResult, AnalysisFailure>,
    id: PromiseArtifactId,
) -> Option<ConcreteArtifact> {
    match outcome {
        Ok(ar) => spec_artifact_for(ar.artifacts@, id),
        Err(_) => None,
    }
}

/// Whether the asserted short path, if any, matches the produced artifact.
pub open spec fn spec_assert_ok(asserted: Option<ShortPath>, a: ConcreteArtifact) -> bool {
    match asserted {
        None => true,
        Some(p) => p@ == a@,
    }
}

/// Whether one resolution step succeeds on a still-empty cell: the owning
/// analysis succeeded, produced an artifact under `id`, and any asserted
/// short path matches it.
pub open spec fn resolve_step_ok(
    id: PromiseArtifactId,
    asserted: Option<ShortPath>,
    outcome: Result<AnalysisResult, AnalysisFailure>,
) -> bool {
    outcome is Ok && match spec_found(outcome, id) {
        Some(a) => spec_assert_ok(asserted, a),
        None => false,
    }
}

/// The full contract of one resolution step for the promise `id`:
/// `prior`/`now` are the cell's content before and after, `r` the step's
/// result.  Success fills the cell with the produced artifact; every
/// failure leaves the cell untouched and names its cause exactly.
pub open spec fn resolve_post(
    id: PromiseArtifactId,
    prior: Option<ConcreteArtifact>,
    location: Option<FileSpan>,
    asserted: Option<ShortPath>,
    outcome: Result<AnalysisResult, AnalysisFailure>,
    now: Option<ConcreteArtifact>,
    r: Result<(), PromiseArtifactResolveError>,
) -> bool {
    &&& (r is Ok <==> (prior is None && resolve_step_ok(id, asserted, outcome)))
    &&& (r is Ok ==> now == spec_found(outcome, id))
    &&& (r is Err ==> now == prior)
    &&& (match outcome {
        Err(f) => (r matches Err(e) && e matches PromiseArtifactResolveError::OwningAnalysisFailed {
            id: i,
            message: m,
        } && i == id && m == f.message),
        Ok(ar) => (match spec_artifact_for(ar.artifacts@, id) {
            None => (r matches Err(e)
                && e == (PromiseArtifactResolveError::ArtifactNotProduced { id })),
            Some(a) => if !spec_assert_ok(asserted, a) {
                (r matches Err(e)
                    && e matches PromiseArtifactResolveError::ShortPathMismatch {
                    id: i,
                    asserted: pa,
                    actual: ac,
                    location: l,
                } && i == id && Some(pa) == asserted && ac == a.short_path && l == location)
            } else if prior is Some {
                (r matches Err(e) && e == (PromiseArtifactResolveError::AlreadyResolved { id }))
            } else {
                r is Ok
            },
        }),
    })
}

/// Resolves one registered promise against the outcome the engine
/// memoized for its owning target: extracts the artifact registered
/// under the handle's identifier, validates the asserted short path, and
/// performs the single write into the cell the handle names.  The
/// mismatch diagnostic carries the registration's recorded location.
pub fn resolve_one(
    cells: &mut PromiseArtifactRegistry,
    handle: &PromiseArtifact,
    asserted: &Option<ShortPath>,
    outcome: &Result<AnalysisResult, AnalysisFailure>,
) -> (r: Result<(), PromiseArtifactResolveError>)
    requires
        handle.valid_in(*old(cells)),
    ensures
        store_shape_preserved(*old(cells), *final(cells), handle.spec_index()),
        handle.valid_in(*final(cells)),
        resolve_post(
            handle.spec_id(),
            handle.spec_read(*old(cells)),
            old(cells).spec_entries()[handle.spec_index()].location,
            *asserted,
            *outcome,
            handle.spec_read(*final(cells)),
            r,
        ),
{
    let id = handle.id();
    match outcome {
        Err(f) => Err(
            PromiseArtifactResolveError::OwningAnalysisFailed { id, message: f.message.clone() },
        ),
        Ok(ar) => match ar.artifact_for(id) {
            None => Err(PromiseArtifactResolveError::ArtifactNotProduced { id }),
            Some(a) => match asserted {
                Some(p) => {
                    if *p == a.short_path {
                        handle.try_resolve(cells, a.clone())
                    } else {
                        let location = clone_location(cells.location_at(handle.index()));
                        Err(
                            PromiseArtifactResolveError::ShortPathMismatch {
                                id,
                                asserted: p.clone(),
                                actual: a.short_path.clone(),
                                location,
                            },
                        )
                    }
                },
                None => handle.try_resolve(cells, a.clone()),
            },
        },
    }
}

/// The externally supplied resolution input for one registered promise:
/// which anon sub-target owns it (named by the scripting engine's
/// resolved promise value), and the short path the consumer asserted for
/// it, if any.
#[derive(Debug)]
pub struct ResolveRequest {
    /// The owning anon sub-target's key.
    pub owner: TargetKey,
    /// The consumer's asserted short path, if any.
    pub asserted_short_path: Option<ShortPath>,
}

/// What `resolve_all` guarantees for one entry: the identifier and
/// location are kept, and the cell's new content with the step's result
/// satisfy the step contract against the engine's memoized outcome.
pub open spec fn resolution_matches(
    before: PromiseArtifactEntry,
    req: ResolveRequest,
    engine: AnalysisEngine,
    after: PromiseArtifactEntry,
    r: Result<(), PromiseArtifactResolveError>,
) -> bool {
    &&& after.id == before.id
    &&& after.location == before.location
    &&& (engine.spec_lookup(req.owner) matches Some(outcome) && resolve_post(
        before.id,
        before.slot,
        before.location,
        req.asserted_short_path,
        outcome,
        after.slot,
        r,
    ))
}

/// Drains the registry once: resolves every registered promise, in
/// registration order, against the engine's memoized outcome for its
/// owning target, writing each success into the registry's cell in
/// place.  Afterwards every handle for a successfully resolved
/// registration reads its artifact; a repeated drain faults per entry
/// with `AlreadyResolved` and changes nothing.  Each request must name an
/// owner the engine has analysed: the running engine computes an outcome
/// for every key it is asked for.
pub fn resolve_all(
    cells: &mut PromiseArtifactRegistry,
    requests: &Vec<ResolveRequest>,
    engine: &AnalysisEngine,
) -> (out: Vec<Result<(), PromiseArtifactResolveError>>)
    requires
        requests@.len() == old(cells).spec_entries().len(),
        forall|k: int|
            0 <= k < requests@.len() ==> (#[trigger] engine.spec_lookup(
                requests@[k].owner,
            )) is Some,
    ensures
        out@.len() == old(cells).spec_entries().len(),
        final(cells).spec_entries().len() == old(cells).spec_entries().len(),
        forall|k: int|
            0 <= k < out@.len() ==> resolution_matches(
                old(cells).spec_entries()[k],
                requests@[k],
                *engine,
                final(cells).spec_entries()[k],
                #[trigger] out@[k],
            ),
{
    let n = cells.len();
    let mut out: Vec<Result<(), PromiseArtifactResolveError>> = Vec::new();
    let mut i: usize = 0;
    while i < n
        invariant
            i <= n,
            n == old(cells).spec_entries().len(),
            cells.spec_entries().len() == n,
            requests@.len() == n,
            forall|k: int|
                0 <= k < n ==> (#[trigger] engine.spec_lookup(requests@[k].owner)) is Some,
            out@.len() == i,
            forall|k: int|
                i <= k < n ==> cells.spec_entries()[k] == old(cells).spec_entries()[k],
            forall|k: int|
                0 <= k < i ==> resolution_matches(
                    old(cells).spec_entries()[k],
                    requests@[k],
                    *engine,
                    cells.spec_entries()[k],
                    #[trigger] out@[k],
                ),
        decreases n - i,
    {
        let handle = cells.handle_at(i);
        let req = &requests[i];
        let outcome = engine.lookup(req.owner).unwrap();
        let ghost mid = *cells;
        let r = resolve_one(cells, &handle, &req.asserted_short_path, outcome);
        proof {
            assert(mid.spec_entries()[i as int] == old(cells).spec_entries()[i as int]);
        }
        out.push(r);
        i = i + 1;
    }
    out
}

/// Memoization consistency: resolutions that ask the engine for the same
/// owning target key observe the same analysis outcome, whichever
/// registry or coordinator run they serve.
pub proof fn lemma_shared_upstream_consistent(
    engine: AnalysisEngine,
    a: ResolveRequest,
    b: ResolveRequest,
)
    requires
        a.owner == b.owner,
    ensures
        engine.spec_lookup(a.owner) == engine.spec_lookup(b.owner),
{
}

/// A resolution step never overwrites a filled cell: whatever the engine
/// returned, a cell that already held a value keeps it unchanged.
pub proof fn lemma_resolve_single_write(
    id: PromiseArtifactId,
    prior: Option<ConcreteArtifact>,
    location: Option<FileSpan>,
    asserted: Option<ShortPath>,
    outcome: Result<AnalysisResult, AnalysisFailure>,
    now: Option<ConcreteArtifact>,
    r: Result<(), PromiseArtifactResolveError>,
)
    requires
        resolve_post(id, prior, location, asserted, outcome, now, r),
        prior is Some,
    ensures
        now == prior,
{
}

} // verus!
