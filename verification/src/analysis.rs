//! The incremental computation engine, as seen by resolution.
//!
//! The engine itself is an external collaborator: a memoizing evaluator
//! that computes and caches one analysis outcome per target key, blocking
//! callers until the owning analysis has completed.  What resolution
//! relies on is exactly its memoized table, modelled here as an ordered
//! association from target key to analysis outcome.  A lookup is a pure
//! function of the table, which is what makes concurrent resolutions
//! observe a single consistent result per key.

use vstd::prelude::*;
use crate::artifact::ConcreteArtifact;
use crate::artifact::PromiseArtifactId;
use crate::artifact::TargetKey;

verus! {

/// One artifact produced by an owning analysis, under the identifier the
/// consumer registered for it.
#[derive(Debug)]
pub struct ProducedArtifact {
    /// The identifier the artifact answers.
    pub id: PromiseArtifactId,
    /// The concrete artifact.
    pub artifact: ConcreteArtifact,
}

/// The failure of an owning analysis, carried to every consumer that
/// waited for it.
#[derive(Debug)]
pub struct AnalysisFailure {
    /// The failure message.
    pub message: String,
}

impl Clone for AnalysisFailure {
    fn clone(&self) -> (r: Self)
        ensures
            r == *self,
    {
        AnalysisFailure { message: self.message.clone() }
    }
}

/// The completed analysis result of one anon sub-target: the promise
/// artifacts it produced.
#[derive(Debug)]
pub struct AnalysisResult {
    /// The produced artifacts, in production order.
    pub artifacts: Vec<ProducedArtifact>,
}

/// The first artifact registered under `id`, if any.
pub open spec fn spec_artifact_for(s: Seq<ProducedArtifact>, id: PromiseArtifactId) -> Option<
    ConcreteArtifact,
>
    decreases s.len(),
{
    if s.len() == 0 {
        None
    } else if s[0].id == id {
        Some(s[0].artifact)
    } else {
        spec_artifact_for(s.drop_first(), id)
    }
}

impl AnalysisResult {
    /// Extracts the concrete artifact this analysis produced for `id`:
    /// `None` exactly when no artifact was produced under it.
    pub fn artifact_for(&self, id: PromiseArtifactId) -> (r: Option<&ConcreteArtifact>)
        ensures
            r is Some <==> spec_artifact_for(self.artifacts@, id) is Some,
            r matches Some(a) ==> spec_artifact_for(self.artifacts@, id) == Some(*a),
    {
        let n = self.artifacts.len();
        let mut i: usize = 0;
        proof {
            assert(self.artifacts@.skip(0) =~= self.artifacts@);
        }
        while i < n
            invariant
                i <= n,
                n == self.artifacts@.len(),
                spec_artifact_for(self.artifacts@, id) == spec_artifact_for(
                    self.artifacts@.skip(i as int),
                    id,
                ),
            decreases n - i,
        {
            proof {
                assert(self.artifacts@.skip(i as int)[0] == self.artifacts@[i as int]);
                assert(self.artifacts@.skip(i as int).drop_first() =~= self.artifacts@.skip(
                    i as int + 1,
                ));
            }
            if self.artifacts[i].id == id {
                return Some(&self.artifacts[i].artifact);
            }
            i = i + 1;
        }
        proof {
            assert(self.artifacts@.skip(n as int) =~= Seq::<ProducedArtifact>::empty());
        }
        None
    }
}

/// One memoized engine cell: a target key and the outcome its analysis
/// ended with.
#[derive(Debug)]
pub struct EngineEntry {
    /// The analysed target.
    pub key: TargetKey,
    /// The outcome its analysis ended with.
    pub outcome: Result<AnalysisResult, AnalysisFailure>,
}

/// The memoized table of the incremental computation engine: for each
/// analysed target key, the outcome every waiting consumer observes.
#[derive(Debug)]
pub struct AnalysisEngine {
    entries: Vec<EngineEntry>,
}

/// The outcome memoized for `k`: the first recorded entry wins, so the
/// table behaves as a function of the key.
pub open spec fn spec_lookup_seq(s: Seq<EngineEntry>, k: TargetKey) -> Option<
    Result<AnalysisResult, AnalysisFailure>,
>
    decreases s.len(),
{
    if s.len() == 0 {
        None
    } else if s[0].key == k {
        Some(s[0].outcome)
    } else {
        spec_lookup_seq(s.drop_first(), k)
    }
}

impl AnalysisEngine {
    /// The memoized entries, in the order they completed.
    pub closed spec fn spec_entries(&self) -> Seq<EngineEntry> {
        self.entries@
    }

    /// The outcome memoized for `k`, if that target was analysed.
    pub open spec fn spec_lookup(&self, k: TargetKey) -> Option<
        Result<AnalysisResult, AnalysisFailure>,
    > {
        spec_lookup_seq(self.spec_entries(), k)
    }

    /// An engine with nothing analysed yet.
    pub fn new() -> (r: AnalysisEngine)
        ensures
            r.spec_entries().len() == 0,
    {
        AnalysisEngine { entries: Vec::new() }
    }

    /// Memoizes the outcome of one completed analysis.  A key recorded
    /// twice keeps its first outcome, as a memoizing engine would.
    pub fn record(&mut self, key: TargetKey, outcome: Result<AnalysisResult, AnalysisFailure>)
        ensures
            final(self).spec_entries().len() == old(self).spec_entries().len() + 1,
            forall|i: int|
                0 <= i < old(self).spec_entries().len() ==> final(self).spec_entries()[i] == old(
                    self,
                ).spec_entries()[i],
            final(self).spec_entries().last().key == key,
            final(self).spec_entries().last().outcome == outcome,
    {
        self.entries.push(EngineEntry { key, outcome });
    }

    /// The memoized lookup: returns the single outcome recorded for `key`,
    /// the same for every caller that asks.  In the running system this
    /// call is the suspension point that orders resolution after the
    /// owning analysis; on the table it is an ordinary search.
    pub fn lookup(&self, key: TargetKey) -> (r: Option<&Result<AnalysisResult, AnalysisFailure>>)
        ensures
            r is Some <==> self.spec_lookup(key) is Some,
            r matches Some(o) ==> self.spec_lookup(key) == Some(*o),
    {
        let n = self.entries.len();
        let mut i: usize = 0;
        proof {
            assert(self.entries@.skip(0) =~= self.entries@);
        }
        while i < n
            invariant
                i <= n,
                n == self.entries@.len(),
                spec_lookup_seq(self.entries@, key) == spec_lookup_seq(
                    self.entries@.skip(i as int),
                    key,
                ),
            decreases n - i,
        {
            proof {
                assert(self.entries@.skip(i as int)[0] == self.entries@[i as int]);
                assert(self.entries@.skip(i as int).drop_first() =~= self.entries@.skip(
                    i as int + 1,
                ));
            }
            if self.entries[i].key == key {
                return Some(&self.entries[i].outcome);
            }
            i = i + 1;
        }
        proof {
            assert(self.entries@.skip(n as int) =~= Seq::<EngineEntry>::empty());
        }
        None
    }
}

} // verus!
