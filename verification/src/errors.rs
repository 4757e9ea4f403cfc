//! Errors of the resolution protocol.

use vstd::prelude::*;
use vstd::string::*;
use crate::artifact::PromiseArtifactId;
use crate::location::FileSpan;
use crate::short_path::ShortPath;
use crate::text::spec_decimal;

verus! {

/// Why resolving one promise artifact failed.
#[derive(Debug)]
pub enum PromiseArtifactResolveError {
    /// The analysis of the owning anon sub-target itself failed; its
    /// failure message is carried along.  The handle stays unresolved.
    OwningAnalysisFailed {
        /// The promise artifact whose owner failed.
        id: PromiseArtifactId,
        /// The owning analysis's failure message.
        message: String,
    },
    /// The owning analysis completed but produced no artifact under this
    /// identifier.
    ArtifactNotProduced {
        /// The promise artifact that was not produced.
        id: PromiseArtifactId,
    },
    /// An asserted short path did not match the produced artifact's path.
    ShortPathMismatch {
        /// The promise artifact the assertion was attached to.
        id: PromiseArtifactId,
        /// The short path the consumer asserted.
        asserted: ShortPath,
        /// The short path the owning analysis actually produced.
        actual: ShortPath,
        /// Where the promise was declared, when recorded.
        location: Option<FileSpan>,
    },
    /// The handle was already filled: a violation of the drain-exactly-once
    /// discipline of the caller, surfaced rather than silently ignored.
    AlreadyResolved {
        /// The promise artifact that was resolved twice.
        id: PromiseArtifactId,
    },
}

impl PromiseArtifactResolveError {
    /// The identifier the error is about.
    pub open spec fn spec_id(self) -> PromiseArtifactId {
        match self {
            PromiseArtifactResolveError::OwningAnalysisFailed { id, .. } => id,
            PromiseArtifactResolveError::ArtifactNotProduced { id } => id,
            PromiseArtifactResolveError::ShortPathMismatch { id, .. } => id,
            PromiseArtifactResolveError::AlreadyResolved { id } => id,
        }
    }

    /// The diagnostic text for this error.
    pub open spec fn spec_render(self) -> Seq<char> {
        match self {
            PromiseArtifactResolveError::OwningAnalysisFailed { id, message } => {
                "analysis of the owning anon target failed for promise artifact (id = "@
                    + spec_decimal(id.value as nat) + "): "@ + message@
            },
            PromiseArtifactResolveError::ArtifactNotProduced { id } => {
                "owning analysis did not produce promise artifact (id = "@ + spec_decimal(
                    id.value as nat,
                ) + ")"@
            },
            PromiseArtifactResolveError::ShortPathMismatch { id, asserted, actual, location } => {
                let tail: Seq<char> = match location {
                    None => Seq::<char>::empty(),
                    Some(l) => " (declared at "@ + l.spec_render() + ")"@,
                };
                "short path assertion failed for promise artifact (id = "@ + spec_decimal(
                    id.value as nat,
                ) + "): asserted `"@ + asserted@ + "`, actual `"@ + actual@ + "`"@ + tail
            },
            PromiseArtifactResolveError::AlreadyResolved { id } => {
                "promise artifact (id = "@ + spec_decimal(id.value as nat)
                    + ") was already resolved"@
            },
        }
    }

    /// Renders the diagnostic text for this error.
    pub fn render(&self) -> (r: String)
        ensures
            r@ == self.spec_render(),
    {
        let mut out = String::new();
        match self {
            PromiseArtifactResolveError::OwningAnalysisFailed { id, message } => {
                out.append("analysis of the owning anon target failed for promise artifact (id = ");
                crate::text::append_decimal(&mut out, id.value);
                out.append("): ");
                out.append(message.as_str());
            },
            PromiseArtifactResolveError::ArtifactNotProduced { id } => {
                out.append("owning analysis did not produce promise artifact (id = ");
                crate::text::append_decimal(&mut out, id.value);
                out.append(")");
            },
            PromiseArtifactResolveError::ShortPathMismatch { id, asserted, actual, location } => {
                out.append("short path assertion failed for promise artifact (id = ");
                crate::text::append_decimal(&mut out, id.value);
                out.append("): asserted `");
                out.append(asserted.as_str());
                out.append("`, actual `");
                out.append(actual.as_str());
                out.append("`");
                match location {
                    None => {},
                    Some(l) => {
                        out.append(" (declared at ");
                        let rendered = l.render();
                        out.append(rendered.as_str());
                        out.append(")");
                    },
                }
            },
            PromiseArtifactResolveError::AlreadyResolved { id } => {
                out.append("promise artifact (id = ");
                crate::text::append_decimal(&mut out, id.value);
                out.append(") was already resolved");
            },
        }
        proof {
            assert(out@ =~= self.spec_render());
        }
        out
    }
}

} // verus!
