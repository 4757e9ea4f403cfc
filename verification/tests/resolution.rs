//! End-to-end resolution scenarios against a memoized engine table.

use promise_artifacts::analysis::AnalysisEngine;
use promise_artifacts::analysis::AnalysisFailure;
use promise_artifacts::analysis::AnalysisResult;
use promise_artifacts::analysis::ProducedArtifact;
use promise_artifacts::artifact::ConcreteArtifact;
use promise_artifacts::artifact::PromiseArtifactId;
use promise_artifacts::artifact::TargetKey;
use promise_artifacts::errors::PromiseArtifactResolveError;
use promise_artifacts::location::FileSpan;
use promise_artifacts::registry::PromiseArtifactRegistry;
use promise_artifacts::resolve::ResolveRequest;
use promise_artifacts::resolve::resolve_all;
use promise_artifacts::short_path::ShortPath;

fn sp(s: &str) -> ShortPath {
    ShortPath::new(s.to_string()).unwrap()
}

fn id(value: u64) -> PromiseArtifactId {
    PromiseArtifactId { value }
}

fn key(value: u64) -> TargetKey {
    TargetKey { value }
}

fn produced(id_value: u64, path: &str) -> ProducedArtifact {
    ProducedArtifact { id: id(id_value), artifact: ConcreteArtifact { short_path: sp(path) } }
}

#[test]
fn resolves_artifact_without_assertion() {
    let mut registry = PromiseArtifactRegistry::new();
    let h = registry.register(None, id(1));

    let mut engine = AnalysisEngine::new();
    engine.record(key(100), Ok(AnalysisResult { artifacts: vec![produced(1, "out/a.txt")] }));

    let requests = vec![ResolveRequest { owner: key(100), asserted_short_path: None }];
    let out = resolve_all(&mut registry, &requests, &engine);

    assert_eq!(out.len(), 1);
    assert!(out[0].is_ok());
    // The write is visible through the handle `register` returned and
    // through the extracted consumer list alike.
    let expected = ConcreteArtifact { short_path: sp("out/a.txt") };
    assert_eq!(h.read(&registry).unwrap(), &expected);
    let extracted = registry.consumer_analysis_artifacts();
    assert_eq!(extracted[0].read(&registry).unwrap(), &expected);
}

#[test]
fn mismatched_assertion_fails_with_full_diagnostic() {
    let mut registry = PromiseArtifactRegistry::new();
    let h = registry.register(
        Some(FileSpan { file: "defs.bzl".to_string(), line: 12, column: 5 }),
        id(2),
    );

    let mut engine = AnalysisEngine::new();
    engine.record(
        key(200),
        Ok(AnalysisResult { artifacts: vec![produced(2, "out/different.txt")] }),
    );

    let requests = vec![ResolveRequest {
        owner: key(200),
        asserted_short_path: Some(sp("out/b.txt")),
    }];
    let out = resolve_all(&mut registry, &requests, &engine);

    assert_eq!(out.len(), 1);
    // The cell stays unresolved.
    assert!(h.read(&registry).is_none());
    let err = out[0].as_ref().unwrap_err();
    assert!(matches!(
        err,
        PromiseArtifactResolveError::ShortPathMismatch { id: i, .. } if *i == id(2)
    ));
    assert_eq!(
        err.render(),
        "short path assertion failed for promise artifact (id = 2): \
         asserted `out/b.txt`, actual `out/different.txt` (declared at defs.bzl:12:5)"
    );
}

#[test]
fn matching_assertion_resolves() {
    let mut registry = PromiseArtifactRegistry::new();
    let h = registry.register(None, id(2));

    let mut engine = AnalysisEngine::new();
    engine.record(key(200), Ok(AnalysisResult { artifacts: vec![produced(2, "out/b.txt")] }));

    let requests = vec![ResolveRequest {
        owner: key(200),
        asserted_short_path: Some(sp("out/b.txt")),
    }];
    let out = resolve_all(&mut registry, &requests, &engine);
    assert!(out[0].is_ok());
    assert_eq!(h.read(&registry).unwrap().short_path, sp("out/b.txt"));
}

#[test]
fn failed_owning_analysis_surfaces_and_leaves_handle_unresolved() {
    let mut registry = PromiseArtifactRegistry::new();
    let h = registry.register(None, id(3));

    let mut engine = AnalysisEngine::new();
    engine.record(
        key(300),
        Err(AnalysisFailure { message: "owning analysis exploded".to_string() }),
    );

    let requests = vec![ResolveRequest { owner: key(300), asserted_short_path: None }];
    let out = resolve_all(&mut registry, &requests, &engine);

    assert!(h.read(&registry).is_none());
    let err = out[0].as_ref().unwrap_err();
    assert!(matches!(
        err,
        PromiseArtifactResolveError::OwningAnalysisFailed { id: i, .. } if *i == id(3)
    ));
    assert_eq!(
        err.render(),
        "analysis of the owning anon target failed for promise artifact (id = 3): \
         owning analysis exploded"
    );
}

#[test]
fn unproduced_identifier_is_a_not_found_error() {
    let mut registry = PromiseArtifactRegistry::new();
    let h = registry.register(None, id(4));

    let mut engine = AnalysisEngine::new();
    engine.record(key(400), Ok(AnalysisResult { artifacts: vec![produced(9, "out/other")] }));

    let requests = vec![ResolveRequest { owner: key(400), asserted_short_path: None }];
    let out = resolve_all(&mut registry, &requests, &engine);

    assert!(h.read(&registry).is_none());
    let err = out[0].as_ref().unwrap_err();
    assert_eq!(
        err.render(),
        "owning analysis did not produce promise artifact (id = 4)"
    );
}

#[test]
fn repeated_drain_faults_and_keeps_the_values() {
    let mut registry = PromiseArtifactRegistry::new();
    let h = registry.register(None, id(1));

    let mut engine = AnalysisEngine::new();
    engine.record(key(100), Ok(AnalysisResult { artifacts: vec![produced(1, "out/a")] }));

    let requests = vec![ResolveRequest { owner: key(100), asserted_short_path: None }];
    assert!(resolve_all(&mut registry, &requests, &engine)[0].is_ok());

    let second = resolve_all(&mut registry, &requests, &engine);
    assert!(matches!(
        second[0].as_ref().unwrap_err(),
        PromiseArtifactResolveError::AlreadyResolved { id: i } if *i == id(1)
    ));
    assert_eq!(h.read(&registry).unwrap().short_path, sp("out/a"));
}

#[test]
fn two_registries_observe_one_consistent_shared_dependency() {
    // Two independent analyses register disjoint identifiers; both owning
    // analyses are served by the same memoized engine table, which holds a
    // single outcome for the shared upstream target.
    let shared = key(500);
    let mut engine = AnalysisEngine::new();
    engine.record(
        shared,
        Ok(AnalysisResult {
            artifacts: vec![produced(10, "out/ten.txt"), produced(20, "out/twenty.txt")],
        }),
    );

    let mut registry_a = PromiseArtifactRegistry::new();
    let ha = registry_a.register(None, id(10));
    let mut registry_b = PromiseArtifactRegistry::new();
    let hb = registry_b.register(None, id(20));

    let requests_a = vec![ResolveRequest { owner: shared, asserted_short_path: None }];
    let requests_b = vec![ResolveRequest { owner: shared, asserted_short_path: None }];

    let out_a = resolve_all(&mut registry_a, &requests_a, &engine);
    let out_b = resolve_all(&mut registry_b, &requests_b, &engine);

    // Both observed the single memoized outcome for the shared dependency,
    // and each cell was written exactly once, with its own artifact.
    assert!(out_a[0].is_ok());
    assert!(out_b[0].is_ok());
    assert_eq!(ha.read(&registry_a).unwrap().short_path, sp("out/ten.txt"));
    assert_eq!(hb.read(&registry_b).unwrap().short_path, sp("out/twenty.txt"));

    // The engine answers repeated lookups of the shared key identically.
    let first = engine.lookup(shared).unwrap();
    let second = engine.lookup(shared).unwrap();
    assert!(first.is_ok() && second.is_ok());
}

#[test]
fn same_identifier_registered_twice_keeps_both_entries() {
    // A given identifier may be registered by two consumers; each
    // registration keeps its own entry, location and cell, and each is
    // resolved independently.
    let mut registry = PromiseArtifactRegistry::new();
    let h1 = registry.register(
        Some(FileSpan { file: "one.bzl".to_string(), line: 1, column: 1 }),
        id(5),
    );
    let h2 = registry.register(
        Some(FileSpan { file: "two.bzl".to_string(), line: 2, column: 2 }),
        id(5),
    );
    assert_ne!(h1, h2);

    let mut engine = AnalysisEngine::new();
    engine.record(key(100), Ok(AnalysisResult { artifacts: vec![produced(5, "out/e")] }));
    engine.record(
        key(200),
        Ok(AnalysisResult { artifacts: vec![produced(5, "out/elsewhere")] }),
    );

    let requests = vec![
        ResolveRequest { owner: key(100), asserted_short_path: None },
        ResolveRequest { owner: key(200), asserted_short_path: Some(sp("out/e")) },
    ];
    let out = resolve_all(&mut registry, &requests, &engine);
    assert!(out[0].is_ok());
    assert_eq!(h1.read(&registry).unwrap().short_path, sp("out/e"));
    // The second registration's assertion fails against its own owner's
    // artifact, under its own recorded location.
    assert!(h2.read(&registry).is_none());
    let err = out[1].as_ref().unwrap_err();
    assert_eq!(
        err.render(),
        "short path assertion failed for promise artifact (id = 5): \
         asserted `out/e`, actual `out/elsewhere` (declared at two.bzl:2:2)"
    );
}

#[test]
fn mismatch_without_location_renders_without_declaration_site() {
    let mut registry = PromiseArtifactRegistry::new();
    registry.register(None, id(6));

    let mut engine = AnalysisEngine::new();
    engine.record(key(600), Ok(AnalysisResult { artifacts: vec![produced(6, "out/real")] }));

    let requests = vec![ResolveRequest {
        owner: key(600),
        asserted_short_path: Some(sp("out/claimed")),
    }];
    let out = resolve_all(&mut registry, &requests, &engine);
    let err = out[0].as_ref().unwrap_err();
    assert_eq!(
        err.render(),
        "short path assertion failed for promise artifact (id = 6): \
         asserted `out/claimed`, actual `out/real`"
    );
}

#[test]
fn mixed_batch_resolves_in_registration_order() {
    let mut registry = PromiseArtifactRegistry::new();
    registry.register(None, id(1));
    registry.register(None, id(2));
    registry.register(None, id(3));

    let mut engine = AnalysisEngine::new();
    engine.record(key(100), Ok(AnalysisResult { artifacts: vec![produced(1, "out/a")] }));
    engine.record(key(200), Ok(AnalysisResult { artifacts: vec![produced(2, "out/b")] }));
    engine.record(key(300), Err(AnalysisFailure { message: "broken".to_string() }));

    let requests = vec![
        ResolveRequest { owner: key(100), asserted_short_path: None },
        ResolveRequest { owner: key(200), asserted_short_path: Some(sp("out/b")) },
        ResolveRequest { owner: key(300), asserted_short_path: None },
    ];
    let out = resolve_all(&mut registry, &requests, &engine);

    assert_eq!(out.len(), 3);
    assert!(out[0].is_ok());
    assert!(out[1].is_ok());
    assert!(out[2].is_err());

    let handles = registry.consumer_analysis_artifacts();
    assert_eq!(handles[0].id(), id(1));
    assert_eq!(handles[1].id(), id(2));
    assert_eq!(handles[2].id(), id(3));
    assert_eq!(handles[0].read(&registry).unwrap().short_path, sp("out/a"));
    assert_eq!(handles[1].read(&registry).unwrap().short_path, sp("out/b"));
    assert!(handles[2].read(&registry).is_none());
}
