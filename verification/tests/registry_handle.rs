//! Registration order, handle aliasing, and the single-assignment cell
//! lifecycle.

use promise_artifacts::artifact::ConcreteArtifact;
use promise_artifacts::artifact::PromiseArtifactId;
use promise_artifacts::errors::PromiseArtifactResolveError;
use promise_artifacts::location::FileSpan;
use promise_artifacts::registry::PromiseArtifactRegistry;
use promise_artifacts::short_path::ShortPath;

fn sp(s: &str) -> ShortPath {
    ShortPath::new(s.to_string()).unwrap()
}

fn id(value: u64) -> PromiseArtifactId {
    PromiseArtifactId { value }
}

#[test]
fn register_returns_handles_in_registration_order() {
    let mut registry = PromiseArtifactRegistry::new();
    let h1 = registry.register(None, id(1));
    let h2 = registry.register(
        Some(FileSpan { file: "f.bzl".to_string(), line: 3, column: 7 }),
        id(2),
    );
    let h3 = registry.register(None, id(3));
    assert_eq!(h1.id(), id(1));
    assert_eq!(h2.id(), id(2));
    assert_eq!(h3.id(), id(3));

    let extracted = registry.consumer_analysis_artifacts();
    assert_eq!(extracted.len(), 3);
    assert_eq!(extracted[0].id(), id(1));
    assert_eq!(extracted[1].id(), id(2));
    assert_eq!(extracted[2].id(), id(3));
    for h in &extracted {
        assert!(h.read(&registry).is_none());
    }
    // One handle per registration, each distinct by identity: it names its
    // own cell.
    assert_ne!(extracted[0], extracted[1]);
    assert_ne!(extracted[1], extracted[2]);
    assert_ne!(extracted[0], extracted[2]);
    // The extracted handles alias the registered ones.
    assert_eq!(extracted[0], h1);
    assert_eq!(extracted[1], h2);
    assert_eq!(extracted[2], h3);

    // A second extraction names the same cells.
    let again = registry.consumer_analysis_artifacts();
    assert_eq!(again.len(), 3);
    assert_eq!(again[0], h1);
}

#[test]
fn empty_registry_extracts_nothing() {
    let registry = PromiseArtifactRegistry::new();
    assert_eq!(registry.consumer_analysis_artifacts().len(), 0);
}

#[test]
fn read_is_unresolved_until_the_single_resolve() {
    let mut registry = PromiseArtifactRegistry::new();
    let h = registry.register(None, id(7));
    assert!(h.read(&registry).is_none());

    let a = ConcreteArtifact { short_path: sp("out/a.txt") };
    h.try_resolve(&mut registry, a.clone()).unwrap();
    assert_eq!(h.read(&registry).unwrap(), &a);
}

#[test]
fn resolution_is_observable_through_every_holder() {
    // The handle `register` returned, handles extracted before the write,
    // and handles extracted after it all name the same cell.
    let mut registry = PromiseArtifactRegistry::new();
    let registered = registry.register(None, id(7));
    let before = registry.consumer_analysis_artifacts();

    let a = ConcreteArtifact { short_path: sp("out/a.txt") };
    registered.try_resolve(&mut registry, a.clone()).unwrap();

    let after = registry.consumer_analysis_artifacts();
    assert_eq!(registered.read(&registry).unwrap(), &a);
    assert_eq!(before[0].read(&registry).unwrap(), &a);
    assert_eq!(after[0].read(&registry).unwrap(), &a);
}

#[test]
fn second_resolve_always_faults() {
    let mut registry = PromiseArtifactRegistry::new();
    let h = registry.register(None, id(7));
    let a = ConcreteArtifact { short_path: sp("out/a.txt") };
    let b = ConcreteArtifact { short_path: sp("out/b.txt") };
    h.try_resolve(&mut registry, a.clone()).unwrap();

    // The fault strikes through any handle for the registration.
    let alias = registry.consumer_analysis_artifacts();
    let err = alias[0].try_resolve(&mut registry, b).unwrap_err();
    assert!(matches!(
        err,
        PromiseArtifactResolveError::AlreadyResolved { id: i } if i == id(7)
    ));
    assert_eq!(
        err.render(),
        "promise artifact (id = 7) was already resolved"
    );
    // The first value is kept.
    assert_eq!(h.read(&registry).unwrap(), &a);
}
