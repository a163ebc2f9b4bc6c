//! Resolution behavior: per-lifecycle instance identity, the cycle
//! guard, missing registrations, and scope teardown.
//!
//! The tests play the role of the embedding runtime: they drive the
//! engine's state machine, standing in for the asynchronous
//! constructors with a counter that yields a fresh instance identity
//! on every construction — so equal identities mean the engine reused
//! a cached instance, and the counter's final value says how many
//! constructions ran.

use rust_di::{DiContainer, DiError, DIScope, Holder, Lifecycle, ResolveAction, ServiceKey};

/// Drives one full resolution: begins it, and when the engine asks
/// for a construction, "runs" the constructor by drawing the next
/// identity from `counter` and committing it.
fn resolve(
    c: &mut DiContainer,
    s: &mut DIScope,
    key: &ServiceKey,
    counter: &mut u64,
) -> Result<Holder, DiError> {
    match c.resolve_begin(s, key)? {
        ResolveAction::Ready(h) => Ok(h),
        ResolveAction::Construct(lifecycle, _ctor) => {
            *counter += 1;
            let id = *counter;
            Ok(c.resolve_commit(s, key, lifecycle, id))
        }
    }
}

#[test]
fn test_transient_service() {
    let mut c = DiContainer::new();
    c.register_transient(1, 10).unwrap();

    let mut s = DIScope::new();
    let mut counter = 0;
    let service1 = resolve(&mut c, &mut s, &ServiceKey::unnamed(1), &mut counter).unwrap();
    let service2 = resolve(&mut c, &mut s, &ServiceKey::unnamed(1), &mut counter).unwrap();

    assert_ne!(service1.id, service2.id);
    assert_eq!(counter, 2);
}

#[test]
fn test_scoped_service() {
    let mut c = DiContainer::new();
    c.register_scope(2, 20).unwrap();

    let mut s = DIScope::new();
    let mut counter = 0;
    let service1 = resolve(&mut c, &mut s, &ServiceKey::unnamed(2), &mut counter).unwrap();
    let service2 = resolve(&mut c, &mut s, &ServiceKey::unnamed(2), &mut counter).unwrap();

    assert_eq!(service1.id, service2.id);
    assert_eq!(counter, 1);

    c.register_scope_name(3, "named_scoped_service", 21).unwrap();
    let named_key = ServiceKey::new(3, "named_scoped_service".to_string());
    let named_service = resolve(&mut c, &mut s, &named_key, &mut counter).unwrap();
    assert_eq!(named_service.id, 2);
    assert_eq!(counter, 2);
}

#[test]
fn test_scoped_service_different_scopes() {
    let mut c = DiContainer::new();
    c.register_scope(4, 40).unwrap();
    let key = ServiceKey::unnamed(4);
    let mut counter = 0;

    let mut scope1 = DIScope::new();
    let service_id_scope1 = resolve(&mut c, &mut scope1, &key, &mut counter).unwrap().id;

    let mut scope2 = DIScope::new();
    let service_id_scope2 = resolve(&mut c, &mut scope2, &key, &mut counter).unwrap().id;

    assert_ne!(service_id_scope1, service_id_scope2);
    assert_eq!(counter, 2);
}

#[test]
fn test_singleton_service() {
    let mut c = DiContainer::new();
    c.register_singleton(5, 50).unwrap();
    let key = ServiceKey::unnamed(5);
    let mut counter = 0;

    let mut s = DIScope::new();
    let service1 = resolve(&mut c, &mut s, &key, &mut counter).unwrap();
    let service2 = resolve(&mut c, &mut s, &key, &mut counter).unwrap();
    assert_eq!(service1.id, service2.id);
    assert_eq!(counter, 1);

    // The identity also survives into a different scope.
    let mut other_scope = DIScope::new();
    let service3 = resolve(&mut c, &mut other_scope, &key, &mut counter).unwrap();
    assert_eq!(service1.id, service3.id);
    assert_eq!(counter, 1);
}

#[test]
fn test_multiple_named_singletons_of_same_type() {
    let mut c = DiContainer::new();
    let tag = 6;
    c.register_singleton_name(tag, "db_conn_1", 60).unwrap();
    c.register_singleton_name(tag, "db_conn_2", 61).unwrap();

    let mut s = DIScope::new();
    let mut counter = 0;
    let key1 = ServiceKey::new(tag, "db_conn_1".to_string());
    let key2 = ServiceKey::new(tag, "db_conn_2".to_string());

    let service1 = resolve(&mut c, &mut s, &key1, &mut counter).unwrap();
    let service2 = resolve(&mut c, &mut s, &key2, &mut counter).unwrap();
    assert_ne!(service1.id, service2.id);

    let service1_again = resolve(&mut c, &mut s, &key1, &mut counter).unwrap();
    assert_eq!(service1.id, service1_again.id);
    assert_eq!(counter, 2);
}

#[test]
fn test_unnamed_and_named_singleton_coexistence() {
    let mut c = DiContainer::new();
    let tag = 7;
    c.register_singleton(tag, 70).unwrap();
    c.register_singleton_name(tag, "special_coexist", 71).unwrap();

    let mut s = DIScope::new();
    let mut counter = 0;
    let default_service = resolve(&mut c, &mut s, &ServiceKey::unnamed(tag), &mut counter).unwrap();
    let named_key = ServiceKey::new(tag, "special_coexist".to_string());
    let named_service = resolve(&mut c, &mut s, &named_key, &mut counter).unwrap();

    assert_ne!(default_service.id, named_service.id);
    assert_eq!(counter, 2);
}

#[test]
fn test_mixed_lifetimes() {
    let mut c = DiContainer::new();
    c.register_singleton(8, 80).unwrap();
    c.register_transient_name(9, "transient_b", 81).unwrap();
    c.register_scope_name(10, "scoped_c", 82).unwrap();

    let mut counter = 0;
    let singleton_key = ServiceKey::unnamed(8);
    let transient_key = ServiceKey::new(9, "transient_b".to_string());
    let scoped_key = ServiceKey::new(10, "scoped_c".to_string());

    let mut s = DIScope::new();
    let s_singleton1 = resolve(&mut c, &mut s, &singleton_key, &mut counter).unwrap();
    let s_singleton2 = resolve(&mut c, &mut s, &singleton_key, &mut counter).unwrap();
    assert_eq!(s_singleton1.id, s_singleton2.id);
    assert_eq!(counter, 1);

    let t_b1 = resolve(&mut c, &mut s, &transient_key, &mut counter).unwrap();
    let t_b2 = resolve(&mut c, &mut s, &transient_key, &mut counter).unwrap();
    assert_ne!(t_b1.id, t_b2.id);
    assert_eq!(counter, 3);

    let sc_c1 = resolve(&mut c, &mut s, &scoped_key, &mut counter).unwrap();
    let sc_c2 = resolve(&mut c, &mut s, &scoped_key, &mut counter).unwrap();
    assert_eq!(sc_c1.id, sc_c2.id);
    assert_eq!(counter, 4);

    // A new unit of work gets a fresh scoped instance.
    let mut s2 = DIScope::new();
    let sc_c_new_scope = resolve(&mut c, &mut s2, &scoped_key, &mut counter).unwrap();
    assert_eq!(counter, 5);
    assert_ne!(sc_c_new_scope.id, sc_c1.id);
    assert_eq!(sc_c_new_scope.id, 5);
}

#[test]
fn test_service_not_found() {
    let mut c = DiContainer::new();
    let mut s = DIScope::new();
    let mut counter = 0;
    let missing_key = ServiceKey::unnamed(99);

    let result = resolve(&mut c, &mut s, &missing_key, &mut counter);
    assert!(matches!(result, Err(DiError::ServiceNotFound(_))));

    // The failure created no partial state.
    assert_eq!(counter, 0);
    assert_eq!(s.cached_count(), 0);
    assert!(!s.in_flight(99));
    assert!(!c.has_singleton_instance(&missing_key));
}

#[test]
fn test_circular_dependency() {
    // Service A's constructor resolves B, whose constructor resolves
    // A again. The driver below plays both constructors out by hand:
    // the nested attempt on A must be refused, in bounded time.
    let mut c = DiContainer::new();
    c.register_transient(11, 110).unwrap();
    c.register_transient(12, 120).unwrap();
    let key_a = ServiceKey::unnamed(11);
    let key_b = ServiceKey::unnamed(12);

    let mut s = DIScope::new();
    let begin_a = c.resolve_begin(&mut s, &key_a).unwrap();
    assert!(matches!(begin_a, ResolveAction::Construct(Lifecycle::Transient, 110)));

    // Inside A's constructor: resolve B.
    let begin_b = c.resolve_begin(&mut s, &key_b).unwrap();
    assert!(matches!(begin_b, ResolveAction::Construct(Lifecycle::Transient, 120)));

    // Inside B's constructor: resolve A again.
    let nested_a = c.resolve_begin(&mut s, &key_a);
    assert!(matches!(nested_a, Err(DiError::CircularDependency(_))));

    // B's constructor fails on that error; both resolutions unwind,
    // leaving no stale in-flight marker behind.
    s.exit_resolution();
    s.exit_resolution();
    assert!(!s.in_flight(11));
    assert!(!s.in_flight(12));

    // A later, unrelated resolution of A is not wrongly flagged.
    let mut counter = 0;
    let retry = resolve(&mut c, &mut s, &key_a, &mut counter);
    assert!(retry.is_ok());
}

#[test]
fn test_clear_scope_services() {
    let mut c = DiContainer::new();
    c.register_scope(13, 130).unwrap();
    let key = ServiceKey::unnamed(13);
    let mut counter = 0;

    let mut s = DIScope::new();
    let first = resolve(&mut c, &mut s, &key, &mut counter).unwrap();
    assert!(s.has_cached(&key));
    assert_eq!(s.cached_count(), 1);

    // Ending the unit of work hands the cached instance out exactly
    // once, for its cleanup logic to run.
    let drained = s.clear_scoped_instances();
    assert_eq!(drained.len(), 1);
    assert_eq!(drained[0].0, key);
    assert_eq!(drained[0].1, first.id);
    assert_eq!(s.cached_count(), 0);
    assert!(!s.has_cached(&key));

    // Resolving afterwards starts from a fresh construction.
    let second = resolve(&mut c, &mut s, &key, &mut counter).unwrap();
    assert!(s.has_cached(&key));
    assert_ne!(first.id, second.id);
    assert_eq!(counter, 2);
}

#[test]
fn test_scope_drain_lists_every_instance_once() {
    // Several scoped services; the drained list is exactly the cache.
    let mut c = DiContainer::new();
    c.register_scope(14, 140).unwrap();
    c.register_scope_name(14, "second", 141).unwrap();
    c.register_scope(15, 150).unwrap();

    let keys = vec![
        ServiceKey::unnamed(14),
        ServiceKey::new(14, "second".to_string()),
        ServiceKey::unnamed(15),
    ];
    let mut s = DIScope::new();
    let mut counter = 0;
    let mut expected: Vec<(ServiceKey, u64)> = Vec::new();
    for key in &keys {
        let h = resolve(&mut c, &mut s, key, &mut counter).unwrap();
        expected.push((key.dup(), h.id));
    }

    let mut drained = s.clear_scoped_instances();
    assert_eq!(drained.len(), 3);
    for pair in &expected {
        let position = drained.iter().position(|p| p == pair);
        assert!(position.is_some(), "missing drained entry {:?}", pair);
        drained.remove(position.unwrap());
    }
    assert!(drained.is_empty());
}

#[test]
fn test_holder_downcast_guards_the_type_tag() {
    let mut c = DiContainer::new();
    c.register_singleton(16, 160).unwrap();
    let key = ServiceKey::unnamed(16);
    let mut s = DIScope::new();
    let mut counter = 0;

    let holder = resolve(&mut c, &mut s, &key, &mut counter).unwrap();
    assert_eq!(holder.tag, 16);
    assert!(matches!(holder.downcast(16), Ok(id) if id == holder.id));
    assert!(matches!(holder.downcast(17), Err(DiError::TypeMismatch)));
}

#[test]
fn test_reset_clears_all_state() {
    let mut c = DiContainer::new();
    c.register_singleton(18, 180).unwrap();
    let key = ServiceKey::unnamed(18);
    let mut s = DIScope::new();
    let mut counter = 0;
    let _ = resolve(&mut c, &mut s, &key, &mut counter).unwrap();
    assert!(c.has_singleton_instance(&key));

    c.reset();
    assert!(!c.has_registration(&key));
    assert!(!c.has_singleton_instance(&key));
    let result = resolve(&mut c, &mut s, &key, &mut counter);
    assert!(matches!(result, Err(DiError::ServiceNotFound(_))));
}
