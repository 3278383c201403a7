use rust_tour::ident::ConnectionId;
use rust_tour::registry::{
    CreateOutcome, Geometry, SessionInfo, SessionRegistry, DEFAULT_COLS, DEFAULT_ROWS,
};

fn conn(value: u128) -> ConnectionId {
    ConnectionId::from_u128(value)
}

fn info(owner: u128, cols: u16, rows: u16, instance: u64) -> Option<SessionInfo> {
    Some(SessionInfo { owner: conn(owner), geometry: Geometry { cols, rows }, instance })
}

#[test]
fn new_registry_is_empty() {
    let registry = SessionRegistry::new();
    assert_eq!(registry.len(), 0);
    assert!(!registry.contains("s1"));
    assert_eq!(registry.lookup("s1"), None);
    assert!(registry.drain_by_owner(conn(1)).is_empty());
}

#[test]
fn default_geometry_is_80_by_24() {
    assert_eq!(DEFAULT_COLS, 80);
    assert_eq!(DEFAULT_ROWS, 24);
}

#[test]
fn create_registers_with_default_geometry() {
    let mut registry = SessionRegistry::new();
    let outcome = registry.create("s1".to_string(), conn(1), None, None);
    assert_eq!(outcome, CreateOutcome::Created { instance: 0 });
    assert_eq!(registry.lookup("s1"), info(1, 80, 24, 0));
    assert_eq!(registry.len(), 1);
    assert!(registry.contains("s1"));
}

#[test]
fn create_takes_the_requested_geometry() {
    let mut registry = SessionRegistry::new();
    registry.create("a".to_string(), conn(1), Some(132), Some(43));
    registry.create("b".to_string(), conn(1), Some(100), None);
    registry.create("c".to_string(), conn(1), None, Some(50));
    registry.create("d".to_string(), conn(1), Some(0), Some(65535));
    assert_eq!(registry.lookup("a"), info(1, 132, 43, 0));
    assert_eq!(registry.lookup("b"), info(1, 100, 24, 1));
    assert_eq!(registry.lookup("c"), info(1, 80, 50, 2));
    assert_eq!(registry.lookup("d"), info(1, 0, 65535, 3));
    assert_eq!(registry.len(), 4);
}

#[test]
fn second_create_reattaches_and_keeps_geometry() {
    let mut registry = SessionRegistry::new();
    assert_eq!(
        registry.create("s1".to_string(), conn(1), Some(100), Some(40)),
        CreateOutcome::Created { instance: 0 }
    );
    assert_eq!(
        registry.create("s1".to_string(), conn(2), Some(10), Some(10)),
        CreateOutcome::Reattached
    );
    assert_eq!(registry.lookup("s1"), info(2, 100, 40, 0));
    assert_eq!(registry.len(), 1);
}

#[test]
fn many_creates_of_one_id_register_it_once() {
    let mut registry = SessionRegistry::new();
    let mut created = 0;
    let mut reattached = 0;
    for owner in 1..=20u128 {
        match registry.create("shared".to_string(), conn(owner), None, None) {
            CreateOutcome::Created { instance } => {
                assert_eq!(instance, 0);
                created += 1;
            }
            CreateOutcome::Reattached => reattached += 1,
            CreateOutcome::Exhausted => panic!("no instance number left"),
        }
        assert_eq!(registry.lookup("shared"), info(owner, 80, 24, 0));
    }
    assert_eq!(created, 1);
    assert_eq!(reattached, 19);
    assert_eq!(registry.len(), 1);
}

#[test]
fn attach_changes_owner_of_a_known_session_only() {
    let mut registry = SessionRegistry::new();
    registry.create("s1".to_string(), conn(1), None, None);
    assert!(registry.attach("s1", conn(2)));
    assert_eq!(registry.lookup("s1"), info(2, 80, 24, 0));
    assert!(!registry.attach("s2", conn(2)));
    assert!(!registry.contains("s2"));
    assert_eq!(registry.len(), 1);
}

#[test]
fn resize_is_idempotent() {
    let mut registry = SessionRegistry::new();
    registry.create("s1".to_string(), conn(1), None, None);
    assert!(registry.resize("s1", 0, 100, 40));
    assert_eq!(registry.lookup("s1"), info(1, 100, 40, 0));
    assert!(registry.resize("s1", 0, 100, 40));
    assert_eq!(registry.lookup("s1"), info(1, 100, 40, 0));
    assert_eq!(registry.len(), 1);
}

#[test]
fn resize_of_unknown_session_changes_nothing() {
    let mut registry = SessionRegistry::new();
    registry.create("s1".to_string(), conn(1), None, None);
    assert!(!registry.resize("nope", 0, 100, 40));
    assert_eq!(registry.lookup("s1"), info(1, 80, 24, 0));
    assert_eq!(registry.lookup("nope"), None);
    assert_eq!(registry.len(), 1);
}

#[test]
fn resize_of_another_instance_changes_nothing() {
    let mut registry = SessionRegistry::new();
    registry.create("s1".to_string(), conn(1), None, None);
    registry.destroy("s1");
    registry.create("s1".to_string(), conn(1), None, None);
    assert!(!registry.resize("s1", 0, 100, 40));
    assert_eq!(registry.lookup("s1"), info(1, 80, 24, 1));
    assert!(registry.resize("s1", 1, 100, 40));
    assert_eq!(registry.lookup("s1"), info(1, 100, 40, 1));
}

#[test]
fn destroy_removes_the_session() {
    let mut registry = SessionRegistry::new();
    registry.create("s1".to_string(), conn(1), None, None);
    registry.create("s2".to_string(), conn(1), None, None);
    assert_eq!(registry.destroy("s1"), Some(0));
    assert!(!registry.contains("s1"));
    assert!(registry.contains("s2"));
    assert_eq!(registry.len(), 1);
    assert_eq!(registry.destroy("s2"), Some(1));
    assert_eq!(registry.len(), 0);
}

#[test]
fn operations_after_destroy_are_no_ops() {
    let mut registry = SessionRegistry::new();
    registry.create("s1".to_string(), conn(1), None, None);
    registry.create("other".to_string(), conn(3), Some(90), Some(30));
    assert_eq!(registry.destroy("s1"), Some(0));
    assert!(!registry.attach("s1", conn(2)));
    assert!(!registry.resize("s1", 0, 100, 40));
    assert!(!registry.retire("s1", 0));
    assert_eq!(registry.destroy("s1"), None);
    assert!(!registry.contains("s1"));
    assert!(!registry.is_live("s1", 0));
    assert_eq!(registry.lookup("other"), info(3, 90, 30, 1));
    assert_eq!(registry.len(), 1);
}

#[test]
fn destroyed_id_is_created_again_as_a_new_instance() {
    let mut registry = SessionRegistry::new();
    registry.create("s1".to_string(), conn(1), Some(100), Some(40));
    registry.destroy("s1");
    assert_eq!(
        registry.create("s1".to_string(), conn(2), None, None),
        CreateOutcome::Created { instance: 1 }
    );
    assert_eq!(registry.lookup("s1"), info(2, 80, 24, 1));
    assert!(registry.is_live("s1", 1));
    assert!(!registry.is_live("s1", 0));
}

#[test]
fn retire_removes_only_its_own_instance() {
    let mut registry = SessionRegistry::new();
    registry.create("s1".to_string(), conn(1), None, None);
    registry.destroy("s1");
    registry.create("s1".to_string(), conn(2), None, None);
    assert!(!registry.retire("s1", 0));
    assert_eq!(registry.lookup("s1"), info(2, 80, 24, 1));
    assert!(!registry.retire("s1", 2));
    assert!(registry.retire("s1", 1));
    assert!(!registry.contains("s1"));
    assert!(!registry.retire("s1", 1));
}

#[test]
fn instance_numbers_are_never_used_twice() {
    let mut registry = SessionRegistry::new();
    let mut seen = Vec::new();
    for round in 0..5u64 {
        for id in ["a", "b", "c"] {
            match registry.create(id.to_string(), conn(1), None, None) {
                CreateOutcome::Created { instance } => {
                    assert!(!seen.contains(&instance));
                    seen.push(instance);
                }
                other => panic!("unexpected outcome {:?}", other),
            }
        }
        assert_eq!(registry.destroy("b"), Some(round * 3 + 1));
        registry.destroy("a");
        registry.destroy("c");
    }
    assert_eq!(seen, (0..15u64).collect::<Vec<u64>>());
}

#[test]
fn registry_refuses_new_sessions_when_instance_numbers_run_out() {
    let mut registry = SessionRegistry::starting_at(u64::MAX - 1);
    assert_eq!(
        registry.create("a".to_string(), conn(1), None, None),
        CreateOutcome::Created { instance: u64::MAX - 1 }
    );
    assert_eq!(registry.create("b".to_string(), conn(1), None, None), CreateOutcome::Exhausted);
    assert!(!registry.contains("b"));
    assert_eq!(registry.create("a".to_string(), conn(2), None, None), CreateOutcome::Reattached);
    assert_eq!(registry.lookup("a"), info(2, 80, 24, u64::MAX - 1));
    assert_eq!(registry.len(), 1);
}

#[test]
fn drain_by_owner_lists_exactly_the_owned_sessions() {
    let mut registry = SessionRegistry::new();
    registry.create("a".to_string(), conn(1), None, None);
    registry.create("b".to_string(), conn(2), None, None);
    registry.create("c".to_string(), conn(1), None, None);
    registry.create("d".to_string(), conn(3), None, None);
    let mut mine = registry.drain_by_owner(conn(1));
    mine.sort();
    assert_eq!(mine, vec!["a".to_string(), "c".to_string()]);
    assert_eq!(registry.drain_by_owner(conn(2)), vec!["b".to_string()]);
    assert!(registry.drain_by_owner(conn(9)).is_empty());
    assert_eq!(registry.len(), 4);
}

#[test]
fn drain_by_owner_follows_ownership_changes() {
    let mut registry = SessionRegistry::new();
    registry.create("a".to_string(), conn(1), None, None);
    registry.create("b".to_string(), conn(1), None, None);
    registry.attach("a", conn(2));
    assert_eq!(registry.drain_by_owner(conn(1)), vec!["b".to_string()]);
    assert_eq!(registry.drain_by_owner(conn(2)), vec!["a".to_string()]);
}

#[test]
fn session_ids_are_compared_as_text() {
    let mut registry = SessionRegistry::new();
    registry.create("".to_string(), conn(1), None, None);
    registry.create("s".to_string(), conn(2), None, None);
    registry.create("s1".to_string(), conn(3), None, None);
    registry.create("S1".to_string(), conn(4), None, None);
    registry.create("s\u{e9}".to_string(), conn(5), None, None);
    assert_eq!(registry.len(), 5);
    assert_eq!(registry.lookup("").map(|i| i.owner), Some(conn(1)));
    assert_eq!(registry.lookup("s").map(|i| i.owner), Some(conn(2)));
    assert_eq!(registry.lookup("s1").map(|i| i.owner), Some(conn(3)));
    assert_eq!(registry.lookup("S1").map(|i| i.owner), Some(conn(4)));
    assert_eq!(registry.lookup("s\u{e9}").map(|i| i.owner), Some(conn(5)));
    assert_eq!(registry.lookup("s2"), None);
}
