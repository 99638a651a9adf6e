use aiko::message::ActorId;
use aiko::registry::ActorIndex;

#[test]
fn index_register_and_lookup() {
    let mut index = ActorIndex::new();
    assert!(index.is_empty());
    let id = ActorId(7);
    index.register(id, "test_actor");
    assert!(index.contains_name("test_actor"));
    assert!(index.contains_id(&id));
    assert_eq!(index.len(), 1);
    assert_eq!(index.id_of_name("test_actor"), Some(id));
    assert_eq!(index.id_of_name("other"), None);
}

#[test]
fn index_unregister_removes_both_entries() {
    let mut index = ActorIndex::new();
    let id = ActorId(7);
    index.register(id, "test_actor");
    index.unregister(&id);
    assert!(!index.contains_name("test_actor"));
    assert!(!index.contains_id(&id));
    assert!(index.is_empty());
    // an unknown id changes nothing
    index.register(ActorId(1), "a");
    index.unregister(&ActorId(2));
    assert_eq!(index.len(), 1);
    assert!(index.contains_name("a"));
}

#[test]
fn index_unregister_by_name_reports_the_id() {
    let mut index = ActorIndex::new();
    index.register(ActorId(1), "a");
    index.register(ActorId(2), "b");
    assert_eq!(index.unregister_by_name("a"), Some(ActorId(1)));
    assert!(!index.contains_id(&ActorId(1)));
    assert!(index.contains_id(&ActorId(2)));
    assert_eq!(index.unregister_by_name("a"), None);
    assert_eq!(index.len(), 1);
}

#[test]
fn index_reused_name_points_to_the_latest_id() {
    let mut index = ActorIndex::new();
    index.register(ActorId(1), "worker");
    index.register(ActorId(2), "worker");
    assert_eq!(index.len(), 2);
    assert_eq!(index.id_of_name("worker"), Some(ActorId(2)));
    // removing the older id also drops the name it was registered under
    index.unregister(&ActorId(1));
    assert!(!index.contains_name("worker"));
    assert!(index.contains_id(&ActorId(2)));
    assert_eq!(index.len(), 1);
}
