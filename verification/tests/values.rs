use ayr::diagnostic::{new, Severity};
use ayr::ids::{EntityId, NodeId, WorldId};
use ayr::table::Version;

#[test]
fn entity_id_is_written_with_prefix() {
    assert_eq!(EntityId::from(5).to_string(), "entity_5");
    assert_eq!(EntityId::from(0).to_string(), "entity_0");
    assert_eq!(EntityId::from(1234567890).to_string(), "entity_1234567890");
}

#[test]
fn next_ids_count_up() {
    assert_eq!(EntityId::from(41).next(), EntityId::from(42));
    assert_eq!(NodeId(0).next(), NodeId(1));
    assert_eq!(WorldId(9).next(), WorldId(10));
    assert!(NodeId(3) < NodeId(3).next());
}

#[test]
fn version_counts_and_wraps() {
    let mut v = Version::default();
    assert_eq!(v.to_u64(), 0);
    v.increment();
    v.increment();
    assert_eq!(v.to_u64(), 2);
    assert_eq!(v.to_string(), "2");
    let mut top = Version::from(u64::MAX);
    top.increment();
    assert_eq!(top.to_u64(), 0);
}

#[test]
fn diagnostic_is_written_with_nested_children() {
    let leaf = new().severity(Severity::Warn).message("inner").build();
    let bare = new().severity(Severity::Debug).build();
    let d = new()
        .severity(Severity::Error)
        .message("outer")
        .child(leaf)
        .child(bare)
        .build();
    assert_eq!(d.to_string(), "[error] outer\n  [warn] inner\n  [debug]");
}

#[test]
fn diagnostic_defaults_to_info() {
    let d = new().build();
    assert_eq!(d.severity, Severity::Info);
    assert_eq!(d.to_string(), "[info]");
}

#[test]
fn build_at_stamps_the_given_time() {
    let t = std::time::SystemTime::UNIX_EPOCH;
    let d = new().message("m").build_at(t);
    assert_eq!(d.timestamp, t);
    assert_eq!(d.to_string(), "[info] m");
}

#[test]
fn stamped_row_keeps_both_times() {
    let created = std::time::SystemTime::UNIX_EPOCH;
    let updated = created + std::time::Duration::from_secs(5);
    let row = ayr::table::Row::stamped(EntityId::from(3), "data", created, updated);
    assert_eq!(row.id, EntityId::from(3));
    assert_eq!(row.data, "data");
    assert_eq!(row.version.to_u64(), 0);
    assert_eq!(row.created_at, created);
    assert_eq!(row.updated_at, updated);
}

#[test]
fn builder_chain_keeps_last_settings_and_all_children() {
    let t = std::time::SystemTime::UNIX_EPOCH;
    let d = new()
        .severity(Severity::Warn)
        .message("first")
        .child(new().build_at(t))
        .severity(Severity::Error)
        .message("second")
        .child(new().severity(Severity::Debug).build_at(t))
        .build_at(t);
    assert_eq!(d.severity, Severity::Error);
    assert_eq!(d.message.as_deref(), Some("second"));
    assert_eq!(d.children.len(), 2);
    assert_eq!(d.to_string(), "[error] second\n  [info]\n  [debug]");
}
