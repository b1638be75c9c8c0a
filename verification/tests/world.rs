use ayr::entity::EntityTable;
use ayr::ids::{EntityId, NodeId, WorldId};
use ayr::table::Table;
use ayr::world::World;

#[test]
fn spawn_hands_out_increasing_node_ids() {
    let mut world: World<&str> = World::new();
    assert!(world.is_empty());
    assert_eq!(world.id(), WorldId(0));
    let a = world.spawn("a");
    let b = world.spawn("b");
    assert_eq!(a, NodeId(0));
    assert_eq!(b, NodeId(1));
    assert_eq!(world.len(), 2);
    assert!(!world.is_empty());
    assert_eq!(world.get(&a), Some(&"a"));
    assert_eq!(world.get(&b), Some(&"b"));
    assert!(world.contains(&a));
    assert!(!world.contains(&NodeId(2)));
}

#[test]
fn destroy_removes_and_ids_are_not_reused() {
    let mut world: World<u32> = World::default();
    let a = world.spawn(10);
    let b = world.spawn(20);
    assert_eq!(world.destroy(&a), Some(10));
    assert_eq!(world.destroy(&a), None);
    assert!(world.get(&a).is_none());
    assert_eq!(world.get(&b), Some(&20));
    let c = world.spawn(30);
    assert_eq!(c, NodeId(2));
    assert_eq!(world.len(), 2);
}

#[test]
fn entity_table_insert_get_delete() {
    let mut table: EntityTable<String> = EntityTable::new();
    let first = table.insert("first".to_string()).id;
    let second = table.insert("second".to_string()).id;
    assert_eq!(first, EntityId::from(0));
    assert_eq!(second, EntityId::from(1));
    assert!(table.contains(&first));
    let row = table.get(&second).unwrap();
    assert_eq!(row.data, "second");
    assert_eq!(row.id, second);
    assert_eq!(row.version.to_u64(), 0);
    let removed = table.delete(&first).unwrap();
    assert_eq!(removed.data, "first");
    assert!(!table.contains(&first));
    assert!(table.get(&first).is_none());
    assert!(table.delete(&first).is_none());
}

#[test]
fn world_iter_lists_entities_in_id_order() {
    let mut world: World<char> = World::new();
    let a = world.spawn('a');
    world.spawn('b');
    world.spawn('c');
    world.destroy(&a);
    world.spawn('d');
    let all: Vec<char> = world.iter().into_iter().copied().collect();
    assert_eq!(all, vec!['b', 'c', 'd']);
}

#[test]
fn entity_table_update_changes_data_and_counts() {
    let mut table: EntityTable<u32> = EntityTable::default();
    let id = table.insert(1).id;
    let created = table.get(&id).unwrap().created_at;
    table.update(&id, |n: u32| n + 41);
    let row = table.get(&id).unwrap();
    assert_eq!(row.data, 42);
    assert_eq!(row.version.to_u64(), 1);
    assert_eq!(row.created_at, created);
    table.update(&EntityId::from(99), |n: u32| n + 1);
    assert!(!table.contains(&EntityId::from(99)));
}

#[test]
fn entity_table_update_at_stamps_the_given_time() {
    let mut table: EntityTable<u32> = EntityTable::new();
    let id = table.insert(7).id;
    let t = std::time::SystemTime::UNIX_EPOCH;
    table.update_at(&id, |n: u32| n * 3, t);
    let row = table.get(&id).unwrap();
    assert_eq!(row.data, 21);
    assert_eq!(row.updated_at, t);
    assert_eq!(row.version.to_u64(), 1);
}
