use transform_viz::actor::{Command, Reply, StateManager};
use transform_viz::dynamic::{DynamicMap, DynamicValue};
use transform_viz::fbits::{F64Bits, QuatBits, TransformBits, Vec3Bits};
use transform_viz::store::{TransformRecord, TransformStore};

fn fb(x: f64) -> F64Bits {
    F64Bits { bits: x.to_bits() }
}

fn transform_at(x: f64) -> TransformBits {
    TransformBits {
        translation: Vec3Bits { x: fb(x), y: fb(0.0), z: fb(0.0) },
        rotation: QuatBits { x: fb(0.0), y: fb(0.0), z: fb(0.0), w: fb(1.0) },
    }
}

fn record(parent: &str, child: &str, x: f64) -> TransformRecord {
    TransformRecord {
        parent_frame_id: String::from(parent),
        child_frame_id: String::from(child),
        transform: transform_at(x),
        active_transform: true,
        metadata: None,
    }
}

#[test]
fn insert_keeps_distinct_children() {
    let mut store = TransformStore::new();
    store.insert(record("world", "a", 1.0));
    store.insert(record("world", "b", 2.0));
    assert_eq!(store.len(), 2);
}

#[test]
fn insert_replaces_record_with_same_child() {
    let mut store = TransformStore::new();
    store.insert(record("world", "a", 1.0));
    store.insert(record("base", "a", 3.0));
    assert_eq!(store.len(), 1);
    let snap = store.snapshot();
    assert_eq!(snap[0].parent_frame_id, "base");
    assert_eq!(snap[0].transform, transform_at(3.0));
}

#[test]
fn load_inserts_in_order_with_later_records_shadowing() {
    let mut store = TransformStore::new();
    store.insert(record("world", "a", 1.0));
    let batch = vec![
        record("world", "b", 2.0),
        record("base", "a", 3.0),
        record("world", "c", 4.0),
    ];
    store.load(&batch);
    assert_eq!(store.len(), 3);
    let snap = store.snapshot();
    // "a" was replaced in place, "b" and "c" appended in batch order
    assert_eq!(snap[0].child_frame_id, "a");
    assert_eq!(snap[0].parent_frame_id, "base");
    assert_eq!(snap[1].child_frame_id, "b");
    assert_eq!(snap[2].child_frame_id, "c");
}

#[test]
fn snapshot_is_a_deep_copy() {
    let mut store = TransformStore::new();
    let mut meta = DynamicMap::new();
    meta.push(String::from("zone"), DynamicValue::Float(fb(0.5)));
    store.insert(TransformRecord {
        parent_frame_id: String::from("world"),
        child_frame_id: String::from("a"),
        transform: transform_at(1.0),
        active_transform: false,
        metadata: Some(meta),
    });
    let mut snap = store.snapshot();
    // mutate the snapshot in every way available
    snap[0].parent_frame_id = String::from("elsewhere");
    snap[0].active_transform = true;
    snap[0].metadata = None;
    snap.push(record("world", "b", 2.0));
    // the store is unchanged
    assert_eq!(store.len(), 1);
    let again = store.snapshot();
    assert_eq!(again.len(), 1);
    assert_eq!(again[0].parent_frame_id, "world");
    assert!(!again[0].active_transform);
    match &again[0].metadata {
        Some(m) => {
            assert_eq!(m.entries.len(), 1);
            assert_eq!(m.entries[0].0, "zone");
            match &m.entries[0].1 {
                DynamicValue::Float(f) => assert_eq!(f.bits, (0.5f64).to_bits()),
                other => panic!("unexpected tag: {:?}", other_tag(other)),
            }
        }
        None => panic!("metadata was lost"),
    }
}

fn other_tag(v: &DynamicValue) -> &'static str {
    match v {
        DynamicValue::Unset => "unset",
        DynamicValue::Str(_) => "str",
        DynamicValue::Bool(_) => "bool",
        DynamicValue::Int(_) => "int",
        DynamicValue::Float(_) => "float",
        DynamicValue::Array(_) => "array",
    }
}

#[test]
fn load_then_get_observes_the_loaded_data() {
    let mut manager = StateManager::new();
    let batch = vec![record("world", "a", 1.0), record("world", "b", 2.0)];
    let reply = manager.handle(Command::LoadScenario(batch));
    assert!(matches!(reply, Reply::Loaded));
    let reply = manager.handle(Command::GetAllTransforms);
    match reply {
        Reply::Snapshot(snap) => {
            assert_eq!(snap.len(), 2);
            assert_eq!(snap[0].child_frame_id, "a");
            assert_eq!(snap[0].transform, transform_at(1.0));
            assert_eq!(snap[1].child_frame_id, "b");
            assert_eq!(snap[1].transform, transform_at(2.0));
        }
        Reply::Loaded => panic!("a snapshot request must reply with a snapshot"),
    }
}

#[test]
fn actor_snapshot_is_independent_of_the_store() {
    let mut manager = StateManager::new();
    manager.handle(Command::LoadScenario(vec![record("world", "a", 1.0)]));
    let first = manager.handle(Command::GetAllTransforms);
    match first {
        Reply::Snapshot(mut snap) => {
            snap.clear();
        }
        Reply::Loaded => panic!("a snapshot request must reply with a snapshot"),
    }
    let second = manager.handle(Command::GetAllTransforms);
    match second {
        Reply::Snapshot(snap) => assert_eq!(snap.len(), 1),
        Reply::Loaded => panic!("a snapshot request must reply with a snapshot"),
    }
}

#[test]
fn get_finds_the_record_under_its_child_frame() {
    let mut store = TransformStore::new();
    store.insert(record("world", "a", 1.0));
    store.insert(record("world", "b", 2.0));
    let found = store.get(&String::from("b")).expect("b is stored");
    assert_eq!(found.parent_frame_id, "world");
    assert_eq!(found.transform, transform_at(2.0));
    assert!(store.get(&String::from("c")).is_none());
}

#[test]
fn get_after_replacement_sees_the_new_record() {
    let mut store = TransformStore::new();
    store.insert(record("world", "a", 1.0));
    store.insert(record("base", "a", 3.0));
    let found = store.get(&String::from("a")).expect("a is stored");
    assert_eq!(found.parent_frame_id, "base");
    assert_eq!(found.transform, transform_at(3.0));
}
