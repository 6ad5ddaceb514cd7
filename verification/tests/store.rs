use pandix::resource_store::Acquire;
use pandix::resource_store::AcquireMut;
use pandix::resource_store::ResourceStore;

const HEALTH: u64 = 10;
const SCORE: u64 = 11;

#[test]
fn stored_value_is_readable() {
    let mut store: ResourceStore<i32> = ResourceStore::new();
    store.insert(HEALTH, 99);

    assert!(store.contains(HEALTH));
    assert_eq!(store.peek(HEALTH), Some(&99));
}

#[test]
fn missing_resource_is_absent_not_fatal() {
    let mut store: ResourceStore<i32> = ResourceStore::new();

    assert!(!store.contains(HEALTH));
    assert_eq!(store.peek(HEALTH), None);
    assert_eq!(store.acquire(HEALTH), Acquire::Missing);
    assert!(matches!(store.acquire_mut(HEALTH), AcquireMut::Missing));
}

#[test]
fn shared_handles_coexist() {
    let mut store: ResourceStore<i32> = ResourceStore::new();
    store.insert(HEALTH, 7);

    assert_eq!(store.acquire(HEALTH), Acquire::Granted);
    assert_eq!(store.acquire(HEALTH), Acquire::Granted);
    assert_eq!(*store.read(HEALTH), 7);
    assert_eq!(*store.read(HEALTH), 7);
    store.release(HEALTH);
    store.release(HEALTH);
}

#[test]
fn exclusive_handle_blocks_every_other_acquisition() {
    let mut store: ResourceStore<i32> = ResourceStore::new();
    store.insert(HEALTH, 7);

    let taken = match store.acquire_mut(HEALTH) {
        AcquireMut::Granted(v) => v,
        _ => panic!("a free entry must grant the exclusive handle"),
    };
    assert_eq!(taken, 7);

    assert_eq!(store.acquire(HEALTH), Acquire::Conflict);
    assert!(matches!(store.acquire_mut(HEALTH), AcquireMut::Conflict));

    store.release_mut(HEALTH, taken + 1);

    assert_eq!(store.peek(HEALTH), Some(&8));
    assert!(matches!(store.acquire_mut(HEALTH), AcquireMut::Granted(8)));
}

#[test]
fn shared_handle_blocks_the_exclusive_one() {
    let mut store: ResourceStore<i32> = ResourceStore::new();
    store.insert(HEALTH, 7);

    assert_eq!(store.acquire(HEALTH), Acquire::Granted);
    assert!(matches!(store.acquire_mut(HEALTH), AcquireMut::Conflict));

    store.release(HEALTH);
    assert!(matches!(store.acquire_mut(HEALTH), AcquireMut::Granted(7)));
}

#[test]
fn inserting_one_identity_leaves_others_alone() {
    let mut store: ResourceStore<i32> = ResourceStore::new();
    store.insert(HEALTH, 1);
    store.insert(SCORE, 2);

    assert_eq!(store.peek(HEALTH), Some(&1));
    assert_eq!(store.peek(SCORE), Some(&2));

    store.insert(SCORE, 20);

    assert_eq!(store.peek(HEALTH), Some(&1));
    assert_eq!(store.peek(SCORE), Some(&20));
}

#[test]
fn reinsertion_replaces_the_instance_whole() {
    let mut store: ResourceStore<i32> = ResourceStore::new();
    store.insert(HEALTH, 1);
    store.insert(HEALTH, 2);

    assert_eq!(store.peek(HEALTH), Some(&2));
    match store.acquire_mut(HEALTH) {
        AcquireMut::Granted(v) => assert_eq!(v, 2),
        _ => panic!("the replaced entry must be free"),
    }
}
