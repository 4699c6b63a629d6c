use guild_queue::queue::Queue;
use guild_queue::registry::Registry;
use std::sync::{Arc, Mutex};

type Shared = Arc<Mutex<Queue<&'static str, u32>>>;

fn fresh() -> Shared {
    Arc::new(Mutex::new(Queue::new(None, None, None)))
}

#[test]
fn new_registry_is_empty() {
    let r: Registry<u8> = Registry::new();
    assert_eq!(r.len(), 0);
    assert!(!r.contains(1));
    assert_eq!(r.get(1), None);
    assert_eq!(r.guilds(), Vec::<u64>::new());
}

#[test]
fn get_or_create_creates_once() {
    let mut r: Registry<u8> = Registry::new();
    assert_eq!(r.get_or_create(5, 10), &10);
    assert_eq!(r.get_or_create(5, 20), &10);
    assert_eq!(r.get(5), Some(&10));
    assert_eq!(r.len(), 1);
    assert_eq!(r.get_or_create(6, 30), &30);
    assert_eq!(r.get(6), Some(&30));
    assert_eq!(r.guilds(), vec![5, 6]);
}

#[test]
fn create_if_absent_reports_creation() {
    let mut r: Registry<u8> = Registry::new();
    assert!(r.create_if_absent(5, 10));
    assert!(!r.create_if_absent(5, 20));
    assert_eq!(r.get(5), Some(&10));
    assert!(r.contains(5));
    assert!(!r.contains(6));
}

#[test]
fn remove_detaches_queue() {
    let mut r: Registry<u8> = Registry::new();
    r.create_if_absent(1, 11);
    r.create_if_absent(2, 22);
    r.create_if_absent(3, 33);
    assert_eq!(r.remove(2), Some(22));
    assert_eq!(r.get(2), None);
    assert!(!r.contains(2));
    assert_eq!(r.remove(2), None);
    assert_eq!(r.guilds(), vec![1, 3]);
    assert_eq!(r.get(1), Some(&11));
    assert_eq!(r.get(3), Some(&33));
}

#[test]
fn snapshot_shares_the_queues() {
    let mut r: Registry<Shared> = Registry::new();
    assert!(r.create_if_absent(1, fresh()));
    assert!(r.create_if_absent(2, fresh()));
    let snap = r.snapshot();
    assert_eq!(snap.len(), 2);
    assert_eq!(snap[0].guild, 1);
    assert_eq!(snap[1].guild, 2);
    snap[0].queue.lock().unwrap().push("A");
    assert_eq!(r.get(1).unwrap().lock().unwrap().len(), 1);
    assert_eq!(r.get(2).unwrap().lock().unwrap().len(), 0);
    assert!(r.remove(1).is_some());
    assert_eq!(snap[0].queue.lock().unwrap().len(), 1);
    assert!(!r.contains(1));
}

#[test]
fn get_mut_changes_one_handle_in_place() {
    let mut r: Registry<u8> = Registry::new();
    r.create_if_absent(1, 11);
    r.create_if_absent(2, 22);
    *r.get_mut(2).unwrap() = 99;
    assert_eq!(r.get(2), Some(&99));
    assert_eq!(r.get(1), Some(&11));
    assert_eq!(r.guilds(), vec![1, 2]);
    assert!(r.get_mut(3).is_none());
}
