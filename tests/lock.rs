use std::sync::{Arc, RwLock};

use api_gen::lock::{safe_read, safe_write};

fn get_lock() -> Arc<RwLock<i32>> {
    Arc::new(RwLock::new(1))
}

fn poison_lock(lock: Arc<RwLock<i32>>) {
    let runtime = tokio::runtime::Runtime::new().unwrap();
    runtime.block_on(async move {
        let _ = tokio::spawn(async move {
            safe_write(&lock, |_| {
                panic!("Poisoned the RwLock explicitly.");
            });
        })
        .await;
    });
}

#[test]
fn should_write_successfully() {
    let data = 100;
    let lock = get_lock();

    let result = safe_write(&lock, |mut guard| {
        *guard = data;
        2 * guard.clone()
    });

    assert!(result.is_some());
    assert_eq!(2 * lock.read().unwrap().clone(), result.unwrap());
    assert_eq!(data, lock.read().unwrap().clone());
}

#[test]
fn should_fail_to_write_for_poisoned_lock() {
    let data = 100;
    let lock = get_lock();

    poison_lock(lock.clone());
    let result = safe_write(&lock, |mut guard| {
        *guard = data;
    });

    assert!(result.is_none());
}

#[test]
fn should_read_successfully() {
    let lock = get_lock();

    let result = safe_read(&lock, |guard| 2 * guard.clone());

    assert!(result.is_some());
    assert_eq!(2 * lock.read().unwrap().clone(), result.unwrap());
}

#[test]
fn should_fail_to_read_for_poisoned_lock() {
    let lock = get_lock();

    poison_lock(lock.clone());
    let result = safe_read(&lock, |guard| 2 * guard.clone());

    assert!(result.is_none());
}
