use interview_spark::dedup::{Admission, RequestDeduplicator};
use std::cell::RefCell;
use std::rc::Rc;

type Cell = Rc<RefCell<Option<Result<String, String>>>>;

/// Admits `n` callers of one key before any finishes; the leader fills the
/// cell, then the key is settled.
#[test]
fn test_deduplication() {
    let mut dedup: RequestDeduplicator<Cell> = RequestDeduplicator::new();
    let key = "test-key".to_string();
    let mut executions = 0;
    let mut cells = Vec::new();
    let mut leader_cell = None;
    for _ in 0..5 {
        let cell: Cell = Rc::new(RefCell::new(None));
        match dedup.join(key.clone(), cell.clone()) {
            Admission::Lead => {
                executions += 1;
                leader_cell = Some(cell.clone());
                cells.push(cell);
            }
            Admission::Follow(shared) => cells.push(shared),
        }
    }
    *leader_cell.unwrap().borrow_mut() = Some(Ok("result".to_string()));
    dedup.settle(&key);

    for cell in &cells {
        let result = cell.borrow().clone().unwrap();
        assert!(result.is_ok());
        assert_eq!(result.unwrap(), "result");
    }
    assert_eq!(executions, 1);
    assert!(!dedup.is_pending(&key));
}

#[test]
fn test_different_keys() {
    let mut dedup: RequestDeduplicator<u32> = RequestDeduplicator::new();
    let mut executions = 0;
    for i in 0..3 {
        let key = format!("key-{}", i);
        if let Admission::Lead = dedup.join(key, i) {
            executions += 1;
        }
    }
    assert_eq!(executions, 3);
}

#[test]
fn dedup_settled_key_runs_again() {
    let mut dedup: RequestDeduplicator<u32> = RequestDeduplicator::new();
    assert!(matches!(dedup.join("k".to_string(), 1), Admission::Lead));
    assert!(matches!(dedup.join("k".to_string(), 2), Admission::Follow(1)));
    dedup.settle(&"k".to_string());
    assert!(matches!(dedup.join("k".to_string(), 3), Admission::Lead));
    dedup.clear();
    assert!(!dedup.is_pending(&"k".to_string()));
}
