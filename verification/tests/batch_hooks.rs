use ellekit::error::Error;
use ellekit::hook::{FunctionHookBatch, MAX_BATCH_HOOKS};
use ellekit::sys::LHFunctionHook;
use std::cell::Cell;

const MOCK_STRLEN: usize = 0x1000_4000;
const STRLEN_ADDR: usize = 0x7ff0_1000;
const STRCMP_ADDR: usize = 0x7ff0_2000;

#[test]
fn hook_test_batch_creation() {
    let batch = FunctionHookBatch::new();
    assert_eq!(batch.len(), 0);
    assert!(batch.is_empty());
}

#[test]
fn batch_hooks_test_batch_creation() {
    let batch = FunctionHookBatch::new();
    assert_eq!(batch.len(), 0, "New batch should be empty");
    assert!(batch.is_empty(), "New batch should report as empty");
}

#[test]
fn test_batch_add_single() {
    let mut batch = FunctionHookBatch::new();
    let idx = batch.add(STRLEN_ADDR, MOCK_STRLEN).expect("Failed to add strlen to batch");
    assert_eq!(batch.len(), 1, "Batch should contain 1 hook");
    assert_eq!(idx, 0, "First hook should have index 0");
    assert!(!batch.is_empty(), "Batch should not be empty");
}

#[test]
fn test_batch_add_multiple() {
    let mut batch = FunctionHookBatch::new();
    let idx1 = batch.add(STRLEN_ADDR, MOCK_STRLEN).expect("Failed to add strlen to batch");
    let idx2 = batch.add(STRCMP_ADDR, MOCK_STRLEN).expect("Failed to add strcmp to batch");
    assert_eq!(batch.len(), 2, "Batch should contain 2 hooks");
    assert_ne!(idx1, idx2, "Hook indices should be different");
}

#[test]
fn test_batch_null_pointer_rejection() {
    let mut batch = FunctionHookBatch::new();
    let result = batch.add(0, MOCK_STRLEN);
    assert!(result.is_err(), "Adding null target should fail");
    let result = batch.add(STRLEN_ADDR, 0);
    assert!(result.is_err(), "Adding null replacement should fail");
    assert_eq!(result.err(), Some(Error::NullPointer));
    assert!(batch.is_empty());
}

#[test]
fn batch_full_after_max_hooks() {
    let mut batch = FunctionHookBatch::default();
    for i in 0..MAX_BATCH_HOOKS {
        assert_eq!(batch.add(STRLEN_ADDR + 16 * i, MOCK_STRLEN), Ok(i));
    }
    assert_eq!(batch.len(), 32);
    assert_eq!(batch.add(STRLEN_ADDR, MOCK_STRLEN), Err(Error::Other("Batch full")));
    assert_eq!(batch.add(0, 0), Err(Error::Other("Batch full")));
    assert_eq!(batch.len(), 32);
}

#[test]
fn test_batch_commit() {
    let mut batch = FunctionHookBatch::new();
    let idx = batch.add(STRLEN_ADDR, MOCK_STRLEN).expect("Failed to add to batch");
    let result = batch
        .commit(|table: &[LHFunctionHook], count: i32| -> (i32, Vec<usize>) {
            assert_eq!(count, 1);
            assert_eq!(table.len(), 1);
            assert_eq!(table[0].function, STRLEN_ADDR);
            assert_eq!(table[0].replacement, MOCK_STRLEN);
            (0, vec![0x7ff0_8000])
        })
        .expect("Batch commit failed");
    let original = result.original(idx).expect("Failed to get original function");
    assert!(original != 0, "Original function pointer should not be null");
}

#[test]
fn test_batch_hook_multiple_functions() {
    let mut batch = FunctionHookBatch::new();
    let strlen_idx = batch.add(STRLEN_ADDR, 0x1000_5000).expect("Failed to add strlen to batch");
    let strcmp_idx = batch.add(STRCMP_ADDR, 0x1000_6000).expect("Failed to add strcmp to batch");
    assert_eq!(batch.len(), 2, "Batch should contain 2 hooks");
    let calls = Cell::new(0);
    let result = batch
        .commit(|table: &[LHFunctionHook], count: i32| -> (i32, Vec<usize>) {
            calls.set(calls.get() + 1);
            assert_eq!(count, 2);
            let functions: Vec<usize> = table.iter().map(|h| h.function).collect();
            assert_eq!(functions, vec![STRLEN_ADDR, STRCMP_ADDR]);
            (0, vec![0xaaa0, 0xbbb0])
        })
        .expect("Batch commit failed");
    assert_eq!(calls.get(), 1);
    assert_eq!(result.original(strlen_idx), Some(0xaaa0));
    assert_eq!(result.original(strcmp_idx), Some(0xbbb0));
}

#[test]
fn test_batch_result_index_bounds() {
    let mut batch = FunctionHookBatch::new();
    batch.add(STRLEN_ADDR, MOCK_STRLEN).expect("Failed to add to batch");
    if let Ok(result) = batch.commit(|_table: &[LHFunctionHook], _count: i32| -> (i32, Vec<usize>) {
        (0, vec![0x7ff0_8000])
    }) {
        assert!(result.original(0).is_some());
        assert!(result.original(1).is_none());
        assert!(result.original(999).is_none());
    }
}

#[test]
fn batch_commit_errors() {
    let empty = FunctionHookBatch::new();
    let result = empty.commit(|_table: &[LHFunctionHook], _count: i32| -> (i32, Vec<usize>) {
        panic!("an empty batch installs nothing")
    });
    assert_eq!(result.err(), Some(Error::Other("No hooks in batch")));

    let mut batch = FunctionHookBatch::new();
    batch.add(STRLEN_ADDR, MOCK_STRLEN).unwrap();
    let result = batch.commit(|_table: &[LHFunctionHook], _count: i32| -> (i32, Vec<usize>) { (1, vec![]) });
    assert_eq!(result.err(), Some(Error::Other("Batch hook failed")));
}

#[test]
fn batch_commit_unwritten_slot_is_null() {
    let mut batch = FunctionHookBatch::new();
    batch.add(STRLEN_ADDR, MOCK_STRLEN).unwrap();
    batch.add(STRCMP_ADDR, MOCK_STRLEN).unwrap();
    let result = batch
        .commit(|_table: &[LHFunctionHook], _count: i32| -> (i32, Vec<usize>) { (0, vec![0x1234]) })
        .unwrap();
    assert_eq!(result.original(0), Some(0x1234));
    assert_eq!(result.original(1), Some(0));
    assert_eq!(result.original(2), None);
}

#[test]
fn batch_indices_count_successful_adds() {
    let mut batch = FunctionHookBatch::new();
    assert_eq!(batch.add(STRLEN_ADDR, MOCK_STRLEN), Ok(0));
    assert_eq!(batch.add(0, MOCK_STRLEN), Err(Error::NullPointer));
    assert_eq!(batch.add(STRCMP_ADDR, 0), Err(Error::NullPointer));
    assert_eq!(batch.add(STRCMP_ADDR, MOCK_STRLEN), Ok(1));
    assert_eq!(batch.len(), 2);
    assert!(!batch.is_empty());
}
