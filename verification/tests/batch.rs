use photo_blog::db::batch::{BatchLoader, Lookup, Step};
use photo_blog::db::loaders::BackendFailure;
use std::cell::Cell;
use std::collections::HashMap;

fn failure() -> BackendFailure {
    BackendFailure { message: "timeout".to_string() }
}

fn squares(keys: &[i32]) -> HashMap<i32, i64> {
    keys.iter().map(|k| (*k, (*k as i64) * (*k as i64))).collect()
}

#[test]
fn a_new_loader_knows_nothing() {
    let mut loader: BatchLoader<i64> = BatchLoader::new(3);
    assert_eq!(loader.threshold(), 3);
    assert_eq!(loader.pending_len(), 0);
    assert!(!loader.is_fetching());
    assert_eq!(loader.get(1), Lookup::Unresolved);
    assert_eq!(loader.take_batch(), Vec::<i32>::new());
    assert!(!loader.is_fetching());
}

#[test]
fn keys_of_one_window_make_one_batch_without_repeats() {
    let mut loader: BatchLoader<i64> = BatchLoader::new(100);
    for key in [4, 2, 4, 9, 2, 2, 7] {
        assert_eq!(loader.request(key), Step::Wait);
    }
    assert_eq!(loader.pending_len(), 4);
    assert_eq!(loader.take_batch(), vec![4, 2, 9, 7]);
    assert!(loader.is_fetching());
    assert_eq!(loader.pending_len(), 0);
    assert_eq!(loader.take_batch(), Vec::<i32>::new());
}

#[test]
fn a_resolved_key_is_not_asked_for_again() {
    let mut loader: BatchLoader<i64> = BatchLoader::new(100);
    loader.request(3);
    let batch = loader.take_batch();
    loader.resolve(Ok(squares(&batch)));
    assert_eq!(loader.request(3), Step::Ready);
    assert_eq!(loader.request(4), Step::Wait);
    assert_eq!(loader.request(3), Step::Ready);
    assert_eq!(loader.take_batch(), vec![4]);
}

#[test]
fn the_same_key_before_and_after_the_fetch_reads_one_value() {
    let mut loader: BatchLoader<i64> = BatchLoader::new(100);
    assert_eq!(loader.request(6), Step::Wait);
    assert_eq!(loader.take_batch(), vec![6]);
    assert_eq!(loader.request(6), Step::Wait);
    assert_eq!(loader.pending_len(), 0);
    assert_eq!(loader.get(6), Lookup::Unresolved);
    loader.resolve(Ok(squares(&[6])));
    assert_eq!(loader.get(6), Lookup::Found(&36));
    assert_eq!(loader.request(6), Step::Ready);
    assert_eq!(loader.get(6), Lookup::Found(&36));
    assert_eq!(loader.take_batch(), Vec::<i32>::new());
    loader.request(8);
    loader.take_batch();
    let mut later = HashMap::new();
    later.insert(6, -1);
    later.insert(8, 64);
    loader.resolve(Ok(later));
    assert_eq!(loader.get(6), Lookup::Found(&36));
    assert_eq!(loader.get(8), Lookup::Found(&64));
}

#[test]
fn a_key_the_fetch_did_not_bring_is_missing_and_the_others_are_found() {
    let mut loader: BatchLoader<i64> = BatchLoader::new(100);
    for key in [1, 2, 3] {
        loader.request(key);
    }
    loader.take_batch();
    loader.resolve(Ok(squares(&[1, 3])));
    assert_eq!(loader.get(1), Lookup::Found(&1));
    assert_eq!(loader.get(2), Lookup::Missing);
    assert_eq!(loader.get(3), Lookup::Found(&9));
    assert_eq!(loader.request(2), Step::Ready);
    assert!(!loader.is_fetching());
}

#[test]
fn a_failed_fetch_resolves_its_whole_batch_as_missing() {
    let mut loader: BatchLoader<i64> = BatchLoader::new(100);
    for key in [5, 6, 7] {
        loader.request(key);
    }
    assert_eq!(loader.take_batch(), vec![5, 6, 7]);
    loader.resolve(Err(failure()));
    for key in [5, 6, 7] {
        assert_eq!(loader.get(key), Lookup::Missing);
        assert_eq!(loader.request(key), Step::Ready);
    }
    assert_eq!(loader.get(8), Lookup::Unresolved);
    assert!(!loader.is_fetching());
    assert_eq!(loader.take_batch(), Vec::<i32>::new());
}

#[test]
fn a_hundred_and_fifty_keys_take_two_fetches() {
    let mut loader: BatchLoader<i64> = BatchLoader::new(100);
    let mut batches: Vec<usize> = Vec::new();
    for key in 1..=150 {
        if loader.request(key) == Step::Flush {
            let batch = loader.take_batch();
            batches.push(batch.len());
            loader.resolve(Ok(squares(&batch)));
        }
    }
    let rest = loader.take_batch();
    if !rest.is_empty() {
        batches.push(rest.len());
        loader.resolve(Ok(squares(&rest)));
    }
    assert_eq!(batches, vec![100, 50]);
    for key in 1..=150 {
        assert_eq!(loader.get(key), Lookup::Found(&((key as i64) * (key as i64))));
    }
}

#[test]
fn the_key_that_fills_the_batch_is_told_to_flush() {
    let mut loader: BatchLoader<i64> = BatchLoader::new(3);
    assert_eq!(loader.request(1), Step::Wait);
    assert_eq!(loader.request(2), Step::Wait);
    assert_eq!(loader.request(2), Step::Wait);
    assert_eq!(loader.request(3), Step::Flush);
    assert_eq!(loader.request(3), Step::Flush);
    assert_eq!(loader.request(4), Step::Flush);
    assert_eq!(loader.take_batch(), vec![1, 2, 3, 4]);
}

#[test]
fn no_flush_is_due_while_a_batch_is_in_flight() {
    let mut loader: BatchLoader<i64> = BatchLoader::new(2);
    loader.request(1);
    assert_eq!(loader.request(2), Step::Flush);
    assert_eq!(loader.take_batch(), vec![1, 2]);
    assert_eq!(loader.request(3), Step::Wait);
    assert_eq!(loader.request(4), Step::Wait);
    assert_eq!(loader.request(1), Step::Wait);
    assert_eq!(loader.take_batch(), Vec::<i32>::new());
    assert_eq!(loader.pending_len(), 2);
    loader.resolve(Ok(squares(&[1, 2])));
    assert_eq!(loader.request(4), Step::Flush);
    assert_eq!(loader.take_batch(), vec![3, 4]);
}

#[test]
fn a_threshold_of_zero_or_one_flushes_on_every_new_key() {
    for threshold in [0, 1] {
        let mut loader: BatchLoader<i64> = BatchLoader::new(threshold);
        assert_eq!(loader.request(9), Step::Flush);
        assert_eq!(loader.take_batch(), vec![9]);
        loader.resolve(Ok(squares(&[9])));
        assert_eq!(loader.request(9), Step::Ready);
        assert_eq!(loader.request(10), Step::Flush);
    }
}

#[test]
fn an_outcome_resolves_the_keys_of_its_batch_and_no_others() {
    let mut loader: BatchLoader<i64> = BatchLoader::new(100);
    loader.request(1);
    loader.take_batch();
    loader.request(2);
    loader.resolve(Ok(squares(&[1, 2, 3])));
    assert_eq!(loader.get(1), Lookup::Found(&1));
    assert_eq!(loader.get(2), Lookup::Unresolved);
    assert_eq!(loader.get(3), Lookup::Unresolved);
    assert_eq!(loader.take_batch(), vec![2]);
}

#[test]
fn an_outcome_without_a_batch_changes_nothing() {
    let mut loader: BatchLoader<i64> = BatchLoader::new(100);
    loader.request(1);
    loader.resolve(Ok(squares(&[1])));
    assert_eq!(loader.get(1), Lookup::Unresolved);
    assert_eq!(loader.pending_len(), 1);
}

#[test]
fn load_fetches_the_pending_keys_once_and_caches() {
    let calls = Cell::new(0);
    let mut loader: BatchLoader<i64> = BatchLoader::new(100);
    loader.request(2);
    loader.request(3);
    let found = loader.load(4, |keys| {
        calls.set(calls.get() + 1);
        assert_eq!(keys, vec![2, 3, 4]);
        Ok(squares(&[2, 4]))
    });
    assert_eq!(found, Lookup::Found(&16));
    assert_eq!(calls.get(), 1);
    assert_eq!(loader.get(2), Lookup::Found(&4));
    assert_eq!(loader.get(3), Lookup::Missing);
    assert_eq!(loader.get(4), Lookup::Found(&16));
    let again = loader.load(3, |_| {
        calls.set(calls.get() + 1);
        Ok(squares(&[3]))
    });
    assert_eq!(again, Lookup::Missing);
    for key in [2, 4] {
        let found = loader.load(key, |_| {
            calls.set(calls.get() + 1);
            Ok(HashMap::new())
        });
        assert_eq!(found, Lookup::Found(&((key as i64) * (key as i64))));
    }
    assert_eq!(calls.get(), 1);
    assert_eq!(loader.get(4), Lookup::Found(&16));
}

#[test]
fn load_of_a_failing_fetch_resolves_as_missing() {
    let mut loader: BatchLoader<i64> = BatchLoader::new(100);
    loader.request(5);
    loader.request(6);
    assert_eq!(loader.load(7, |_| Err(failure())), Lookup::Missing);
    for key in [5, 6, 7] {
        assert_eq!(loader.get(key), Lookup::Missing);
    }
}

#[test]
fn load_while_a_batch_is_in_flight_leaves_the_key_pending() {
    let calls = Cell::new(0);
    let mut loader: BatchLoader<i64> = BatchLoader::new(100);
    loader.request(1);
    loader.take_batch();
    let found = loader.load(2, |_| {
        calls.set(calls.get() + 1);
        Ok(HashMap::new())
    });
    assert_eq!(found, Lookup::Unresolved);
    assert_eq!(calls.get(), 0);
    assert_eq!(loader.get(2), Lookup::Unresolved);
    assert_eq!(loader.pending_len(), 1);
}
