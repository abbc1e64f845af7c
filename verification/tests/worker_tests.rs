use advoid::worker::{encode_batch, BatchWorker};

#[test]
fn drain_all_batches_ceil_n_over_b() {
    // Seven records at batch size three: exactly ceil(7/3) = 3 uploads,
    // each of at most three records, order preserved within and across.
    let mut w: BatchWorker<u32> = BatchWorker::new(3);
    for i in 0..7u32 {
        w.enqueue(i);
    }
    assert_eq!(w.pending_len(), 7);
    let batches = w.drain_all();
    assert_eq!(batches.len(), 3);
    assert_eq!(batches[0], vec![0, 1, 2]);
    assert_eq!(batches[1], vec![3, 4, 5]);
    assert_eq!(batches[2], vec![6]);
    assert!(batches.iter().all(|b| b.len() <= 3));
    assert_eq!(w.pending_len(), 0);
}

#[test]
fn drain_all_exact_multiple() {
    let mut w: BatchWorker<u32> = BatchWorker::new(2);
    for i in 0..6u32 {
        w.enqueue(i);
    }
    let batches = w.drain_all();
    assert_eq!(batches.len(), 3);
    assert!(batches.iter().all(|b| b.len() == 2));
    let flat: Vec<u32> = batches.into_iter().flatten().collect();
    assert_eq!(flat, vec![0, 1, 2, 3, 4, 5]);
}

#[test]
fn take_batch_takes_oldest_first() {
    let mut w: BatchWorker<&str> = BatchWorker::new(2);
    w.enqueue("a");
    w.enqueue("b");
    w.enqueue("c");
    assert_eq!(w.take_batch(), vec!["a", "b"]);
    assert_eq!(w.take_batch(), vec!["c"]);
    assert_eq!(w.take_batch(), Vec::<&str>::new());
}

#[test]
fn final_drain_flushes_everything_at_once() {
    // Cancellation before any flush: one final upload with all records.
    let mut w: BatchWorker<u32> = BatchWorker::new(3);
    for i in 0..5u32 {
        w.enqueue(i);
    }
    let last = w.final_drain();
    assert_eq!(last, vec![0, 1, 2, 3, 4]);
    assert_eq!(w.pending_len(), 0);
    assert_eq!(w.final_drain(), Vec::<u32>::new());
}

#[test]
fn encode_batch_joins_lines_with_newlines() {
    let lines: Vec<Vec<u8>> = vec![b"one".to_vec(), b"two".to_vec()];
    assert_eq!(encode_batch(&lines), b"one\ntwo\n".to_vec());
    let empty: Vec<Vec<u8>> = vec![];
    assert_eq!(encode_batch(&empty), Vec::<u8>::new());
    let single: Vec<Vec<u8>> = vec![Vec::new()];
    assert_eq!(encode_batch(&single), b"\n".to_vec());
}
