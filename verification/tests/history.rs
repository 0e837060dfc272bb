use pixel_history::history::UndoQueue;

#[test]
fn sequential_pushes_are_linear() {
    let mut q: UndoQueue<u32> = UndoQueue::new(0);
    q.push(1);
    q.push(2);
    q.push(3);
    assert_eq!(q.cursor(), 3);
    assert_eq!(q.len(), 4);
    assert_eq!(q.current(), 3);
}

#[test]
fn push_after_undo_truncates_redo_tail() {
    let mut q: UndoQueue<u32> = UndoQueue::new(0);
    q.push(1);
    q.push(2);
    q.undo();
    assert_eq!(q.current(), 1);
    q.push(9);
    assert_eq!(q.len(), 3);
    assert_eq!(q.current(), 9);
    // The stale future entry (2) is gone: redo is a no-op.
    q.redo();
    assert_eq!(q.current(), 9);
    assert_eq!(q.cursor(), 2);
}

#[test]
fn block_pushes_coalesce_to_one_entry() {
    let mut q: UndoQueue<u32> = UndoQueue::new(0);
    q.start_undo_block();
    q.push(1);
    q.push(2);
    q.push(3);
    q.close_undo_block();
    assert_eq!(q.len(), 2);
    assert_eq!(q.current(), 3);
    q.undo();
    assert_eq!(q.current(), 0);
}

#[test]
fn undo_clamps_at_oldest() {
    let mut q: UndoQueue<u32> = UndoQueue::new(0);
    q.push(1);
    for _ in 0..5 {
        q.undo();
    }
    assert_eq!(q.cursor(), 0);
    assert_eq!(q.current(), 0);
}

#[test]
fn redo_clamps_at_newest() {
    let mut q: UndoQueue<u32> = UndoQueue::new(0);
    q.push(1);
    q.push(2);
    q.undo();
    q.undo();
    for _ in 0..7 {
        q.redo();
    }
    assert_eq!(q.cursor(), 2);
    assert_eq!(q.current(), 2);
}

#[test]
fn close_block_without_block_keeps_normal_pushes() {
    let mut q: UndoQueue<u32> = UndoQueue::new(0);
    q.close_undo_block();
    q.push(1);
    q.push(2);
    assert_eq!(q.len(), 3);
    assert_eq!(q.current(), 2);
}

#[test]
fn block_after_history_overwrites_in_place() {
    let mut q: UndoQueue<u32> = UndoQueue::new(0);
    q.push(1);
    q.push(2);
    q.start_undo_block();
    q.push(9);
    q.push(8);
    q.close_undo_block();
    assert_eq!(q.len(), 4);
    assert_eq!(q.current(), 8);
    q.undo();
    assert_eq!(q.current(), 2);
}

#[test]
fn start_block_twice_still_coalesces() {
    let mut q: UndoQueue<u32> = UndoQueue::new(0);
    q.start_undo_block();
    q.push(1);
    q.start_undo_block();
    q.push(2);
    q.push(3);
    q.close_undo_block();
    // Restarting the block appends once more, then coalesces.
    assert_eq!(q.len(), 3);
    assert_eq!(q.current(), 3);
}

#[test]
fn works_with_cloneable_values() {
    let mut q: UndoQueue<String> = UndoQueue::new(String::from("a"));
    q.push(String::from("ab"));
    assert_eq!(q.current(), "ab");
    q.undo();
    assert_eq!(q.current(), "a");
}
