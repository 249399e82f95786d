use prust::{CommandQueue, Direction, Error, Event, Kernel, Mem};

fn ev(id: u64) -> Event {
    Event { id }
}

#[test]
fn new_buffer_waits_on_nothing() {
    let m = Mem::new(9);
    assert_eq!(m.id(), 9);
    assert!(m.read_dependencies().is_empty());
    assert!(m.write_dependencies().is_empty());
    assert_eq!(m.last_write(), None);
}

#[test]
fn read_after_write_on_other_queue_waits_on_the_write() {
    let q0 = CommandQueue::new(1);
    let q1 = CommandQueue::new(2);
    let mut m = Mem::new(10);
    let w = q0.write_transfer(&m);
    assert!(w.wait_for.is_empty());
    assert_eq!(w.direction, Direction::Write);
    q0.write_buffer_unscoped(&mut m, Ok(ev(5))).unwrap();
    let r = q1.read_transfer(&m);
    assert_eq!(r.queue, 2);
    assert_eq!(r.mem, 10);
    assert_eq!(r.direction, Direction::Read);
    assert_eq!(r.wait_for, vec![ev(5)]);
}

#[test]
fn read_after_write_and_other_reads_still_waits_on_the_write() {
    let q = CommandQueue::new(1);
    let mut m = Mem::new(10);
    q.write_buffer_unscoped(&mut m, Ok(ev(5))).unwrap();
    q.read_buffer_unscoped(&mut m, Ok(ev(6))).unwrap();
    m.prune_completed(&vec![ev(6), ev(5)]);
    q.read_buffer_unscoped(&mut m, Ok(ev(7))).unwrap();
    assert_eq!(q.read_transfer(&m).wait_for, vec![ev(5)]);
}

#[test]
fn write_after_read_waits_on_the_read() {
    let q = CommandQueue::new(1);
    let mut m = Mem::new(10);
    q.write_buffer_unscoped(&mut m, Ok(ev(1))).unwrap();
    q.read_buffer_unscoped(&mut m, Ok(ev(2))).unwrap();
    let w = q.write_transfer(&m);
    assert_eq!(w.wait_for, vec![ev(1), ev(2)]);
    assert!(w.wait_for.contains(&ev(2)));
}

#[test]
fn write_after_read_on_unwritten_buffer_waits_on_the_read() {
    let q = CommandQueue::new(1);
    let mut m = Mem::new(10);
    q.read_buffer_unscoped(&mut m, Ok(ev(2))).unwrap();
    assert_eq!(q.write_transfer(&m).wait_for, vec![ev(2)]);
}

#[test]
fn back_to_back_reads_do_not_wait_on_each_other() {
    let q = CommandQueue::new(1);
    let mut m = Mem::new(10);
    let first = q.read_transfer(&m);
    assert!(first.wait_for.is_empty());
    q.read_buffer_unscoped(&mut m, Ok(ev(3))).unwrap();
    let second = q.read_transfer(&m);
    assert!(second.wait_for.is_empty());
    q.read_buffer_unscoped(&mut m, Ok(ev(4))).unwrap();
    assert!(q.read_transfer(&m).wait_for.is_empty());
    assert_eq!(m.pending_reads(), vec![ev(3), ev(4)]);
}

#[test]
fn write_clears_pending_reads() {
    let mut m = Mem::new(1);
    m.register_read(ev(1));
    m.register_read(ev(2));
    m.register_write(ev(3));
    assert!(m.pending_reads().is_empty());
    assert_eq!(m.last_write(), Some(ev(3)));
    assert_eq!(m.write_dependencies(), vec![ev(3)]);
}

#[test]
fn register_read_keeps_each_token_once() {
    let mut m = Mem::new(1);
    m.register_read(ev(1));
    m.register_read(ev(1));
    m.register_read(ev(2));
    assert_eq!(m.pending_reads(), vec![ev(1), ev(2)]);
}

#[test]
fn prune_drops_only_completed_reads() {
    let mut m = Mem::new(1);
    m.register_write(ev(9));
    m.register_read(ev(1));
    m.register_read(ev(2));
    m.register_read(ev(3));
    m.prune_completed(&vec![ev(2), ev(9), ev(4)]);
    assert_eq!(m.pending_reads(), vec![ev(1), ev(3)]);
    assert_eq!(m.last_write(), Some(ev(9)));
    m.prune_completed(&vec![]);
    assert_eq!(m.write_dependencies(), vec![ev(9), ev(1), ev(3)]);
}

#[test]
fn refused_transfer_leaves_record_alone() {
    let q = CommandQueue::new(1);
    let mut m = Mem::new(10);
    q.write_buffer_unscoped(&mut m, Ok(ev(1))).unwrap();
    assert_eq!(q.write_buffer_unscoped(&mut m, Err(-5)), Err(Error::Transfer(-5)));
    assert_eq!(q.read_buffer_unscoped(&mut m, Err(-36)), Err(Error::Transfer(-36)));
    assert!(q.write_buffer(&mut m, Err(-5)).is_err());
    assert!(q.read_buffer(&mut m, Err(-5)).is_err());
    assert_eq!(m.last_write(), Some(ev(1)));
    assert!(m.pending_reads().is_empty());
}

#[test]
fn guarded_transfers_record_like_unscoped_ones() {
    let q = CommandQueue::new(1);
    let mut m = Mem::new(10);
    let lock = q.write_buffer(&mut m, Ok(ev(1))).unwrap();
    assert_eq!(lock.evt, ev(1));
    assert!(lock.needs_wait());
    let guard = q.read_buffer(&mut m, Ok(ev(2))).unwrap();
    assert_eq!(guard.evt, ev(2));
    assert_eq!(m.write_dependencies(), vec![ev(1), ev(2)]);
}

#[test]
fn unused_kernel_is_empty() {
    let k = Kernel::new(3);
    assert_eq!(k.id(), 3);
    assert!(k.read_args().is_empty());
    assert!(k.write_args().is_empty());
}

#[test]
fn copies_read_the_source_and_write_the_destination() {
    let q = CommandQueue::new(1);
    let mut src = Mem::new(10);
    let mut img = Mem::new(20);
    src.register_write(ev(1));
    img.register_write(ev(2));
    img.register_read(ev(3));
    assert_eq!(q.copy_dependencies(&src, &img, &vec![ev(4)]), vec![ev(1), ev(2), ev(3), ev(4)]);
    assert_eq!(q.copy_buffer_to_image(&mut src, &mut img, Ok(ev(5))), Ok(ev(5)));
    assert_eq!(src.pending_reads(), vec![ev(5)]);
    assert_eq!(img.write_dependencies(), vec![ev(5)]);
    assert_eq!(q.copy_dependencies(&img, &src, &vec![]), vec![ev(5), ev(1), ev(5)]);
    assert_eq!(q.copy_image_to_buffer(&mut img, &mut src, Err(-30)), Err(Error::Transfer(-30)));
    assert_eq!(src.last_write(), Some(ev(1)));
    assert_eq!(q.copy_image_to_buffer(&mut img, &mut src, Ok(ev(6))), Ok(ev(6)));
    assert_eq!(src.write_dependencies(), vec![ev(6)]);
    assert_eq!(img.pending_reads(), vec![ev(6)]);
}
