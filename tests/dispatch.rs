use prust::{Arg, CommandQueue, Error, Event, Kernel, Mem};

fn ev(id: u64) -> Event {
    Event { id }
}

#[test]
fn round_up_examples() {
    let q = CommandQueue::new(1);
    assert_eq!(q.next_mul(5, 2), 6);
    assert_eq!(q.next_mul(6, 2), 6);
    assert_eq!(q.next_mul(0, 4), 0);
}

#[test]
fn round_up_table() {
    let q = CommandQueue::new(1);
    let cases: [(usize, usize, usize); 10] = [
        (7, 1, 7),
        (0, 1, 0),
        (1, 1, 1),
        (8, 4, 8),
        (9, 4, 12),
        (1, 3, 3),
        (1024, 256, 1024),
        (1025, 256, 1280),
        (3, 64, 64),
        (usize::MAX, 1, usize::MAX),
    ];
    for (global, local, expected) in cases {
        assert_eq!(q.next_mul(global, local), expected, "global {} local {}", global, local);
    }
}

#[test]
fn dispatch_rounds_each_dimension() {
    let q = CommandQueue::new(4);
    let k = Kernel::new(7);
    let bufs: Vec<Mem> = Vec::new();
    let d = q.dispatch(&k, &bufs, (2, 4, 1), (5, 8, 3)).unwrap();
    assert_eq!(d.queue, 4);
    assert_eq!(d.kernel, 7);
    assert_eq!(d.local_size, (2, 4, 1));
    assert_eq!(d.global_size, (6, 8, 3));
    assert!(d.wait_for.is_empty());
}

#[test]
fn dispatch_refuses_zero_local_size() {
    let q = CommandQueue::new(1);
    let k = Kernel::new(7);
    let bufs: Vec<Mem> = Vec::new();
    assert_eq!(q.dispatch(&k, &bufs, (1, 0, 1), (4, 4, 4)).err(), Some(Error::Dispatch(-54)));
}

#[test]
fn dispatch_refuses_size_that_overflows() {
    let q = CommandQueue::new(1);
    let k = Kernel::new(7);
    let bufs: Vec<Mem> = Vec::new();
    assert_eq!(q.dispatch(&k, &bufs, (1, 1, 2), (1, 1, usize::MAX)).err(), Some(Error::Dispatch(-63)));
}

#[test]
fn dispatch_needs_every_bound_buffer() {
    let q = CommandQueue::new(1);
    let a = Mem::new(10);
    let b = Mem::new(11);
    let mut k = Kernel::new(7);
    k.bind(0, &a, 0).unwrap();
    k.bind_mut(1, &b, 0).unwrap();
    let only_a = vec![Mem::new(10)];
    assert_eq!(q.dispatch(&k, &only_a, (1, 1, 1), (1, 1, 1)).err(), Some(Error::BufferNotSupplied(11)));
    let none: Vec<Mem> = Vec::new();
    assert_eq!(k.pending_wait_set(&none), Err(Error::BufferNotSupplied(10)));
}

#[test]
fn wait_set_reads_and_writes() {
    let q = CommandQueue::new(1);
    let mut bufs = vec![Mem::new(10), Mem::new(11), Mem::new(12)];
    q.write_buffer_unscoped(&mut bufs[0], Ok(ev(1))).unwrap();
    q.read_buffer_unscoped(&mut bufs[0], Ok(ev(2))).unwrap();
    q.write_buffer_unscoped(&mut bufs[1], Ok(ev(3))).unwrap();
    q.read_buffer_unscoped(&mut bufs[1], Ok(ev(4))).unwrap();
    q.write_buffer_unscoped(&mut bufs[2], Ok(ev(5))).unwrap();
    let mut k = Kernel::new(7);
    k.bind(0, &bufs[0], 0).unwrap();
    k.bind_mut(1, &bufs[1], 0).unwrap();
    assert_eq!(k.pending_wait_set(&bufs), Ok(vec![ev(1), ev(3), ev(4)]));
    let d = q.dispatch_with_events(&k, &bufs, (1, 1, 1), (1, 1, 1), &vec![ev(5), ev(6)]).unwrap();
    assert_eq!(d.wait_for, vec![ev(1), ev(3), ev(4), ev(5), ev(6)]);
}

#[test]
fn successful_dispatch_commits_and_resets() {
    let q = CommandQueue::new(1);
    let mut bufs = vec![Mem::new(10), Mem::new(11), Mem::new(12)];
    q.write_buffer_unscoped(&mut bufs[0], Ok(ev(1))).unwrap();
    q.read_buffer_unscoped(&mut bufs[1], Ok(ev(2))).unwrap();
    let mut k = Kernel::new(7);
    k.bind(0, &bufs[0], 0).unwrap();
    k.bind_mut(1, &bufs[1], 0).unwrap();
    assert_eq!(q.run(&mut k, &mut bufs, Ok(ev(9))), Ok(ev(9)));
    assert!(k.read_args().is_empty());
    assert!(k.write_args().is_empty());
    assert_eq!(bufs[0].last_write(), Some(ev(1)));
    assert_eq!(bufs[0].pending_reads(), vec![ev(9)]);
    assert_eq!(bufs[1].last_write(), Some(ev(9)));
    assert!(bufs[1].pending_reads().is_empty());
    assert_eq!(bufs[2].last_write(), None);
    assert!(bufs[2].pending_reads().is_empty());
}

#[test]
fn failed_dispatch_keeps_argument_lists() {
    let q = CommandQueue::new(1);
    let mut bufs = vec![Mem::new(10), Mem::new(11)];
    let mut k = Kernel::new(7);
    k.bind(0, &bufs[0], 0).unwrap();
    k.bind_mut(1, &bufs[1], 0).unwrap();
    assert_eq!(q.run(&mut k, &mut bufs, Err(-5)), Err(Error::Dispatch(-5)));
    assert_eq!(k.read_args(), &vec![Arg { index: 0, mem: 10 }]);
    assert_eq!(k.write_args(), &vec![Arg { index: 1, mem: 11 }]);
    assert_eq!(bufs[0].last_write(), None);
    assert!(bufs[1].pending_reads().is_empty());
    assert_eq!(q.run(&mut k, &mut bufs, Ok(ev(3))), Ok(ev(3)));
    assert!(k.read_args().is_empty());
    assert_eq!(bufs[1].last_write(), Some(ev(3)));
}

#[test]
fn rebinding_a_slot_replaces_it() {
    let a = Mem::new(10);
    let b = Mem::new(11);
    let mut k = Kernel::new(7);
    for _ in 0..5 {
        k.bind(0, &a, 0).unwrap();
    }
    assert_eq!(k.read_args(), &vec![Arg { index: 0, mem: 10 }]);
    k.bind_mut(0, &b, 0).unwrap();
    assert!(k.read_args().is_empty());
    assert_eq!(k.write_args(), &vec![Arg { index: 0, mem: 11 }]);
    k.bind(1, &a, 0).unwrap();
    k.bind_scalar(0, 0).unwrap();
    assert!(k.write_args().is_empty());
    assert_eq!(k.read_args(), &vec![Arg { index: 1, mem: 10 }]);
    k.bind_null(1, 0).unwrap();
    assert!(k.read_args().is_empty());
}

#[test]
fn refused_bind_changes_nothing() {
    let a = Mem::new(10);
    let mut k = Kernel::new(7);
    k.bind(0, &a, 0).unwrap();
    assert_eq!(k.bind_mut(0, &a, -48), Err(Error::ArgumentBind(-48)));
    assert_eq!(k.bind(2, &a, -51), Err(Error::ArgumentBind(-51)));
    assert_eq!(k.bind_null(0, -49), Err(Error::ArgumentBind(-49)));
    assert_eq!(k.bind_scalar(0, -50), Err(Error::ArgumentBind(-50)));
    assert_eq!(k.read_args(), &vec![Arg { index: 0, mem: 10 }]);
    assert!(k.write_args().is_empty());
}
