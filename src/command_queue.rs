use crate::device::{Device, DEVICE_QUEUE_PROPERTIES};
use crate::error::{Error, INVALID_GLOBAL_WORK_SIZE, INVALID_WORK_GROUP_SIZE};
use crate::event::{copy_events, Event, WaitState};
use crate::kernel::{Kernel, KernelView};
use crate::mem::Mem;
use vstd::arithmetic::div_mod::{lemma_fundamental_div_mod, lemma_fundamental_div_mod_converse};
use vstd::prelude::*;

verus! {

/// A command queue of the runtime, named by its handle.
#[derive(Debug, Clone, Copy, PartialEq, Eq, Structural)]
pub struct CommandQueue {
    pub id: u64,
}

/// Which way a transfer moves data.
#[derive(Debug, Clone, Copy, PartialEq, Eq, Structural)]
pub enum Direction {
    /// From the device buffer into host memory.
    Read,
    /// From host memory into the device buffer.
    Write,
}

/// A buffer transfer to submit: on which queue, to or from which buffer, and
/// after which tokens.
pub struct Transfer {
    pub queue: u64,
    pub mem: u64,
    pub direction: Direction,
    pub wait_for: Vec<Event>,
}

/// A kernel dispatch to submit, with its work sizes already rounded so that
/// each global size is a multiple of the local one.
pub struct Dispatch {
    pub queue: u64,
    pub kernel: u64,
    pub local_size: (usize, usize, usize),
    pub global_size: (usize, usize, usize),
    pub wait_for: Vec<Event>,
}

/// A guard over a host buffer that a transfer reads from; the host memory
/// must not change until the transfer's token has been waited on.
pub struct ReadLock {
    pub evt: Event,
    pub state: WaitState,
}

/// A guard over a host buffer that a transfer writes into; the host memory
/// must not be read until the transfer's token has been waited on.
pub struct WriteLock {
    pub evt: Event,
    pub state: WaitState,
}

/// The smallest multiple of `local` that is at least `global`.
pub open spec fn round_up(global: int, local: int) -> int {
    ((global + local - 1) / local) * local
}

/// Whether every local size is positive and every rounded global size fits
/// in a `usize`.
pub open spec fn sizes_fit(local: (usize, usize, usize), global: (usize, usize, usize)) -> bool {
    &&& local.0 > 0 && local.1 > 0 && local.2 > 0
    &&& round_up(global.0 as int, local.0 as int) <= usize::MAX
    &&& round_up(global.1 as int, local.1 as int) <= usize::MAX
    &&& round_up(global.2 as int, local.2 as int) <= usize::MAX
}

/// Why the work sizes cannot be dispatched, if they cannot.
pub open spec fn size_error(local: (usize, usize, usize), global: (usize, usize, usize)) -> Option<Error> {
    if !(local.0 > 0 && local.1 > 0 && local.2 > 0) {
        Some(Error::Dispatch(INVALID_WORK_GROUP_SIZE))
    } else if !sizes_fit(local, global) {
        Some(Error::Dispatch(INVALID_GLOBAL_WORK_SIZE))
    } else {
        None
    }
}

/// The global sizes of a dispatch, each rounded up to a multiple of its local size.
pub open spec fn rounded(local: (usize, usize, usize), global: (usize, usize, usize)) -> (usize, usize, usize) {
    (
        round_up(global.0 as int, local.0 as int) as usize,
        round_up(global.1 as int, local.1 as int) as usize,
        round_up(global.2 as int, local.2 as int) as usize,
    )
}

proof fn lemma_round_up(global: int, local: int)
    requires
        global >= 0,
        local > 0,
    ensures
        global % local == 0 ==> round_up(global, local) == global,
        global % local != 0 ==> round_up(global, local) == (global / local + 1) * local,
        global % local != 0 ==> round_up(global, local) == global - global % local + local,
        round_up(global, local) % local == 0,
        global <= round_up(global, local) < global + local,
        0 <= global % local <= global,
{
    let q = global / local;
    let r = global % local;
    lemma_fundamental_div_mod(global, local);
    assert(global == q * local + r);
    assert(q * local >= 0) by (nonlinear_arith)
        requires
            q >= 0,
            local > 0,
    ;
    if r == 0 {
        lemma_fundamental_div_mod_converse(global + local - 1, local, q, local - 1);
        lemma_fundamental_div_mod_converse(global, local, q, 0);
    } else {
        assert(global + local - 1 == (q + 1) * local + (r - 1)) by (nonlinear_arith)
            requires
                global == q * local + r,
        ;
        lemma_fundamental_div_mod_converse(global + local - 1, local, q + 1, r - 1);
        assert((q + 1) * local == q * local + local) by (nonlinear_arith);
        lemma_fundamental_div_mod_converse((q + 1) * local, local, q + 1, 0);
    }
}

/// Whether rounding `global` up to a multiple of `local > 0` fits in a `usize`.
fn round_up_fits(global: usize, local: usize) -> (r: bool)
    requires
        local > 0,
    ensures
        r == (round_up(global as int, local as int) <= usize::MAX),
{
    proof {
        lemma_round_up(global as int, local as int);
    }
    global % local == 0 || global - global % local <= usize::MAX - local
}

impl CommandQueue {
    /// The queue with the runtime handle `id`.
    pub fn new(id: u64) -> (r: CommandQueue)
        ensures
            r.id == id,
    {
        CommandQueue { id }
    }

    /// The properties to create a queue on `device` with: out-of-order
    /// execution (one) where the device supports it, none (zero) otherwise.
    pub fn properties_for(device: &Device) -> (r: Result<u64, Error>)
        ensures
            r == match device.info.u64_answer(DEVICE_QUEUE_PROPERTIES) {
                Ok(v) => Ok::<u64, Error>(if v % 2 == 1 { 1u64 } else { 0u64 }),
                Err(e) => Err(e),
            },
    {
        if device.out_of_order_supported()? {
            Ok(1)
        } else {
            Ok(0)
        }
    }

    /// `global` rounded up to the next multiple of `local`.
    pub fn next_mul(&self, global: usize, local: usize) -> (r: usize)
        requires
            local > 0,
            round_up(global as int, local as int) <= usize::MAX,
        ensures
            r == round_up(global as int, local as int),
            r % local == 0,
            global <= r < global + local,
    {
        proof {
            lemma_round_up(global as int, local as int);
        }
        if global % local == 0 {
            global
        } else {
            ((global / local) + 1) * local
        }
    }

    /// The write of host data into `mem` on this queue: it waits on the
    /// buffer's last write and on every read since.
    pub fn write_transfer(&self, mem: &Mem) -> (t: Transfer)
        ensures
            t.queue == self.id,
            t.mem == mem.id(),
            t.direction == Direction::Write,
            t.wait_for@ == mem@.write_deps(),
    {
        Transfer { queue: self.id, mem: mem.id(), direction: Direction::Write, wait_for: mem.write_dependencies() }
    }

    /// The read of `mem` into host memory on this queue: it waits on the
    /// buffer's last write only.
    pub fn read_transfer(&self, mem: &Mem) -> (t: Transfer)
        ensures
            t.queue == self.id,
            t.mem == mem.id(),
            t.direction == Direction::Read,
            t.wait_for@ == mem@.read_deps(),
    {
        Transfer { queue: self.id, mem: mem.id(), direction: Direction::Read, wait_for: mem.read_dependencies() }
    }

    /// Records the submission of a write into `mem`: `submitted` is the
    /// token the runtime returned, or its status code if it refused. A
    /// refused write leaves the record as it was.
    pub fn write_buffer_unscoped(&self, mem: &mut Mem, submitted: Result<Event, i32>) -> (r: Result<Event, Error>)
        ensures
            final(mem).id() == old(mem).id(),
            match submitted {
                Ok(t) => r == Ok::<Event, Error>(t) && final(mem)@ == old(mem)@.after_write(t),
                Err(code) => r == Err::<Event, Error>(Error::Transfer(code)) && final(mem)@ == old(mem)@,
            },
    {
        match submitted {
            Ok(t) => {
                mem.register_write(t);
                Ok(t)
            },
            Err(code) => Err(Error::Transfer(code)),
        }
    }

    /// Records the submission of a read of `mem`: `submitted` is the token
    /// the runtime returned, or its status code if it refused. A refused read
    /// leaves the record as it was.
    pub fn read_buffer_unscoped(&self, mem: &mut Mem, submitted: Result<Event, i32>) -> (r: Result<Event, Error>)
        ensures
            final(mem).id() == old(mem).id(),
            match submitted {
                Ok(t) => r == Ok::<Event, Error>(t) && final(mem)@ == old(mem)@.after_read(t),
                Err(code) => r == Err::<Event, Error>(Error::Transfer(code)) && final(mem)@ == old(mem)@,
            },
    {
        match submitted {
            Ok(t) => {
                mem.register_read(t);
                Ok(t)
            },
            Err(code) => Err(Error::Transfer(code)),
        }
    }

    /// As `write_buffer_unscoped`, with the token held in a guard over the
    /// host data that was sent.
    pub fn write_buffer(&self, mem: &mut Mem, submitted: Result<Event, i32>) -> (r: Result<ReadLock, Error>)
        ensures
            final(mem).id() == old(mem).id(),
            match submitted {
                Ok(t) => r matches Ok(g) && g.evt == t && g.state == WaitState::Pending
                    && final(mem)@ == old(mem)@.after_write(t),
                Err(code) => r matches Err(e) && e == Error::Transfer(code) && final(mem)@ == old(mem)@,
            },
    {
        let t = self.write_buffer_unscoped(mem, submitted)?;
        Ok(ReadLock::new(t))
    }

    /// As `read_buffer_unscoped`, with the token held in a guard over the
    /// host memory that receives the data.
    pub fn read_buffer(&self, mem: &mut Mem, submitted: Result<Event, i32>) -> (r: Result<WriteLock, Error>)
        ensures
            final(mem).id() == old(mem).id(),
            match submitted {
                Ok(t) => r matches Ok(g) && g.evt == t && g.state == WaitState::Pending
                    && final(mem)@ == old(mem)@.after_read(t),
                Err(code) => r matches Err(e) && e == Error::Transfer(code) && final(mem)@ == old(mem)@,
            },
    {
        let t = self.read_buffer_unscoped(mem, submitted)?;
        Ok(WriteLock::new(t))
    }
}

impl CommandQueue {
    /// The dispatch of `kernel` on this queue over the buffers `bufs`: its
    /// global sizes rounded up to multiples of the local ones, and its
    /// wait-set what the bound buffers' records require. Refused when a
    /// local size is zero, when a rounded size does not fit, or when a bound
    /// buffer is missing from `bufs`.
    pub fn dispatch(
        &self,
        kernel: &Kernel,
        bufs: &Vec<Mem>,
        local_size: (usize, usize, usize),
        global_size: (usize, usize, usize),
    ) -> (r: Result<Dispatch, Error>)
        ensures
            match size_error(local_size, global_size) {
                Some(e) => r matches Err(x) && x == e,
                None => match kernel@.unsupplied(bufs@) {
                    Some(m) => r matches Err(x) && x == Error::BufferNotSupplied(m),
                    None => r matches Ok(d) && d.queue == self.id && d.kernel == kernel.id()
                        && d.local_size == local_size && d.global_size == rounded(local_size, global_size)
                        && d.wait_for@ == kernel@.wait_set(bufs@),
                },
            },
    {
        if local_size.0 == 0 || local_size.1 == 0 || local_size.2 == 0 {
            return Err(Error::Dispatch(INVALID_WORK_GROUP_SIZE));
        }
        if !round_up_fits(global_size.0, local_size.0) || !round_up_fits(global_size.1, local_size.1)
            || !round_up_fits(global_size.2, local_size.2) {
            return Err(Error::Dispatch(INVALID_GLOBAL_WORK_SIZE));
        }
        let wait_for = kernel.pending_wait_set(bufs)?;
        let global = (
            self.next_mul(global_size.0, local_size.0),
            self.next_mul(global_size.1, local_size.1),
            self.next_mul(global_size.2, local_size.2),
        );
        Ok(Dispatch { queue: self.id, kernel: kernel.id(), local_size, global_size: global, wait_for })
    }

    /// As `dispatch`, with the tokens `events_in` appended to the wait-set.
    pub fn dispatch_with_events(
        &self,
        kernel: &Kernel,
        bufs: &Vec<Mem>,
        local_size: (usize, usize, usize),
        global_size: (usize, usize, usize),
        events_in: &Vec<Event>,
    ) -> (r: Result<Dispatch, Error>)
        ensures
            match size_error(local_size, global_size) {
                Some(e) => r matches Err(x) && x == e,
                None => match kernel@.unsupplied(bufs@) {
                    Some(m) => r matches Err(x) && x == Error::BufferNotSupplied(m),
                    None => r matches Ok(d) && d.queue == self.id && d.kernel == kernel.id()
                        && d.local_size == local_size && d.global_size == rounded(local_size, global_size)
                        && d.wait_for@ == kernel@.wait_set(bufs@) + events_in@,
                },
            },
    {
        let mut d = self.dispatch(kernel, bufs, local_size, global_size)?;
        let mut extra = copy_events(events_in);
        d.wait_for.append(&mut extra);
        Ok(d)
    }

    /// Records the submission of a dispatch of `kernel` over `bufs`:
    /// `submitted` is the token the runtime returned, or its status code if
    /// it refused. On success every bound buffer's record takes the token and
    /// the kernel's bindings are cleared; a refused dispatch changes nothing,
    /// so it can be tried again.
    pub fn run(&self, kernel: &mut Kernel, bufs: &mut Vec<Mem>, submitted: Result<Event, i32>) -> (r: Result<Event, Error>)
        ensures
            final(kernel).id() == old(kernel).id(),
            match submitted {
                Ok(t) => {
                    &&& r == Ok::<Event, Error>(t)
                    &&& final(kernel)@ == KernelView::empty()
                    &&& final(bufs)@.len() == old(bufs)@.len()
                    &&& forall|i: int|
                        0 <= i < old(bufs)@.len() ==> (#[trigger] final(bufs)@[i]).id() == old(bufs)@[i].id()
                            && final(bufs)@[i]@ == old(kernel)@.committed(old(bufs)@[i]@, old(bufs)@[i].id(), t)
                },
                Err(code) => {
                    &&& r == Err::<Event, Error>(Error::Dispatch(code))
                    &&& final(kernel)@ == old(kernel)@
                    &&& final(bufs)@ == old(bufs)@
                },
            },
    {
        match submitted {
            Ok(t) => {
                kernel.commit_dispatch(t, bufs);
                Ok(t)
            },
            Err(code) => Err(Error::Dispatch(code)),
        }
    }
}

impl CommandQueue {
    /// What a copy from `source` to `destination` waits on: what a read of
    /// the source waits on, then what a write of the destination waits on,
    /// then the tokens `wait_for`.
    pub fn copy_dependencies(&self, source: &Mem, destination: &Mem, wait_for: &Vec<Event>) -> (r: Vec<Event>)
        ensures
            r@ == source@.read_deps() + destination@.write_deps() + wait_for@,
    {
        let mut r = source.read_dependencies();
        let mut w = destination.write_dependencies();
        let mut extra = copy_events(wait_for);
        r.append(&mut w);
        r.append(&mut extra);
        r
    }

    fn record_copy(&self, source: &mut Mem, destination: &mut Mem, submitted: Result<Event, i32>) -> (r: Result<Event, Error>)
        ensures
            final(source).id() == old(source).id(),
            final(destination).id() == old(destination).id(),
            match submitted {
                Ok(t) => r == Ok::<Event, Error>(t) && final(source)@ == old(source)@.after_read(t)
                    && final(destination)@ == old(destination)@.after_write(t),
                Err(code) => r == Err::<Event, Error>(Error::Transfer(code)) && final(source)@ == old(source)@
                    && final(destination)@ == old(destination)@,
            },
    {
        match submitted {
            Ok(t) => {
                source.register_read(t);
                destination.register_write(t);
                Ok(t)
            },
            Err(code) => Err(Error::Transfer(code)),
        }
    }

    /// Records the submission of a copy from the buffer `source` into the
    /// image `destination`: a read of one and a write of the other. A refused
    /// copy leaves both records as they were.
    pub fn copy_buffer_to_image(&self, source: &mut Mem, destination: &mut Mem, submitted: Result<Event, i32>) -> (r: Result<Event, Error>)
        ensures
            final(source).id() == old(source).id(),
            final(destination).id() == old(destination).id(),
            match submitted {
                Ok(t) => r == Ok::<Event, Error>(t) && final(source)@ == old(source)@.after_read(t)
                    && final(destination)@ == old(destination)@.after_write(t),
                Err(code) => r == Err::<Event, Error>(Error::Transfer(code)) && final(source)@ == old(source)@
                    && final(destination)@ == old(destination)@,
            },
    {
        self.record_copy(source, destination, submitted)
    }

    /// Records the submission of a copy from the image `source` into the
    /// buffer `destination`: a read of one and a write of the other. A
    /// refused copy leaves both records as they were.
    pub fn copy_image_to_buffer(&self, source: &mut Mem, destination: &mut Mem, submitted: Result<Event, i32>) -> (r: Result<Event, Error>)
        ensures
            final(source).id() == old(source).id(),
            final(destination).id() == old(destination).id(),
            match submitted {
                Ok(t) => r == Ok::<Event, Error>(t) && final(source)@ == old(source)@.after_read(t)
                    && final(destination)@ == old(destination)@.after_write(t),
                Err(code) => r == Err::<Event, Error>(Error::Transfer(code)) && final(source)@ == old(source)@
                    && final(destination)@ == old(destination)@,
            },
    {
        self.record_copy(source, destination, submitted)
    }
}

impl ReadLock {
    /// A guard over the token `evt`, not yet waited on.
    pub fn new(evt: Event) -> (r: ReadLock)
        ensures
            r.evt == evt,
            r.state == WaitState::Pending,
    {
        ReadLock { evt, state: WaitState::Pending }
    }

    /// Whether the runtime must still block on the token.
    pub fn needs_wait(&self) -> (r: bool)
        ensures
            r == self.state.must_block(),
    {
        self.state.needs_wait()
    }

    /// Records a wait whose blocking call answered `outcome`, and reports it.
    pub fn wait(&mut self, outcome: Result<(), i32>) -> (r: Result<(), Error>)
        ensures
            final(self).evt == old(self).evt,
            final(self).state == old(self).state.after(outcome),
            r == final(self).state.report(),
    {
        self.state.settle(outcome)
    }
}

impl WriteLock {
    /// A guard over the token `evt`, not yet waited on.
    pub fn new(evt: Event) -> (r: WriteLock)
        ensures
            r.evt == evt,
            r.state == WaitState::Pending,
    {
        WriteLock { evt, state: WaitState::Pending }
    }

    /// Whether the runtime must still block on the token.
    pub fn needs_wait(&self) -> (r: bool)
        ensures
            r == self.state.must_block(),
    {
        self.state.needs_wait()
    }

    /// Records a wait whose blocking call answered `outcome`, and reports it.
    pub fn wait(&mut self, outcome: Result<(), i32>) -> (r: Result<(), Error>)
        ensures
            final(self).evt == old(self).evt,
            final(self).state == old(self).state.after(outcome),
            r == final(self).state.report(),
    {
        self.state.settle(outcome)
    }
}

} // verus!
