use crate::error::Error;
use crate::event::Event;
use crate::mem::{Mem, SyncView};
use vstd::prelude::*;

verus! {

/// A kernel argument slot bound to a buffer.
#[derive(Debug, Clone, Copy, PartialEq, Eq, Structural)]
pub struct Arg {
    /// The position of the argument.
    pub index: u32,
    /// The device handle of the buffer bound there.
    pub mem: u64,
}

/// The bound buffers of a kernel, as a mathematical value.
pub struct KernelView {
    /// Buffers bound as read-only inputs.
    pub reads: Seq<Arg>,
    /// Buffers bound as outputs the dispatch may write.
    pub writes: Seq<Arg>,
}

/// `args` without the binding of slot `index`.
pub open spec fn without_slot(args: Seq<Arg>, index: u32) -> Seq<Arg> {
    args.filter(|a: Arg| a.index != index)
}

/// Whether some argument in `args` is bound to the buffer `mem`.
pub open spec fn binds(args: Seq<Arg>, mem: u64) -> bool {
    exists|i: int| 0 <= i < args.len() && (#[trigger] args[i]).mem == mem
}

/// Whether some buffer in `bufs` has the handle `mem`.
pub open spec fn supplies(bufs: Seq<Mem>, mem: u64) -> bool {
    exists|i: int| 0 <= i < bufs.len() && (#[trigger] bufs[i]).id() == mem
}

/// The first argument of `args` whose buffer is not in `bufs`.
pub open spec fn first_unsupplied(args: Seq<Arg>, bufs: Seq<Mem>) -> Option<u64>
    decreases args.len(),
{
    if args.len() == 0 {
        None
    } else if !supplies(bufs, args[0].mem) {
        Some(args[0].mem)
    } else {
        first_unsupplied(args.drop_first(), bufs)
    }
}

impl KernelView {
    /// No argument bound to a buffer.
    pub open spec fn empty() -> KernelView {
        KernelView { reads: Seq::empty(), writes: Seq::empty() }
    }

    /// The kernel once slot `index` holds something other than a buffer.
    pub open spec fn cleared(self, index: u32) -> KernelView {
        KernelView { reads: without_slot(self.reads, index), writes: without_slot(self.writes, index) }
    }

    /// The kernel once slot `index` reads the buffer `mem`; the slot's
    /// earlier binding is gone.
    pub open spec fn bound_read(self, index: u32, mem: u64) -> KernelView {
        KernelView {
            reads: without_slot(self.reads, index).push(Arg { index, mem }),
            writes: without_slot(self.writes, index),
        }
    }

    /// The kernel once slot `index` writes the buffer `mem`; the slot's
    /// earlier binding is gone.
    pub open spec fn bound_write(self, index: u32, mem: u64) -> KernelView {
        KernelView {
            reads: without_slot(self.reads, index),
            writes: without_slot(self.writes, index).push(Arg { index, mem }),
        }
    }

    /// What a dispatch waits on for the buffer `m`: what a write waits on if
    /// the kernel may write it, what a read waits on if it only reads it.
    pub open spec fn deps_of(self, m: Mem) -> Seq<Event> {
        if binds(self.writes, m.id()) {
            m@.write_deps()
        } else if binds(self.reads, m.id()) {
            m@.read_deps()
        } else {
            Seq::empty()
        }
    }

    /// The wait-set of a dispatch over the buffers `bufs`, buffer by buffer.
    pub open spec fn wait_set(self, bufs: Seq<Mem>) -> Seq<Event>
        decreases bufs.len(),
    {
        if bufs.len() == 0 {
            Seq::empty()
        } else {
            self.wait_set(bufs.drop_last()) + self.deps_of(bufs.last())
        }
    }

    /// The record of the buffer `m` once a dispatch with token `t` was
    /// submitted: a write if the kernel may write it, a read if it reads it.
    pub open spec fn committed(self, m: SyncView, id: u64, t: Event) -> SyncView {
        if binds(self.writes, id) {
            m.after_write(t)
        } else if binds(self.reads, id) {
            m.after_read(t)
        } else {
            m
        }
    }

    /// The first bound buffer, reads before writes, missing from `bufs`.
    pub open spec fn unsupplied(self, bufs: Seq<Mem>) -> Option<u64> {
        first_unsupplied(self.reads + self.writes, bufs)
    }
}

/// A dispatch waits on everything its bound buffers require: for a buffer
/// the kernel may write, on all that a write of it waits on; for a buffer it
/// reads, on all that a read of it waits on.
pub proof fn lemma_wait_set_covers_bound_buffers(k: KernelView, bufs: Seq<Mem>, i: int, e: Event)
    requires
        0 <= i < bufs.len(),
    ensures
        binds(k.writes, bufs[i].id()) && bufs[i]@.write_deps().contains(e) ==> k.wait_set(bufs).contains(e),
        binds(k.reads, bufs[i].id()) && bufs[i]@.read_deps().contains(e) ==> k.wait_set(bufs).contains(e),
    decreases bufs.len(),
{
    let m = bufs[i];
    let before = k.wait_set(bufs.drop_last());
    let own = k.deps_of(bufs.last());
    assert(k.wait_set(bufs) == before + own);
    if i == bufs.len() - 1 {
        let needed = (binds(k.writes, m.id()) && m@.write_deps().contains(e)) || (binds(k.reads, m.id())
            && m@.read_deps().contains(e));
        if needed {
            if binds(k.writes, m.id()) {
                assert(own == m@.write_deps());
                if !m@.write_deps().contains(e) {
                    let j = choose|j: int| 0 <= j < m@.read_deps().len() && m@.read_deps()[j] == e;
                    assert(m@.write_deps()[j] == e);
                }
            } else {
                assert(own == m@.read_deps());
            }
            assert(own.contains(e));
            let j = choose|j: int| 0 <= j < own.len() && own[j] == e;
            assert((before + own)[before.len() + j] == e);
        }
    } else {
        assert(bufs.drop_last()[i] == m);
        lemma_wait_set_covers_bound_buffers(k, bufs.drop_last(), i, e);
        if before.contains(e) {
            let j = choose|j: int| 0 <= j < before.len() && before[j] == e;
            assert((before + own)[j] == e);
        }
    }
}

/// Whether no two arguments of `s` share a slot.
pub open spec fn unique_slots(s: Seq<Arg>) -> bool {
    forall|i: int, j: int| 0 <= i < j < s.len() ==> (#[trigger] s[i]).index != (#[trigger] s[j]).index
}

proof fn lemma_without_slot(s: Seq<Arg>, index: u32)
    ensures
        forall|k: int|
            0 <= k < without_slot(s, index).len() ==> s.contains(#[trigger] without_slot(s, index)[k])
                && without_slot(s, index)[k].index != index,
        unique_slots(s) ==> unique_slots(without_slot(s, index)),
    decreases s.len(),
{
    reveal(Seq::filter);
    if s.len() > 0 {
        let init = s.drop_last();
        lemma_without_slot(init, index);
        let f = without_slot(init, index);
        assert(without_slot(s, index) == if s.last().index != index {
            f.push(s.last())
        } else {
            f
        });
        assert forall|k: int| 0 <= k < f.len() implies s.contains(#[trigger] f[k]) by {
            let p = choose|p: int| 0 <= p < init.len() && init[p] == f[k];
            assert(s[p] == f[k]);
        }
        if unique_slots(s) {
            assert forall|i: int, j: int| 0 <= i < j < init.len() implies (#[trigger] init[i]).index
                != (#[trigger] init[j]).index by {
                assert(init[i] == s[i] && init[j] == s[j]);
            }
            assert forall|k: int| 0 <= k < f.len() implies (#[trigger] f[k]).index != s.last().index by {
                let p = choose|p: int| 0 <= p < init.len() && init[p] == f[k];
                assert(s[p] == f[k]);
                assert(s[p].index != s[s.len() - 1].index);
            }
        }
    }
}

proof fn lemma_unique_concat(a: Seq<Arg>, b: Seq<Arg>)
    requires
        unique_slots(a),
        unique_slots(b),
        forall|i: int, j: int| 0 <= i < a.len() && 0 <= j < b.len() ==> (#[trigger] a[i]).index != (#[trigger] b[j]).index,
    ensures
        unique_slots(a + b),
{
    let c = a + b;
    assert forall|i: int, j: int| 0 <= i < j < c.len() implies (#[trigger] c[i]).index != (#[trigger] c[j]).index by {
        if j < a.len() {
            assert(c[i] == a[i] && c[j] == a[j]);
        } else if i >= a.len() {
            assert(c[i] == b[i - a.len()] && c[j] == b[j - a.len()]);
        } else {
            assert(c[i] == a[i] && c[j] == b[j - a.len()]);
        }
    }
}

proof fn lemma_unique_parts(a: Seq<Arg>, b: Seq<Arg>)
    requires
        unique_slots(a + b),
    ensures
        unique_slots(a),
        unique_slots(b),
        forall|x: Arg, y: Arg| a.contains(x) && b.contains(y) ==> x.index != y.index,
{
    let c = a + b;
    assert forall|i: int, j: int| 0 <= i < j < a.len() implies (#[trigger] a[i]).index != (#[trigger] a[j]).index by {
        assert(c[i] == a[i] && c[j] == a[j]);
    }
    assert forall|i: int, j: int| 0 <= i < j < b.len() implies (#[trigger] b[i]).index != (#[trigger] b[j]).index by {
        assert(c[a.len() + i] == b[i] && c[a.len() + j] == b[j]);
    }
    assert forall|x: Arg, y: Arg| a.contains(x) && b.contains(y) implies x.index != y.index by {
        let p = choose|p: int| 0 <= p < a.len() && a[p] == x;
        let q = choose|q: int| 0 <= q < b.len() && b[q] == y;
        assert(c[p] == x && c[a.len() + q] == y);
    }
}

/// Binding is last-bind-wins per slot: if no two bound arguments share a
/// slot, none do after binding a buffer to a slot, for reading or for
/// writing, or after clearing a slot. Rebinding a slot replaces its argument
/// instead of adding one.
pub proof fn lemma_binding_keeps_one_argument_per_slot(k: KernelView, index: u32, mem: u64)
    requires
        unique_slots(k.reads + k.writes),
    ensures
        unique_slots(k.cleared(index).reads + k.cleared(index).writes),
        unique_slots(k.bound_read(index, mem).reads + k.bound_read(index, mem).writes),
        unique_slots(k.bound_write(index, mem).reads + k.bound_write(index, mem).writes),
{
    lemma_unique_parts(k.reads, k.writes);
    lemma_without_slot(k.reads, index);
    lemma_without_slot(k.writes, index);
    let fr = without_slot(k.reads, index);
    let fw = without_slot(k.writes, index);
    let a = Arg { index, mem };
    assert forall|i: int, j: int| 0 <= i < fr.len() && 0 <= j < fw.len() implies (#[trigger] fr[i]).index
        != (#[trigger] fw[j]).index by {
        assert(k.reads.contains(fr[i]) && k.writes.contains(fw[j]));
    }
    lemma_unique_concat(fr, fw);
    let single = seq![a];
    assert forall|i: int, j: int| 0 <= i < fr.len() && 0 <= j < single.len() implies (#[trigger] fr[i]).index
        != (#[trigger] single[j]).index by {}
    lemma_unique_concat(fr, single);
    assert(fr.push(a) == fr + single);
    assert forall|i: int, j: int| 0 <= i < fr.push(a).len() && 0 <= j < fw.len() implies (#[trigger] fr.push(
        a,
    )[i]).index != (#[trigger] fw[j]).index by {
        if i < fr.len() {
            assert(fr.push(a)[i] == fr[i]);
            assert(k.reads.contains(fr[i]) && k.writes.contains(fw[j]));
        }
    }
    lemma_unique_concat(fr.push(a), fw);
    assert forall|i: int, j: int| 0 <= i < fw.len() && 0 <= j < single.len() implies (#[trigger] fw[i]).index
        != (#[trigger] single[j]).index by {}
    lemma_unique_concat(fw, single);
    assert(fw.push(a) == fw + single);
    assert forall|i: int, j: int| 0 <= i < fr.len() && 0 <= j < fw.push(a).len() implies (#[trigger] fr[i]).index
        != (#[trigger] fw.push(a)[j]).index by {
        if j < fw.len() {
            assert(fw.push(a)[j] == fw[j]);
            assert(k.reads.contains(fr[i]) && k.writes.contains(fw[j]));
        }
    }
    lemma_unique_concat(fr, fw.push(a));
}

/// A compiled kernel and the buffers bound to its arguments since its last
/// dispatch.
pub struct Kernel {
    id: u64,
    reads: Vec<Arg>,
    writes: Vec<Arg>,
}

impl View for Kernel {
    type V = KernelView;

    closed spec fn view(&self) -> KernelView {
        KernelView { reads: self.reads@, writes: self.writes@ }
    }
}

fn drop_slot(args: &Vec<Arg>, index: u32) -> (r: Vec<Arg>)
    ensures
        r@ == without_slot(args@, index),
{
    let mut kept: Vec<Arg> = Vec::new();
    let mut i: usize = 0;
    while i < args.len()
        invariant
            i <= args@.len(),
            kept@ == without_slot(args@.subrange(0, i as int), index),
        decreases args@.len() - i,
    {
        let a = args[i];
        proof {
            reveal(Seq::filter);
            assert(args@.subrange(0, i + 1).drop_last() == args@.subrange(0, i as int));
        }
        if a.index != index {
            kept.push(a);
        }
        i = i + 1;
    }
    proof {
        assert(args@.subrange(0, args@.len() as int) == args@);
    }
    kept
}

fn binds_exec(args: &Vec<Arg>, mem: u64) -> (r: bool)
    ensures
        r == binds(args@, mem),
{
    let mut i: usize = 0;
    while i < args.len()
        invariant
            i <= args@.len(),
            forall|j: int| 0 <= j < i ==> (#[trigger] args@[j]).mem != mem,
        decreases args@.len() - i,
    {
        if args[i].mem == mem {
            return true;
        }
        i = i + 1;
    }
    false
}

fn supplies_exec(bufs: &Vec<Mem>, mem: u64) -> (r: bool)
    ensures
        r == supplies(bufs@, mem),
{
    let mut i: usize = 0;
    while i < bufs.len()
        invariant
            i <= bufs@.len(),
            forall|j: int| 0 <= j < i ==> (#[trigger] bufs@[j]).id() != mem,
        decreases bufs@.len() - i,
    {
        if bufs[i].id() == mem {
            return true;
        }
        i = i + 1;
    }
    false
}

proof fn lemma_first_unsupplied_concat(a: Seq<Arg>, b: Seq<Arg>, bufs: Seq<Mem>)
    ensures
        first_unsupplied(a + b, bufs) == match first_unsupplied(a, bufs) {
            Some(m) => Some(m),
            None => first_unsupplied(b, bufs),
        },
    decreases a.len(),
{
    if a.len() > 0 {
        assert((a + b).drop_first() == a.drop_first() + b);
        assert((a + b)[0] == a[0]);
        lemma_first_unsupplied_concat(a.drop_first(), b, bufs);
    } else {
        assert(a + b == b);
    }
}

fn find_unsupplied(args: &Vec<Arg>, bufs: &Vec<Mem>) -> (r: Option<u64>)
    ensures
        r == first_unsupplied(args@, bufs@),
{
    let mut i: usize = 0;
    assert(args@.subrange(0, args@.len() as int) == args@);
    while i < args.len()
        invariant
            i <= args@.len(),
            first_unsupplied(args@, bufs@) == first_unsupplied(
                args@.subrange(i as int, args@.len() as int),
                bufs@,
            ),
        decreases args@.len() - i,
    {
        let rest = Ghost(args@.subrange(i as int, args@.len() as int));
        assert(rest@[0] == args@[i as int]);
        assert(rest@.drop_first() == args@.subrange(i + 1, args@.len() as int));
        if !supplies_exec(bufs, args[i].mem) {
            return Some(args[i].mem);
        }
        i = i + 1;
    }
    None
}

impl Kernel {
    /// The runtime handle of the kernel.
    pub closed spec fn spec_id(&self) -> u64 {
        self.id
    }

    #[verifier::when_used_as_spec(spec_id)]
    pub fn id(&self) -> (r: u64)
        ensures
            r == self.spec_id(),
    {
        self.id
    }

    /// A kernel with the runtime handle `id` and no buffer bound.
    pub fn new(id: u64) -> (r: Kernel)
        ensures
            r.id() == id,
            r@ == KernelView::empty(),
    {
        Kernel { id, reads: Vec::new(), writes: Vec::new() }
    }

    /// The arguments bound to buffers the dispatch only reads.
    pub fn read_args(&self) -> (r: &Vec<Arg>)
        ensures
            r@ == self@.reads,
    {
        &self.reads
    }

    /// The arguments bound to buffers the dispatch may write.
    pub fn write_args(&self) -> (r: &Vec<Arg>)
        ensures
            r@ == self@.writes,
    {
        &self.writes
    }

    fn clear_slot(&mut self, index: u32)
        ensures
            final(self).id() == old(self).id(),
            final(self)@ == old(self)@.cleared(index),
    {
        self.reads = drop_slot(&self.reads, index);
        self.writes = drop_slot(&self.writes, index);
    }

    /// Records that slot `index` was set to no buffer, the runtime having
    /// answered `status` (zero when it accepted).
    pub fn bind_null(&mut self, index: u32, status: i32) -> (r: Result<(), Error>)
        ensures
            final(self).id() == old(self).id(),
            status == 0 ==> r == Ok::<(), Error>(()) && final(self)@ == old(self)@.cleared(index),
            status != 0 ==> r == Err::<(), Error>(Error::ArgumentBind(status)) && final(self)@ == old(self)@,
    {
        if status != 0 {
            return Err(Error::ArgumentBind(status));
        }
        self.clear_slot(index);
        Ok(())
    }

    /// Records that slot `index` was set to a plain value, the runtime having
    /// answered `status` (zero when it accepted).
    pub fn bind_scalar(&mut self, index: u32, status: i32) -> (r: Result<(), Error>)
        ensures
            final(self).id() == old(self).id(),
            status == 0 ==> r == Ok::<(), Error>(()) && final(self)@ == old(self)@.cleared(index),
            status != 0 ==> r == Err::<(), Error>(Error::ArgumentBind(status)) && final(self)@ == old(self)@,
    {
        if status != 0 {
            return Err(Error::ArgumentBind(status));
        }
        self.clear_slot(index);
        Ok(())
    }

    /// Records that slot `index` was bound to `buf` as an input, the runtime
    /// having answered `status` (zero when it accepted).
    pub fn bind(&mut self, index: u32, buf: &Mem, status: i32) -> (r: Result<(), Error>)
        ensures
            final(self).id() == old(self).id(),
            status == 0 ==> r == Ok::<(), Error>(()) && final(self)@ == old(self)@.bound_read(
                index,
                buf.id(),
            ),
            status != 0 ==> r == Err::<(), Error>(Error::ArgumentBind(status)) && final(self)@ == old(self)@,
    {
        if status != 0 {
            return Err(Error::ArgumentBind(status));
        }
        self.clear_slot(index);
        self.reads.push(Arg { index, mem: buf.id() });
        Ok(())
    }

    /// Records that slot `index` was bound to `buf` as an output, the runtime
    /// having answered `status` (zero when it accepted).
    pub fn bind_mut(&mut self, index: u32, buf: &Mem, status: i32) -> (r: Result<(), Error>)
        ensures
            final(self).id() == old(self).id(),
            status == 0 ==> r == Ok::<(), Error>(()) && final(self)@ == old(self)@.bound_write(
                index,
                buf.id(),
            ),
            status != 0 ==> r == Err::<(), Error>(Error::ArgumentBind(status)) && final(self)@ == old(self)@,
    {
        if status != 0 {
            return Err(Error::ArgumentBind(status));
        }
        self.clear_slot(index);
        self.writes.push(Arg { index, mem: buf.id() });
        Ok(())
    }
    /// What a dispatch must wait on for the buffer `m`.
    fn deps_for(&self, m: &Mem) -> (r: Vec<Event>)
        ensures
            r@ == self@.deps_of(*m),
    {
        if binds_exec(&self.writes, m.id()) {
            m.write_dependencies()
        } else if binds_exec(&self.reads, m.id()) {
            m.read_dependencies()
        } else {
            Vec::new()
        }
    }

    /// The wait-set of a dispatch of this kernel: for each buffer of `bufs`,
    /// what a write of it waits on if the kernel may write it, or what a read
    /// waits on if the kernel reads it. Every bound buffer must be among
    /// `bufs`; the first one missing, reads before writes, is the error.
    pub fn pending_wait_set(&self, bufs: &Vec<Mem>) -> (r: Result<Vec<Event>, Error>)
        ensures
            match self@.unsupplied(bufs@) {
                Some(m) => r == Err::<Vec<Event>, Error>(Error::BufferNotSupplied(m)),
                None => r matches Ok(w) && w@ == self@.wait_set(bufs@),
            },
    {
        proof {
            lemma_first_unsupplied_concat(self.reads@, self.writes@, bufs@);
        }
        if let Some(m) = find_unsupplied(&self.reads, bufs) {
            return Err(Error::BufferNotSupplied(m));
        }
        if let Some(m) = find_unsupplied(&self.writes, bufs) {
            return Err(Error::BufferNotSupplied(m));
        }
        let mut w: Vec<Event> = Vec::new();
        let mut i: usize = 0;
        while i < bufs.len()
            invariant
                i <= bufs@.len(),
                w@ == self@.wait_set(bufs@.subrange(0, i as int)),
            decreases bufs@.len() - i,
        {
            let mut d = self.deps_for(&bufs[i]);
            proof {
                let next = bufs@.subrange(0, i + 1);
                assert(next.drop_last() == bufs@.subrange(0, i as int));
                assert(next.last() == bufs@[i as int]);
            }
            w.append(&mut d);
            i = i + 1;
        }
        proof {
            assert(bufs@.subrange(0, bufs@.len() as int) == bufs@);
        }
        Ok(w)
    }

    /// Folds the token `t` of a submitted dispatch into the record of every
    /// bound buffer in `bufs`, as a write for those the kernel may write and
    /// as a read for those it only reads, then unbinds every buffer.
    pub fn commit_dispatch(&mut self, t: Event, bufs: &mut Vec<Mem>)
        ensures
            final(self).id() == old(self).id(),
            final(self)@ == KernelView::empty(),
            final(bufs)@.len() == old(bufs)@.len(),
            forall|i: int|
                0 <= i < old(bufs)@.len() ==> (#[trigger] final(bufs)@[i]).id() == old(bufs)@[i].id()
                    && final(bufs)@[i]@ == old(self)@.committed(old(bufs)@[i]@, old(bufs)@[i].id(), t),
    {
        let ghost before = bufs@;
        let mut i: usize = 0;
        while i < bufs.len()
            invariant
                i <= bufs@.len(),
                bufs@.len() == before.len(),
                forall|j: int|
                    0 <= j < i ==> (#[trigger] bufs@[j]).id() == before[j].id() && bufs@[j]@
                        == self@.committed(before[j]@, before[j].id(), t),
                forall|j: int| i <= j < bufs@.len() ==> #[trigger] bufs@[j] == before[j],
            decreases bufs@.len() - i,
        {
            let id = bufs[i].id();
            if binds_exec(&self.writes, id) {
                bufs[i].register_write(t);
            } else if binds_exec(&self.reads, id) {
                bufs[i].register_read(t);
            }
            i = i + 1;
        }
        self.reads = Vec::new();
        self.writes = Vec::new();
    }
}

} // verus!
