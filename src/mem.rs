use crate::event::{copy_events, Event};
use vstd::prelude::*;

verus! {

/// The dependency record of a buffer, as a mathematical value.
pub struct SyncView {
    /// The token of the last write, if the buffer was ever written.
    pub last_write: Option<Event>,
    /// The reads issued since that write.
    pub reads: Seq<Event>,
}

impl SyncView {
    /// The record of a buffer that nothing has touched yet.
    pub open spec fn empty() -> SyncView {
        SyncView { last_write: None, reads: Seq::empty() }
    }

    /// What a read must wait on: the last write alone.
    pub open spec fn read_deps(self) -> Seq<Event> {
        match self.last_write {
            Some(w) => seq![w],
            None => Seq::empty(),
        }
    }

    /// What a write must wait on: the last write, then every read since.
    pub open spec fn write_deps(self) -> Seq<Event> {
        self.read_deps() + self.reads
    }

    /// The record once a write with token `t` was submitted.
    pub open spec fn after_write(self, t: Event) -> SyncView {
        SyncView { last_write: Some(t), reads: Seq::empty() }
    }

    /// The record once a read with token `t` was submitted.
    pub open spec fn after_read(self, t: Event) -> SyncView {
        SyncView {
            last_write: self.last_write,
            reads: if self.reads.contains(t) {
                self.reads
            } else {
                self.reads.push(t)
            },
        }
    }

    /// The record without the reads that are known to have completed.
    pub open spec fn pruned(self, complete: Seq<Event>) -> SyncView {
        SyncView {
            last_write: self.last_write,
            reads: self.reads.filter(|e: Event| !complete.contains(e)),
        }
    }
}

/// One step in the history of a buffer's record.
pub enum Access {
    /// A read with this token was submitted.
    Read(Event),
    /// A write with this token was submitted.
    Write(Event),
    /// The reads among these tokens were reported complete and pruned.
    Prune(Seq<Event>),
}

impl SyncView {
    pub open spec fn apply(self, a: Access) -> SyncView {
        match a {
            Access::Read(t) => self.after_read(t),
            Access::Write(t) => self.after_write(t),
            Access::Prune(complete) => self.pruned(complete),
        }
    }

    /// The record after the steps of `history`, in order.
    pub open spec fn replay(self, history: Seq<Access>) -> SyncView
        decreases history.len(),
    {
        if history.len() == 0 {
            self
        } else {
            self.apply(history[0]).replay(history.drop_first())
        }
    }
}

/// Whether `history` holds no write.
pub open spec fn no_write(history: Seq<Access>) -> bool {
    forall|i: int| 0 <= i < history.len() ==> !(#[trigger] history[i] is Write)
}

/// Whether `history` holds no write, and never reports `t` complete.
pub open spec fn no_write_nor_drain_of(history: Seq<Access>, t: Event) -> bool {
    forall|i: int|
        0 <= i < history.len() ==> match #[trigger] history[i] {
            Access::Write(_) => false,
            Access::Prune(complete) => !complete.contains(t),
            Access::Read(_) => true,
        }
}

proof fn lemma_reads_keep_last_write(s: SyncView, history: Seq<Access>)
    requires
        no_write(history),
    ensures
        s.replay(history).last_write == s.last_write,
    decreases history.len(),
{
    if history.len() > 0 {
        assert(!(history[0] is Write));
        let rest = history.drop_first();
        assert forall|i: int| 0 <= i < rest.len() implies !(#[trigger] rest[i] is Write) by {
            assert(rest[i] == history[i + 1]);
        }
        lemma_reads_keep_last_write(s.apply(history[0]), rest);
    }
}

proof fn lemma_undrained_read_stays(s: SyncView, t: Event, history: Seq<Access>)
    requires
        s.reads.contains(t),
        no_write_nor_drain_of(history, t),
    ensures
        s.replay(history).reads.contains(t),
    decreases history.len(),
{
    if history.len() > 0 {
        let next = s.apply(history[0]);
        match history[0] {
            Access::Write(_) => {},
            Access::Read(u) => {
                if !s.reads.contains(u) {
                    let k = choose|k: int| 0 <= k < s.reads.len() && s.reads[k] == t;
                    assert(next.reads[k] == t);
                }
            },
            Access::Prune(complete) => {
                let k = choose|k: int| 0 <= k < s.reads.len() && s.reads[k] == t;
                s.reads.lemma_filter_contains(|e: Event| !complete.contains(e), k);
            },
        }
        let rest = history.drop_first();
        assert forall|i: int| 0 <= i < rest.len() implies match #[trigger] rest[i] {
            Access::Write(_) => false,
            Access::Prune(complete) => !complete.contains(t),
            Access::Read(_) => true,
        } by {
            assert(rest[i] == history[i + 1]);
        }
        lemma_undrained_read_stays(next, t, rest);
    }
}

/// No missed write: once a write with token `tw` was submitted, every later
/// read waits on exactly `tw`, whatever reads and prunes came in between.
pub proof fn lemma_read_waits_on_last_write(s: SyncView, tw: Event, between: Seq<Access>)
    requires
        no_write(between),
    ensures
        s.after_write(tw).replay(between).read_deps() == seq![tw],
        s.after_write(tw).replay(between).write_deps().contains(tw),
{
    lemma_reads_keep_last_write(s.after_write(tw), between);
    let w = s.after_write(tw).replay(between).write_deps();
    assert(w[0] == tw);
}

/// No write before the reads are drained: once a read with token `tr` was
/// submitted, a later write waits on `tr`, unless a write came in between or
/// `tr` was reported complete.
pub proof fn lemma_write_waits_on_earlier_read(s: SyncView, tr: Event, between: Seq<Access>)
    requires
        no_write_nor_drain_of(between, tr),
    ensures
        s.after_read(tr).replay(between).write_deps().contains(tr),
{
    let r = s.after_read(tr);
    if !s.reads.contains(tr) {
        assert(r.reads[r.reads.len() - 1] == tr);
    }
    lemma_undrained_read_stays(r, tr, between);
    let end = r.replay(between);
    let k = choose|k: int| 0 <= k < end.reads.len() && end.reads[k] == tr;
    assert(end.write_deps()[end.read_deps().len() + k] == tr);
}

/// Reads do not wait on reads: on a buffer never written, two reads issued
/// back to back each wait on nothing, so neither waits on the other.
pub proof fn lemma_reads_are_independent(s: SyncView, t1: Event, t2: Event)
    requires
        s.last_write is None,
    ensures
        s.read_deps() == Seq::<Event>::empty(),
        s.after_read(t1).read_deps() == Seq::<Event>::empty(),
        s.after_read(t1).after_read(t2).read_deps() == Seq::<Event>::empty(),
        !s.after_read(t1).read_deps().contains(t1),
{
}

/// A device buffer together with its dependency record.
pub struct Mem {
    id: u64,
    last_write: Option<Event>,
    reads: Vec<Event>,
}

impl View for Mem {
    type V = SyncView;

    closed spec fn view(&self) -> SyncView {
        SyncView { last_write: self.last_write, reads: self.reads@ }
    }
}

fn contains_event(v: &Vec<Event>, t: Event) -> (r: bool)
    ensures
        r == v@.contains(t),
{
    let mut i: usize = 0;
    while i < v.len()
        invariant
            i <= v@.len(),
            forall|j: int| 0 <= j < i ==> v@[j] != t,
        decreases v@.len() - i,
    {
        if v[i] == t {
            return true;
        }
        i = i + 1;
    }
    false
}

impl Mem {
    /// The device handle of the buffer.
    pub closed spec fn spec_id(&self) -> u64 {
        self.id
    }

    #[verifier::when_used_as_spec(spec_id)]
    pub fn id(&self) -> (r: u64)
        ensures
            r == self.spec_id(),
    {
        self.id
    }

    /// A buffer with the device handle `id` and an empty record.
    pub fn new(id: u64) -> (r: Mem)
        ensures
            r.id() == id,
            r@ == SyncView::empty(),
    {
        Mem { id, last_write: None, reads: Vec::new() }
    }

    /// The token of the last write, if any.
    pub fn last_write(&self) -> (r: Option<Event>)
        ensures
            r == self@.last_write,
    {
        self.last_write
    }

    /// The reads issued since the last write.
    pub fn pending_reads(&self) -> (r: Vec<Event>)
        ensures
            r@ == self@.reads,
    {
        copy_events(&self.reads)
    }

    /// The tokens a read of this buffer must wait on.
    pub fn read_dependencies(&self) -> (r: Vec<Event>)
        ensures
            r@ == self@.read_deps(),
    {
        let mut r: Vec<Event> = Vec::new();
        if let Some(w) = self.last_write {
            r.push(w);
        }
        r
    }

    /// The tokens a write of this buffer must wait on.
    pub fn write_dependencies(&self) -> (r: Vec<Event>)
        ensures
            r@ == self@.write_deps(),
    {
        let mut r = self.read_dependencies();
        let mut reads = self.pending_reads();
        r.append(&mut reads);
        r
    }

    /// Records `t` as the last write; the reads before it are now behind it.
    pub fn register_write(&mut self, t: Event)
        ensures
            final(self).id() == old(self).id(),
            final(self)@ == old(self)@.after_write(t),
    {
        self.last_write = Some(t);
        self.reads = Vec::new();
    }

    /// Records `t` as a read since the last write.
    pub fn register_read(&mut self, t: Event)
        ensures
            final(self).id() == old(self).id(),
            final(self)@ == old(self)@.after_read(t),
    {
        if !contains_event(&self.reads, t) {
            self.reads.push(t);
        }
    }

    /// Forgets the pending reads that are among `complete`: a finished
    /// operation imposes no wait.
    pub fn prune_completed(&mut self, complete: &Vec<Event>)
        ensures
            final(self).id() == old(self).id(),
            final(self)@ == old(self)@.pruned(complete@),
    {
        let mut kept: Vec<Event> = Vec::new();
        let mut i: usize = 0;
        while i < self.reads.len()
            invariant
                i <= self.reads@.len(),
                kept@ == self.reads@.subrange(0, i as int).filter(
                    |e: Event| !complete@.contains(e),
                ),
            decreases self.reads@.len() - i,
        {
            let t = self.reads[i];
            proof {
                reveal(Seq::filter);
                assert(self.reads@.subrange(0, i + 1).drop_last() == self.reads@.subrange(0, i as int));
            }
            if !contains_event(complete, t) {
                kept.push(t);
            }
            i = i + 1;
        }
        proof {
            assert(self.reads@.subrange(0, self.reads@.len() as int) == self.reads@);
        }
        self.reads = kept;
    }
}

} // verus!
