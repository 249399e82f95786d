use crate::error::Error;
use vstd::prelude::*;

verus! {

/// A completion token: the runtime's handle to one submitted operation.
#[derive(Debug, Clone, Copy, PartialEq, Eq, Structural)]
pub struct Event {
    pub id: u64,
}

/// A copy of the tokens of `v`, in order.
pub fn copy_events(v: &Vec<Event>) -> (r: Vec<Event>)
    ensures
        r@ == v@,
{
    let mut r: Vec<Event> = Vec::new();
    let mut i: usize = 0;
    while i < v.len()
        invariant
            i <= v@.len(),
            r@ == v@.subrange(0, i as int),
        decreases v@.len() - i,
    {
        r.push(v[i]);
        i = i + 1;
    }
    r
}

/// Execution status of a submitted operation.
#[derive(Debug, Clone, Copy, PartialEq, Eq, Structural)]
pub enum EventStatus {
    Queued,
    Submitted,
    Running,
    Complete,
}

impl EventStatus {
    /// The status that the runtime reports as `code`.
    pub open spec fn of_code(code: i32) -> EventStatus {
        if code == 0 {
            EventStatus::Complete
        } else if code == 1 {
            EventStatus::Running
        } else if code == 2 {
            EventStatus::Submitted
        } else {
            EventStatus::Queued
        }
    }

    pub fn from_code(code: i32) -> (r: EventStatus)
        requires
            0 <= code <= 3,
        ensures
            r == EventStatus::of_code(code),
    {
        match code {
            0 => EventStatus::Complete,
            1 => EventStatus::Running,
            2 => EventStatus::Submitted,
            _ => EventStatus::Queued,
        }
    }
}

/// How far a blocking wait on one token has come.
#[derive(Debug, Clone, Copy, PartialEq, Eq, Structural)]
pub enum WaitState {
    /// Nobody has waited on the token yet, or every wait so far was cut short.
    Pending,
    /// A wait returned: the operation has finished.
    Complete,
    /// A wait failed with the runtime's status code; the data the operation
    /// touched is in an undefined state.
    Failed(i32),
}

impl WaitState {
    /// Whether the runtime must still be asked to block on the token.
    pub open spec fn must_block(self) -> bool {
        self is Pending
    }

    /// The state once a wait has been asked for, with `outcome` the answer of
    /// the runtime's blocking wait. Once settled, the state no longer changes
    /// and the runtime is not consulted.
    pub open spec fn after(self, outcome: Result<(), i32>) -> WaitState {
        match self {
            WaitState::Pending => match outcome {
                Ok(_) => WaitState::Complete,
                Err(code) => WaitState::Failed(code),
            },
            _ => self,
        }
    }

    /// What a wait reports in this state.
    pub open spec fn report(self) -> Result<(), Error> {
        match self {
            WaitState::Failed(code) => Err(Error::RuntimeWait(code)),
            _ => Ok(()),
        }
    }

    pub fn needs_wait(&self) -> (r: bool)
        ensures
            r == self.must_block(),
    {
        match self {
            WaitState::Pending => true,
            _ => false,
        }
    }

    /// Moves to the state after a wait whose blocking call answered `outcome`,
    /// and reports it.
    pub fn settle(&mut self, outcome: Result<(), i32>) -> (r: Result<(), Error>)
        ensures
            *final(self) == old(self).after(outcome),
            r == final(self).report(),
    {
        if let WaitState::Pending = *self {
            *self = match outcome {
                Ok(_) => WaitState::Complete,
                Err(code) => WaitState::Failed(code),
            };
        }
        match *self {
            WaitState::Failed(code) => Err(Error::RuntimeWait(code)),
            _ => Ok(()),
        }
    }
}

/// Waiting twice on a token is harmless: once a wait has returned, a second
/// one needs no blocking call, leaves the state as it is, and reports success
/// whatever the runtime would have answered.
pub proof fn lemma_second_wait_is_noop(s: WaitState, first: Result<(), i32>, second: Result<(), i32>)
    requires
        first is Ok,
    ensures
        !s.after(first).must_block(),
        s.after(first).after(second) == s.after(first),
        s is Pending ==> s.after(first).after(second).report() == Ok::<(), Error>(()),
{
}

} // verus!
