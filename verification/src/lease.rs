//! The connection lease: the admission rule of a pool of bounded size.
//!
//! The process handles one request at a time, so the pool holds one connection.
//! A handler that asks for a lease while the connection is out waits until it
//! is released; a release hands the connection to the handler that has waited
//! longest, or back to the pool.

use vstd::prelude::*;

verus! {

/// The size of the pool: one connection.
pub const POOL_MAX_SIZE: u32 = 1;

/// What happens at a pool.
#[derive(Clone, Copy, Debug, PartialEq, Eq, Structural)]
pub enum LeaseEvent {
    /// A handler asks for a lease.
    Acquire,
    /// A handler that holds a lease is done, by success or by failure.
    Release,
}

/// What the pool does on an event.
#[derive(Clone, Copy, Debug, PartialEq, Eq, Structural)]
pub enum LeaseAction {
    /// The handler that asked gets a lease.
    Grant,
    /// The handler that asked is suspended until a lease is released.
    Wait,
    /// The handler that asked is turned away: no more handlers can wait.
    Refuse,
    /// The released connection goes to the handler that has waited longest.
    HandOver,
    /// The released connection goes back to the pool.
    Return,
    /// Nothing was leased, so nothing is released.
    Ignore,
}

/// The state of a pool: its size, the leases that are out and the handlers that
/// wait for one.
#[derive(Clone, Copy, Debug, PartialEq, Eq, Structural)]
pub struct LeaseState {
    pub max_size: u32,
    pub held: u32,
    pub waiting: u64,
}

impl LeaseState {
    /// The states that a pool can be in: it has room for a connection, no more
    /// leases are out than it has room for, and handlers wait only while all
    /// of them are out.
    pub open spec fn valid(self) -> bool {
        &&& self.max_size >= 1
        &&& self.held <= self.max_size
        &&& self.waiting > 0 ==> self.held == self.max_size
    }

    /// The state of a new pool of the given size.
    pub open spec fn initial(max_size: u32) -> LeaseState {
        LeaseState { max_size, held: 0, waiting: 0 }
    }

    /// The state after `event`, and what the pool does on it.
    pub open spec fn step(self, event: LeaseEvent) -> (LeaseState, LeaseAction) {
        match event {
            LeaseEvent::Acquire => if self.held < self.max_size {
                (LeaseState { held: (self.held + 1) as u32, ..self }, LeaseAction::Grant)
            } else if self.waiting < u64::MAX {
                (LeaseState { waiting: (self.waiting + 1) as u64, ..self }, LeaseAction::Wait)
            } else {
                (self, LeaseAction::Refuse)
            },
            LeaseEvent::Release => if self.held == 0 {
                (self, LeaseAction::Ignore)
            } else if self.waiting > 0 {
                (LeaseState { waiting: (self.waiting - 1) as u64, ..self }, LeaseAction::HandOver)
            } else {
                (LeaseState { held: (self.held - 1) as u32, ..self }, LeaseAction::Return)
            },
        }
    }

    /// The state after the events, one after the other.
    pub open spec fn run(self, events: Seq<LeaseEvent>) -> LeaseState
        decreases events.len(),
    {
        if events.len() == 0 {
            self
        } else {
            self.step(events[0]).0.run(events.drop_first())
        }
    }
}

/// The accounting of a pool. It is always in a valid state.
#[derive(Debug)]
pub struct LeasePool {
    state: LeaseState,
}

impl View for LeasePool {
    type V = LeaseState;

    closed spec fn view(&self) -> LeaseState {
        self.state
    }
}

impl LeasePool {
    #[verifier::type_invariant]
    spec fn consistent(self) -> bool {
        self.state.valid()
    }

    /// The pool of one connection, with no lease out.
    pub fn new() -> (pool: LeasePool)
        ensures
            pool@ == LeaseState::initial(POOL_MAX_SIZE),
    {
        LeasePool { state: LeaseState { max_size: POOL_MAX_SIZE, held: 0, waiting: 0 } }
    }

    /// A pool of `max_size` connections, with no lease out; `None` for a pool
    /// without room for any.
    pub fn with_max_size(max_size: u32) -> (r: Option<LeasePool>)
        ensures
            match r {
                Some(pool) => max_size >= 1 && pool@ == LeaseState::initial(max_size),
                None => max_size == 0,
            },
    {
        if max_size >= 1 {
            Some(LeasePool { state: LeaseState { max_size, held: 0, waiting: 0 } })
        } else {
            None
        }
    }

    /// The state of the pool.
    pub fn state(&self) -> (state: LeaseState)
        ensures
            state == self@,
            state.valid(),
    {
        proof {
            use_type_invariant(self);
        }
        self.state
    }

    /// Takes the pool through `event` and says what it does on it.
    pub fn step(&mut self, event: LeaseEvent) -> (action: LeaseAction)
        ensures
            (final(self)@, action) == old(self)@.step(event),
            final(self)@.valid(),
    {
        proof {
            use_type_invariant(&*self);
        }
        let now = self.state;
        let (next, action) = match event {
            LeaseEvent::Acquire => if now.held < now.max_size {
                (LeaseState { held: now.held + 1, ..now }, LeaseAction::Grant)
            } else if now.waiting < u64::MAX {
                (LeaseState { waiting: now.waiting + 1, ..now }, LeaseAction::Wait)
            } else {
                (now, LeaseAction::Refuse)
            },
            LeaseEvent::Release => if now.held == 0 {
                (now, LeaseAction::Ignore)
            } else if now.waiting > 0 {
                (LeaseState { waiting: now.waiting - 1, ..now }, LeaseAction::HandOver)
            } else {
                (LeaseState { held: now.held - 1, ..now }, LeaseAction::Return)
            },
        };
        *self = LeasePool { state: next };
        action
    }
}

/// No event takes a pool out of its valid states, and none changes its size.
pub proof fn lemma_step_keeps_valid(state: LeaseState, event: LeaseEvent)
    requires
        state.valid(),
    ensures
        state.step(event).0.valid(),
        state.step(event).0.max_size == state.max_size,
{
}

/// The lease invariant. Whatever happens at a pool of one connection, at no
/// point is more than one lease out.
pub proof fn lemma_at_most_one_lease(state: LeaseState, events: Seq<LeaseEvent>)
    requires
        state.valid(),
        state.max_size == 1,
    ensures
        state.run(events).valid(),
        state.run(events).max_size == 1,
        state.run(events).held <= 1,
    decreases events.len(),
{
    if events.len() > 0 {
        lemma_step_keeps_valid(state, events[0]);
        lemma_at_most_one_lease(state.step(events[0]).0, events.drop_first());
    }
}

/// A second lease waits for the first. While a pool's connections are all out,
/// a handler that asks for a lease gets none: it waits, or is turned away. The
/// next release then hands the connection over to a waiting handler, and the
/// number of leases that are out never changes on the way.
pub proof fn lemma_second_lease_waits(state: LeaseState)
    requires
        state.valid(),
        state.held == state.max_size,
    ensures
        state.step(LeaseEvent::Acquire).1 == LeaseAction::Wait || state.step(
            LeaseEvent::Acquire,
        ).1 == LeaseAction::Refuse,
        state.step(LeaseEvent::Acquire).0.held == state.held,
        state.step(LeaseEvent::Acquire).0.step(LeaseEvent::Release).1 == LeaseAction::HandOver,
        state.step(LeaseEvent::Acquire).0.step(LeaseEvent::Release).0.held == state.held,
{
}

} // verus!
