use crate::state::{AlreadyCompleted, SharedState};
use std::collections::HashMap;
use std::sync::Arc;
use std::task::Waker;
use vstd::prelude::*;
use vstd::rwlock::{RwLock, RwLockPredicate};

verus! {

broadcast use vstd::std_specs::hash::group_hash_axioms;

/// The lock's invariant: the record it guards is well formed.
pub struct StateInv;

impl<T: Clone> RwLockPredicate<SharedState<T>> for StateInv {
    open spec fn inv(self, s: SharedState<T>) -> bool {
        s.wf()
    }
}

/// The lock-guarded record that a completion and its waiters share.
pub type SharedLock<T> = Arc<RwLock<SharedState<T>, StateInv>>;

/// A waiter: queried until it yields the published value.
pub struct CompletionFuture<T: Clone> {
    id: u64,
    state: SharedLock<T>,
}

impl<T: Clone> CompletionFuture<T> {
    pub closed spec fn spec_id(&self) -> u64 {
        self.id
    }

    pub closed spec fn shared(&self) -> RwLock<SharedState<T>, StateInv> {
        *self.state
    }

    pub(crate) fn new(state: SharedLock<T>, id: u64) -> (r: Self)
        ensures
            r.spec_id() == id,
            r.shared() == *state,
    {
        CompletionFuture { state, id }
    }

    /// The id that tells this waiter apart from the others of its completion.
    pub fn id(&self) -> (r: u64)
        ensures
            r == self.spec_id(),
    {
        self.id
    }

    /// Queries the shared record: a copy of the published value, or `None` after
    /// registering a copy of `waker`, which is woken when the value is published.
    /// The record is shared with the other handles, so what it holds is not known here;
    /// `SharedState::poll` states the answer for each record.
    pub fn poll(&self, waker: &Waker) -> (r: Option<T>) {
        let (mut st, handle) = self.state.acquire_write();
        let r = st.poll(self.id, waker.clone());
        handle.release_write(st);
        r
    }
}

/// The producer's side: hands out waiters and publishes one value to all of them.
pub struct FutureCompletion<T: Clone> {
    state: SharedLock<T>,
    issued: u64,
    completed: bool,
}

impl<T: Clone> FutureCompletion<T> {
    /// How many waiters were handed out so far; the last one has this id.
    pub closed spec fn issued(&self) -> u64 {
        self.issued
    }

    /// Whether a value was published through this completion.
    pub closed spec fn completed(&self) -> bool {
        self.completed
    }

    pub closed spec fn shared(&self) -> RwLock<SharedState<T>, StateInv> {
        *self.state
    }

    /// A completion with no waiters and nothing published.
    pub fn new() -> (r: Self)
        ensures
            r.issued() == 0,
            !r.completed(),
    {
        let st = SharedState::new();
        let lock = RwLock::new(st, Ghost(StateInv));
        FutureCompletion { state: Arc::new(lock), issued: 0, completed: false }
    }

    /// A new waiter on this completion, with an id that no earlier waiter of it has.
    pub fn get_future(&mut self) -> (r: CompletionFuture<T>)
        requires
            old(self).issued() < u64::MAX,
        ensures
            final(self).issued() == old(self).issued() + 1,
            final(self).completed() == old(self).completed(),
            final(self).shared() == old(self).shared(),
            r.spec_id() == final(self).issued(),
            r.shared() == final(self).shared(),
    {
        self.issued = self.issued + 1;
        CompletionFuture::new(self.state.clone(), self.issued)
    }

    /// Publishes `result` to every waiter and wakes each one that is registered. Only the
    /// first call publishes; a later one returns `AlreadyCompleted` and changes nothing.
    pub fn set_result(&mut self, result: T) -> (r: Result<(), AlreadyCompleted>)
        ensures
            r is Err <==> old(self).completed(),
            final(self).completed(),
            final(self).issued() == old(self).issued(),
            final(self).shared() == old(self).shared(),
    {
        if self.completed {
            return Err(AlreadyCompleted);
        }
        let (mut st, handle) = self.state.acquire_write();
        let published = st.publish(result);
        handle.release_write(st);
        self.completed = true;
        if let Ok(woken) = published {
            wake_all(&woken);
        }
        Ok(())
    }
}

/// Wakes every waker of the table once.
fn wake_all(woken: &HashMap<u64, Waker>) {
    for entry in woken.iter() {
        entry.1.wake_by_ref();
    }
}

} // verus!
