use std::collections::HashMap;
use std::task::Waker;
use vstd::prelude::*;

verus! {

broadcast use vstd::std_specs::hash::group_hash_axioms;

/// What a shared record holds: the published value, if any, and the waker that each
/// pending waiter registered, keyed by the waiter's id.
pub struct SharedView<T> {
    pub value: Option<T>,
    pub waiters: Map<u64, Waker>,
}

/// The record of a fresh completion: nothing published, nobody waiting.
pub open spec fn fresh<T>() -> SharedView<T> {
    SharedView { value: None, waiters: Map::empty() }
}

/// A record is well formed when no waiter stays registered once a value is published.
pub open spec fn well_formed<T>(s: SharedView<T>) -> bool {
    s.value is Some ==> s.waiters.is_empty()
}

/// The record after waiter `id` queries it with `w`: once published it is left alone,
/// before that `w` replaces whatever `id` registered earlier.
pub open spec fn poll_step<T>(s: SharedView<T>, id: u64, w: Waker) -> SharedView<T> {
    match s.value {
        Some(_) => s,
        None => SharedView { value: None, waiters: s.waiters.insert(id, w) },
    }
}

/// `r` is a possible answer of a query on `s`: a copy of the published value, or
/// nothing while no value is published.
pub open spec fn poll_answer<T: Clone>(s: SharedView<T>, r: Option<T>) -> bool {
    match s.value {
        Some(v) => r matches Some(x) && cloned(v, x),
        None => r is None,
    }
}

/// The record after publishing `v`: the first value published stays, and publishing
/// empties the waiter table.
pub open spec fn publish_step<T>(s: SharedView<T>, v: T) -> SharedView<T> {
    match s.value {
        Some(_) => s,
        None => SharedView { value: Some(v), waiters: Map::empty() },
    }
}

/// The error of a second publish: a value was published already, and it stays.
#[derive(Debug, Clone, Copy, PartialEq, Eq)]
pub struct AlreadyCompleted;

/// The record shared by one completion and its waiters.
pub struct SharedState<T> {
    value: Option<T>,
    waiters: HashMap<u64, Waker>,
}

impl<T: Clone> SharedState<T> {
    pub closed spec fn view(&self) -> SharedView<T> {
        SharedView { value: self.value, waiters: self.waiters@ }
    }

    pub open spec fn wf(&self) -> bool {
        well_formed(self.view())
    }

    /// A record with no value and no waiters.
    pub fn new() -> (r: Self)
        ensures
            r.view() == fresh::<T>(),
            r.wf(),
    {
        SharedState { value: None, waiters: HashMap::new() }
    }

    /// Answers a query of waiter `id`: a copy of the published value, or, while none is
    /// published, `None` after registering `waker` for `id` in place of any earlier one.
    pub fn poll(&mut self, id: u64, waker: Waker) -> (r: Option<T>)
        requires
            old(self).wf(),
        ensures
            final(self).wf(),
            final(self).view() == poll_step(old(self).view(), id, waker),
            poll_answer(old(self).view(), r),
    {
        match &self.value {
            Some(v) => Some(v.clone()),
            None => {
                self.waiters.insert(id, waker);
                None
            },
        }
    }

    /// Whether a value is published.
    pub fn is_published(&self) -> (r: bool)
        ensures
            r == self.view().value is Some,
    {
        self.value.is_some()
    }

    /// How many waiters are registered.
    pub fn waiter_count(&self) -> (r: usize)
        ensures
            r == self.view().waiters.len(),
    {
        self.waiters.len()
    }

    /// Whether waiter `id` is registered.
    pub fn is_waiting(&self, id: u64) -> (r: bool)
        ensures
            r == self.view().waiters.contains_key(id),
    {
        self.waiters.contains_key(&id)
    }

    /// Publishes `value` unless a value is published already. On success the wakers that
    /// were registered come back, one for each waiting id, and the table is left empty.
    pub fn publish(&mut self, value: T) -> (r: Result<HashMap<u64, Waker>, AlreadyCompleted>)
        requires
            old(self).wf(),
        ensures
            final(self).wf(),
            final(self).view() == publish_step(old(self).view(), value),
            old(self).view().value is None <==> r is Ok,
            r matches Ok(woken) ==> woken@ == old(self).view().waiters,
    {
        if self.value.is_some() {
            return Err(AlreadyCompleted);
        }
        self.value = Some(value);
        let mut woken = HashMap::new();
        std::mem::swap(&mut woken, &mut self.waiters);
        Ok(woken)
    }
}

} // verus!
