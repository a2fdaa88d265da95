//! The listener registry: the listening sockets of the process, each at the
//! position it was given when it was registered.

use vstd::prelude::*;

verus! {

/// The backlog that every listening socket is opened with.
pub const LISTEN_BACKLOG: usize = 5;

/// An append-only list of listening sockets. The position of a socket is its
/// index; no entry is ever removed, so an index names one socket for good.
pub struct ListenerRegistry {
    handles: Vec<i32>,
}

impl View for ListenerRegistry {
    type V = Seq<i32>;

    closed spec fn view(&self) -> Seq<i32> {
        self.handles@
    }
}

impl ListenerRegistry {
    /// A registry without listeners.
    pub fn new() -> (registry: ListenerRegistry)
        ensures
            registry@ == Seq::<i32>::empty(),
    {
        ListenerRegistry { handles: Vec::new() }
    }

    /// The number of registered listeners.
    pub fn len(&self) -> (len: usize)
        ensures
            len == self@.len(),
    {
        self.handles.len()
    }

    /// Appends a listening socket and returns its index: the number of
    /// listeners registered before it.
    pub fn register(&mut self, handle: i32) -> (idx: u64)
        ensures
            idx == old(self)@.len(),
            final(self)@ == old(self)@.push(handle),
    {
        let idx: u64 = self.handles.len() as u64;
        self.handles.push(handle);
        idx
    }

    /// The socket registered under `idx`, if there is one.
    pub fn get(&self, idx: u64) -> (handle: Option<i32>)
        ensures
            idx < self@.len() ==> handle == Some(self@[idx as int]),
            idx >= self@.len() ==> handle is None,
    {
        if idx < self.handles.len() as u64 {
            Some(self.handles[idx as usize])
        } else {
            None
        }
    }
}

/// The registry that results from `start` when `handles` are registered one
/// after another, the first of them first.
pub open spec fn register_all(start: Seq<i32>, handles: Seq<i32>) -> Seq<i32>
    decreases handles.len(),
{
    if handles.len() == 0 {
        start
    } else {
        register_all(start, handles.drop_last()).push(handles.last())
    }
}

/// Registering a run of listeners appends them in the order given and
/// touches nothing that was there before.
pub proof fn law_register_all(start: Seq<i32>, handles: Seq<i32>)
    ensures
        register_all(start, handles) == start + handles,
    decreases handles.len(),
{
    if handles.len() > 0 {
        law_register_all(start, handles.drop_last());
        assert(start + handles =~= (start + handles.drop_last()).push(handles.last()));
    }
}

/// The index that the `k`-th of `handles` is given when they are registered
/// in order on top of `start`: the number of listeners registered before it.
pub open spec fn index_given(start: Seq<i32>, handles: Seq<i32>, k: int) -> int {
    register_all(start, handles.take(k)).len() as int
}

/// Listeners get the indices 0, 1, 2, ... in the order of their registration
/// when the registry starts empty, and in general the `k`-th one registered
/// gets the index `start.len() + k`. The socket found under that index is
/// the one registered with it, at once and after every later registration.
pub proof fn law_registration_order(start: Seq<i32>, handles: Seq<i32>, k: int, later: int)
    requires
        0 <= k < later <= handles.len(),
    ensures
        index_given(start, handles, k) == start.len() + k,
        register_all(start, handles.take(later))[index_given(start, handles, k)] == handles[k],
        register_all(start, handles)[index_given(start, handles, k)] == handles[k],
{
    law_register_all(start, handles.take(k));
    law_register_all(start, handles.take(later));
    law_register_all(start, handles);
}

/// Two registrations never get the same index: the later one gets the
/// greater.
pub proof fn law_registration_distinct(start: Seq<i32>, handles: Seq<i32>, j: int, k: int)
    requires
        0 <= j < k < handles.len(),
    ensures
        index_given(start, handles, j) < index_given(start, handles, k),
{
    law_register_all(start, handles.take(j));
    law_register_all(start, handles.take(k));
}

} // verus!
