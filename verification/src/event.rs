//! Events as the guest follows them: the host keeps a table that says for
//! each event whether it has completed, and the guest looks its events up in
//! it.

use vstd::prelude::*;

verus! {

/// The number of events that the table has room for.
pub const MAX_EVENTS: usize = 1024;

/// The size in bytes of one entry of the table.
pub const EVENT_SIZE_BYTES: usize = 32;

/// The size in bytes of the whole table.
pub const EVENT_BUFFER_SIZE_BYTES: usize = 32768;

/// Whether the table `handles` says that the event `id` has completed: what
/// the first entry for `id` says; `false` where there is no entry for `id`.
pub open spec fn completed(handles: Seq<(u32, bool)>, id: u32) -> bool
    decreases handles.len(),
{
    if handles.len() == 0 {
        false
    } else if handles[0].0 == id {
        handles[0].1
    } else {
        completed(handles.drop_first(), id)
    }
}

/// Whether the table `handles` says that the event `id` has completed.
pub fn get_status(handles: &[(u32, bool)], id: u32) -> (done: bool)
    ensures
        done == completed(handles@, id),
{
    let mut i: usize = 0;
    assert(handles@.subrange(0, handles@.len() as int) =~= handles@);
    while i < handles.len()
        invariant
            i <= handles@.len(),
            completed(handles@, id) == completed(
                handles@.subrange(i as int, handles@.len() as int),
                id,
            ),
        decreases handles@.len() - i,
    {
        let ghost rest = handles@.subrange(i as int, handles@.len() as int);
        assert(rest[0] == handles@[i as int]);
        assert(rest.drop_first() =~= handles@.subrange(i + 1, handles@.len() as int));
        if handles[i].0 == id {
            return handles[i].1;
        }
        i += 1;
    }
    false
}

/// Whether an event has completed.
#[derive(Clone, Copy, Debug, PartialEq, Eq, Structural)]
pub enum EventPoll {
    /// The event has completed.
    Ready,
    /// The event has not completed yet.
    Pending,
}

/// One asynchronous call that the guest waits for.
#[derive(Clone, Copy, Debug, PartialEq, Eq, Structural)]
pub struct Event {
    /// The identifier of the event.
    pub id: u32,
}

impl Event {
    /// The event with the identifier `id`.
    pub fn new(id: u32) -> (event: Self)
        ensures
            event.id == id,
    {
        Event { id }
    }

    /// Whether the event has completed, by the table `handles`.
    pub fn poll(&self, handles: &[(u32, bool)]) -> (state: EventPoll)
        ensures
            state == if completed(handles@, self.id) {
                EventPoll::Ready
            } else {
                EventPoll::Pending
            },
    {
        if get_status(handles, self.id) {
            EventPoll::Ready
        } else {
            EventPoll::Pending
        }
    }
}

} // verus!
