//! The dispatcher of one instance: it hands out I/O identifiers, routes each
//! call to the handler registered for it, keeps the responses and pages them
//! to the guest.
//!
//! The handlers run outside this library. A call whose handler is known is
//! put down as a task for the host's executor, which runs the handler and
//! reports its reply with `handle_response`. A call that leads to no handler
//! is answered at once with the marker `UnknownIOmod`, so that the guest finds
//! a response under every identifier it was given.

use crate::buffers::{appended, IoBuffer};
use crate::paging::page;
use crate::registry::{parsed, CoordinatesView, Registry};
use crate::wasm::WasmMemory;
use vstd::prelude::*;
use vstd::string::StringSliceAdditionalSpecFns;

verus! {

/// One call that waits for its handler to be run.
#[derive(Debug)]
pub struct IoTask {
    /// The identifier under which the response is expected.
    pub ioid: u32,
    /// The handle of the handler to run.
    pub handler: u64,
    /// The input of the call.
    pub input: Vec<u8>,
}

/// A waiting call with its input as a mathematical byte sequence.
pub struct IoTaskView {
    pub ioid: u32,
    pub handler: u64,
    pub input: Seq<u8>,
}

impl View for IoTask {
    type V = IoTaskView;

    open spec fn view(&self) -> IoTaskView {
        IoTaskView { ioid: self.ioid, handler: self.handler, input: self.input@ }
    }
}

/// The views of a list of waiting calls.
pub open spec fn task_views(tasks: Seq<IoTask>) -> Seq<IoTaskView> {
    tasks.map_values(|task: IoTask| task@)
}

/// Where the response to one call lies among the responses, and how long it
/// is.
#[derive(Clone, Copy, Debug, PartialEq, Eq, Structural)]
pub struct IoMemoryDocument {
    pub start: usize,
    pub length: usize,
}

/// Why a response could not be paged to the guest.
#[derive(Clone, Copy, Debug, PartialEq, Eq, Structural)]
pub enum DocumentError {
    /// No response is held under the identifier.
    IoNotReady,
    /// The page does not fit into guest memory at the given place.
    InvalidMemoryAccess,
}

/// The payload that answers a call to an I/O module that is not registered:
/// the ASCII text `UnknownIOmod`.
pub open spec fn unknown_iomod_marker() -> Seq<u8> {
    seq![85u8, 110u8, 107u8, 110u8, 111u8, 119u8, 110u8, 73u8, 79u8, 109u8, 111u8, 100u8]
}

/// The number of identifiers that a counter gives out: the identifiers are
/// the numbers below it. They are the numbers that are not negative when the
/// guest reads their 32 bits as a signed number, so that no identifier is
/// taken for the -1 that reports an error, or for any other negative code.
pub const IDENTIFIER_LIMIT: u32 = 0x8000_0000;

/// The identifier that a counter standing at `next` gives out, and where the
/// counter stands afterwards. A counter that has reached the limit gives out
/// nothing and stays where it is: no identifier is given out twice.
pub open spec fn allocate(next: u32) -> (Option<u32>, u32) {
    if next < IDENTIFIER_LIMIT {
        (Some(next), (next + 1) as u32)
    } else {
        (None, next)
    }
}

/// What the call number `n` (from 0) gives out, for a counter that stood at
/// `start` before the first call.
pub open spec fn nth_allocation(start: u32, n: nat) -> (Option<u32>, u32)
    decreases n,
{
    if n == 0 {
        allocate(start)
    } else {
        allocate(nth_allocation(start, (n - 1) as nat).1)
    }
}

/// Call `n` gives out `start + n`, as long as that is below the limit.
proof fn lemma_nth_allocation(start: u32, n: nat)
    requires
        start <= IDENTIFIER_LIMIT,
    ensures
        nth_allocation(start, n) == if start + n < IDENTIFIER_LIMIT {
            (Some((start + n) as u32), (start + n + 1) as u32)
        } else {
            (None::<u32>, IDENTIFIER_LIMIT)
        },
    decreases n,
{
    if n > 0 {
        lemma_nth_allocation(start, (n - 1) as nat);
    }
}

/// The identifiers given out by any run of calls rise strictly, and each of
/// them, read as a signed number of 32 bits, is the same number and not
/// negative: none is -1.
pub proof fn lemma_identifiers_rise(start: u32, earlier: nat, later: nat)
    requires
        start <= IDENTIFIER_LIMIT,
        earlier < later,
    ensures
        nth_allocation(start, earlier).0 matches Some(id) ==> 0 <= id as i32 == id <= i32::MAX,
        nth_allocation(start, later).0 is Some ==> nth_allocation(start, earlier).0 is Some
            && nth_allocation(start, earlier).0->0 < nth_allocation(start, later).0->0,
{
    lemma_nth_allocation(start, earlier);
    lemma_nth_allocation(start, later);
}

/// A call that leads to no handler is answered with the marker: under an
/// identifier under which nothing was kept, the response is the marker and
/// nothing else, it is ready at once, and its first page is the whole of it.
pub proof fn lemma_unknown_module_is_answered(
    before: &Threader,
    after: &Threader,
    method_path: Seq<u8>,
    input: Seq<u8>,
    ioid: u32,
)
    requires
        after.invoked(before, method_path, input, ioid),
        ioid < after.ioid_counter(),
        before.unused(ioid),
        before.route(method_path) is None,
    ensures
        after.io().documents().contains_key(ioid as usize),
        after.io().documents()[ioid as usize] == unknown_iomod_marker(),
        after.ready(ioid),
        page(
            after.io().documents()[ioid as usize],
            crate::constants::IO_BUFFER_SIZE_BYTES as nat,
            0,
        ) == unknown_iomod_marker(),
{
    let marker = unknown_iomod_marker();
    let size = crate::constants::IO_BUFFER_SIZE_BYTES as nat;
    assert(0 * size == 0 && 1 * size == size) by (nonlinear_arith);
    assert(page(marker, size, 0) =~= marker);
}

/// Loading the answer to a call that led to no handler hands the guest the
/// marker: where the window has room for it, the load succeeds and the
/// window holds the marker, byte for byte.
pub proof fn lemma_unknown_module_is_paged(
    before: &Threader,
    called: &Threader,
    loaded: &Threader,
    method_path: Seq<u8>,
    input: Seq<u8>,
    ioid: u32,
    memory_before: Seq<u8>,
    memory_after: Seq<u8>,
    window: usize,
    r: Result<(), DocumentError>,
)
    requires
        called.invoked(before, method_path, input, ioid),
        ioid < called.ioid_counter(),
        before.unused(ioid),
        before.route(method_path) is None,
        loaded.paged(called, ioid as usize, 0, memory_before, memory_after, window, r),
        window + unknown_iomod_marker().len() <= memory_before.len(),
    ensures
        r is Ok,
        memory_after == crate::wasm::patched(memory_before, window as int, unknown_iomod_marker()),
        memory_after.subrange(window as int, window + unknown_iomod_marker().len())
            == unknown_iomod_marker(),
{
    lemma_unknown_module_is_answered(before, called, method_path, input, ioid);
    crate::wasm::lemma_patched_reads_back(memory_before, window as int, unknown_iomod_marker());
}

/// The dispatcher of one instance.
pub struct Threader {
    registry: Registry,
    next_ioid: u32,
    next_event_id: u32,
    io_buffer: IoBuffer,
    tasks: Vec<IoTask>,
}

impl Threader {
    /// The table of I/O modules that calls are routed by.
    pub closed spec fn registry(&self) -> Map<CoordinatesView, u64> {
        self.registry@
    }

    /// Where the counter of I/O identifiers stands.
    pub closed spec fn ioid_counter(&self) -> u32 {
        self.next_ioid
    }

    /// Where the counter of event identifiers stands.
    pub closed spec fn event_id_counter(&self) -> u32 {
        self.next_event_id
    }

    /// The responses held, with their page cursors.
    pub closed spec fn io(&self) -> IoBuffer {
        self.io_buffer
    }

    /// The calls that wait for the executor, oldest first.
    pub closed spec fn tasks(&self) -> Seq<IoTaskView> {
        task_views(self.tasks@)
    }

    /// Whether `self` is what `before` becomes when the I/O module at
    /// `method_path` is called with `input` under `ioid`: a task for the
    /// handler that the path leads to, or the marker `UnknownIOmod` as the
    /// response where it leads to none. A call under an identifier that was
    /// not given out is dropped.
    pub open spec fn invoked(
        &self,
        before: &Threader,
        method_path: Seq<u8>,
        input: Seq<u8>,
        ioid: u32,
    ) -> bool {
        &&& self.registry() == before.registry()
        &&& self.event_id_counter() == before.event_id_counter()
        &&& self.io().cursors() == before.io().cursors()
        &&& self.io().active() == before.io().active()
        &&& if ioid < self.ioid_counter() {
            match before.route(method_path) {
                Some(handler) => {
                    &&& self.tasks() == before.tasks().push((IoTaskView { ioid, handler, input }))
                    &&& self.io().documents() == before.io().documents()
                },
                None => {
                    &&& self.tasks() == before.tasks()
                    &&& self.io().documents() == appended(
                        before.io().documents(),
                        ioid as usize,
                        unknown_iomod_marker(),
                    )
                },
            }
        } else {
            &&& self.tasks() == before.tasks()
            &&& self.io().documents() == before.io().documents()
        }
    }

    /// What holds of every dispatcher: nothing is kept under an identifier
    /// that was not given out.
    #[verifier::type_invariant]
    spec fn identifiers_given_out(self) -> bool {
        &&& self.next_ioid <= IDENTIFIER_LIMIT
        &&& forall|id: usize| #[trigger]
            self.io_buffer.documents().contains_key(id) ==> id < self.next_ioid
        &&& forall|id: usize| #[trigger]
            self.io_buffer.cursors().contains_key(id) ==> id < self.next_ioid
        &&& forall|i: int| 0 <= i < self.tasks@.len() ==> (#[trigger] self.tasks@[i]).ioid
            < self.next_ioid
    }

    /// Whether nothing is kept under `ioid`: no response, no page cursor and
    /// no waiting call.
    pub open spec fn unused(&self, ioid: u32) -> bool {
        &&& !self.io().documents().contains_key(ioid as usize)
        &&& !self.io().cursors().contains_key(ioid as usize)
        &&& forall|i: int| 0 <= i < self.tasks().len() ==> (#[trigger] self.tasks()[i]).ioid != ioid
    }

    /// Whether a response is held under `ioid` that the guest has not yet
    /// been handed in full.
    pub open spec fn ready(&self, ioid: u32) -> bool {
        self.io().documents().contains_key(ioid as usize) && !self.io().drained(ioid as usize)
    }

    /// The handler that `method_path` leads to, if one is registered.
    pub open spec fn route(&self, method_path: Seq<u8>) -> Option<u64> {
        match parsed(method_path) {
            Some(key) => if self.registry().contains_key(key) {
                Some(self.registry()[key])
            } else {
                None
            },
            None => None,
        }
    }

    /// Whether `self` is what `before` becomes by turning the response under
    /// `ioid` to page `index`, with the result `r`: the page lies in guest
    /// memory at `dst`, or the page did not fit there and nothing has
    /// changed.
    pub open spec fn paged(
        &self,
        before: &Threader,
        ioid: usize,
        index: nat,
        memory_before: Seq<u8>,
        memory_after: Seq<u8>,
        dst: usize,
        r: Result<(), DocumentError>,
    ) -> bool {
        &&& self.registry() == before.registry()
        &&& self.ioid_counter() == before.ioid_counter()
        &&& self.event_id_counter() == before.event_id_counter()
        &&& self.tasks() == before.tasks()
        &&& self.io().turned_to(
            &before.io(),
            ioid,
            index,
            memory_before,
            memory_after,
            dst,
            if r is Ok {
                0i32
            } else {
                -1i32
            },
        )
        &&& r is Err ==> r == Err::<(), DocumentError>(DocumentError::InvalidMemoryAccess)
    }

    /// A dispatcher that routes by `registry`, with no identifier given out
    /// and no response held.
    pub fn new(registry: Registry) -> (threader: Self)
        ensures
            threader.registry() == registry@,
            threader.ioid_counter() == 0,
            threader.event_id_counter() == 0,
            threader.io().documents() == Map::<usize, Seq<u8>>::empty(),
            threader.io().cursors() == Map::<usize, usize>::empty(),
            threader.tasks() == Seq::<IoTaskView>::empty(),
    {
        Threader {
            registry,
            next_ioid: 0,
            next_event_id: 0,
            io_buffer: IoBuffer::new(),
            tasks: Vec::new(),
        }
    }

    /// Gives out the next free I/O identifier; none when all are used up.
    pub fn next_ioid(&mut self) -> (ioid: Option<u32>)
        ensures
            (ioid, final(self).ioid_counter()) == allocate(old(self).ioid_counter()),
            old(self).ioid_counter() <= IDENTIFIER_LIMIT,
            ioid matches Some(id) ==> old(self).unused(id),
            ioid is None ==> *final(self) == *old(self),
            final(self).event_id_counter() == old(self).event_id_counter(),
            final(self).registry() == old(self).registry(),
            final(self).io() == old(self).io(),
            final(self).tasks() == old(self).tasks(),
    {
        proof {
            use_type_invariant(&*self);
            assert forall|i: int| 0 <= i < self.tasks().len() implies (#[trigger] self.tasks()[i]).ioid
                < self.next_ioid by {
                assert(self.tasks()[i].ioid == self.tasks@[i].ioid);
            }
        }
        if self.next_ioid < IDENTIFIER_LIMIT {
            let ioid = self.next_ioid;
            self.next_ioid = ioid + 1;
            Some(ioid)
        } else {
            None
        }
    }

    /// Gives out the next free event identifier; none when all are used up.
    pub fn next_event_id(&mut self) -> (event_id: Option<u32>)
        ensures
            (event_id, final(self).event_id_counter()) == allocate(old(self).event_id_counter()),
            event_id is None ==> *final(self) == *old(self),
            final(self).ioid_counter() == old(self).ioid_counter(),
            final(self).registry() == old(self).registry(),
            final(self).io() == old(self).io(),
            final(self).tasks() == old(self).tasks(),
    {
        proof {
            use_type_invariant(&*self);
        }
        if self.next_event_id < IDENTIFIER_LIMIT {
            let event_id = self.next_event_id;
            self.next_event_id = event_id + 1;
            Some(event_id)
        } else {
            None
        }
    }

    /// The marker that answers a call to an unknown I/O module.
    pub fn unknown_iomod_response() -> (payload: Vec<u8>)
        ensures
            payload@ == unknown_iomod_marker(),
    {
        let mut payload: Vec<u8> = Vec::new();
        payload.push(85u8);
        payload.push(110u8);
        payload.push(107u8);
        payload.push(110u8);
        payload.push(111u8);
        payload.push(119u8);
        payload.push(110u8);
        payload.push(73u8);
        payload.push(79u8);
        payload.push(109u8);
        payload.push(111u8);
        payload.push(100u8);
        assert(payload@ =~= unknown_iomod_marker());
        payload
    }

    /// Starts the call of the I/O module at `method_path` with
    /// `method_input`; the response will be held under `ioid`.
    ///
    /// Where `method_path` leads to a handler, the call is put down as a
    /// task. Where it leads to none, the marker `UnknownIOmod` is the
    /// response.
    pub fn invoke(&mut self, method_path: &str, method_input: Vec<u8>, ioid: u32)
        ensures
            final(self).invoked(old(self), method_path.spec_bytes(), method_input@, ioid),
            final(self).ioid_counter() == old(self).ioid_counter(),
    {
        proof {
            use_type_invariant(&*self);
        }
        if ioid >= self.next_ioid {
            return ;
        }
        match self.registry.lookup(method_path.as_bytes()) {
            Some(handler) => {
                let mut tasks: Vec<IoTask> = Vec::new();
                std::mem::swap(&mut tasks, &mut self.tasks);
                tasks.push(IoTask { ioid, handler, input: method_input });
                self.tasks = tasks;
                assert(self.tasks() =~= old(self).tasks().push(
                    (IoTaskView { ioid, handler, input: method_input@ }),
                ));
            },
            None => {
                let marker = Self::unknown_iomod_response();
                let mut io = IoBuffer::new();
                std::mem::swap(&mut io, &mut self.io_buffer);
                io.write(ioid as usize, marker.as_slice());
                self.io_buffer = io;
            },
        }
    }

    /// Takes in the reply of a handler: `payload` is appended to the
    /// response held under `ioid`. A reply under an identifier that was not
    /// given out is dropped.
    pub fn handle_response(&mut self, payload: &[u8], ioid: u32)
        ensures
            final(self).registry() == old(self).registry(),
            final(self).ioid_counter() == old(self).ioid_counter(),
            final(self).event_id_counter() == old(self).event_id_counter(),
            final(self).tasks() == old(self).tasks(),
            final(self).io().documents() == if ioid < old(self).ioid_counter() {
                appended(old(self).io().documents(), ioid as usize, payload@)
            } else {
                old(self).io().documents()
            },
            final(self).io().cursors() == old(self).io().cursors(),
            final(self).io().active() == old(self).io().active(),
    {
        proof {
            use_type_invariant(&*self);
        }
        if ioid < self.next_ioid {
            let mut io = IoBuffer::new();
            std::mem::swap(&mut io, &mut self.io_buffer);
            io.write(ioid as usize, payload);
            self.io_buffer = io;
        }
    }

    /// Hands the waiting calls to the executor, oldest first; none is left
    /// waiting.
    pub fn take_tasks(&mut self) -> (tasks: Vec<IoTask>)
        ensures
            task_views(tasks@) == old(self).tasks(),
            final(self).tasks() == Seq::<IoTaskView>::empty(),
            final(self).registry() == old(self).registry(),
            final(self).ioid_counter() == old(self).ioid_counter(),
            final(self).event_id_counter() == old(self).event_id_counter(),
            final(self).io() == old(self).io(),
    {
        proof {
            use_type_invariant(&*self);
        }
        let mut tasks: Vec<IoTask> = Vec::new();
        std::mem::swap(&mut tasks, &mut self.tasks);
        tasks
    }

    /// Whether a response is held under `ioid` that the guest has not yet
    /// been handed in full. An identifier that nothing is known of is not
    /// ready.
    pub fn poll(&self, ioid: u32) -> (ready: bool)
        ensures
            ready == self.ready(ioid),
    {
        self.io_buffer.has(ioid as usize) && !self.io_buffer.is_drained(ioid as usize)
    }

    /// Where the response under `ioid` lies and how long it is; nothing
    /// where no response is held under `ioid`.
    pub fn get_io_memory_document(&self, ioid: u32) -> (document: Option<IoMemoryDocument>)
        ensures
            document is Some <==> self.io().documents().contains_key(ioid as usize),
            document matches Some(d) ==> d.start == 0 && d.length == self.io().documents()[ioid as usize].len(),
    {
        if self.io_buffer.has(ioid as usize) {
            Some(IoMemoryDocument { start: 0, length: self.io_buffer.len(ioid as usize) })
        } else {
            None
        }
    }

    /// Begins to page the response under `ioid`: copies its page 0 into
    /// `memory` at `dst` and makes it the response that `document_next`
    /// goes on with.
    pub fn document_load<M: WasmMemory>(&mut self, memory: &mut M, dst: usize, ioid: u32) -> (r:
        Result<(), DocumentError>)
        ensures
            old(self).io().documents().contains_key(ioid as usize) ==> final(self).paged(
                old(self),
                ioid as usize,
                0,
                old(memory).contents(),
                final(memory).contents(),
                dst,
                r,
            ),
            !old(self).io().documents().contains_key(ioid as usize) ==> r == Err::<
                (),
                DocumentError,
            >(DocumentError::IoNotReady) && *final(self) == *old(self) && final(memory).contents()
                == old(memory).contents(),
    {
        proof {
            use_type_invariant(&*self);
        }
        if !self.io_buffer.has(ioid as usize) {
            return Err(DocumentError::IoNotReady);
        }
        let mut io = IoBuffer::new();
        std::mem::swap(&mut io, &mut self.io_buffer);
        let code = io.first(memory, ioid as usize, dst);
        self.io_buffer = io;
        if code == 0 {
            Ok(())
        } else {
            Err(DocumentError::InvalidMemoryAccess)
        }
    }

    /// Copies the next page of the response that was loaded last into
    /// `memory` at `dst`.
    pub fn document_next<M: WasmMemory>(&mut self, memory: &mut M, dst: usize) -> (r: Result<
        (),
        DocumentError,
    >)
        ensures
            old(self).io().pageable() ==> final(self).paged(
                old(self),
                old(self).io().active(),
                old(self).io().cursors()[old(self).io().active()] as nat + 1,
                old(memory).contents(),
                final(memory).contents(),
                dst,
                r,
            ),
            !old(self).io().pageable() ==> r == Err::<(), DocumentError>(
                DocumentError::IoNotReady,
            ) && *final(self) == *old(self) && final(memory).contents() == old(memory).contents(),
    {
        proof {
            use_type_invariant(&*self);
        }
        if !self.io_buffer.can_page() {
            return Err(DocumentError::IoNotReady);
        }
        let mut io = IoBuffer::new();
        std::mem::swap(&mut io, &mut self.io_buffer);
        let code = io.next(memory, dst);
        self.io_buffer = io;
        if code == 0 {
            Ok(())
        } else {
            Err(DocumentError::InvalidMemoryAccess)
        }
    }
}

} // verus!
