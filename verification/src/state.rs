//! What the host keeps for one instance.

use crate::buffers::{FunctionInputBuffer, LinearBuffer};
use crate::registry::Registry;
use crate::status::StatusSender;
use crate::threader::{IoTaskView, Threader};
use crate::wasm::{MemoryError, WasmMemory};
use vstd::prelude::*;

verus! {

/// The state of one instance: its dispatcher, its input, its view of the
/// guest and its status channel.
///
/// The guest's memory and the places of the guest's two windows are known
/// only once the guest is instantiated; until then they are `None`, and every
/// host function that needs one of them reports an error.
pub struct State<M: WasmMemory> {
    /// The dispatcher of the instance's I/O calls.
    pub threader: Threader,
    /// The marshalled request that the instance was started for.
    pub host_input_buffer: FunctionInputBuffer,
    /// The guest's linear memory.
    pub memory: Option<M>,
    /// Where the guest keeps its window for the function input.
    pub function_input_buffer_ptr: Option<u32>,
    /// Where the guest keeps its window for I/O responses.
    pub io_buffer_ptr: Option<u32>,
    /// The status channel of the invocation.
    pub status_sender: StatusSender,
    /// The lines that the guest has logged, oldest first.
    pub log: Vec<String>,
}

/// What the host functions reach of the state of an instance, whatever the
/// engine that runs the guest: the dispatcher, and where the guest keeps its
/// two windows.
pub trait WasmState {
    /// The dispatcher of the instance.
    spec fn dispatcher(&self) -> Threader;

    /// Where the guest keeps its window for the function input.
    spec fn input_window(&self) -> Option<u32>;

    /// Where the guest keeps its window for I/O responses.
    spec fn io_window(&self) -> Option<u32>;

    /// The dispatcher of the instance, to work on.
    fn threader(&mut self) -> (threader: &mut Threader)
        ensures
            *threader == old(self).dispatcher(),
            final(self).dispatcher() == *final(threader),
            final(self).input_window() == old(self).input_window(),
            final(self).io_window() == old(self).io_window(),
    ;

    /// Where the guest keeps its window for the function input; none while
    /// the guest is not instantiated.
    fn function_input_buffer(&self) -> (window: Option<u32>)
        ensures
            window == self.input_window(),
    ;

    /// Where the guest keeps its window for I/O responses; none while the
    /// guest is not instantiated.
    fn io_buffer(&self) -> (window: Option<u32>)
        ensures
            window == self.io_window(),
    ;
}

impl<M: WasmMemory> WasmState for State<M> {
    open spec fn dispatcher(&self) -> Threader {
        self.threader
    }

    open spec fn input_window(&self) -> Option<u32> {
        self.function_input_buffer_ptr
    }

    open spec fn io_window(&self) -> Option<u32> {
        self.io_buffer_ptr
    }

    fn threader(&mut self) -> (threader: &mut Threader)
        ensures
            final(self).host_input_buffer == old(self).host_input_buffer,
            final(self).memory == old(self).memory,
            final(self).status_sender == old(self).status_sender,
            final(self).log == old(self).log,
    {
        &mut self.threader
    }

    fn function_input_buffer(&self) -> (window: Option<u32>) {
        self.function_input_buffer_ptr
    }

    fn io_buffer(&self) -> (window: Option<u32>) {
        self.io_buffer_ptr
    }
}

impl<M: WasmMemory> State<M> {
    /// The bytes of the guest's memory; none while the memory is not known.
    pub open spec fn guest_memory(&self) -> Option<Seq<u8>> {
        match self.memory {
            Some(memory) => Some(memory.contents()),
            None => None,
        }
    }

    /// Whether `self` differs from `before` in nothing but its dispatcher,
    /// its input cursor and the bytes of the guest's memory.
    pub open spec fn same_instance(&self, before: &Self) -> bool {
        &&& self.memory is Some <==> before.memory is Some
        &&& self.function_input_buffer_ptr == before.function_input_buffer_ptr
        &&& self.io_buffer_ptr == before.io_buffer_ptr
        &&& self.status_sender == before.status_sender
        &&& self.log == before.log
        &&& self.host_input_buffer.contents() == before.host_input_buffer.contents()
    }

    /// Whether `self` holds what `before` held: every part is the same, and
    /// the guest's memory holds the same bytes.
    pub open spec fn untouched(&self, before: &Self) -> bool {
        &&& self.same_instance(before)
        &&& self.threader == before.threader
        &&& self.host_input_buffer == before.host_input_buffer
        &&& self.guest_memory() == before.guest_memory()
    }

    /// The state of a new instance that routes its calls by `registry` and
    /// reports on `status_sender`: no input, no guest yet.
    pub fn new(registry: Registry, status_sender: StatusSender) -> (state: Self)
        ensures
            state.threader.registry() == registry@,
            state.threader.ioid_counter() == 0,
            state.threader.event_id_counter() == 0,
            state.threader.io().documents() == Map::<usize, Seq<u8>>::empty(),
            state.threader.io().cursors() == Map::<usize, usize>::empty(),
            state.threader.tasks() == Seq::<IoTaskView>::empty(),
            state.host_input_buffer.contents() == Seq::<u8>::empty(),
            state.host_input_buffer.page_index() == 0,
            state.memory is None,
            state.function_input_buffer_ptr is None,
            state.io_buffer_ptr is None,
            state.status_sender == status_sender,
            state.log@ == Seq::<String>::empty(),
    {
        State {
            threader: Threader::new(registry),
            host_input_buffer: FunctionInputBuffer::new(),
            memory: None,
            function_input_buffer_ptr: None,
            io_buffer_ptr: None,
            status_sender,
            log: Vec::new(),
        }
    }

    /// Copies `length` bytes out of the guest's memory, starting at `offset`.
    pub fn memory_read(&self, offset: usize, length: usize) -> (r: Result<Vec<u8>, MemoryError>)
        ensures
            r is Ok <==> self.guest_memory() is Some && offset + length
                <= self.guest_memory()->0.len(),
            r matches Ok(bytes) ==> bytes@ == self.guest_memory()->0.subrange(
                offset as int,
                offset + length,
            ),
    {
        match &self.memory {
            Some(memory) => memory.memory_read(offset, length),
            None => Err(MemoryError::InvalidMemoryAccess),
        }
    }
}

} // verus!
