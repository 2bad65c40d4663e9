//! The functions that the host offers to the guest.
//!
//! The guest passes places in its own memory as a pointer and a length. A
//! function that is handed a range outside the guest's memory, or is called
//! before the guest's memory is known, reports -1 (0 where it reports a
//! length) and changes nothing.

use crate::buffers::LinearBuffer;
use crate::state::State;
use crate::status::{offered, Status, StatusView};
use crate::threader::{allocate, DocumentError};
use crate::wasm::WasmMemory;
use vstd::prelude::*;
use vstd::string::StringSliceAdditionalSpecFns;
use vstd::utf8::{encode_utf8, valid_utf8};

verus! {

/// Why a text or a byte string could not be read out of guest memory.
#[derive(Clone, Copy, Debug, PartialEq, Eq, Structural)]
pub enum ReadError {
    /// The range does not lie inside the guest's memory.
    InvalidMemoryAccess,
    /// The bytes read are not UTF-8.
    InvalidUtf8,
}

/// The bytes that the guest addresses by `ptr` and `len`; none where the
/// memory is not known or the range does not lie inside it.
pub open spec fn guest_bytes(memory: Option<Seq<u8>>, ptr: u32, len: u32) -> Option<Seq<u8>> {
    match memory {
        Some(bytes) => if ptr + len <= bytes.len() {
            Some(bytes.subrange(ptr as int, ptr + len))
        } else {
            None
        },
        None => None,
    }
}

/// `std::str::from_utf8`: the bytes as text, where they are valid UTF-8.
/// The text returned is the very bytes given, so its encoding is `bytes`.
#[verifier::external_body]
fn utf8_text(bytes: &[u8]) -> (text: Option<&str>)
    ensures
        text is Some <==> valid_utf8(bytes@),
        text matches Some(s) ==> s.spec_bytes() == bytes@,
{
    std::str::from_utf8(bytes).ok()
}

/// A point in time of the system clock.
#[verifier::external_type_specification]
#[verifier::external_body]
pub struct ExSystemTime(std::time::SystemTime);

/// `SystemTime::now`: what the system clock reads. Nothing is known of it.
#[verifier::external_body]
fn system_time_now() -> (now: std::time::SystemTime) {
    std::time::SystemTime::now()
}

/// `SystemTime::duration_since`: the time from the Unix epoch to `time`; none
/// where `time` lies before the epoch.
#[verifier::external_body]
fn since_epoch(time: &std::time::SystemTime) -> (elapsed: Option<std::time::Duration>) {
    time.duration_since(std::time::UNIX_EPOCH).ok()
}

/// `Duration::as_secs`: the whole seconds of `duration`.
#[verifier::external_body]
fn whole_seconds(duration: &std::time::Duration) -> (secs: u64) {
    duration.as_secs()
}

/// `Duration::subsec_millis`: the part of `duration` beyond its whole
/// seconds, in whole milliseconds, which std documents to be less than one
/// thousand.
#[verifier::external_body]
fn millis_of_second(duration: &std::time::Duration) -> (ms: u32)
    ensures
        ms < 1000,
{
    duration.subsec_millis()
}

/// What the system clock reads: the whole seconds since the Unix epoch and
/// the milliseconds of the second begun; none where the clock stands before
/// the epoch.
fn unix_time() -> (reading: Option<(u64, u32)>)
    ensures
        reading matches Some((secs, ms)) ==> ms < 1000,
{
    let now = system_time_now();
    match since_epoch(&now) {
        Some(elapsed) => Some((whole_seconds(&elapsed), millis_of_second(&elapsed))),
        None => None,
    }
}

/// The milliseconds of `secs` whole seconds and `ms` milliseconds; the
/// largest `u64` where the sum is too large for one.
pub open spec fn millis(secs: u64, ms: u32) -> u64 {
    if secs * 1000 + ms <= u64::MAX {
        (secs * 1000 + ms) as u64
    } else {
        u64::MAX
    }
}

/// A later reading of the clock never gives fewer milliseconds.
pub proof fn lemma_millis_monotonic(earlier: (u64, u32), later: (u64, u32))
    requires
        earlier.1 < 1000,
        later.1 < 1000,
        earlier.0 < later.0 || (earlier.0 == later.0 && earlier.1 <= later.1),
    ensures
        millis(earlier.0, earlier.1) <= millis(later.0, later.1),
{
}

/// The milliseconds of `secs` whole seconds and `ms` milliseconds.
pub fn clock_millis(secs: u64, ms: u32) -> (total: u64)
    ensures
        total == millis(secs, ms),
{
    if secs > u64::MAX / 1000 {
        u64::MAX
    } else {
        let whole = secs * 1000;
        if ms as u64 > u64::MAX - whole {
            u64::MAX
        } else {
            whole + ms as u64
        }
    }
}

/// Reads `len` bytes out of the guest's memory, starting at `ptr`.
pub fn ptr_to_bytes<M: WasmMemory>(state: &State<M>, ptr: u32, len: u32) -> (r: Result<
    Vec<u8>,
    ReadError,
>)
    ensures
        match guest_bytes(state.guest_memory(), ptr, len) {
            Some(bytes) => r is Ok && r->Ok_0@ == bytes,
            None => r == Err::<Vec<u8>, ReadError>(ReadError::InvalidMemoryAccess),
        },
{
    match state.memory_read(ptr as usize, len as usize) {
        Ok(bytes) => Ok(bytes),
        Err(_) => Err(ReadError::InvalidMemoryAccess),
    }
}

/// Reads `len` bytes out of the guest's memory, starting at `ptr`, as UTF-8
/// text.
pub fn env_ptr_to_string<M: WasmMemory>(state: &State<M>, ptr: u32, len: u32) -> (r: Result<
    String,
    ReadError,
>)
    ensures
        match guest_bytes(state.guest_memory(), ptr, len) {
            Some(bytes) => if valid_utf8(bytes) {
                r is Ok && encode_utf8(r->Ok_0@) == bytes
            } else {
                r == Err::<String, ReadError>(ReadError::InvalidUtf8)
            },
            None => r == Err::<String, ReadError>(ReadError::InvalidMemoryAccess),
        },
{
    match ptr_to_bytes(state, ptr, len) {
        Ok(bytes) => match utf8_text(bytes.as_slice()) {
            Some(text) => Ok(text.to_owned()),
            None => Err(ReadError::InvalidUtf8),
        },
        Err(e) => Err(e),
    }
}

/// Calls the I/O module at `method_path` with `method_input` and returns
/// the identifier under which the response will be held, a number that is
/// not negative and under which nothing was kept; -1, with nothing changed,
/// when no identifier is left.
pub fn invoke_io<M: WasmMemory>(
    state: &mut State<M>,
    method_path: &str,
    method_input: Vec<u8>,
) -> (code: i32)
    ensures
        final(state).same_instance(old(state)),
        final(state).memory == old(state).memory,
        final(state).host_input_buffer == old(state).host_input_buffer,
        match allocate(old(state).threader.ioid_counter()).0 {
            Some(ioid) => {
                &&& code == ioid
                &&& old(state).threader.unused(ioid)
                &&& final(state).threader.ioid_counter() == ioid + 1
                &&& final(state).threader.invoked(
                    &old(state).threader,
                    method_path.spec_bytes(),
                    method_input@,
                    ioid,
                )
            },
            None => code == -1 && final(state).threader == old(state).threader,
        },
{
    match state.threader.next_ioid() {
        Some(ioid) => {
            state.threader.invoke(method_path, method_input, ioid);
            ioid as i32
        },
        None => -1,
    }
}

/// `__asml_abi_io_invoke`: calls the I/O module whose dotted path the guest
/// has written at `name_ptr`, with the input it has written at `input`, and
/// returns the identifier of the call.
///
/// Returns -1, with nothing changed, where one of the two ranges cannot be
/// read, the path is not UTF-8, or no identifier is left.
pub fn asml_abi_io_invoke<M: WasmMemory>(
    state: &mut State<M>,
    name_ptr: u32,
    name_len: u32,
    input: u32,
    input_len: u32,
) -> (code: i32)
    ensures
        final(state).same_instance(old(state)),
        final(state).memory == old(state).memory,
        final(state).host_input_buffer == old(state).host_input_buffer,
        match io_call(old(state), name_ptr, name_len, input, input_len) {
            Some((method_path, method_input, ioid)) => {
                &&& code == ioid
                &&& old(state).threader.unused(ioid)
                &&& final(state).threader.ioid_counter() == ioid + 1
                &&& final(state).threader.invoked(
                    &old(state).threader,
                    method_path,
                    method_input,
                    ioid,
                )
            },
            None => code == -1 && final(state).threader == old(state).threader,
        },
{
    if let Ok(method_path) = env_ptr_to_string(state, name_ptr, name_len) {
        if let Ok(input) = ptr_to_bytes(state, input, input_len) {
            return invoke_io(state, method_path.as_str(), input);
        }
    }
    -1i32
}

/// The call that `__asml_abi_io_invoke` makes for its arguments: the path,
/// the input and the identifier. None where the arguments cannot be read or
/// no identifier is left.
pub open spec fn io_call<M: WasmMemory>(
    state: &State<M>,
    name_ptr: u32,
    name_len: u32,
    input: u32,
    input_len: u32,
) -> Option<(Seq<u8>, Seq<u8>, u32)> {
    match (
        guest_bytes(state.guest_memory(), name_ptr, name_len),
        guest_bytes(state.guest_memory(), input, input_len),
        allocate(state.threader.ioid_counter()).0,
    ) {
        (Some(method_path), Some(method_input), Some(ioid)) => if valid_utf8(method_path) {
            Some((method_path, method_input, ioid))
        } else {
            None
        },
        _ => None,
    }
}

/// `__asml_abi_invoke`, the former form of the call: the I/O module whose
/// dotted path the guest has written at `ptr` is called without input.
pub fn asml_abi_invoke<M: WasmMemory>(state: &mut State<M>, ptr: u32, len: u32) -> (code: i32)
    ensures
        final(state).same_instance(old(state)),
        final(state).memory == old(state).memory,
        final(state).host_input_buffer == old(state).host_input_buffer,
        match io_call(old(state), ptr, len, 0, 0) {
            Some((method_path, method_input, ioid)) => {
                &&& code == ioid
                &&& old(state).threader.unused(ioid)
                &&& final(state).threader.ioid_counter() == ioid + 1
                &&& final(state).threader.invoked(
                    &old(state).threader,
                    method_path,
                    method_input,
                    ioid,
                )
            },
            None => code == -1 && final(state).threader == old(state).threader,
        },
{
    asml_abi_io_invoke(state, ptr, len, 0, 0)
}

/// `__asml_abi_poll`, the former name of `__asml_abi_io_poll`.
pub fn asml_abi_poll<M: WasmMemory>(state: &State<M>, id: u32) -> (code: i32)
    ensures
        code == if state.threader.ready(id) {
            1i32
        } else {
            0i32
        },
{
    asml_abi_io_poll(state, id)
}

/// `__asml_abi_io_poll`: 1 where a response is held under `id` that the
/// guest has not yet been handed in full, else 0.
pub fn asml_abi_io_poll<M: WasmMemory>(state: &State<M>, id: u32) -> (code: i32)
    ensures
        code == if state.threader.ready(id) {
            1i32
        } else {
            0i32
        },
{
    if state.threader.poll(id) {
        1
    } else {
        0
    }
}

/// The length that `__asml_abi_io_len` reports for the response under `id`:
/// the low 32 bits of its length in bytes; 0 where no response is held.
pub open spec fn reported_length<M: WasmMemory>(state: &State<M>, id: u32) -> int {
    if state.threader.io().documents().contains_key(id as usize) {
        state.threader.io().documents()[id as usize].len() as int % 0x1_0000_0000
    } else {
        0
    }
}

/// `__asml_abi_io_len`: the length in bytes of the response under `id`.
pub fn asml_abi_io_len<M: WasmMemory>(state: &State<M>, id: u32) -> (len: u32)
    ensures
        len == reported_length(state, id),
{
    match state.threader.get_io_memory_document(id) {
        Some(document) => ((document.length as u64) % 0x1_0000_0000u64) as u32,
        None => 0,
    }
}

/// The result of a paging call that has reported `code`.
pub open spec fn paging_result(code: i32) -> Result<(), DocumentError> {
    if code == 0 {
        Ok(())
    } else {
        Err(DocumentError::InvalidMemoryAccess)
    }
}

/// `__asml_abi_io_load`: begins to page the response under `id` into the
/// guest's I/O window. Returns 0 where page 0 lies in the window, else -1.
pub fn asml_abi_io_load<M: WasmMemory>(state: &mut State<M>, id: u32) -> (code: i32)
    ensures
        final(state).same_instance(old(state)),
        final(state).host_input_buffer == old(state).host_input_buffer,
        code == 0 || code == -1,
        match (old(state).guest_memory(), old(state).io_buffer_ptr) {
            (Some(memory), Some(window)) => if old(state).threader.io().documents().contains_key(
                id as usize,
            ) {
                final(state).threader.paged(
                    &old(state).threader,
                    id as usize,
                    0,
                    memory,
                    final(state).guest_memory()->0,
                    window as usize,
                    paging_result(code),
                )
            } else {
                code == -1 && final(state).untouched(old(state))
            },
            _ => code == -1 && final(state).untouched(old(state)),
        },
{
    let window = match state.io_buffer_ptr {
        Some(window) => window as usize,
        None => {
            return -1;
        },
    };
    match &mut state.memory {
        Some(memory) => match state.threader.document_load(memory, window, id) {
            Ok(_) => 0,
            Err(_) => -1,
        },
        None => -1,
    }
}

/// `__asml_abi_io_next`: pages the next page of the response that was loaded
/// last into the guest's I/O window. Returns 0 where the page lies in the
/// window, else -1.
pub fn asml_abi_io_next<M: WasmMemory>(state: &mut State<M>) -> (code: i32)
    ensures
        final(state).same_instance(old(state)),
        final(state).host_input_buffer == old(state).host_input_buffer,
        code == 0 || code == -1,
        match (old(state).guest_memory(), old(state).io_buffer_ptr) {
            (Some(memory), Some(window)) => if old(state).threader.io().pageable() {
                final(state).threader.paged(
                    &old(state).threader,
                    old(state).threader.io().active(),
                    old(state).threader.io().cursors()[old(state).threader.io().active()] as nat
                        + 1,
                    memory,
                    final(state).guest_memory()->0,
                    window as usize,
                    paging_result(code),
                )
            } else {
                code == -1 && final(state).untouched(old(state))
            },
            _ => code == -1 && final(state).untouched(old(state)),
        },
{
    let window = match state.io_buffer_ptr {
        Some(window) => window as usize,
        None => {
            return -1;
        },
    };
    match &mut state.memory {
        Some(memory) => match state.threader.document_next(memory, window) {
            Ok(_) => 0,
            Err(_) => -1,
        },
        None => -1,
    }
}

/// `__asml_abi_clock_time_get`: the time of the system clock in milliseconds
/// since the Unix epoch; 0 where the clock stands before the epoch.
pub fn asml_abi_clock_time_get<M: WasmMemory>(_env: &State<M>) -> (ms: u64)
    ensures
        exists|reading: Option<(u64, u32)>|
            (reading matches Some((secs, part)) ==> part < 1000) && ms == reported_time(reading),
{
    clock_time(unix_time())
}

/// The time that is reported for a reading of the system clock, given as
/// whole seconds since the epoch and the milliseconds of the second begun:
/// the milliseconds since the epoch; 0 where the clock stands before the
/// epoch and there is no reading.
pub open spec fn reported_time(reading: Option<(u64, u32)>) -> u64 {
    match reading {
        Some((secs, ms)) => millis(secs, ms),
        None => 0,
    }
}

/// The time that is reported for a reading of the system clock.
pub fn clock_time(reading: Option<(u64, u32)>) -> (ms: u64)
    ensures
        ms == reported_time(reading),
{
    match reading {
        Some((secs, ms)) => clock_millis(secs, ms),
        None => 0,
    }
}

/// `__asml_abi_input_start`: pages page 0 of the function input into the
/// guest's input window. Returns 0 where the page lies in the window, else
/// -1.
pub fn asml_abi_input_start<M: WasmMemory>(state: &mut State<M>) -> (code: i32)
    ensures
        final(state).same_instance(old(state)),
        final(state).threader == old(state).threader,
        match (old(state).guest_memory(), old(state).function_input_buffer_ptr) {
            (Some(memory), Some(window)) => final(state).host_input_buffer.turned_to(
                &old(state).host_input_buffer,
                0,
                memory,
                final(state).guest_memory()->0,
                window as usize,
                code,
            ),
            _ => code == -1 && final(state).untouched(old(state)),
        },
{
    let window = match state.function_input_buffer_ptr {
        Some(window) => window as usize,
        None => {
            return -1;
        },
    };
    match &mut state.memory {
        Some(memory) => state.host_input_buffer.first(memory, window),
        None => -1,
    }
}

/// `__asml_abi_input_next`: pages the next page of the function input into
/// the guest's input window. Returns 0 where the page lies in the window,
/// else -1.
pub fn asml_abi_input_next<M: WasmMemory>(state: &mut State<M>) -> (code: i32)
    ensures
        final(state).same_instance(old(state)),
        final(state).threader == old(state).threader,
        match (old(state).guest_memory(), old(state).function_input_buffer_ptr) {
            (Some(memory), Some(window)) => if old(state).host_input_buffer.page_index()
                < usize::MAX {
                final(state).host_input_buffer.turned_to(
                    &old(state).host_input_buffer,
                    old(state).host_input_buffer.page_index() + 1,
                    memory,
                    final(state).guest_memory()->0,
                    window as usize,
                    code,
                )
            } else {
                code == -1 && final(state).untouched(old(state))
            },
            _ => code == -1 && final(state).untouched(old(state)),
        },
{
    let window = match state.function_input_buffer_ptr {
        Some(window) => window as usize,
        None => {
            return -1;
        },
    };
    match &mut state.memory {
        Some(memory) => state.host_input_buffer.next(memory, window),
        None => -1,
    }
}

/// `__asml_abi_input_length_get`: the length of the function input in bytes.
pub fn asml_abi_input_length_get<M: WasmMemory>(state: &State<M>) -> (len: u64)
    ensures
        len == state.host_input_buffer.contents().len(),
{
    state.host_input_buffer.len() as u64
}

/// The functions that the host offers to the guest, all of them in the
/// namespace `env`.
#[derive(Clone, Copy, Debug, PartialEq, Eq, Structural)]
pub enum HostFunction {
    RuntimeLog,
    RuntimeSuccess,
    /// The former name of `IoInvoke`, kept for guests built against it.
    Invoke,
    IoInvoke,
    IoPoll,
    IoLen,
    IoLoad,
    IoNext,
    ClockTimeGet,
    InputStart,
    InputNext,
    InputLengthGet,
}

impl HostFunction {
    /// The name under which the guest imports the function.
    pub fn import_name(&self) -> (name: &'static str)
        ensures
            name@ == match self {
                HostFunction::RuntimeLog => "__asml_abi_runtime_log"@,
                HostFunction::RuntimeSuccess => "__asml_abi_runtime_success"@,
                HostFunction::Invoke => "__asml_abi_invoke"@,
                HostFunction::IoInvoke => "__asml_abi_io_invoke"@,
                HostFunction::IoPoll => "__asml_abi_io_poll"@,
                HostFunction::IoLen => "__asml_abi_io_len"@,
                HostFunction::IoLoad => "__asml_abi_io_load"@,
                HostFunction::IoNext => "__asml_abi_io_next"@,
                HostFunction::ClockTimeGet => "__asml_abi_clock_time_get"@,
                HostFunction::InputStart => "__asml_abi_input_start"@,
                HostFunction::InputNext => "__asml_abi_input_next"@,
                HostFunction::InputLengthGet => "__asml_abi_input_length_get"@,
            },
    {
        match self {
            HostFunction::RuntimeLog => "__asml_abi_runtime_log",
            HostFunction::RuntimeSuccess => "__asml_abi_runtime_success",
            HostFunction::Invoke => "__asml_abi_invoke",
            HostFunction::IoInvoke => "__asml_abi_io_invoke",
            HostFunction::IoPoll => "__asml_abi_io_poll",
            HostFunction::IoLen => "__asml_abi_io_len",
            HostFunction::IoLoad => "__asml_abi_io_load",
            HostFunction::IoNext => "__asml_abi_io_next",
            HostFunction::ClockTimeGet => "__asml_abi_clock_time_get",
            HostFunction::InputStart => "__asml_abi_input_start",
            HostFunction::InputNext => "__asml_abi_input_next",
            HostFunction::InputLengthGet => "__asml_abi_input_length_get",
        }
    }
}

/// Whether `after` differs from `before` in nothing but its log.
pub open spec fn only_log_differs<M: WasmMemory>(after: &State<M>, before: &State<M>) -> bool {
    &&& after.threader == before.threader
    &&& after.host_input_buffer == before.host_input_buffer
    &&& after.memory == before.memory
    &&& after.function_input_buffer_ptr == before.function_input_buffer_ptr
    &&& after.io_buffer_ptr == before.io_buffer_ptr
    &&& after.status_sender == before.status_sender
}

/// Whether `after` differs from `before` in nothing but its status channel.
pub open spec fn only_status_differs<M: WasmMemory>(after: &State<M>, before: &State<M>) -> bool {
    &&& after.threader == before.threader
    &&& after.host_input_buffer == before.host_input_buffer
    &&& after.memory == before.memory
    &&& after.function_input_buffer_ptr == before.function_input_buffer_ptr
    &&& after.io_buffer_ptr == before.io_buffer_ptr
    &&& after.log == before.log
}

/// Whether the log `after` is the log `before` with one more line, the text
/// that `bytes` encodes.
pub open spec fn logged(before: Seq<String>, after: Seq<String>, bytes: Seq<u8>) -> bool {
    &&& after.len() == before.len() + 1
    &&& after.drop_last() == before
    &&& encode_utf8(after.last()@) == bytes
}

/// The two host functions that each runtime answers in its own way: what
/// becomes of a line that the guest logs, and of the payload with which the
/// guest reports success.
///
/// Whatever the runtime, `log` touches nothing but the log, to which it adds
/// at most the text that the guest has addressed; `success` touches nothing
/// but the status channel, to which it offers at most the success with the
/// bytes that the guest has addressed.
pub trait RuntimeAbi<M: WasmMemory> {
    /// `__asml_abi_runtime_log`: takes the UTF-8 text of `len` bytes at `ptr`
    /// into the host's log.
    fn log(state: &mut State<M>, ptr: u32, len: u32)
        ensures
            only_log_differs(final(state), old(state)),
            final(state).log@ == old(state).log@ || (guest_bytes(
                old(state).guest_memory(),
                ptr,
                len,
            ) matches Some(bytes) && logged(old(state).log@, final(state).log@, bytes)),
    ;

    /// `__asml_abi_runtime_success`: reports success with the `len` bytes at
    /// `ptr` as the payload.
    fn success(state: &mut State<M>, ptr: u32, len: u32)
        ensures
            only_status_differs(final(state), old(state)),
            final(state).status_sender@ == old(state).status_sender@ || (guest_bytes(
                old(state).guest_memory(),
                ptr,
                len,
            ) matches Some(bytes) && final(state).status_sender@ == offered(
                old(state).status_sender@,
                StatusView::Success(bytes),
            )),
    ;
}

/// Takes the text at `ptr` into the log, where it can be read and is UTF-8.
fn log_text<M: WasmMemory>(state: &mut State<M>, ptr: u32, len: u32)
    ensures
        only_log_differs(final(state), old(state)),
        match guest_bytes(old(state).guest_memory(), ptr, len) {
            Some(bytes) => if valid_utf8(bytes) {
                logged(old(state).log@, final(state).log@, bytes)
            } else {
                final(state).log@ == old(state).log@
            },
            None => final(state).log@ == old(state).log@,
        },
{
    if let Ok(text) = env_ptr_to_string(state, ptr, len) {
        state.log.push(text);
        assert(final(state).log@.drop_last() =~= old(state).log@);
    }
}

/// The runtime that serves requests over HTTP: a logged line goes to the
/// host's log, the payload of a success goes to the status channel as it is.
pub struct Abi;

impl<M: WasmMemory> RuntimeAbi<M> for Abi {
    fn log(state: &mut State<M>, ptr: u32, len: u32)
        ensures
            match guest_bytes(old(state).guest_memory(), ptr, len) {
                Some(bytes) => if valid_utf8(bytes) {
                    logged(old(state).log@, final(state).log@, bytes)
                } else {
                    final(state).log@ == old(state).log@
                },
                None => final(state).log@ == old(state).log@,
            },
    {
        log_text(state, ptr, len)
    }

    fn success(state: &mut State<M>, ptr: u32, len: u32)
        ensures
            final(state).status_sender@ == match guest_bytes(old(state).guest_memory(), ptr, len) {
                Some(bytes) => offered(old(state).status_sender@, StatusView::Success(bytes)),
                None => old(state).status_sender@,
            },
    {
        if let Ok(payload) = ptr_to_bytes(state, ptr, len) {
            state.status_sender.send(Status::Success(payload));
        }
    }
}

/// The runtime that answers a function service which takes its responses as
/// text: a success is reported only where its payload is UTF-8.
pub struct LambdaAbi;

impl<M: WasmMemory> RuntimeAbi<M> for LambdaAbi {
    fn log(state: &mut State<M>, ptr: u32, len: u32)
        ensures
            match guest_bytes(old(state).guest_memory(), ptr, len) {
                Some(bytes) => if valid_utf8(bytes) {
                    logged(old(state).log@, final(state).log@, bytes)
                } else {
                    final(state).log@ == old(state).log@
                },
                None => final(state).log@ == old(state).log@,
            },
    {
        log_text(state, ptr, len)
    }

    fn success(state: &mut State<M>, ptr: u32, len: u32)
        ensures
            final(state).status_sender@ == match guest_bytes(old(state).guest_memory(), ptr, len) {
                Some(bytes) => if valid_utf8(bytes) {
                    offered(old(state).status_sender@, StatusView::Success(bytes))
                } else {
                    old(state).status_sender@
                },
                None => old(state).status_sender@,
            },
    {
        if let Ok(payload) = ptr_to_bytes(state, ptr, len) {
            if utf8_text(payload.as_slice()).is_some() {
                state.status_sender.send(Status::Success(payload));
            }
        }
    }
}

} // verus!
