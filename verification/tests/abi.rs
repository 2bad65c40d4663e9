use assemblylift::abi::{
    asml_abi_clock_time_get, asml_abi_input_length_get, asml_abi_input_next, asml_abi_input_start,
    clock_millis, clock_time, env_ptr_to_string, ptr_to_bytes, Abi, HostFunction, LambdaAbi, ReadError,
    RuntimeAbi,
};
use assemblylift::buffers::LinearBuffer;
use assemblylift::constants::FUNCTION_INPUT_BUFFER_SIZE;
use assemblylift::registry::Registry;
use assemblylift::state::State;
use assemblylift::status::{Status, StatusSender};
use assemblylift::wasm::{LinearMemory, MemoryError};

fn linked(memory: Vec<u8>) -> State<LinearMemory> {
    let mut state = State::new(Registry::new(), StatusSender::new());
    state.memory = Some(LinearMemory::from_bytes(memory));
    state.function_input_buffer_ptr = Some(4);
    state.io_buffer_ptr = Some(0);
    state
}

#[test]
fn a_new_state_knows_no_guest() {
    let state: State<LinearMemory> = State::new(Registry::new(), StatusSender::new());
    assert!(state.memory.is_none());
    assert!(state.function_input_buffer_ptr.is_none());
    assert!(state.io_buffer_ptr.is_none());
    assert!(state.log.is_empty());
    assert_eq!(state.host_input_buffer.len(), 0);
    assert_eq!(state.status_sender.sent(), None);
    assert_eq!(state.memory_read(0, 0), Err(MemoryError::InvalidMemoryAccess));
}

#[test]
fn guest_memory_is_read_within_bounds_only() {
    let state = linked(b"abcdef".to_vec());
    assert_eq!(ptr_to_bytes(&state, 1, 3), Ok(b"bcd".to_vec()));
    assert_eq!(ptr_to_bytes(&state, 6, 0), Ok(vec![]));
    assert_eq!(ptr_to_bytes(&state, 4, 3), Err(ReadError::InvalidMemoryAccess));
    assert_eq!(ptr_to_bytes(&state, u32::MAX, 2), Err(ReadError::InvalidMemoryAccess));
    assert_eq!(state.memory_read(2, 2), Ok(b"cd".to_vec()));
}

#[test]
fn guest_text_must_be_utf8() {
    let state = linked(vec![b'h', b'i', 0xc3, 0xa9, 0xff]);
    assert_eq!(env_ptr_to_string(&state, 0, 2), Ok("hi".to_string()));
    assert_eq!(env_ptr_to_string(&state, 0, 4), Ok("hi\u{e9}".to_string()));
    assert_eq!(env_ptr_to_string(&state, 0, 3), Err(ReadError::InvalidUtf8));
    assert_eq!(env_ptr_to_string(&state, 4, 1), Err(ReadError::InvalidUtf8));
    assert_eq!(env_ptr_to_string(&state, 4, 2), Err(ReadError::InvalidMemoryAccess));
}

#[test]
fn input_is_paged_into_the_input_window() {
    let mut state = linked(vec![0u8; FUNCTION_INPUT_BUFFER_SIZE + 4]);
    let input: Vec<u8> = (0..FUNCTION_INPUT_BUFFER_SIZE + 2).map(|i| (i % 7) as u8 + 1).collect();
    state.host_input_buffer.initialize(input.clone());
    assert_eq!(asml_abi_input_length_get(&state), (FUNCTION_INPUT_BUFFER_SIZE + 2) as u64);
    assert_eq!(asml_abi_input_start(&mut state), 0);
    assert_eq!(state.memory_read(0, 4), Ok(vec![0; 4]));
    assert_eq!(state.memory_read(4, FUNCTION_INPUT_BUFFER_SIZE), Ok(input[..FUNCTION_INPUT_BUFFER_SIZE].to_vec()));
    assert_eq!(asml_abi_input_next(&mut state), 0);
    assert_eq!(state.memory_read(4, 2), Ok(input[FUNCTION_INPUT_BUFFER_SIZE..].to_vec()));
    assert_eq!(asml_abi_input_next(&mut state), 0);
}

#[test]
fn input_paging_fails_without_memory_or_window() {
    let mut state: State<LinearMemory> = State::new(Registry::new(), StatusSender::new());
    state.host_input_buffer.initialize(vec![1, 2, 3]);
    assert_eq!(asml_abi_input_start(&mut state), -1);
    assert_eq!(asml_abi_input_next(&mut state), -1);
    state.function_input_buffer_ptr = Some(0);
    assert_eq!(asml_abi_input_start(&mut state), -1);
    state.memory = Some(LinearMemory::new(2));
    assert_eq!(asml_abi_input_start(&mut state), -1);
    state.memory = Some(LinearMemory::new(3));
    assert_eq!(asml_abi_input_start(&mut state), 0);
    assert_eq!(asml_abi_input_length_get(&state), 3);
}

#[test]
fn clock_counts_milliseconds_since_the_epoch() {
    assert_eq!(clock_millis(0, 0), 0);
    assert_eq!(clock_millis(1, 500), 1500);
    assert_eq!(clock_millis(0, 999), 999);
    assert_eq!(clock_millis(1_700_000_000, 123), 1_700_000_000_123);
    assert_eq!(clock_millis(u64::MAX / 1000, 615), u64::MAX);
    assert_eq!(clock_millis(u64::MAX / 1000, 614), u64::MAX - 1);
    assert_eq!(clock_millis(u64::MAX / 1000, 616), u64::MAX);
    assert_eq!(clock_millis(u64::MAX / 1000 + 1, 0), u64::MAX);
    assert_eq!(clock_millis(u64::MAX, 999), u64::MAX);
}

#[test]
fn clock_time_does_not_decrease_between_two_calls() {
    let state = linked(vec![]);
    let earlier = asml_abi_clock_time_get(&state);
    let later = asml_abi_clock_time_get(&state);
    assert!(earlier > 1_600_000_000_000);
    assert!(later >= earlier);
}

#[test]
fn log_takes_utf8_text_into_the_log() {
    let mut state = linked(b"hello\xff".to_vec());
    Abi::log(&mut state, 0, 5);
    Abi::log(&mut state, 1, 2);
    Abi::log(&mut state, 0, 6);
    Abi::log(&mut state, 3, 9);
    LambdaAbi::log(&mut state, 4, 1);
    LambdaAbi::log(&mut state, 5, 1);
    assert_eq!(state.log, vec!["hello".to_string(), "el".to_string(), "o".to_string()]);
    assert_eq!(state.status_sender.sent(), None);
}

#[test]
fn success_sends_the_payload_once() {
    let mut state = linked(b"first second".to_vec());
    Abi::success(&mut state, 0, 99);
    assert_eq!(state.status_sender.sent(), None);
    Abi::success(&mut state, 0, 5);
    assert_eq!(state.status_sender.sent(), Some(&Status::Success(b"first".to_vec())));
    Abi::success(&mut state, 6, 6);
    assert_eq!(state.status_sender.sent(), Some(&Status::Success(b"first".to_vec())));
    assert!(state.log.is_empty());
}

#[test]
fn success_passes_any_bytes_but_lambda_only_text() {
    let mut state = linked(vec![0xff, b'o', b'k']);
    LambdaAbi::success(&mut state, 0, 3);
    assert_eq!(state.status_sender.sent(), None);
    LambdaAbi::success(&mut state, 1, 2);
    assert_eq!(state.status_sender.sent(), Some(&Status::Success(b"ok".to_vec())));
    let mut state = linked(vec![0xff, b'o', b'k']);
    Abi::success(&mut state, 0, 3);
    assert_eq!(state.status_sender.sent(), Some(&Status::Success(vec![0xff, b'o', b'k'])));
}

#[test]
fn host_functions_are_imported_under_their_names() {
    assert_eq!(HostFunction::RuntimeLog.import_name(), "__asml_abi_runtime_log");
    assert_eq!(HostFunction::RuntimeSuccess.import_name(), "__asml_abi_runtime_success");
    assert_eq!(HostFunction::Invoke.import_name(), "__asml_abi_invoke");
    assert_eq!(HostFunction::IoInvoke.import_name(), "__asml_abi_io_invoke");
    assert_eq!(HostFunction::IoPoll.import_name(), "__asml_abi_io_poll");
    assert_eq!(HostFunction::IoLen.import_name(), "__asml_abi_io_len");
    assert_eq!(HostFunction::IoLoad.import_name(), "__asml_abi_io_load");
    assert_eq!(HostFunction::IoNext.import_name(), "__asml_abi_io_next");
    assert_eq!(HostFunction::ClockTimeGet.import_name(), "__asml_abi_clock_time_get");
    assert_eq!(HostFunction::InputStart.import_name(), "__asml_abi_input_start");
    assert_eq!(HostFunction::InputNext.import_name(), "__asml_abi_input_next");
    assert_eq!(HostFunction::InputLengthGet.import_name(), "__asml_abi_input_length_get");
}

#[test]
fn a_reading_of_the_clock_is_reported_in_milliseconds() {
    assert_eq!(clock_time(None), 0);
    assert_eq!(clock_time(Some((0, 0))), 0);
    assert_eq!(clock_time(Some((1, 500))), 1500);
    assert_eq!(clock_time(Some((2, 0))), 2000);
    assert_eq!(clock_time(Some((u64::MAX, 0))), u64::MAX);
}
