use assemblylift::abi::{asml_abi_invoke, asml_abi_poll, asml_abi_io_invoke, asml_abi_io_len, asml_abi_io_load, asml_abi_io_next, asml_abi_io_poll, invoke_io};
use assemblylift::registry::Registry;
use assemblylift::state::{State, WasmState};
use assemblylift::status::StatusSender;
use assemblylift::threader::{DocumentError, IoMemoryDocument, Threader};
use assemblylift::wasm::{LinearMemory, WasmMemory};

fn registry_with(paths: &[(&str, u64)]) -> Registry {
    let mut registry = Registry::new();
    for (path, handler) in paths {
        registry.register(path.as_bytes(), *handler);
    }
    registry
}

/// A state whose guest memory has `size` bytes, with the I/O window at 64
/// and the input window at 0.
fn state_with(registry: Registry, size: usize) -> State<LinearMemory> {
    let mut state = State::new(registry, StatusSender::new());
    state.memory = Some(LinearMemory::new(size));
    state.function_input_buffer_ptr = Some(0);
    state.io_buffer_ptr = Some(64);
    state
}

fn write_guest(state: &mut State<LinearMemory>, at: usize, bytes: &[u8]) {
    state.memory.as_mut().unwrap().memory_write(at, bytes.to_vec()).unwrap();
}

#[test]
fn identifiers_rise_by_one_from_zero() {
    let mut threader = Threader::new(Registry::new());
    assert_eq!(threader.next_ioid(), Some(0));
    assert_eq!(threader.next_ioid(), Some(1));
    assert_eq!(threader.next_ioid(), Some(2));
    assert_eq!(threader.next_event_id(), Some(0));
    assert_eq!(threader.next_event_id(), Some(1));
    assert_eq!(threader.next_ioid(), Some(3));
}

#[test]
fn invoke_returns_strictly_increasing_identifiers() {
    let mut state = state_with(registry_with(&[("a.b.c", 1)]), 128);
    let mut last = -1;
    for _ in 0..100 {
        let ioid = invoke_io(&mut state, "a.b.c", vec![]);
        assert!(ioid > last);
        assert_ne!(ioid, -1);
        last = ioid;
    }
}

#[test]
fn poll_on_an_unknown_identifier_returns_zero() {
    let state = state_with(Registry::new(), 128);
    assert_eq!(asml_abi_io_poll(&state, 0), 0);
    assert_eq!(asml_abi_io_poll(&state, 41), 0);
    assert_eq!(asml_abi_io_poll(&state, u32::MAX), 0);
    assert_eq!(asml_abi_io_len(&state, 41), 0);
    assert_eq!(state.threader.get_io_memory_document(41), None);
}

#[test]
fn echo_returns_its_input() {
    let mut state = state_with(registry_with(&[("test.echo.go", 1)]), 256);
    write_guest(&mut state, 0, b"test.echo.go");
    write_guest(&mut state, 16, b"hello");
    let ioid = asml_abi_io_invoke(&mut state, 0, 12, 16, 5);
    assert_eq!(ioid, 0);
    assert_eq!(asml_abi_io_poll(&state, 0), 0);
    let tasks = state.threader.take_tasks();
    assert_eq!(tasks.len(), 1);
    assert_eq!((tasks[0].ioid, tasks[0].handler), (0, 1));
    assert_eq!(tasks[0].input, b"hello".to_vec());
    assert!(state.threader.take_tasks().is_empty());
    state.threader.handle_response(&tasks[0].input, tasks[0].ioid);
    assert_eq!(asml_abi_io_poll(&state, 0), 1);
    assert_eq!(asml_abi_io_poll(&state, 0), 1);
    assert_eq!(asml_abi_io_len(&state, 0), 5);
    assert_eq!(asml_abi_io_load(&mut state, 0), 0);
    assert_eq!(state.memory_read(64, 5), Ok(b"hello".to_vec()));
    assert_eq!(asml_abi_io_len(&state, 0), 5);
    assert_eq!(asml_abi_io_poll(&state, 0), 0);
}

#[test]
fn two_calls_complete_in_any_order() {
    let mut state = state_with(registry_with(&[("a.b.c", 1), ("a.b.d", 2)]), 256);
    let first = invoke_io(&mut state, "a.b.c", vec![]);
    let second = invoke_io(&mut state, "a.b.d", vec![]);
    assert_eq!((first, second), (0, 1));
    let tasks = state.threader.take_tasks();
    assert_eq!(tasks.iter().map(|t| (t.ioid, t.handler)).collect::<Vec<_>>(), vec![(0, 1), (1, 2)]);
    state.threader.handle_response(b"B", 1);
    assert_eq!(asml_abi_io_poll(&state, 0), 0);
    assert_eq!(asml_abi_io_poll(&state, 1), 1);
    state.threader.handle_response(b"A", 0);
    assert_eq!(asml_abi_io_poll(&state, 0), 1);
    assert_eq!(asml_abi_io_poll(&state, 1), 1);
    assert_eq!(asml_abi_io_load(&mut state, 1), 0);
    assert_eq!(state.memory_read(64, 1), Ok(b"B".to_vec()));
    assert_eq!(asml_abi_io_load(&mut state, 0), 0);
    assert_eq!(state.memory_read(64, 1), Ok(b"A".to_vec()));
    assert_eq!(asml_abi_io_next(&mut state), 0);
    assert_eq!(state.memory_read(64, 1), Ok(b"A".to_vec()));
}

#[test]
fn unknown_iomod_is_answered_with_the_marker() {
    let mut state = state_with(registry_with(&[("a.b.c", 1)]), 256);
    let ioid = invoke_io(&mut state, "no.such.op", b"x".to_vec());
    assert_eq!(ioid, 0);
    assert!(state.threader.take_tasks().is_empty());
    assert_eq!(asml_abi_io_poll(&state, 0), 1);
    assert_eq!(asml_abi_io_len(&state, 0), 12);
    assert_eq!(asml_abi_io_load(&mut state, 0), 0);
    assert_eq!(state.memory_read(64, 12), Ok(b"UnknownIOmod".to_vec()));
    assert_eq!(Threader::unknown_iomod_response(), b"UnknownIOmod".to_vec());
}

#[test]
fn a_malformed_path_is_answered_with_the_marker() {
    let mut state = state_with(registry_with(&[("a.b.c", 1)]), 256);
    assert_eq!(invoke_io(&mut state, "a.b", vec![]), 0);
    assert_eq!(invoke_io(&mut state, "", vec![]), 1);
    assert_eq!(asml_abi_io_poll(&state, 0), 1);
    assert_eq!(asml_abi_io_poll(&state, 1), 1);
    assert_eq!(asml_abi_io_len(&state, 1), 12);
}

#[test]
fn io_invoke_fails_on_unreadable_arguments() {
    let mut state = state_with(registry_with(&[("a.b.c", 1)]), 128);
    write_guest(&mut state, 0, b"a.b.c");
    assert_eq!(asml_abi_io_invoke(&mut state, 0, 5, 128, 1), -1);
    assert_eq!(asml_abi_io_invoke(&mut state, 124, 5, 0, 0), -1);
    assert_eq!(asml_abi_io_invoke(&mut state, u32::MAX, u32::MAX, 0, 0), -1);
    write_guest(&mut state, 8, &[0xff, 0xfe]);
    assert_eq!(asml_abi_io_invoke(&mut state, 8, 2, 0, 0), -1);
    assert!(state.threader.take_tasks().is_empty());
    assert_eq!(asml_abi_io_invoke(&mut state, 0, 5, 128, 0), 0);
    let mut unlinked: State<LinearMemory> = State::new(Registry::new(), StatusSender::new());
    assert_eq!(asml_abi_io_invoke(&mut unlinked, 0, 0, 0, 0), -1);
}

#[test]
fn load_and_next_fail_without_memory_or_window() {
    let mut state: State<LinearMemory> = State::new(Registry::new(), StatusSender::new());
    assert_eq!(state.threader.next_ioid(), Some(0));
    state.threader.handle_response(b"abc", 0);
    assert_eq!(asml_abi_io_load(&mut state, 0), -1);
    state.memory = Some(LinearMemory::new(8));
    assert_eq!(asml_abi_io_load(&mut state, 0), -1);
    assert_eq!(asml_abi_io_next(&mut state), -1);
    state.io_buffer_ptr = Some(6);
    assert_eq!(asml_abi_io_load(&mut state, 0), -1);
    assert_eq!(asml_abi_io_load(&mut state, 1), -1);
    state.io_buffer_ptr = Some(5);
    assert_eq!(asml_abi_io_next(&mut state), -1);
    assert_eq!(asml_abi_io_load(&mut state, 0), 0);
    assert_eq!(asml_abi_io_next(&mut state), 0);
}

#[test]
fn documents_are_loaded_with_exact_errors() {
    let mut threader = Threader::new(Registry::new());
    for expected in 0..5 {
        assert_eq!(threader.next_ioid(), Some(expected));
    }
    let mut memory = LinearMemory::new(4);
    assert_eq!(threader.document_load(&mut memory, 0, 3), Err(DocumentError::IoNotReady));
    assert_eq!(threader.document_next(&mut memory, 0), Err(DocumentError::IoNotReady));
    threader.handle_response(b"abcde", 3);
    assert_eq!(threader.get_io_memory_document(3), Some(IoMemoryDocument { start: 0, length: 5 }));
    assert_eq!(threader.document_load(&mut memory, 0, 3), Err(DocumentError::InvalidMemoryAccess));
    assert!(threader.poll(3));
    threader.handle_response(b"", 4);
    assert_eq!(threader.document_load(&mut memory, 4, 4), Ok(()));
    assert_eq!(threader.document_next(&mut memory, 5), Err(DocumentError::InvalidMemoryAccess));
    assert_eq!(threader.document_next(&mut memory, 4), Ok(()));
    assert!(!threader.poll(4));
    assert!(threader.poll(3));
}

#[test]
fn a_response_is_ready_until_its_last_page_was_handed_over() {
    let mut threader = Threader::new(Registry::new());
    assert_eq!(threader.next_ioid(), Some(0));
    let mut memory = LinearMemory::new(32768);
    threader.handle_response(&vec![5u8; 32769], 0);
    assert!(threader.poll(0));
    assert_eq!(threader.document_load(&mut memory, 0, 0), Ok(()));
    assert!(threader.poll(0));
    assert_eq!(threader.document_next(&mut memory, 0), Ok(()));
    assert!(!threader.poll(0));
    assert_eq!(threader.document_load(&mut memory, 0, 0), Ok(()));
    assert!(threader.poll(0));
}

#[test]
fn the_former_names_call_without_input() {
    let mut state = state_with(registry_with(&[("a.b.c", 3)]), 128);
    write_guest(&mut state, 8, b"a.b.c");
    assert_eq!(asml_abi_invoke(&mut state, 8, 5), 0);
    assert_eq!(asml_abi_invoke(&mut state, 127, 5), -1);
    let tasks = state.threader.take_tasks();
    assert_eq!(tasks.len(), 1);
    assert_eq!((tasks[0].ioid, tasks[0].handler, tasks[0].input.len()), (0, 3, 0));
    assert_eq!(asml_abi_poll(&state, 0), 0);
    state.threader.handle_response(b"r", 0);
    assert_eq!(asml_abi_poll(&state, 0), 1);
}

#[test]
fn nothing_is_kept_under_an_identifier_that_was_not_given_out() {
    let mut threader = Threader::new(registry_with(&[("a.b.c", 1)]));
    threader.handle_response(b"stray", 0);
    threader.invoke("a.b.c", vec![], 0);
    threader.invoke("no.such.op", vec![], 7);
    assert!(!threader.poll(0));
    assert!(!threader.poll(7));
    assert!(threader.take_tasks().is_empty());
    assert_eq!(threader.get_io_memory_document(0), None);
    assert_eq!(threader.next_ioid(), Some(0));
    assert!(!threader.poll(0));
    threader.handle_response(b"reply", 0);
    threader.handle_response(b"stray", 1);
    assert!(threader.poll(0));
    assert_eq!(threader.get_io_memory_document(0), Some(IoMemoryDocument { start: 0, length: 5 }));
    assert_eq!(threader.get_io_memory_document(1), None);
}

#[test]
fn the_state_hands_out_its_dispatcher_and_windows() {
    let mut state = state_with(registry_with(&[("a.b.c", 1)]), 128);
    assert_eq!(state.function_input_buffer(), Some(0));
    assert_eq!(state.io_buffer(), Some(64));
    assert_eq!(state.threader().next_ioid(), Some(0));
    assert_eq!(state.threader.next_ioid(), Some(1));
    let unlinked: State<LinearMemory> = State::new(Registry::new(), StatusSender::new());
    assert_eq!(unlinked.function_input_buffer(), None);
    assert_eq!(unlinked.io_buffer(), None);
}
