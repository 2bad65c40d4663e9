use assemblylift::buffers::{FunctionInputBuffer, IoBuffer, LinearBuffer};
use assemblylift::constants::{FUNCTION_INPUT_BUFFER_SIZE, IO_BUFFER_SIZE_BYTES};
use assemblylift::paging::page_window;
use assemblylift::wasm::{LinearMemory, MemoryError, WasmMemory};

fn pattern(len: usize) -> Vec<u8> {
    (0..len).map(|i| (i % 251) as u8).collect()
}

/// Pages the whole input through a window at `dst` and joins what the guest
/// would read from the window after each call.
fn page_input_out(buffer: &mut FunctionInputBuffer, memory: &mut LinearMemory, dst: usize) -> (Vec<u8>, usize) {
    let total = buffer.len();
    let mut mirror = Vec::new();
    let mut calls = 0;
    assert_eq!(buffer.first(memory, dst), 0);
    calls += 1;
    let mut index = 0;
    loop {
        let (start, end) = page_window(total, FUNCTION_INPUT_BUFFER_SIZE, index);
        mirror.extend(memory.memory_read(dst, end - start).unwrap());
        if mirror.len() >= total {
            break;
        }
        assert_eq!(buffer.next(memory, dst), 0);
        calls += 1;
        index += 1;
    }
    (mirror, calls)
}

#[test]
fn constants_have_their_fixed_values() {
    assert_eq!(FUNCTION_INPUT_BUFFER_SIZE, 8192);
    assert_eq!(IO_BUFFER_SIZE_BYTES, 32768);
}

#[test]
fn page_window_gives_exact_bounds() {
    assert_eq!(page_window(10, 4, 0), (0, 4));
    assert_eq!(page_window(10, 4, 1), (4, 8));
    assert_eq!(page_window(10, 4, 2), (8, 10));
    assert_eq!(page_window(10, 4, 3), (10, 10));
    assert_eq!(page_window(10, 4, usize::MAX), (10, 10));
    assert_eq!(page_window(0, 4, 0), (0, 0));
    assert_eq!(page_window(8, 4, 1), (4, 8));
    assert_eq!(page_window(8, 4, 2), (8, 8));
}

#[test]
fn input_paged_to_a_mirror_is_byte_identical() {
    for len in [0usize, 1, 5, 8191, 8192, 8193, 20000] {
        let bytes = pattern(len);
        let mut buffer = FunctionInputBuffer::new();
        buffer.initialize(bytes.clone());
        let mut memory = LinearMemory::new(FUNCTION_INPUT_BUFFER_SIZE + 64);
        let (mirror, _) = page_input_out(&mut buffer, &mut memory, 64);
        assert_eq!(mirror, bytes);
    }
}

#[test]
fn large_input_is_delivered_by_four_calls() {
    let len = 3 * FUNCTION_INPUT_BUFFER_SIZE + 7;
    let bytes = pattern(len);
    let mut buffer = FunctionInputBuffer::new();
    buffer.initialize(bytes.clone());
    assert_eq!(buffer.len(), len);
    let mut memory = LinearMemory::new(FUNCTION_INPUT_BUFFER_SIZE);
    let (mirror, calls) = page_input_out(&mut buffer, &mut memory, 0);
    assert_eq!(calls, 4);
    assert_eq!(mirror, bytes);
}

#[test]
fn first_writes_no_more_than_one_page() {
    let bytes = vec![9u8; FUNCTION_INPUT_BUFFER_SIZE + 100];
    let mut buffer = FunctionInputBuffer::new();
    buffer.initialize(bytes);
    let mut memory = LinearMemory::new(FUNCTION_INPUT_BUFFER_SIZE + 200);
    assert_eq!(buffer.first(&mut memory, 0), 0);
    let after = memory.as_bytes();
    assert!(after[..FUNCTION_INPUT_BUFFER_SIZE].iter().all(|b| *b == 9));
    assert!(after[FUNCTION_INPUT_BUFFER_SIZE..].iter().all(|b| *b == 0));
}

#[test]
fn next_behind_the_end_copies_nothing_and_returns_zero() {
    let mut buffer = FunctionInputBuffer::new();
    buffer.initialize(vec![1, 2, 3]);
    let mut memory = LinearMemory::from_bytes(vec![7u8; 16]);
    assert_eq!(buffer.first(&mut memory, 4), 0);
    assert_eq!(memory.as_bytes()[..8], [7, 7, 7, 7, 1, 2, 3, 7]);
    assert_eq!(buffer.next(&mut memory, 0), 0);
    assert_eq!(buffer.next(&mut memory, 0), 0);
    assert_eq!(memory.as_bytes()[..8], [7, 7, 7, 7, 1, 2, 3, 7]);
}

#[test]
fn first_fails_where_the_page_does_not_fit() {
    let mut buffer = FunctionInputBuffer::new();
    buffer.initialize(vec![1, 2, 3, 4]);
    let mut memory = LinearMemory::from_bytes(vec![0u8; 6]);
    assert_eq!(buffer.first(&mut memory, 3), -1);
    assert_eq!(memory.as_bytes(), &vec![0u8; 6]);
    assert_eq!(buffer.first(&mut memory, 2), 0);
    assert_eq!(memory.as_bytes(), &vec![0, 0, 1, 2, 3, 4]);
}

#[test]
fn first_after_next_starts_again_at_page_zero() {
    let bytes = pattern(FUNCTION_INPUT_BUFFER_SIZE + 3);
    let mut buffer = FunctionInputBuffer::new();
    buffer.initialize(bytes.clone());
    let mut memory = LinearMemory::new(FUNCTION_INPUT_BUFFER_SIZE);
    assert_eq!(buffer.first(&mut memory, 0), 0);
    assert_eq!(buffer.next(&mut memory, 0), 0);
    assert_eq!(memory.memory_read(0, 3).unwrap(), bytes[FUNCTION_INPUT_BUFFER_SIZE..].to_vec());
    assert_eq!(buffer.first(&mut memory, 0), 0);
    assert_eq!(memory.memory_read(0, 3).unwrap(), bytes[..3].to_vec());
}

#[test]
fn linear_buffer_write_overwrites_in_place_and_clips() {
    let mut buffer = FunctionInputBuffer::new();
    buffer.initialize(vec![0u8; 5]);
    assert_eq!(buffer.write(&[1, 2], 1), 2);
    assert_eq!(buffer.write(&[7, 8, 9], 3), 2);
    assert_eq!(buffer.write(&[5], 5), 0);
    assert_eq!(buffer.write(&[5], 99), 0);
    assert_eq!(buffer.len(), 5);
    let mut memory = LinearMemory::new(5);
    assert_eq!(buffer.first(&mut memory, 0), 0);
    assert_eq!(memory.as_bytes(), &vec![0, 1, 2, 7, 8]);
}

#[test]
fn linear_buffer_erase_zeroes_a_range_and_clips() {
    let mut buffer = FunctionInputBuffer::new();
    buffer.initialize(vec![1, 2, 3, 4, 5]);
    assert_eq!(buffer.erase(1, 2), 2);
    assert_eq!(buffer.erase(4, 10), 1);
    assert_eq!(buffer.erase(5, 1), 0);
    assert_eq!(buffer.erase(0, 0), 0);
    let mut memory = LinearMemory::new(5);
    assert_eq!(buffer.first(&mut memory, 0), 0);
    assert_eq!(memory.as_bytes(), &vec![1, 0, 0, 4, 0]);
}

#[test]
fn linear_buffer_capacity_is_at_least_its_length() {
    let mut buffer = FunctionInputBuffer::new();
    buffer.initialize(vec![1, 2, 3]);
    assert!(buffer.capacity() >= 3);
    assert_eq!(buffer.len(), 3);
}

#[test]
fn input_copy_to_wasm_copies_the_given_range() {
    let mut buffer = FunctionInputBuffer::new();
    buffer.initialize(vec![1, 2, 3, 4, 5]);
    let mut memory = LinearMemory::new(4);
    assert_eq!(buffer.copy_to_wasm(&mut memory, (1, 4), (1, 0)), Ok(()));
    assert_eq!(memory.as_bytes(), &vec![0, 2, 3, 4]);
    assert_eq!(buffer.copy_to_wasm(&mut memory, (3, 2), (0, 0)), Err(()));
    assert_eq!(buffer.copy_to_wasm(&mut memory, (0, 6), (0, 0)), Err(()));
    assert_eq!(buffer.copy_to_wasm(&mut memory, (0, 5), (0, 0)), Err(()));
    assert_eq!(memory.as_bytes(), &vec![0, 2, 3, 4]);
}

#[test]
fn memory_read_and_write_check_their_bounds() {
    let mut memory = LinearMemory::new(4);
    assert_eq!(memory.size(), 4);
    assert_eq!(memory.memory_write(1, vec![5, 6]), Ok(2));
    assert_eq!(memory.memory_read(0, 4), Ok(vec![0, 5, 6, 0]));
    assert_eq!(memory.memory_read(4, 0), Ok(vec![]));
    assert_eq!(memory.memory_read(3, 2), Err(MemoryError::InvalidMemoryAccess));
    assert_eq!(memory.memory_read(usize::MAX, 2), Err(MemoryError::InvalidMemoryAccess));
    assert_eq!(memory.memory_write(3, vec![1, 2]), Err(MemoryError::InvalidMemoryAccess));
    assert_eq!(memory.memory_write(5, vec![]), Err(MemoryError::InvalidMemoryAccess));
    assert_eq!(memory.as_bytes(), &vec![0, 5, 6, 0]);
}

#[test]
fn io_buffer_write_creates_and_appends() {
    let mut io = IoBuffer::new();
    assert_eq!(io.len(3), 0);
    assert!(!io.has(3));
    assert_eq!(io.write(3, b"ab"), 2);
    assert_eq!(io.write(3, b"cde"), 3);
    assert_eq!(io.len(3), 5);
    assert!(io.has(3));
    let mut memory = LinearMemory::new(8);
    assert_eq!(io.first(&mut memory, 3, 1), 0);
    assert_eq!(memory.as_bytes(), &b"\0abcde\0\0".to_vec());
}

#[test]
fn io_buffer_with_capacity_has_empty_buffers_with_cursors() {
    let mut io = IoBuffer::with_capacity(3, 16);
    assert!(io.has(0) && io.has(1) && io.has(2) && !io.has(3));
    assert_eq!(io.len(2), 0);
    assert!(io.can_page());
    let mut memory = LinearMemory::new(4);
    assert_eq!(io.next(&mut memory, 0), 0);
    assert_eq!(IoBuffer::with_capacity(0, 16).has(0), false);
}

#[test]
fn response_of_exactly_one_page_needs_one_first_and_no_next() {
    let bytes = pattern(IO_BUFFER_SIZE_BYTES);
    let mut io = IoBuffer::new();
    io.write(1, &bytes);
    let mut memory = LinearMemory::new(IO_BUFFER_SIZE_BYTES);
    assert!(!io.is_drained(1));
    assert_eq!(io.first(&mut memory, 1, 0), 0);
    assert_eq!(memory.as_bytes(), &bytes);
    assert!(io.is_drained(1));
}

#[test]
fn response_of_one_page_and_a_byte_needs_one_first_and_one_next() {
    let bytes = pattern(IO_BUFFER_SIZE_BYTES + 1);
    let mut io = IoBuffer::new();
    io.write(1, &bytes);
    let mut memory = LinearMemory::new(IO_BUFFER_SIZE_BYTES);
    assert_eq!(io.first(&mut memory, 1, 0), 0);
    assert_eq!(memory.as_bytes()[..], bytes[..IO_BUFFER_SIZE_BYTES]);
    assert!(!io.is_drained(1));
    assert_eq!(io.next(&mut memory, 0), 0);
    assert_eq!(memory.memory_read(0, 1), Ok(vec![bytes[IO_BUFFER_SIZE_BYTES]]));
    assert!(io.is_drained(1));
}

#[test]
fn reading_ceil_pages_of_a_response_yields_the_response() {
    for len in [0usize, 1, 32767, 32768, 32769, 70000] {
        let bytes = pattern(len);
        let mut io = IoBuffer::new();
        io.write(9, &bytes);
        let mut memory = LinearMemory::new(IO_BUFFER_SIZE_BYTES);
        let pages = (len + IO_BUFFER_SIZE_BYTES - 1) / IO_BUFFER_SIZE_BYTES;
        let mut mirror = Vec::new();
        for index in 0..pages {
            let code = if index == 0 { io.first(&mut memory, 9, 0) } else { io.next(&mut memory, 0) };
            assert_eq!(code, 0);
            let (start, end) = page_window(len, IO_BUFFER_SIZE_BYTES, index);
            mirror.extend(memory.memory_read(0, end - start).unwrap());
        }
        assert_eq!(mirror, bytes);
    }
}

#[test]
fn pages_cover_the_response_without_gap_or_overlap() {
    let len = 2 * IO_BUFFER_SIZE_BYTES + 17;
    let mut covered = vec![0u32; len];
    let mut expected_start = 0;
    for index in 0..5 {
        let (start, end) = page_window(len, IO_BUFFER_SIZE_BYTES, index);
        assert_eq!(start, expected_start);
        for slot in covered[start..end].iter_mut() {
            *slot += 1;
        }
        expected_start = end;
    }
    assert_eq!(expected_start, len);
    assert!(covered.iter().all(|n| *n == 1));
}

#[test]
fn first_on_another_buffer_makes_it_the_active_one() {
    let mut one = vec![1u8; IO_BUFFER_SIZE_BYTES];
    one.extend([10, 11]);
    let mut two = vec![2u8; IO_BUFFER_SIZE_BYTES];
    two.extend([20, 21, 22]);
    let mut io = IoBuffer::new();
    io.write(1, &one);
    io.write(2, &two);
    let mut memory = LinearMemory::new(IO_BUFFER_SIZE_BYTES);
    assert_eq!(io.first(&mut memory, 1, 0), 0);
    assert_eq!(io.first(&mut memory, 2, 0), 0);
    assert_eq!(io.next(&mut memory, 0), 0);
    assert_eq!(memory.memory_read(0, 4), Ok(vec![20, 21, 22, 2]));
    assert_eq!(io.first(&mut memory, 1, 0), 0);
    assert_eq!(io.next(&mut memory, 0), 0);
    assert_eq!(memory.memory_read(0, 4), Ok(vec![10, 11, 1, 1]));
}

#[test]
fn io_first_and_next_fail_without_a_buffer() {
    let mut io = IoBuffer::new();
    let mut memory = LinearMemory::new(8);
    assert_eq!(io.first(&mut memory, 4, 0), -1);
    assert!(!io.can_page());
    assert_eq!(io.next(&mut memory, 0), -1);
    io.write(0, b"abc");
    assert_eq!(io.next(&mut memory, 0), -1);
    assert_eq!(io.first(&mut memory, 0, 7), -1);
    assert_eq!(io.next(&mut memory, 0), -1);
    assert_eq!(io.first(&mut memory, 0, 5), 0);
    assert_eq!(io.next(&mut memory, 8), 0);
    assert_eq!(io.next(&mut memory, 9), -1);
}

#[test]
fn io_copy_to_wasm_copies_one_window_from_an_offset() {
    let mut io = IoBuffer::new();
    io.write(5, b"hello world");
    let mut memory = LinearMemory::new(6);
    assert_eq!(io.copy_to_wasm(&mut memory, (5, 6), (1, 0)), Ok(()));
    assert_eq!(memory.as_bytes(), &b"\0world".to_vec());
    assert_eq!(io.copy_to_wasm(&mut memory, (5, 50), (6, 0)), Ok(()));
    assert_eq!(io.copy_to_wasm(&mut memory, (5, 0), (0, 0)), Err(()));
    assert_eq!(io.copy_to_wasm(&mut memory, (6, 0), (0, 0)), Err(()));
    assert_eq!(memory.as_bytes(), &b"\0world".to_vec());
}
