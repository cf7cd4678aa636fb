use lpc55_usbhs::drivers::usbd::constants::{EP_MEM_ADDR, EP_MEM_SIZE, EP_REGISTERS_SIZE};
use lpc55_usbhs::drivers::usbd::endpoint_memory::{
    EndpointBuffer, EndpointMemoryAllocator, UsbError,
};
use vcell::VolatileCell;

/// The memory from the start of the buffer on, as the cells that a transfer of `len` bytes asks for.
fn part(
    buffer: &EndpointBuffer,
    memory: &[u8],
    len: usize,
) -> (Vec<VolatileCell<u32>>, Vec<VolatileCell<u8>>) {
    let behind = buffer.offset() + 4 * buffer.word_count(len);
    let words = memory[buffer.offset()..behind]
        .chunks(4)
        .map(|bytes| VolatileCell::new(u32::from_le_bytes([bytes[0], bytes[1], bytes[2], bytes[3]])))
        .collect();
    let rest = memory[behind..].iter().map(|byte| VolatileCell::new(*byte)).collect();
    (words, rest)
}

/// The cells, put back where they came from.
fn put_back(
    buffer: &EndpointBuffer,
    memory: &mut Vec<u8>,
    words: &[VolatileCell<u32>],
    rest: &[VolatileCell<u8>],
) {
    memory.truncate(buffer.offset());
    memory.extend(words.iter().flat_map(|cell| cell.get().to_le_bytes()));
    memory.extend(rest.iter().map(|cell| cell.get()));
    assert_eq!(memory.len(), EP_MEM_SIZE);
}

fn write(buffer: &EndpointBuffer, memory: &mut Vec<u8>, data: &[u8]) {
    let (mut words, mut rest) = part(buffer, memory, data.len());
    buffer.write(&mut words, &mut rest, data);
    put_back(buffer, memory, &words, &rest);
}

fn read(buffer: &EndpointBuffer, memory: &mut Vec<u8>, buf: &mut [u8]) {
    let (mut words, mut rest) = part(buffer, memory, buf.len());
    buffer.read(&mut words, &mut rest, buf);
    put_back(buffer, memory, &words, &rest);
}

fn allocate(allocator: &mut EndpointMemoryAllocator, size: usize) -> EndpointBuffer {
    match allocator.allocate_buffer(size) {
        Ok(buffer) => buffer,
        Err(error) => panic!("{:?}", error),
    }
}

fn refuse(allocator: &mut EndpointMemoryAllocator, size: usize) -> UsbError {
    match allocator.allocate_buffer(size) {
        Ok(_) => panic!("there is no room for {} bytes", size),
        Err(error) => error,
    }
}

#[test]
fn memory_is_usb1_sram() {
    assert_eq!(EP_MEM_ADDR, 0x4010_0000);
    assert_eq!(EP_MEM_SIZE, 0x4000);
    assert!(EP_REGISTERS_SIZE <= EP_MEM_SIZE);
}

#[test]
fn buffers_follow_each_other_aligned() {
    let mut allocator = EndpointMemoryAllocator::new();
    let first = allocate(&mut allocator, 64);
    let second = allocate(&mut allocator, 1);
    let third = allocate(&mut allocator, 65);
    let fourth = allocate(&mut allocator, 512);
    assert_eq!((first.offset(), first.capacity()), (0x80, 64));
    assert_eq!((second.offset(), second.capacity()), (0xc0, 1));
    assert_eq!((third.offset(), third.capacity()), (0x100, 65));
    assert_eq!((fourth.offset(), fourth.capacity()), (0x180, 512));
    for buffer in [&first, &second, &third, &fourth] {
        assert_eq!(buffer.offset() % 64, 0);
        assert_eq!(buffer.addr() % 64, 0);
        assert!(buffer.offset() >= EP_REGISTERS_SIZE);
        assert!(buffer.offset() + buffer.capacity() <= EP_MEM_SIZE);
        assert!(!buffer.is_empty());
    }
}

#[test]
fn default_allocator_is_new() {
    let mut allocator = EndpointMemoryAllocator::default();
    assert_eq!(allocate(&mut allocator, 8).offset(), 0x80);
}

#[test]
fn address_is_offset_into_memory() {
    let buffer = EndpointBuffer::new(0x1c0, 0x40);
    assert_eq!(buffer.offset(), 0x1c0);
    assert_eq!(buffer.addr(), 0x4010_01c0);
    assert_eq!(buffer.capacity(), 0x40);
}

#[test]
fn memory_can_be_used_up() {
    let mut allocator = EndpointMemoryAllocator::new();
    let all = allocate(&mut allocator, EP_MEM_SIZE - 0x80);
    assert_eq!(all.offset() + all.capacity(), EP_MEM_SIZE);
    assert!(refuse(&mut allocator, 1) == UsbError::EndpointMemoryOverflow);
    let nothing = allocate(&mut allocator, 0);
    assert_eq!(nothing.offset(), EP_MEM_SIZE);
    assert_eq!(nothing.capacity(), 0);
    assert!(nothing.is_empty());
}

#[test]
fn refused_request_changes_nothing() {
    let mut allocator = EndpointMemoryAllocator::new();
    assert!(refuse(&mut allocator, EP_MEM_SIZE - 0x7f) == UsbError::EndpointMemoryOverflow);
    assert!(refuse(&mut allocator, usize::MAX) == UsbError::EndpointMemoryOverflow);
    assert_eq!(allocate(&mut allocator, EP_MEM_SIZE - 0x80).offset(), 0x80);
}

#[test]
fn whole_words_are_counted() {
    let buffer = EndpointBuffer::new(0x80, 10);
    assert_eq!(buffer.word_count(0), 0);
    assert_eq!(buffer.word_count(3), 0);
    assert_eq!(buffer.word_count(4), 1);
    assert_eq!(buffer.word_count(8), 2);
    assert_eq!(buffer.word_count(10), 2);
    assert_eq!(buffer.word_count(100), 2);
}

#[test]
fn words_are_stored_whole_and_the_tail_by_bytes() {
    let buffer = EndpointBuffer::new(0x3fc0, 11);
    let mut words = [VolatileCell::new(0xffff_ffff), VolatileCell::new(0xffff_ffff)];
    let mut rest: Vec<VolatileCell<u8>> = (0..56).map(|_| VolatileCell::new(0xee)).collect();
    buffer.write(&mut words, &mut rest, &[1, 2, 3, 4, 5, 6, 7, 8, 9, 10]);
    assert_eq!(words[0].get(), 0x0403_0201);
    assert_eq!(words[1].get(), 0x0807_0605);
    assert_eq!((rest[0].get(), rest[1].get(), rest[2].get()), (9, 10, 0xee));
}

#[test]
fn words_are_loaded_whole_and_the_tail_by_bytes() {
    let buffer = EndpointBuffer::new(0x3fc0, 11);
    let mut words = [VolatileCell::new(0x0403_0201), VolatileCell::new(0xf807_0605)];
    let mut rest: Vec<VolatileCell<u8>> = (0..56).map(|i| VolatileCell::new(0x90 + i)).collect();
    let mut buf = [0u8; 12];
    buffer.read(&mut words, &mut rest, &mut buf);
    assert_eq!(buf, [1, 2, 3, 4, 5, 6, 7, 0xf8, 0x90, 0x91, 0x92, 0]);
}

#[test]
fn write_stores_into_the_buffer_alone() {
    let mut memory = vec![0xee; EP_MEM_SIZE];
    let buffer = EndpointBuffer::new(0x80, 7);
    write(&buffer, &mut memory, &[1, 2, 3, 4, 5, 6]);
    let mut expected = vec![0xee; EP_MEM_SIZE];
    expected[0x80..0x86].copy_from_slice(&[1, 2, 3, 4, 5, 6]);
    assert_eq!(memory, expected);
}

#[test]
fn write_stops_at_capacity() {
    let mut memory = vec![0; EP_MEM_SIZE];
    let buffer = EndpointBuffer::new(0x40, 5);
    write(&buffer, &mut memory, &[9, 8, 7, 6, 5, 4, 3]);
    assert_eq!(memory[0x3f..0x47], [0, 9, 8, 7, 6, 5, 0, 0]);
}

#[test]
fn read_loads_from_the_buffer() {
    let mut memory = vec![0; EP_MEM_SIZE];
    for i in 0..16u8 {
        memory[0x100 + i as usize] = 0x10 + i;
    }
    let buffer = EndpointBuffer::new(0x100, 16);
    let mut buf = [0u8; 11];
    read(&buffer, &mut memory, &mut buf);
    assert_eq!(buf, [0x10, 0x11, 0x12, 0x13, 0x14, 0x15, 0x16, 0x17, 0x18, 0x19, 0x1a]);
}

#[test]
fn read_leaves_what_the_buffer_does_not_reach() {
    let mut memory = vec![0x55; EP_MEM_SIZE];
    for size in [3usize, 4, 5, 7] {
        let buffer = EndpointBuffer::new(0x100, size);
        let mut buf = [1u8, 2, 3, 4, 5, 6, 7, 8, 9];
        read(&buffer, &mut memory, &mut buf);
        assert_eq!(buf[..size], vec![0x55; size][..]);
        assert_eq!(buf[size..], [1u8, 2, 3, 4, 5, 6, 7, 8, 9][size..]);
        assert_eq!(memory, vec![0x55; EP_MEM_SIZE]);
    }
}

#[test]
fn empty_transfers_do_nothing() {
    let mut memory = vec![3; EP_MEM_SIZE];
    let empty = EndpointBuffer::new(EP_MEM_SIZE, 0);
    let mut buf = [7u8; 4];
    read(&empty, &mut memory, &mut buf);
    assert_eq!(buf, [7; 4]);
    write(&empty, &mut memory, &[1, 2]);
    let buffer = EndpointBuffer::new(0, 4);
    write(&buffer, &mut memory, &[]);
    read(&buffer, &mut memory, &mut []);
    assert_eq!(memory, vec![3; EP_MEM_SIZE]);
}

#[test]
fn read_returns_what_was_written() {
    let mut memory = vec![0; EP_MEM_SIZE];
    let buffer = EndpointBuffer::new(0x240, 64);
    for len in 0..=64usize {
        let data: Vec<u8> = (0..len).map(|i| (i * 7 + len) as u8).collect();
        write(&buffer, &mut memory, &data);
        let mut back = vec![0u8; len];
        read(&buffer, &mut memory, &mut back);
        assert_eq!(back, data);
        let mut start = vec![0u8; len / 2];
        read(&buffer, &mut memory, &mut start);
        assert_eq!(start[..], data[..len / 2]);
    }
}

#[test]
fn buffers_do_not_disturb_each_other() {
    let mut memory = vec![0; EP_MEM_SIZE];
    let mut allocator = EndpointMemoryAllocator::new();
    let one = allocate(&mut allocator, 10);
    let two = allocate(&mut allocator, 10);
    one_after_the_other(&one, &two, &mut memory);
    one_after_the_other(&two, &one, &mut memory);
    assert_eq!(memory[..EP_REGISTERS_SIZE], vec![0; EP_REGISTERS_SIZE][..]);
}

fn one_after_the_other(one: &EndpointBuffer, two: &EndpointBuffer, memory: &mut Vec<u8>) {
    write(one, memory, &[1; 20]);
    write(two, memory, &[2; 20]);
    let mut buf = [0u8; 10];
    read(one, memory, &mut buf);
    assert_eq!(buf, [1; 10]);
    read(two, memory, &mut buf);
    assert_eq!(buf, [2; 10]);
}

#[test]
fn what_did_not_fit_does_not_fit_later() {
    let mut allocator = EndpointMemoryAllocator::new();
    assert!(refuse(&mut allocator, 0x3f81) == UsbError::EndpointMemoryOverflow);
    for _ in 0..10 {
        allocate(&mut allocator, 64);
        assert!(refuse(&mut allocator, 0x3f81) == UsbError::EndpointMemoryOverflow);
    }
}
