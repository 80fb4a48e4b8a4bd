use microcomputer::computer::CPUError;
use microcomputer::memory::Memory;

#[test]
fn memory_starts_zeroed() {
    let memory = Memory::new(64);
    assert_eq!(memory.size(), 64);
    for address in 0..64 {
        assert_eq!(memory.get(address), Ok(0));
    }
}

#[test]
fn memory_reads_back_what_was_written() {
    let mut memory = Memory::new(16);
    assert_eq!(memory.set(0, 0xAB), Ok(()));
    assert_eq!(memory.set(15, 0xCD), Ok(()));
    assert_eq!(memory.get(0), Ok(0xAB));
    assert_eq!(memory.get(15), Ok(0xCD));
    assert_eq!(memory.get(1), Ok(0));
    assert_eq!(memory.set(0, 0x01), Ok(()));
    assert_eq!(memory.get(0), Ok(0x01));
    assert_eq!(memory.size(), 16);
}

#[test]
fn memory_rejects_a_read_outside() {
    let memory = Memory::new(16);
    assert_eq!(memory.get(16), Err(CPUError::MemoryAccessError(16)));
    assert_eq!(memory.get(17), Err(CPUError::MemoryAccessError(17)));
    assert_eq!(memory.get(usize::MAX), Err(CPUError::MemoryAccessError(usize::MAX)));
}

#[test]
fn memory_rejects_a_write_outside_and_stays_unchanged() {
    let mut memory = Memory::new(4);
    assert_eq!(memory.set(4, 9), Err(CPUError::MemoryAccessError(4)));
    assert_eq!(memory.set(1000, 9), Err(CPUError::MemoryAccessError(1000)));
    assert_eq!(memory.size(), 4);
    for address in 0..4 {
        assert_eq!(memory.get(address), Ok(0));
    }
}

#[test]
fn memory_without_bytes_rejects_every_access() {
    let mut memory = Memory::new(0);
    assert_eq!(memory.size(), 0);
    assert_eq!(memory.get(0), Err(CPUError::MemoryAccessError(0)));
    assert_eq!(memory.set(0, 1), Err(CPUError::MemoryAccessError(0)));
    assert_eq!(memory.peek(0), None);
}

#[test]
fn memory_peek_borrows_the_byte() {
    let mut memory = Memory::new(3);
    memory.set(2, 0x7F).unwrap();
    assert_eq!(memory.peek(2), Some(&0x7F));
    assert_eq!(memory.peek(0), Some(&0));
    assert_eq!(memory.peek(3), None);
}
