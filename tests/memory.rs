use contract_vm::buffer::{read_buffer, read_length, write_buffer};
use contract_vm::error::EngineError;
use contract_vm::memory::{LinearMemory, MAX_MEMORY_SIZE};

#[test]
fn read_length_below_four_fails() {
    let mem = LinearMemory::new(64, 128).unwrap();
    for ptr in 0..4u64 {
        assert_eq!(read_length(&mem, ptr), Err(EngineError::MemoryAccess));
    }
}

#[test]
fn read_length_decodes_little_endian_prefix() {
    let mut mem = LinearMemory::new(16, 16).unwrap();
    mem.write(4, &[0x01, 0x02, 0x03, 0x04]).unwrap();
    assert_eq!(read_length(&mem, 8), Ok(0x0403_0201));
    assert_eq!(read_length(&mem, 17), Err(EngineError::MemoryAccess));
}

#[test]
fn read_buffer_past_end_fails() {
    let mut mem = LinearMemory::new(16, 16).unwrap();
    mem.write(4, &[9, 0, 0, 0]).unwrap();
    assert_eq!(read_buffer(&mem, 8), Err(EngineError::MemoryAccess));
    mem.write(4, &[8, 0, 0, 0]).unwrap();
    assert_eq!(read_buffer(&mem, 8), Ok(vec![0u8; 8]));
}

#[test]
fn buffer_round_trip() {
    let mut mem = LinearMemory::new(3, 1024).unwrap();
    let data = vec![10u8, 20, 30, 40, 50];
    let ptr = write_buffer(&mut mem, &data, 13, 0).unwrap();
    assert_eq!(ptr, 11);
    assert_eq!(read_buffer(&mem, ptr), Ok(data.clone()));
    assert_eq!(read_length(&mem, ptr), Ok(5));
    assert_eq!(mem.read(ptr - 8, 4), Ok(vec![13, 0, 0, 0]));
    assert_eq!(mem.size(), 16);
}

#[test]
fn buffer_round_trip_aligned() {
    let mut mem = LinearMemory::new(3, 1024).unwrap();
    let ptr = write_buffer(&mut mem, &[1, 2, 3], -1, 4).unwrap();
    assert_eq!(ptr, 16);
    assert_eq!(read_buffer(&mem, ptr), Ok(vec![1, 2, 3]));
    assert_eq!(mem.read(8, 4), Ok(vec![255, 255, 255, 255]));
    assert_eq!(mem.read(3, 5), Ok(vec![0, 0, 0, 0, 0]));
    let second = write_buffer(&mut mem, &[], 0, 2).unwrap();
    assert_eq!(second, 28);
    assert_eq!(read_buffer(&mem, second), Ok(vec![]));
}

#[test]
fn write_buffer_rejects_large_alignment() {
    let mut mem = LinearMemory::new(0, 1024).unwrap();
    assert_eq!(write_buffer(&mut mem, &[1], 0, 17), Err(EngineError::MemoryAccess));
    assert_eq!(mem.size(), 0);
}

#[test]
fn write_buffer_over_capacity_changes_nothing() {
    let mut mem = LinearMemory::new(4, 20).unwrap();
    assert_eq!(write_buffer(&mut mem, &[0u8; 9], 0, 0), Err(EngineError::Capacity));
    assert_eq!(mem.size(), 4);
    assert_eq!(write_buffer(&mut mem, &[7u8; 8], 0, 0), Ok(12));
    assert_eq!(mem.size(), 20);
}

#[test]
fn grow_up_to_maximum() {
    let mut mem = LinearMemory::new(10, 100).unwrap();
    assert_eq!(mem.grow(90), Ok(10));
    assert_eq!(mem.size(), 100);
    assert!(mem.is_out_of_memory());
}

#[test]
fn grow_past_maximum_fails_unchanged() {
    let mut mem = LinearMemory::new(10, 100).unwrap();
    assert_eq!(mem.grow(91), Err(EngineError::Capacity));
    assert_eq!(mem.size(), 10);
    assert!(!mem.is_out_of_memory());
    assert_eq!(mem.grow(u64::MAX), Err(EngineError::Capacity));
    assert_eq!(mem.size(), 10);
}

#[test]
fn memory_configuration_bounds() {
    assert!(LinearMemory::new(0, MAX_MEMORY_SIZE).is_ok());
    assert_eq!(LinearMemory::new(11, 10).err(), Some(EngineError::Capacity));
    assert_eq!(LinearMemory::new(0, 1u64 << 32).err(), Some(EngineError::Capacity));
}

#[test]
fn memory_read_write_bounds() {
    let mut mem = LinearMemory::new(8, 8).unwrap();
    assert_eq!(mem.write(6, &[1, 2]), Ok(()));
    assert_eq!(mem.write(7, &[1, 2]), Err(EngineError::MemoryAccess));
    assert_eq!(mem.read(0, 8), Ok(vec![0, 0, 0, 0, 0, 0, 1, 2]));
    assert_eq!(mem.read(7, 2), Err(EngineError::MemoryAccess));
    assert_eq!(mem.read(u64::MAX, 2), Err(EngineError::MemoryAccess));
    assert_eq!(mem.read_u8(7), Ok(2));
    assert_eq!(mem.read_u8(8), Err(EngineError::MemoryAccess));
}

#[test]
fn reset_restores_initial_zeroed_memory() {
    let mut mem = LinearMemory::new(4, 64).unwrap();
    mem.write(0, &[1, 2, 3, 4]).unwrap();
    mem.grow(10).unwrap();
    mem.reset();
    assert_eq!(mem.size(), 4);
    assert_eq!(mem.read(0, 4), Ok(vec![0, 0, 0, 0]));
}
