use do_core::memory::Memory;
use do_core::Error;

#[test]
fn test_memory_store_load() -> Result<(), Error> {
    let mut memory = Memory::new(4096);

    memory.store(0x100, 0xf)?;
    assert_eq!(memory.load(0x100)?, 0xf);

    Ok(())
}

#[test]
fn test_memory_overflow() -> Result<(), Error> {
    let mut memory = Memory::new(4096);

    assert!(memory.store(0x2000, 0xf).is_err());

    Ok(())
}

#[test]
fn test_memory_fresh_store_is_zeroed() -> Result<(), Error> {
    let memory = Memory::new(4096);

    assert_eq!(memory.load(0)?, 0);
    assert_eq!(memory.load(0x7ff)?, 0);

    Ok(())
}

#[test]
fn test_memory_bound_is_exclusive() -> Result<(), Error> {
    let mut memory = Memory::new(4096);

    // An address exactly equal to the size must be rejected ...
    assert!(matches!(memory.store(4096, 0x7), Err(Error::MemoryOverflow(4096))));
    assert!(matches!(memory.load(4096), Err(Error::MemoryOverflow(4096))));

    // ... while the last in-range address must be accepted.
    memory.store(4095, 0x7)?;
    assert_eq!(memory.load(4095)?, 0x7);

    Ok(())
}

#[test]
fn test_memory_store_load_round_trips_byte() -> Result<(), Error> {
    let mut memory = Memory::new(4096);

    memory.store(0x100, 0xab)?;
    assert_eq!(memory.load(0x100)?, 0xab);

    Ok(())
}
