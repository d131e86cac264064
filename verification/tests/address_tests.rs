use memview::error::Error;
use memview::generic_address::GenericAddress;
use memview::memory::Memory;

fn word_mem(base: usize, words: &[(usize, u32)], size: usize) -> Memory {
    let mut bytes = vec![0u8; size];
    for &(off, val) in words {
        bytes[off..off + 4].copy_from_slice(&val.to_le_bytes());
    }
    Memory { base, bytes }
}

#[test]
fn new_and_accessors() {
    let a = GenericAddress::new(0x1234);
    assert_eq!(a.exposed_addr(), 0x1234);
    assert_eq!(a.get_resource(), 0x1234);
}

#[test]
fn offset_moves_the_address() {
    let a = GenericAddress::new(100);
    let b = a.offset(28).unwrap();
    assert_eq!(b.exposed_addr(), 128);
    let c = b.offset(-120).unwrap();
    assert_eq!(c.exposed_addr(), 8);
}

#[test]
fn offset_to_zero_is_null_pointer() {
    let a = GenericAddress::new(100);
    assert_eq!(a.offset(-100), Err(Error::NullPointer));
}

#[test]
fn offset_composes() {
    // offset(d1) then offset(d2) equals offset(d1 + d2) when the
    // intermediate result is not null
    let a = GenericAddress::new(1000);
    let two_steps = a.offset(7).unwrap().offset(35).unwrap();
    let one_step = a.offset(42).unwrap();
    assert_eq!(two_steps, one_step);
}

#[test]
fn copy_as_round_trips_exact_bytes() {
    let mem = Memory { base: 100, bytes: (0u8..16).collect() };
    let a = GenericAddress::new(104);
    let copied = a.copy_as(&mem, 5).unwrap();
    assert_eq!(copied, vec![4u8, 5, 6, 7, 8]);
}

#[test]
fn copy_as_rejects_null() {
    let mem = Memory { base: 0, bytes: vec![1, 2, 3] };
    let a = GenericAddress::new(0);
    assert_eq!(a.copy_as(&mem, 1), Err(Error::NullPointer));
}

#[test]
fn copy_as_rejects_uncovered_range() {
    let mem = Memory { base: 100, bytes: vec![1, 2, 3, 4] };
    let a = GenericAddress::new(102);
    assert_eq!(a.copy_as(&mem, 3), Err(Error::OutOfBounds));
    assert_eq!(a.copy_as(&mem, 2).unwrap(), vec![3, 4]);
}

#[test]
fn deref_zero_times_is_identity() {
    let mem = Memory { base: 0x1000, bytes: vec![0u8; 16] };
    let a = GenericAddress::new(0xABCD);
    assert_eq!(a.deref(&mem, 0).unwrap(), a);
}

#[test]
fn deref_follows_the_chain() {
    let mem = word_mem(0x1000, &[(0, 0x1008), (8, 0x1010), (16, 0x77)], 32);
    let a = GenericAddress::new(0x1000);
    assert_eq!(a.deref(&mem, 1).unwrap().exposed_addr(), 0x1008);
    assert_eq!(a.deref(&mem, 2).unwrap().exposed_addr(), 0x1010);
    assert_eq!(a.deref(&mem, 3).unwrap().exposed_addr(), 0x77);
}

#[test]
fn deref_many_equals_sequential_singles() {
    let mem = word_mem(0x1000, &[(0, 0x1008), (8, 0x1010), (16, 0x77)], 32);
    let a = GenericAddress::new(0x1000);
    let singles = a
        .deref(&mem, 1)
        .unwrap()
        .deref(&mem, 1)
        .unwrap()
        .deref(&mem, 1)
        .unwrap();
    assert_eq!(a.deref(&mem, 3).unwrap(), singles);
}

#[test]
fn deref_rejects_null_word() {
    let mem = word_mem(0x1000, &[(0, 0)], 16);
    let a = GenericAddress::new(0x1000);
    assert_eq!(a.deref(&mem, 1), Err(Error::NullPointer));
}

#[test]
fn deref_rejects_null_start_and_uncovered_read() {
    let mem = word_mem(0x1000, &[(0, 0x50)], 16);
    assert_eq!(GenericAddress::new(0).deref(&mem, 1), Err(Error::NullPointer));
    // 0x50 is outside the view
    assert_eq!(GenericAddress::new(0x1000).deref(&mem, 2), Err(Error::OutOfBounds));
}

#[test]
fn error_messages() {
    assert_eq!(
        Error::NullPointer.message(),
        "Encountered a null pointer (most often happens in dereferencing operation)"
    );
    assert_eq!(
        Error::CantFind.message(),
        "Failed to perform a find operation (most often memory related)"
    );
}

#[test]
fn error_descriptions() {
    assert_eq!(Error::NullPointer.description(), "null pointer");
    assert_eq!(Error::NoSentinelCharacter.description(), "no sentinel character");
    assert_eq!(Error::CantFind.description(), "failed a find operation");
    assert_eq!(Error::OutOfBounds.description(), "read outside the memory view");
}
