use memview::error::Error;
use memview::memory::Memory;
use memview::module::{ImageRecord, Module};
use memview::read_c_string;

const BASE: usize = 0x40_0000;

fn put_u32(bytes: &mut [u8], off: usize, val: u32) {
    bytes[off..off + 4].copy_from_slice(&val.to_le_bytes());
}

fn put_u16(bytes: &mut [u8], off: usize, val: u16) {
    bytes[off..off + 2].copy_from_slice(&val.to_le_bytes());
}

/// Lay a minimal 32-bit image with an export directory into `bytes`:
/// DOS header offset, NT headers, the first data-directory entry, and the
/// three export tables, with the given `(name, function rva)` entries.
fn put_export_directory(bytes: &mut [u8], entries: &[(&str, u32)]) {
    put_u32(bytes, 0x3C, 0x80); // NT headers at +0x80
    put_u32(bytes, 0x80 + 120, 0x200); // export directory at +0x200
    put_u32(bytes, 0x200 + 24, entries.len() as u32); // NumberOfNames
    put_u32(bytes, 0x200 + 28, 0x380); // AddressOfFunctions
    put_u32(bytes, 0x200 + 32, 0x300); // AddressOfNames
    put_u32(bytes, 0x200 + 36, 0x340); // AddressOfNameOrdinals
    let mut name_off = 0x400usize;
    for (i, &(name, fn_rva)) in entries.iter().enumerate() {
        put_u32(bytes, 0x300 + 4 * i, name_off as u32);
        put_u16(bytes, 0x340 + 2 * i, i as u16);
        put_u32(bytes, 0x380 + 4 * i, fn_rva);
        bytes[name_off..name_off + name.len()].copy_from_slice(name.as_bytes());
        bytes[name_off + name.len()] = 0;
        name_off += name.len() + 1;
    }
}

fn one_record(name: &str, size: usize) -> (Vec<ImageRecord>, Memory) {
    let records = vec![ImageRecord { name: name.to_string(), base: BASE, size }];
    let mem = Memory { base: BASE, bytes: vec![0u8; size] };
    (records, mem)
}

#[test]
fn missing_sentinel_always_fails() {
    let (records, mem) = one_record("client.dll", 0x100);
    // the record would match, but the name lacks its terminator
    assert!(matches!(
        Module::new("client.dll", &records, &mem),
        Err(Error::NoSentinelCharacter)
    ));
    assert!(matches!(Module::new("", &records, &mem), Err(Error::NoSentinelCharacter)));
}

#[test]
fn resolve_captures_the_record_range() {
    let (records, mem) = one_record("client.dll", 0x100);
    let m = Module::new("client.dll\0", &records, &mem).unwrap();
    assert_eq!(m.get_start(), BASE);
    assert_eq!(m.get_end(), BASE + 0x100);
    assert_eq!(m.get_size(), 0x100);
}

#[test]
fn resolve_is_case_insensitive() {
    let (records, mem) = one_record("Client.DLL", 0x100);
    assert!(Module::new("client.dll\0", &records, &mem).is_ok());
    assert!(Module::new("CLIENT.dll\0", &records, &mem).is_ok());
}

#[test]
fn resolve_unknown_name_is_cant_find() {
    let (records, mem) = one_record("client.dll", 0x100);
    assert!(matches!(Module::new("engine.dll\0", &records, &mem), Err(Error::CantFind)));
}

#[test]
fn resolve_takes_the_first_matching_record() {
    let records = vec![
        ImageRecord { name: "other.dll".to_string(), base: BASE, size: 0x10 },
        ImageRecord { name: "client.dll".to_string(), base: BASE + 0x100, size: 0x20 },
        ImageRecord { name: "client.dll".to_string(), base: BASE + 0x800, size: 0x30 },
    ];
    let mem = Memory { base: BASE, bytes: vec![0u8; 0x1000] };
    let m = Module::new("client.dll\0", &records, &mem).unwrap();
    assert_eq!(m.get_start(), BASE + 0x100);
    assert_eq!(m.get_end(), BASE + 0x120);
}

#[test]
fn from_range_has_no_exports() {
    let m = Module::new_with(BASE, BASE + 0x40);
    assert!(m.get_exports().get("anything").is_none());
}

#[test]
fn export_resolution_keeps_real_entries_and_skips_self_referential_ones() {
    // "Foo" resolves to base+0x10; "Bar" resolves to the base itself,
    // the invalid marker, and is omitted
    let mut bytes = vec![0u8; 0x1000];
    put_export_directory(&mut bytes, &[("Foo", 0x10), ("Bar", 0)]);
    let records = vec![ImageRecord { name: "game.dll".to_string(), base: BASE, size: 0x1000 }];
    let mem = Memory { base: BASE, bytes };
    let m = Module::new("game.dll\0", &records, &mem).unwrap();
    let foo = m.get_exports().get("Foo").expect("Foo must be exported");
    assert_eq!(foo.exposed_addr(), BASE + 0x10);
    assert!(m.get_exports().get("Bar").is_none());
    assert!(m.get_exports().get("foo").is_none()); // keys are case-sensitive
}

#[test]
fn export_resolution_skips_entries_leaving_the_range() {
    let mut bytes = vec![0u8; 0x1000];
    put_export_directory(&mut bytes, &[("In", 0x20), ("Out", 0x4000)]);
    let records = vec![ImageRecord { name: "game.dll".to_string(), base: BASE, size: 0x1000 }];
    let mem = Memory { base: BASE, bytes };
    let m = Module::new("game.dll\0", &records, &mem).unwrap();
    assert!(m.get_exports().get("In").is_some());
    assert!(m.get_exports().get("Out").is_none());
}

#[test]
fn string_cross_reference() {
    // "HELLO\0" sits at offset 100; offset 200 holds the little-endian
    // encoding of (base + 100); the cross-reference is base + 200
    let mut bytes = vec![0u8; 0x400];
    bytes[100..106].copy_from_slice(b"HELLO\0");
    put_u32(&mut bytes, 200, (BASE + 100) as u32);
    let m = Module::new_with(BASE, BASE + 0x400);
    let mem = Memory { base: BASE, bytes };
    let hit = m.find_string(&mem, "HELLO").unwrap();
    assert_eq!(hit.exposed_addr(), BASE + 200);
    // there is exactly one cross-reference
    assert!(matches!(m.find_nth_string(&mem, "HELLO", 1), Err(Error::CantFind)));
}

#[test]
fn string_cross_reference_missing_string_is_cant_find() {
    let m = Module::new_with(BASE, BASE + 0x100);
    let mem = Memory { base: BASE, bytes: vec![0xFFu8; 0x100] };
    assert!(matches!(m.find_string(&mem, "HELLO"), Err(Error::CantFind)));
}

#[test]
fn read_c_string_reads_until_nul() {
    let mut bytes = vec![0u8; 64];
    bytes[10..16].copy_from_slice(b"hello\0");
    let mem = Memory { base: BASE, bytes };
    assert_eq!(read_c_string(&mem, BASE + 10).unwrap(), "hello");
}

#[test]
fn read_c_string_rejects_null_empty_and_unterminated() {
    let mem = Memory { base: BASE, bytes: vec![b'x'; 8] };
    assert!(read_c_string(&mem, 0).is_none()); // null address
    let mut bytes = vec![b'x'; 8];
    bytes[0] = 0;
    let mem2 = Memory { base: BASE, bytes };
    assert!(read_c_string(&mem2, BASE).is_none()); // empty string
    assert!(read_c_string(&mem, BASE).is_none()); // no NUL inside the view
}
