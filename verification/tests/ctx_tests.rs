use memview::chl_client::CHLClientIndices;
use memview::convar::{Cvar, CvarIndices};
use memview::ctx::{Context, ContextSlot, CtxError};
use memview::error::Error;
use memview::generic_address::GenericAddress;
use memview::mat_system_surface::MatSystemSurfaceIndices;
use memview::memory::Memory;
use memview::module::ImageRecord;
use memview::vftable::VfTable;

const BASE: usize = 0x40_0000;
const ENGINE: usize = BASE + 0x1000;
const VGUI: usize = BASE + 0x2000;

fn wr_u32(bytes: &mut [u8], off: usize, val: u32) {
    bytes[off..off + 4].copy_from_slice(&val.to_le_bytes());
}

fn wr_u16(bytes: &mut [u8], off: usize, val: u16) {
    bytes[off..off + 2].copy_from_slice(&val.to_le_bytes());
}

/// One process image: the client module (plain bytes), the engine module
/// (exports `cvar` and carries the client-module signature), and the
/// surface module (carries the surface-drawing signature).
fn process_snapshot() -> (Vec<ImageRecord>, Memory) {
    let mut bytes = vec![0u8; 0x3000];
    {
        // the engine module at offset 0x1000
        let e = &mut bytes[0x1000..0x2000];
        // export directory with the single entry "cvar" -> base + 0x500
        wr_u32(e, 0x3C, 0x80);
        wr_u32(e, 0x80 + 120, 0x200);
        wr_u32(e, 0x200 + 24, 1);
        wr_u32(e, 0x200 + 28, 0x380);
        wr_u32(e, 0x200 + 32, 0x300);
        wr_u32(e, 0x200 + 36, 0x340);
        wr_u32(e, 0x300, 0x400);
        wr_u16(e, 0x340, 0);
        wr_u32(e, 0x380, 0x500);
        e[0x400..0x405].copy_from_slice(b"cvar\0");
        // the exported static holds the manager object's address
        wr_u32(e, 0x500, (ENGINE + 0x600) as u32);
        // the client-module signature; its first wildcard run carries the
        // address of a static that in turn holds the object's address
        e[0x700] = 0x8B;
        e[0x701] = 0x0D;
        wr_u32(e, 0x702, (ENGINE + 0x800) as u32);
        e[0x706] = 0x8B;
        e[0x707] = 0x15;
        e[0x70C] = 0x8B;
        wr_u32(e, 0x800, 0x1234_5678);
    }
    {
        // the surface module at offset 0x2000
        let v = &mut bytes[0x2000..0x3000];
        v[0x100] = 0xA3;
        wr_u32(v, 0x101, (VGUI + 0x500) as u32);
        v[0x105] = 0x83;
        v[0x106] = 0x3D;
        v[0x10C] = 0x75;
        v[0x10D] = 0x14;
        v[0x10E] = 0x8B;
        v[0x10F] = 0x04;
        v[0x110] = 0xB7;
        v[0x111] = 0x6A;
        v[0x113] = 0x68;
        wr_u32(v, 0x500, 0x0BAD_F00D);
    }
    let records = vec![
        ImageRecord { name: "client.dll".to_string(), base: BASE, size: 0x100 },
        ImageRecord { name: "engine.dll".to_string(), base: ENGINE, size: 0x1000 },
        ImageRecord { name: "vguimatsurface.dll".to_string(), base: VGUI, size: 0x1000 },
    ];
    (records, Memory { base: BASE, bytes })
}

#[test]
fn context_resolves_every_interface() {
    let (records, mem) = process_snapshot();
    let ctx = Context::new(0x7777, &records, &mem).unwrap();
    assert_eq!(ctx.get_module(), 0x7777);
    assert_eq!(ctx.get_client().get_start(), BASE);
    assert_eq!(ctx.get_client().get_end(), BASE + 0x100);
    assert_eq!(ctx.get_engine().get_start(), ENGINE);
    assert_eq!(ctx.get_vguimatsurface().get_start(), VGUI);
    // the engine's exports carry the manager
    let exported = ctx.get_engine().get_exports().get("cvar").unwrap();
    assert_eq!(exported.exposed_addr(), ENGINE + 0x500);
    // the exported static, dereferenced once
    assert_eq!(ctx.get_cvar().instance().exposed_addr(), ENGINE + 0x600);
    // the signature match at +0x700, offset by 2, dereferenced twice
    assert_eq!(ctx.get_chl_client().instance().exposed_addr(), 0x1234_5678);
    // the signature match at +0x100, offset by 1, dereferenced twice
    assert_eq!(ctx.get_mat_system_surface().instance().exposed_addr(), 0x0BAD_F00D);
}

#[test]
fn context_fails_when_an_image_is_missing() {
    let (mut records, mem) = process_snapshot();
    records.remove(1); // drop the engine
    assert!(matches!(Context::new(1, &records, &mem), Err(Error::CantFind)));
}

#[test]
fn context_fails_when_the_export_is_missing() {
    let (records, mut mem) = process_snapshot();
    // wipe the engine's export name
    for b in &mut mem.bytes[0x1400..0x1405] {
        *b = b'x';
    }
    assert!(matches!(Context::new(1, &records, &mem), Err(Error::CantFind)));
}

#[test]
fn second_installation_is_rejected_and_keeps_the_first() {
    let (records, mem) = process_snapshot();
    let mut slot = ContextSlot::new();
    assert!(slot.install(0x1111, &records, &mem).is_ok());
    assert_eq!(slot.get_ctx().get_module(), 0x1111);
    let second = slot.install(0x2222, &records, &mem);
    assert_eq!(second, Err(CtxError::AlreadyInitialized));
    // the first instance is untouched
    assert_eq!(slot.get_ctx().get_module(), 0x1111);
}

#[test]
fn failed_installation_leaves_the_slot_empty() {
    let (records, mem) = process_snapshot();
    let mut slot = ContextSlot::new();
    let empty: Vec<ImageRecord> = Vec::new();
    assert_eq!(slot.install(1, &empty, &mem), Err(CtxError::Resolve(Error::CantFind)));
    // the slot can still be filled afterwards
    assert!(slot.install(0x3333, &records, &mem).is_ok());
    assert_eq!(slot.get_ctx().get_module(), 0x3333);
}

#[test]
fn ctx_error_messages() {
    assert_eq!(
        CtxError::AlreadyInitialized.message(),
        "Encountered call to an installer for an object that's already initialized (most often global context)"
    );
    assert_eq!(
        CtxError::Resolve(Error::NullPointer).message(),
        "Encountered a null pointer (most often happens in dereferencing operation)"
    );
}

#[test]
fn ctx_error_descriptions() {
    assert_eq!(CtxError::AlreadyInitialized.description(), "already initialized");
    assert_eq!(CtxError::Resolve(Error::CantFind).description(), "failed resolving the context");
}

#[test]
fn virtual_function_slot_read() {
    // object at 0x5000 points at a table at 0x6000; slot 24 holds 0x1111
    let mut bytes = vec![0u8; 0x2000];
    wr_u32(&mut bytes, 0x0, 0x6000);
    wr_u32(&mut bytes, 0x1000 + 4 * 24, 0x1111);
    let mem = Memory { base: 0x5000, bytes };
    let cvar = Cvar::new(GenericAddress::new(0x5000));
    let f = cvar.get_virtual_function(&mem, CvarIndices::ConsolePrint.slot()).unwrap();
    assert_eq!(f.exposed_addr(), 0x1111);
    // a slot outside the view is refused
    assert_eq!(cvar.get_virtual_function(&mem, 0x800), Err(Error::OutOfBounds));
}

#[test]
fn virtual_function_on_null_handle_is_null_pointer() {
    let mem = Memory { base: 0x5000, bytes: vec![0u8; 16] };
    let cvar = Cvar::default();
    assert_eq!(
        cvar.get_virtual_function(&mem, CvarIndices::ConsolePrint.slot()),
        Err(Error::NullPointer)
    );
}

#[test]
fn dispatch_slot_numbers() {
    assert_eq!(CvarIndices::ConsolePrint.slot(), 24);
    assert_eq!(CHLClientIndices::FrameStageNotify.slot(), 35);
    assert_eq!(MatSystemSurfaceIndices::SetDrawColor.slot(), 11);
    assert_eq!(MatSystemSurfaceIndices::PaintTraverse.slot(), 88);
}
