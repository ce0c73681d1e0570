use goldsrc_overlay::entities::{
    flush_log, install_initialize_hook, log, logf, set_dll_hinst, set_frame_counter, Acquisition,
    AcquisitionState, EngineApi, HookSite, InstallOutcome, Session,
};
use goldsrc_overlay::hook::{build_trampoline, encode_jump};
use goldsrc_overlay::memory::{
    read_u32, read_u8, Region, MEM_COMMIT, PAGE_EXECUTE_READ, PAGE_NOACCESS, PAGE_READWRITE,
};
use goldsrc_overlay::scan::{find_player_extra_info, scan_with_pattern, ModuleSpan};
use goldsrc_overlay::sim::SimMemory;
use goldsrc_overlay::staleness::{observe, StalenessRecord};
use goldsrc_overlay::math::Vec3;
use goldsrc_overlay::text::weapon_name_of;

const IMAGE: usize = 0x0100_0000;
const IMAGE_END: usize = 0x0100_0400;
const TARGET: usize = IMAGE + 0x200;
const TRAMPOLINE: usize = 0x0600_0000;
const REPLACEMENT: usize = 0x0700_0010;
const ARRAY: usize = 0x0500_0000;

fn committed(base: usize, size: usize, protect: u32) -> Region {
    Region { base, size, state: MEM_COMMIT, protect }
}

fn image() -> SimMemory {
    let mut m = SimMemory::new();
    m.map_region(committed(IMAGE, IMAGE_END - IMAGE, PAGE_EXECUTE_READ));
    m.map_region(committed(TRAMPOLINE, 0x10, PAGE_READWRITE));
    m.map_region(committed(ARRAY, 0x68 * 33, PAGE_READWRITE));
    m.poke_bytes(TARGET, &vec![0x55, 0x8B, 0xEC, 0x83, 0xEC, 0x10, 0x53]);
    m
}

fn site() -> HookSite {
    HookSite {
        client_loaded: true,
        client: Some(ModuleSpan { base: IMAGE, end: IMAGE_END }),
        engine: Some(ModuleSpan { base: 0x2000_0000, end: 0x2100_0000 }),
        initialize: TARGET,
        trampoline: TRAMPOLINE,
        replacement: REPLACEMENT,
    }
}

fn bytes_at(m: &SimMemory, addr: usize, n: usize) -> Vec<u8> {
    (0..n).map(|i| read_u8(m, addr + i)).collect()
}

#[test]
fn jump_is_opcode_and_displacement() {
    assert_eq!(encode_jump(0x1000, 0x2000), vec![0xE9, 0xFB, 0x0F, 0x00, 0x00]);
    assert_eq!(encode_jump(0x2000, 0x1000), vec![0xE9, 0xFB, 0xEF, 0xFF, 0xFF]);
    assert_eq!(encode_jump(0x1000, 0x1005), vec![0xE9, 0x00, 0x00, 0x00, 0x00]);
    assert_eq!(encode_jump(0x1000, 0x1000), vec![0xE9, 0xFB, 0xFF, 0xFF, 0xFF]);
    assert_eq!(encode_jump(0xFFFF_FFF0, 0x10), vec![0xE9, 0x1B, 0x00, 0x00, 0x00]);
}

#[test]
fn trampoline_is_displaced_bytes_and_jump_back() {
    let code = build_trampoline(&vec![1, 2, 3, 4, 5], 0x0600_0000, 0x0100_0200);
    assert_eq!(code, vec![1, 2, 3, 4, 5, 0xE9, 0xFB, 0x01, 0x00, 0xFB]);
    let rel = u32::from_le_bytes([code[6], code[7], code[8], code[9]]);
    assert_eq!(0x0600_0000u32.wrapping_add(10).wrapping_add(rel), 0x0100_0205);
}

#[test]
fn entry_point_is_redirected_where_no_table_is_found() {
    let mut m = image();
    let mut s = Session::new();
    let outcome = install_initialize_hook(&mut s, &mut m, &site());
    assert_eq!(outcome, InstallOutcome::Redirected);
    assert_eq!(s.acquisition.hook_status, 0);
    assert!(s.acquisition.hook_installed);
    assert!(s.acquisition.redirected);
    assert!(!s.acquisition.map_loaded);
    assert_eq!(s.acquisition.init_target, TARGET);
    assert_eq!(s.acquisition.current_state(), AcquisitionState::AwaitingSession);
    assert_eq!(s.journal, vec!["Initialize JMP hook installed".to_string()]);
    assert_eq!(bytes_at(&m, TARGET, 7), vec![0xE9, 0x0B, 0xFE, 0xFF, 0x05, 0x10, 0x53]);
    let rel = read_u32(&m, TARGET + 1);
    assert_eq!((TARGET as u32).wrapping_add(5).wrapping_add(rel), REPLACEMENT as u32);
    assert_eq!(bytes_at(&m, TRAMPOLINE, 5), vec![0x55, 0x8B, 0xEC, 0x83, 0xEC]);
    assert_eq!(read_u8(&m, TRAMPOLINE + 5), 0xE9);
    let back = read_u32(&m, TRAMPOLINE + 6);
    assert_eq!((TRAMPOLINE as u32).wrapping_add(10).wrapping_add(back), TARGET as u32 + 5);
    assert!(EngineApi::resolve(&mut s, &mut m, &site()).is_none());
    assert_eq!(s.journal.len(), 1);
}

#[test]
fn table_arrives_with_the_next_session() {
    let mut m = image();
    let mut s = Session::new();
    install_initialize_hook(&mut s, &mut m, &site());
    s.acquisition.on_initialize(0);
    assert_eq!(s.acquisition.current_state(), AcquisitionState::AwaitingSession);
    m.map_region(committed(0x0800_0000, 0x400, PAGE_READWRITE));
    m.poke_u32(0x0800_0000 + 51 * 4, 0x2000_0100);
    m.poke_u32(0x0800_0000 + 53 * 4, 0x2000_0200);
    s.acquisition.on_initialize(0x0800_0000);
    assert_eq!(s.acquisition.current_state(), AcquisitionState::Resolved);
    assert!(EngineApi::map_loaded(&s));
    let api = EngineApi::resolve(&mut s, &mut m, &site()).expect("table");
    assert_eq!(api.table(), 0x0800_0000);
    s.acquisition.session_lost();
    assert_eq!(s.acquisition.current_state(), AcquisitionState::AwaitingSession);
    assert!(EngineApi::resolve(&mut s, &mut m, &site()).is_none());
    assert_eq!(s.journal.len(), 1);
}

#[test]
fn every_table_that_is_not_null_is_published() {
    let mut a = Acquisition::new();
    a.on_initialize(0);
    assert_eq!(a, Acquisition::new());
    a.on_initialize(0x0800_0000);
    assert_eq!(a.engine_table, 0x0800_0000);
    assert!(a.map_loaded);
    assert!(a.hook_installed);
    assert!(!a.redirected);
    assert_eq!(a.hook_status, 0xDEAD);
    assert_eq!(a.current_state(), AcquisitionState::Resolved);
    a.on_initialize(0);
    assert_eq!(a.engine_table, 0x0800_0000);
    assert!(a.map_loaded);
    a.on_initialize(0x0900_0000);
    assert_eq!(a.engine_table, 0x0900_0000);
    a.session_lost();
    assert_eq!(a.current_state(), AcquisitionState::Unresolved);
    assert!(!a.hook_installed);
    assert_eq!(a.engine_table, 0);
}

#[test]
fn each_failure_leaves_its_status() {
    let mut m = image();
    let mut s = Session::new();
    let mut at = site();
    at.client_loaded = false;
    assert_eq!(install_initialize_hook(&mut s, &mut m, &at), InstallOutcome::ClientMissing);
    assert_eq!(s.acquisition.hook_status, 0xDEAD);

    let mut at = site();
    at.initialize = 0;
    assert_eq!(install_initialize_hook(&mut s, &mut m, &at), InstallOutcome::NotExported);
    assert_eq!(s.acquisition.hook_status, 0xE001);

    let mut at = site();
    at.initialize = IMAGE_END - 2;
    assert_eq!(install_initialize_hook(&mut s, &mut m, &at), InstallOutcome::TargetUnreadable);
    assert_eq!(s.acquisition.hook_status, 0xE002);

    let mut at = site();
    at.trampoline = 0x0900_0000;
    assert_eq!(install_initialize_hook(&mut s, &mut m, &at), InstallOutcome::TrampolineFailed);
    assert_eq!(s.acquisition.hook_status, 0xE003);
    assert_eq!(s.acquisition.init_target, 0);
    at.trampoline = usize::MAX - 3;
    assert_eq!(install_initialize_hook(&mut s, &mut m, &at), InstallOutcome::TrampolineFailed);
    assert_eq!(bytes_at(&m, TARGET, 5), vec![0x55, 0x8B, 0xEC, 0x83, 0xEC]);

    let mut torn = SimMemory::new();
    torn.map_region(committed(IMAGE, 0x202, PAGE_EXECUTE_READ));
    torn.map_region(Region { base: IMAGE + 0x202, size: 0x100, state: 0x2000, protect: PAGE_NOACCESS });
    torn.map_region(committed(TRAMPOLINE, 0x10, PAGE_READWRITE));
    let mut at = site();
    at.initialize = IMAGE + 0x1FD;
    let mut s2 = Session::new();
    assert_eq!(install_initialize_hook(&mut s2, &mut torn, &at), InstallOutcome::Redirected);
    let mut s3 = Session::new();
    let mut wide = SimMemory::new();
    wide.map_region(Region { base: IMAGE + 0x1FF, size: 0x10, state: 0x2000, protect: PAGE_NOACCESS });
    wide.map_region(committed(IMAGE, 0x400, PAGE_EXECUTE_READ));
    wide.map_region(committed(TRAMPOLINE, 0x10, PAGE_READWRITE));
    assert_eq!(install_initialize_hook(&mut s3, &mut wide, &at), InstallOutcome::JumpFailed);
    assert_eq!(s3.acquisition.hook_status, 0xE003);
    assert_eq!(s3.acquisition.init_target, IMAGE + 0x1FD);
    assert!(!s3.acquisition.hook_installed);
    assert_eq!(read_u8(&wide, TRAMPOLINE + 5), 0xE9);
    assert_eq!(read_u8(&wide, IMAGE + 0x1FD), 0);

    assert_eq!(
        s.journal,
        vec![
            "client.dll not loaded yet".to_string(),
            "Initialize not exported".to_string(),
            "Initialize not readable".to_string(),
            "trampoline write failed".to_string(),
            "trampoline write failed".to_string(),
        ]
    );
    assert_eq!(s3.journal, vec!["write_jmp failed".to_string()]);
}

fn signature() -> (Vec<u8>, Vec<u8>) {
    (vec![0x8B, 0x0D, 0xCC, 0xCC, 0xCC, 0xCC, 0x85, 0xC9], vec![1, 1, 0, 0, 0, 0, 1, 1])
}

#[test]
fn wildcards_match_any_byte() {
    let (pattern, mask) = signature();
    for filler in [0x00u8, 0x5A, 0xCC, 0xFF] {
        let mut m = image();
        m.poke_bytes(IMAGE + 0x40, &vec![0x8B, 0x0D, 0x00, 0x00, filler, 0x05, 0x85, 0xC9]);
        let hit = scan_with_pattern(&m, IMAGE, IMAGE_END, &pattern, &mask, 2, 4);
        if filler == 0x00 {
            assert_eq!(hit, Some(ARRAY));
        } else {
            assert_eq!(hit, None);
        }
    }
    let mut m = image();
    m.map_region(committed(0x0511_2233, 0x10, PAGE_READWRITE));
    m.poke_bytes(IMAGE + 0x40, &vec![0x8B, 0x0D, 0x33, 0x22, 0x11, 0x05, 0x85, 0xC9]);
    assert_eq!(scan_with_pattern(&m, IMAGE, IMAGE_END, &pattern, &mask, 2, 4), Some(0x0511_2233));
}

#[test]
fn a_changed_required_byte_prevents_the_match() {
    let (pattern, mask) = signature();
    let good = vec![0x8B, 0x0D, 0x00, 0x00, 0x00, 0x05, 0x85, 0xC9];
    for i in 0..8 {
        let mut m = image();
        let mut window = good.clone();
        window[i] ^= 0x01;
        m.poke_bytes(IMAGE + 0x40, &window);
        let hit = scan_with_pattern(&m, IMAGE, IMAGE_END, &pattern, &mask, 2, 4);
        if mask[i] == 1 {
            assert_eq!(hit, None);
        } else if i == 2 {
            assert_eq!(hit, Some(ARRAY + 1));
        } else if i == 3 {
            assert_eq!(hit, Some(ARRAY + 0x100));
        } else {
            assert_eq!(hit, None);
        }
    }
}

#[test]
fn first_accepted_pointer_wins() {
    let (pattern, mask) = signature();
    let mut m = image();
    m.poke_bytes(IMAGE + 0x40, &vec![0x8B, 0x0D, 0x00, 0x01, 0x00, 0x00, 0x85, 0xC9]);
    m.poke_bytes(IMAGE + 0x80, &vec![0x8B, 0x0D, 0x00, 0x00, 0x00, 0x09, 0x85, 0xC9]);
    m.poke_bytes(IMAGE + 0xC0, &vec![0x8B, 0x0D, 0x10, 0x00, 0x00, 0x05, 0x85, 0xC9]);
    m.poke_bytes(IMAGE + 0x100, &vec![0x8B, 0x0D, 0x20, 0x00, 0x00, 0x05, 0x85, 0xC9]);
    assert_eq!(scan_with_pattern(&m, IMAGE, IMAGE_END, &pattern, &mask, 2, 4), Some(ARRAY + 0x10));
    assert_eq!(scan_with_pattern(&m, IMAGE + 0xC1, IMAGE_END, &pattern, &mask, 2, 4), Some(ARRAY + 0x20));
    assert_eq!(scan_with_pattern(&m, IMAGE, IMAGE + 0xC7, &pattern, &mask, 2, 4), None);
    assert_eq!(scan_with_pattern(&m, IMAGE, IMAGE + 0xC8, &pattern, &mask, 2, 4), Some(ARRAY + 0x10));
    assert_eq!(scan_with_pattern(&m, IMAGE, IMAGE_END, &pattern, &mask, 2, 0x68 * 33), None);
    assert_eq!(scan_with_pattern(&m, IMAGE_END, IMAGE, &pattern, &mask, 2, 4), None);
}

#[test]
fn unreadable_regions_are_passed_over() {
    let (pattern, mask) = signature();
    let mut m = SimMemory::new();
    m.map_region(committed(IMAGE, 0x100, PAGE_NOACCESS));
    m.map_region(Region { base: IMAGE + 0x100, size: 0x100, state: 0x2000, protect: PAGE_READWRITE });
    m.map_region(committed(IMAGE + 0x200, 0x100, PAGE_READWRITE));
    m.map_region(committed(ARRAY, 0x100, PAGE_READWRITE));
    let code = vec![0x8B, 0x0D, 0x00, 0x00, 0x00, 0x05, 0x85, 0xC9];
    m.poke_bytes(IMAGE + 0x40, &code);
    m.poke_bytes(IMAGE + 0x140, &code);
    m.poke_bytes(IMAGE + 0x1FC, &code);
    assert_eq!(scan_with_pattern(&m, IMAGE, IMAGE + 0x400, &pattern, &mask, 2, 4), None);
    m.poke_bytes(IMAGE + 0x2F0, &code);
    assert_eq!(scan_with_pattern(&m, IMAGE, IMAGE + 0x400, &pattern, &mask, 2, 4), Some(ARRAY));
    let mut gap = SimMemory::new();
    gap.map_region(committed(IMAGE + 0x200, 0x100, PAGE_READWRITE));
    gap.map_region(committed(ARRAY, 0x100, PAGE_READWRITE));
    gap.poke_bytes(IMAGE + 0x2F0, &code);
    assert_eq!(scan_with_pattern(&gap, IMAGE, IMAGE + 0x400, &pattern, &mask, 2, 4), None);
    assert_eq!(scan_with_pattern(&gap, IMAGE + 0x200, IMAGE + 0x400, &pattern, &mask, 2, 4), Some(ARRAY));
}

#[test]
fn auxiliary_array_is_found_by_either_signature() {
    let primary: Vec<u8> = vec![
        0x0F, 0xBF, 0x87, 1, 2, 3, 4, 0x8B, 0x16, 0x50, 0x68, 5, 6, 7, 8, 0x8B, 0xCE, 0xFF, 0x52,
        9, 0x8D, 0x4C, 0xAD, 0x00, 0x66, 0x8B, 0x04, 0x8D,
    ];
    let alternate: Vec<u8> = vec![
        0x0F, 0xBF, 0x87, 0x40, 0x00, 0x00, 0x05, 0x8B, 0x16, 0x50, 0x68, 5, 6, 7, 8, 0x8B, 0xCE,
        0xFF, 0x52, 9, 0x8B, 0xCD, 0xC1, 0xE1, 0x05, 0x66, 0x8B, 0x81, 1, 2, 3, 4, 0x66, 0x3D,
        0x01, 0x00, 0x7D, 0x46,
    ];
    let client = Some(ModuleSpan { base: IMAGE, end: IMAGE_END });
    let mut m = image();
    assert_eq!(find_player_extra_info(&m, client), None);
    assert_eq!(find_player_extra_info(&m, None), None);
    m.poke_bytes(IMAGE + 0x300, &alternate);
    m.map_region(committed(0x0500_0040 + 0x68 * 33 - 0x40, 0x40, PAGE_READWRITE));
    assert_eq!(find_player_extra_info(&m, client), None);
    let mut m = SimMemory::new();
    m.map_region(committed(IMAGE, IMAGE_END - IMAGE, PAGE_EXECUTE_READ));
    m.map_region(committed(ARRAY, 0x68 * 33 + 0x100, PAGE_READWRITE));
    m.poke_bytes(IMAGE + 0x300, &alternate);
    assert_eq!(find_player_extra_info(&m, client), Some(ARRAY + 0x40));
    m.poke_bytes(IMAGE + 0x100, &primary);
    assert_eq!(find_player_extra_info(&m, client), Some(ARRAY + 0x40));
    m.poke_bytes(IMAGE + 0x100 + 28, &vec![0x00, 0x00, 0x05]);
    assert_eq!(find_player_extra_info(&m, client), Some(ARRAY + 0x8D));
    m.poke(IMAGE + 0x100 + 20, 0x8C);
    assert_eq!(find_player_extra_info(&m, client), Some(ARRAY + 0x40));
}

#[test]
fn journal_is_rendered_line_by_line() {
    let mut s = Session::new();
    assert_eq!(flush_log(&s), b"".to_vec());
    log(&mut s, "DLL attached");
    logf(&mut s, format!("hook install failed: err={}", -2));
    log(&mut s, "");
    log(&mut s, "caf\u{e9}");
    assert_eq!(flush_log(&s), b"DLL attached\nhook install failed: err=-2\n\ncaf\xC3\xA9\n".to_vec());
    assert_eq!(s.journal.len(), 4);
    set_dll_hinst(&mut s, 0x1000_0000);
    set_frame_counter(&mut s, 42);
    assert_eq!(s.dll_hinst, 0x1000_0000);
    assert_eq!(s.frame_counter, 42);
    assert_eq!(s.journal.len(), 4);
}

#[test]
fn record_follows_the_cursor() {
    let a = Vec3 { x: 0x3F80_0000, y: 0, z: 0 };
    let b = Vec3 { x: 0x4000_0000, y: 0, z: 0 };
    let mut r = StalenessRecord::new();
    assert_eq!(observe(&mut r, 0, 10, a), None);
    assert_eq!(r, StalenessRecord::new());
    assert_eq!(observe(&mut r, 7, 10, a), Some(a));
    assert_eq!(r, StalenessRecord { origin: a, cursor: 7, frame: 10 });
    assert_eq!(observe(&mut r, 7, 40, b), Some(b));
    assert_eq!(observe(&mut r, 7, 41, b), Some(a));
    assert_eq!(observe(&mut r, 7, 250, b), Some(a));
    assert_eq!(observe(&mut r, 7, 251, b), None);
    assert_eq!(observe(&mut r, 7, 9, b), None);
    assert_eq!(r, StalenessRecord { origin: a, cursor: 7, frame: 10 });
    assert_eq!(observe(&mut r, 8, 0, b), Some(b));
    assert_eq!(observe(&mut r, 8, 1, a), None);
    assert_eq!(r, StalenessRecord { origin: b, cursor: 8, frame: 0 });
}

#[test]
fn weapon_token_follows_the_prefix() {
    assert_eq!(weapon_name_of(&b"models/p_ak47.mdl".to_vec()), b"AK47".to_vec());
    assert_eq!(weapon_name_of(&b"models/w_usp.mdl".to_vec()), b"USP".to_vec());
    assert_eq!(weapon_name_of(&b"w_a.p_b.c".to_vec()), b"B".to_vec());
    assert_eq!(weapon_name_of(&b"p_deagle".to_vec()), b"DEAGLE".to_vec());
    assert_eq!(weapon_name_of(&b"xp_.mdl".to_vec()), b"".to_vec());
    assert_eq!(weapon_name_of(&b"p_m3[1]~z.x".to_vec()), b"M3[1]~Z".to_vec());
    assert_eq!(weapon_name_of(&b"p".to_vec()), b"".to_vec());
    assert_eq!(weapon_name_of(&b"".to_vec()), b"".to_vec());
    assert_eq!(weapon_name_of(&b"models/shield.mdl".to_vec()), b"".to_vec());
}

#[test]
fn toggle_flips_on_the_press_only() {
    let mut t = goldsrc_overlay::overlay::Toggle::new();
    assert!(t.poll(false));
    assert!(!t.poll(true));
    assert!(!t.poll(true));
    assert!(!t.poll(false));
    assert!(t.poll(true));
    assert!(t.poll(false));
}

#[test]
fn nearer_boxes_are_kept_longer() {
    let ttl = |d: f32| goldsrc_overlay::overlay::cache_ttl(d.to_bits(), 90);
    assert_eq!(ttl(0.0), 90);
    assert_eq!(ttl(-3.0), 90);
    assert_eq!(ttl(f32::NAN), 90);
    assert_eq!(ttl(f32::INFINITY), 90);
    assert_eq!(ttl(0.5), 300);
    assert_eq!(ttl(9.99), 300);
    assert_eq!(ttl(10.0), 150);
    assert_eq!(ttl(29.9), 150);
    assert_eq!(ttl(30.0), 90);
    assert_eq!(goldsrc_overlay::overlay::cache_ttl(5.0f32.to_bits(), 7), 300);
    assert_eq!(goldsrc_overlay::overlay::cache_ttl(50.0f32.to_bits(), 7), 7);
    assert!(!goldsrc_overlay::overlay::cached_box_shown(10, 0, 90));
    assert!(goldsrc_overlay::overlay::cached_box_shown(100, 10, 90));
    assert!(!goldsrc_overlay::overlay::cached_box_shown(101, 10, 90));
    assert!(goldsrc_overlay::overlay::cached_box_shown(5, u32::MAX - 4, 10));
    assert!(!goldsrc_overlay::overlay::cached_box_shown(6, u32::MAX - 4, 10));
}
