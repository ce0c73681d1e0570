use goldsrc_overlay::engine::{HudPlayerInfo, Projection};
use goldsrc_overlay::entities::{
    choose_height, install_initialize_hook, AcquisitionState, EngineApi, HookSite,
    InstallOutcome, Session,
};
use goldsrc_overlay::math::{add_margin, Vec3};
use goldsrc_overlay::memory::{Region, MEM_COMMIT, PAGE_EXECUTE_READ, PAGE_NOACCESS, PAGE_READWRITE};
use goldsrc_overlay::scan::ModuleSpan;
use goldsrc_overlay::sim::{SimEngine, SimMemory};

const CLIENT_BASE: usize = 0x0100_0000;
const CLIENT_END: usize = 0x0100_0800;
const ENGINE_BASE: usize = 0x2000_0000;
const ENGINE_END: usize = 0x2100_0000;
const TABLE: usize = CLIENT_BASE + 0x100;
const TRI_API: usize = 0x2000_8000;
const ENTITY: usize = 0x0200_0000;
const NAME: usize = 0x0300_0000;
const MODEL: usize = 0x0400_0000;
const EXTRA: usize = 0x0500_0000;
const INITIALIZE: usize = CLIENT_BASE + 0x700;
const TRAMPOLINE: usize = 0x0600_0000;
const REPLACEMENT: usize = 0x0600_1000;

fn region(base: usize, size: usize, protect: u32) -> Region {
    Region { base, size, state: MEM_COMMIT, protect }
}

fn bits(x: f32) -> u32 {
    x.to_bits()
}

fn point(x: f32, y: f32, z: f32) -> Vec3 {
    Vec3 { x: bits(x), y: bits(y), z: bits(z) }
}

fn poke_vec3(m: &mut SimMemory, addr: usize, v: Vec3) {
    m.poke_u32(addr, v.x);
    m.poke_u32(addr + 4, v.y);
    m.poke_u32(addr + 8, v.z);
}

fn poke_str(m: &mut SimMemory, addr: usize, s: &str) {
    let mut bytes = s.as_bytes().to_vec();
    bytes.push(0);
    m.poke_bytes(addr, &bytes);
}

/// A host with a function table in its image, one entity in slot 5 named
/// "Alpha" on team 2, alive, crouched, with a hull 40 units high, holding
/// the weapon whose model is number 7.
fn world() -> SimEngine {
    let mut m = SimMemory::new();
    m.map_region(region(CLIENT_BASE, CLIENT_END - CLIENT_BASE, PAGE_EXECUTE_READ));
    m.map_region(region(TRI_API, 0x100, PAGE_READWRITE));
    m.map_region(region(ENTITY, 0x2000, PAGE_READWRITE));
    m.map_region(region(NAME, 0x100, PAGE_READWRITE));
    m.map_region(region(MODEL, 0x100, PAGE_READWRITE));
    m.map_region(region(EXTRA, 0x68 * 33, PAGE_READWRITE));
    m.map_region(region(TRAMPOLINE, 0x40, PAGE_READWRITE));
    for slot in 0..108usize {
        m.poke_u32(TABLE + slot * 4, (ENGINE_BASE + 0x100 + slot * 16) as u32);
    }
    m.poke_u32(TABLE + 82 * 4, TRI_API as u32);
    m.poke_u32(TRI_API + 12 * 4, (ENGINE_BASE + 0x4000) as u32);
    m.poke_u32(ENTITY, 5);
    m.poke_u32(ENTITY + 4, 1);
    poke_vec3(&mut m, ENTITY + 0xB48, point(100.0, 200.0, 300.0));
    m.poke_u32(ENTITY + 0x404, 3);
    m.poke_u32(ENTITY + 0x2B0 + 0xC8, 1);
    m.poke_u32(ENTITY + 0x2B0 + 0x88 + 8, bits(40.0));
    m.poke_u32(ENTITY + 0x2B0 + 0xB4, 7);
    poke_str(&mut m, NAME, "Alpha");
    poke_str(&mut m, MODEL, "models/p_ak47.mdl");
    m.poke_bytes(EXTRA + 5 * 0x68 + 0x2A, &vec![2, 0]);
    m.poke(EXTRA + 5 * 0x68 + 0x3C, 0);
    let mut e = SimEngine::new(m);
    e.local = 0;
    e.entities = vec![0; 33];
    e.entities[5] = ENTITY;
    e.infos = vec![HudPlayerInfo { name: 0, thisplayer: 0, spectator: 0 }; 33];
    e.infos[5] = HudPlayerInfo { name: NAME, thisplayer: 0, spectator: 0 };
    e.models = vec![0; 16];
    e.models[7] = MODEL;
    e
}

fn site() -> HookSite {
    HookSite {
        client_loaded: true,
        client: Some(ModuleSpan { base: CLIENT_BASE, end: CLIENT_END }),
        engine: Some(ModuleSpan { base: ENGINE_BASE, end: ENGINE_END }),
        initialize: INITIALIZE,
        trampoline: TRAMPOLINE,
        replacement: REPLACEMENT,
    }
}

fn resolved(e: &mut SimEngine, s: &mut Session) -> EngineApi {
    let api = EngineApi::resolve(s, e, &site()).expect("table");
    s.extra_info_base = EXTRA;
    s.frame_counter = 500;
    api
}

#[test]
fn scenario_crouched_participant_in_slot_five() {
    let mut e = world();
    let mut s = Session::new();
    let api = resolved(&mut e, &mut s);
    assert_eq!(api.table(), TABLE);
    let p = api.read_player(&mut s, &e, site().client, 5).expect("snapshot");
    assert!(p.is_ducking);
    assert_eq!(f32::from_bits(p.maxs_z), 44.0);
    assert_eq!(p.maxs_z, 0x4230_0000);
    assert_eq!(p.team, 2);
    assert_eq!(p.name, "Alpha");
    assert_eq!(p.weapon, "AK47");
    assert!(!p.is_local);
    assert_eq!(p.origin, point(100.0, 200.0, 300.0));
}

#[test]
fn slots_out_of_range_report_nothing() {
    let mut e = world();
    let mut s = Session::new();
    let api = resolved(&mut e, &mut s);
    let before = s.staleness.clone();
    for idx in [0, -1, 33, 34, i32::MIN, i32::MAX] {
        assert!(api.read_player(&mut s, &e, site().client, idx).is_none());
    }
    assert_eq!(s.staleness, before);
    assert_eq!(s.extra_info_base, EXTRA);
    assert_eq!(api.max_clients(), 32);
}

#[test]
fn unresolved_table_gives_no_handle() {
    let mut e = SimEngine::new(SimMemory::new());
    let mut s = Session::new();
    let nowhere = HookSite {
        client_loaded: false,
        client: None,
        engine: None,
        initialize: 0,
        trampoline: 0,
        replacement: 0,
    };
    assert!(EngineApi::resolve(&mut s, &mut e, &nowhere).is_none());
    assert!(!EngineApi::map_loaded(&s));
    assert_eq!(s.acquisition.hook_status, 0xDEAD);
    assert_eq!(s.acquisition.current_state(), AcquisitionState::Unresolved);
    assert_eq!(s.journal, vec!["client.dll not loaded yet".to_string()]);
    assert!(e.memory.cells.is_empty());
}

#[test]
fn resolve_twice_hands_out_the_same_table() {
    let mut e = world();
    let mut s = Session::new();
    let first = EngineApi::resolve(&mut s, &mut e, &site()).expect("table");
    let state = s.acquisition;
    let lines = s.journal.clone();
    let stores = e.memory.cells.len();
    let second = EngineApi::resolve(&mut s, &mut e, &site()).expect("table");
    assert_eq!(first.table(), second.table());
    assert_eq!(s.acquisition, state);
    assert_eq!(s.journal, lines);
    assert_eq!(e.memory.cells.len(), stores);
    assert_eq!(s.acquisition.hook_status, 0);
    assert_eq!(s.acquisition.current_state(), AcquisitionState::Resolved);
    assert_eq!(lines, vec!["engine table found via memory scan".to_string()]);
}

#[test]
fn install_reports_the_table_it_found() {
    let mut e = world();
    let mut s = Session::new();
    let outcome = install_initialize_hook(&mut s, &mut e, &site());
    assert_eq!(outcome, InstallOutcome::TableFound(TABLE));
    assert!(s.acquisition.map_loaded && s.acquisition.hook_installed);
    assert!(!s.acquisition.redirected);
    assert_eq!(install_initialize_hook(&mut s, &mut e, &site()), InstallOutcome::AlreadyInstalled);
}

#[test]
fn table_needs_its_well_known_slots() {
    let mut e = world();
    for slot in 53..108usize {
        e.memory.poke_u32(TABLE + slot * 4, 0x1234_5678);
    }
    let mut s = Session::new();
    let found = goldsrc_overlay::scan::find_gengfuncs_in_client(&e, site().client, site().engine);
    assert_eq!(found, None);
    assert!(EngineApi::resolve(&mut s, &mut e, &site()).is_none());
    for slot in 53..108usize {
        e.memory.poke_u32(TABLE + slot * 4, (ENGINE_BASE + 0x500) as u32);
    }
    e.memory.poke_u32(TABLE + 3 * 4, 0);
    let found = goldsrc_overlay::scan::find_gengfuncs_in_client(&e, site().client, site().engine);
    assert_eq!(found, Some(TABLE + 16));
    let none = goldsrc_overlay::scan::find_gengfuncs_in_client(&e, None, site().engine);
    assert_eq!(none, None);
}

#[test]
fn dead_spectating_and_unnamed_participants_are_left_out() {
    let mut e = world();
    let mut s = Session::new();
    let api = resolved(&mut e, &mut s);
    e.memory.poke(EXTRA + 5 * 0x68 + 0x3C, 1);
    assert!(api.read_player(&mut s, &e, site().client, 5).is_none());
    e.memory.poke(EXTRA + 5 * 0x68 + 0x3C, 0);
    assert!(api.read_player(&mut s, &e, site().client, 5).is_some());
    e.infos[5].spectator = 1;
    assert!(api.read_player(&mut s, &e, site().client, 5).is_none());
    e.infos[5].spectator = 0;
    e.infos[5].name = 0;
    assert!(api.read_player(&mut s, &e, site().client, 5).is_none());
    e.infos[5].name = NAME;
    e.infos[5].thisplayer = 1;
    assert!(api.read_player(&mut s, &e, site().client, 5).expect("snapshot").is_local);
}

#[test]
fn entity_must_be_a_participant_with_the_slots_index() {
    let mut e = world();
    let mut s = Session::new();
    let api = resolved(&mut e, &mut s);
    e.memory.poke_u32(ENTITY + 4, 0);
    assert!(api.read_player(&mut s, &e, site().client, 5).is_none());
    e.memory.poke_u32(ENTITY + 4, 1);
    e.memory.poke_u32(ENTITY, 6);
    assert!(api.read_player(&mut s, &e, site().client, 5).is_none());
    e.memory.poke_u32(ENTITY, 0);
    assert!(api.read_player(&mut s, &e, site().client, 5).is_none());
    e.memory.poke_u32(ENTITY, 40);
    assert!(api.read_player(&mut s, &e, site().client, 5).is_none());
    e.memory.poke_u32(ENTITY, 0xFFFF_FFFB);
    assert!(api.read_player(&mut s, &e, site().client, 5).is_none());
    e.memory.poke_u32(ENTITY, 5);
    assert!(api.read_player(&mut s, &e, site().client, 5).is_some());
    e.entities[5] = 0;
    assert!(api.read_player(&mut s, &e, site().client, 5).is_none());
    assert!(api.read_player(&mut s, &e, site().client, 6).is_none());
}

#[test]
fn slot_label_stands_in_where_the_host_cannot_be_asked() {
    let mut e = world();
    let mut s = Session::new();
    let api = resolved(&mut e, &mut s);
    e.memory.poke_u32(TABLE + 21 * 4, 0);
    let p = api.read_player(&mut s, &e, site().client, 5).expect("snapshot");
    assert_eq!(p.name, format!("P{}", 5));
    assert!(!p.is_local);
    e.entities[32] = ENTITY;
    e.memory.poke_u32(ENTITY, 32);
    let p = api.read_player(&mut s, &e, site().client, 32).expect("snapshot");
    assert_eq!(p.name, "P32");
}

#[test]
fn position_falls_back_in_order() {
    let history = ENTITY + 0x408 + 3 * 28 + 4;
    let state = ENTITY + 0x2B0 + 0x10;
    let good_h = point(1.0, 2.0, 3.0);
    let good_s = point(7.0, 8.0, 9.0);
    let bad = [
        point(f32::NAN, 1.0, 1.0),
        point(1.0, f32::INFINITY, 1.0),
        point(1.0, 1.0, f32::NEG_INFINITY),
        point(0.0, 0.0, 0.0),
        point(-0.0, 0.0, -0.0),
    ];
    for b in bad {
        let mut e = world();
        let mut s = Session::new();
        let api = resolved(&mut e, &mut s);
        poke_vec3(&mut e.memory, ENTITY + 0xB48, b);
        poke_vec3(&mut e.memory, history, good_h);
        poke_vec3(&mut e.memory, state, good_s);
        let p = api.read_player(&mut s, &e, site().client, 5).expect("history");
        assert_eq!(p.origin, good_h);
        for b2 in bad {
            let mut e = world();
            let mut s = Session::new();
            let api = resolved(&mut e, &mut s);
            poke_vec3(&mut e.memory, ENTITY + 0xB48, b);
            poke_vec3(&mut e.memory, history, b2);
            poke_vec3(&mut e.memory, state, good_s);
            let p = api.read_player(&mut s, &e, site().client, 5).expect("state");
            assert_eq!(p.origin, good_s);
            poke_vec3(&mut e.memory, state, b);
            let mut s = Session::new();
            let api = resolved(&mut e, &mut s);
            assert!(api.read_player(&mut s, &e, site().client, 5).is_none());
            assert_eq!(s.staleness[5].frame, 0);
            assert_eq!(s.staleness[5].cursor, 0);
        }
    }
    let mut e = world();
    let mut s = Session::new();
    let api = resolved(&mut e, &mut s);
    poke_vec3(&mut e.memory, history, good_h);
    poke_vec3(&mut e.memory, state, good_s);
    let p = api.read_player(&mut s, &e, site().client, 5).expect("primary");
    assert_eq!(p.origin, point(100.0, 200.0, 300.0));
    let partly_zero = point(0.0, 0.0, 5.0);
    poke_vec3(&mut e.memory, ENTITY + 0xB48, partly_zero);
    let p = api.read_player(&mut s, &e, site().client, 5).expect("primary");
    assert_eq!(p.origin, partly_zero);
}

#[test]
fn history_is_read_at_the_masked_cursor() {
    let mut e = world();
    let mut s = Session::new();
    let api = resolved(&mut e, &mut s);
    e.memory.poke_u32(ENTITY + 0x404, 64 + 9);
    poke_vec3(&mut e.memory, ENTITY + 0xB48, point(0.0, 0.0, 0.0));
    poke_vec3(&mut e.memory, ENTITY + 0x408 + 9 * 28 + 4, point(11.0, 12.0, 13.0));
    let p = api.read_player(&mut s, &e, site().client, 5).expect("history");
    assert_eq!(p.origin, point(11.0, 12.0, 13.0));
    assert_eq!(s.staleness[5].cursor, 9);
    e.memory.poke_u32(ENTITY + 0x404, 0xFFFF_FFFF);
    poke_vec3(&mut e.memory, ENTITY + 0x408 + 63 * 28 + 4, point(21.0, 22.0, 23.0));
    let p = api.read_player(&mut s, &e, site().client, 5).expect("history");
    assert_eq!(p.origin, point(21.0, 22.0, 23.0));
    assert_eq!(s.staleness[5].cursor, 63);
}

#[test]
fn unchanged_cursor_goes_stale() {
    let mut e = world();
    let mut s = Session::new();
    let api = resolved(&mut e, &mut s);
    let first = point(100.0, 200.0, 300.0);
    let moved = point(110.0, 210.0, 310.0);
    goldsrc_overlay::entities::set_frame_counter(&mut s, 1000);
    let p = api.read_player(&mut s, &e, site().client, 5).expect("fresh");
    assert_eq!(p.origin, first);
    assert_eq!(s.staleness[5].frame, 1000);
    assert_eq!(s.staleness[5].cursor, 3);
    assert_eq!(s.staleness[5].origin, first);
    poke_vec3(&mut e.memory, ENTITY + 0xB48, moved);
    for k in 1..=300u32 {
        goldsrc_overlay::entities::set_frame_counter(&mut s, 1000 + k);
        let p = api.read_player(&mut s, &e, site().client, 5);
        if k <= 30 {
            assert_eq!(p.expect("within grace").origin, moved);
        } else if k <= 240 {
            assert_eq!(p.expect("within extended window").origin, first);
        } else {
            assert!(p.is_none());
        }
        assert_eq!(s.staleness[5].frame, 1000);
    }
    e.memory.poke_u32(ENTITY + 0x404, 4);
    let p = api.read_player(&mut s, &e, site().client, 5).expect("fresh again");
    assert_eq!(p.origin, moved);
    assert_eq!(s.staleness[5].frame, 1300);
    assert_eq!(s.staleness[5].origin, moved);
}

#[test]
fn nothing_is_reported_while_no_frame_is_recorded() {
    let mut e = world();
    let mut s = Session::new();
    let api = resolved(&mut e, &mut s);
    e.memory.poke_u32(ENTITY + 0x404, 0);
    goldsrc_overlay::entities::set_frame_counter(&mut s, 77);
    assert!(api.read_player(&mut s, &e, site().client, 5).is_none());
    assert_eq!(s.staleness[5].frame, 0);
}

#[test]
fn staleness_survives_a_wrap_of_the_frame_counter() {
    let mut e = world();
    let mut s = Session::new();
    let api = resolved(&mut e, &mut s);
    goldsrc_overlay::entities::set_frame_counter(&mut s, u32::MAX - 10);
    assert!(api.read_player(&mut s, &e, site().client, 5).is_some());
    goldsrc_overlay::entities::set_frame_counter(&mut s, 15);
    assert!(api.read_player(&mut s, &e, site().client, 5).is_some());
    goldsrc_overlay::entities::set_frame_counter(&mut s, 229);
    assert!(api.read_player(&mut s, &e, site().client, 5).is_some());
    goldsrc_overlay::entities::set_frame_counter(&mut s, 230);
    assert!(api.read_player(&mut s, &e, site().client, 5).is_none());
}

#[test]
fn hull_height_is_kept_within_plausible_bounds() {
    assert_eq!(choose_height(true, bits(40.0)), bits(44.0));
    assert_eq!(choose_height(true, bits(59.9)), bits(59.9 + 4.0));
    assert_eq!(choose_height(true, bits(60.0)), bits(48.0));
    assert_eq!(choose_height(true, bits(0.0)), bits(48.0));
    assert_eq!(choose_height(true, bits(-5.0)), bits(48.0));
    assert_eq!(choose_height(true, bits(f32::NAN)), bits(48.0));
    assert_eq!(choose_height(false, bits(72.0)), bits(76.0));
    assert_eq!(choose_height(false, bits(60.0)), bits(76.0));
    assert_eq!(choose_height(false, bits(60.5)), bits(64.5));
    assert_eq!(choose_height(false, bits(90.0)), bits(76.0));
    assert_eq!(choose_height(false, bits(40.0)), bits(76.0));
    assert_eq!(choose_height(false, bits(f32::INFINITY)), bits(76.0));
    assert_eq!(choose_height(false, 0), 0x4298_0000);
    assert_eq!(choose_height(true, 0), 0x4240_0000);
}

#[test]
fn margin_is_added_as_the_processor_adds_it() {
    let mut b: u32 = 1;
    while b < 0x42B4_0000 {
        let want = (f32::from_bits(b) + 4.0).to_bits();
        assert_eq!(add_margin(b), want, "at {:#x}", b);
        b += 1 + b / 4093;
    }
    let edges = [
        1u32, 2, 0x007F_FFFF, 0x0080_0000, 0x3380_0000, 0x3400_0000, 0x3400_0001, 0x347F_FFFF,
        0x3480_0000, 0x3480_0001, 0x34C0_0000, 0x3F80_0000, 0x407F_FFFF, 0x4080_0000,
        0x4080_0001, 0x40FF_FFFF, 0x4100_0000, 0x41FF_FFFF, 0x4200_0000, 0x426F_FFFF,
        0x4270_0000, 0x4270_0001, 0x4270_0003, 0x427F_FFFD, 0x427F_FFFF, 0x4280_0000,
        0x42B3_FFFF,
    ];
    for b in edges {
        for d in 0..64u32 {
            for x in [b.saturating_sub(d).max(1), (b + d).min(0x42B3_FFFF)] {
                let want = (f32::from_bits(x) + 4.0).to_bits();
                assert_eq!(add_margin(x), want, "at {:#x}", x);
            }
        }
    }
}

#[test]
fn standing_participant_gets_the_standing_height() {
    let mut e = world();
    let mut s = Session::new();
    let api = resolved(&mut e, &mut s);
    e.memory.poke_u32(ENTITY + 0x2B0 + 0xC8, 0);
    let p = api.read_player(&mut s, &e, site().client, 5).expect("snapshot");
    assert!(!p.is_ducking);
    assert_eq!(p.maxs_z, bits(76.0));
    e.memory.poke_u32(ENTITY + 0x2B0 + 0x88 + 8, bits(80.0));
    let p = api.read_player(&mut s, &e, site().client, 5).expect("snapshot");
    assert_eq!(p.maxs_z, bits(84.0));
}

#[test]
fn weapon_name_comes_from_the_model_path() {
    let mut e = world();
    let mut s = Session::new();
    let api = resolved(&mut e, &mut s);
    assert_eq!(api.get_weapon_name(&s, &e, 7), "AK47");
    poke_str(&mut e.memory, MODEL, "models/w_awp.mdl");
    assert_eq!(api.get_weapon_name(&s, &e, 7), "AWP");
    poke_str(&mut e.memory, MODEL, "models/w_x/p_m4a1");
    assert_eq!(api.get_weapon_name(&s, &e, 7), "M4A1");
    poke_str(&mut e.memory, MODEL, "models/player.mdl");
    assert_eq!(api.get_weapon_name(&s, &e, 7), "");
    poke_str(&mut e.memory, MODEL, "p_");
    assert_eq!(api.get_weapon_name(&s, &e, 7), "");
    assert_eq!(api.get_weapon_name(&s, &e, 8), "");
    assert_eq!(api.get_weapon_name(&s, &e, -1), "");
    e.memory.poke_u32(ENTITY + 0x2B0 + 0xB4, 0);
    let p = api.read_player(&mut s, &e, site().client, 5).expect("snapshot");
    assert_eq!(p.weapon, "");
    e.memory.poke_u32(TABLE + 107 * 4, 0x10000);
    assert_eq!(api.get_weapon_name(&s, &e, 7), "");
}

#[test]
fn point_behind_the_viewer_is_not_projected() {
    let mut e = world();
    let mut s = Session::new();
    let api = resolved(&mut e, &mut s);
    e.projected = Projection { clipped: 1, x: bits(0.25), y: bits(-0.5) };
    assert_eq!(api.world_to_screen(&s, &e, point(1.0, 2.0, 3.0)), None);
    e.projected = Projection { clipped: -1, x: bits(0.25), y: bits(-0.5) };
    assert_eq!(api.world_to_screen(&s, &e, point(1.0, 2.0, 3.0)), None);
    e.projected = Projection { clipped: 0, x: bits(0.25), y: bits(-0.5) };
    assert_eq!(api.world_to_screen(&s, &e, point(1.0, 2.0, 3.0)), Some((bits(0.25), bits(-0.5))));
}

#[test]
fn projection_needs_plausible_pointers() {
    let mut e = world();
    let mut s = Session::new();
    let api = resolved(&mut e, &mut s);
    e.memory.poke_u32(TRI_API + 12 * 4, 0);
    assert_eq!(api.world_to_screen(&s, &e, point(1.0, 2.0, 3.0)), None);
    e.memory.poke_u32(TRI_API + 12 * 4, (ENGINE_BASE + 0x4000) as u32);
    e.memory.poke_u32(TABLE + 82 * 4, 0xFFFF);
    assert_eq!(api.world_to_screen(&s, &e, point(1.0, 2.0, 3.0)), None);
}

#[test]
fn local_origin_is_the_local_entitys_position() {
    let mut e = world();
    let mut s = Session::new();
    let api = resolved(&mut e, &mut s);
    assert_eq!(api.local_origin(&s, &e), None);
    e.local = ENTITY;
    assert_eq!(api.local_origin(&s, &e), Some(point(100.0, 200.0, 300.0)));
    for bad in [
        point(0.0, -0.0, 0.0),
        point(f32::NAN, 1.0, 1.0),
        point(1.0, f32::INFINITY, 1.0),
        point(1.0, 1.0, f32::NEG_INFINITY),
    ] {
        poke_vec3(&mut e.memory, ENTITY + 0xB48, bad);
        assert_eq!(api.local_origin(&s, &e), None);
    }
    poke_vec3(&mut e.memory, ENTITY + 0xB48, point(0.0, 0.0, -1.0));
    assert_eq!(api.local_origin(&s, &e), Some(point(0.0, 0.0, -1.0)));
}

#[test]
fn a_handle_is_of_no_use_without_its_session() {
    let mut e = world();
    let mut s = Session::new();
    let api = resolved(&mut e, &mut s);
    e.local = ENTITY;
    assert!(api.is_live(&s));
    let mut other = Session::new();
    other.frame_counter = 500;
    other.extra_info_base = EXTRA;
    assert!(!api.is_live(&other));
    assert!(api.read_player(&mut other, &e, site().client, 5).is_none());
    assert_eq!(api.local_origin(&other, &e), None);
    assert_eq!(api.world_to_screen(&other, &e, point(1.0, 2.0, 3.0)), None);
    assert_eq!(api.get_weapon_name(&other, &e, 7), "");
    assert_eq!(api.get_weapon_name(&s, &e, 7), "AK47");
    assert_eq!(api.world_to_screen(&s, &e, point(1.0, 2.0, 3.0)), Some((0, 0)));
    assert_eq!(other.staleness, Session::new().staleness);
    s.acquisition.session_lost();
    assert!(!api.is_live(&s));
    assert!(api.read_player(&mut s, &e, site().client, 5).is_none());
    assert_eq!(api.local_origin(&s, &e), None);
    assert_eq!(s.staleness, Session::new().staleness);
    s.acquisition.on_initialize(TABLE + 4);
    assert!(!api.is_live(&s));
    assert!(api.read_player(&mut s, &e, site().client, 5).is_none());
    s.acquisition.on_initialize(TABLE);
    assert!(api.read_player(&mut s, &e, site().client, 5).is_some());
    assert_eq!(api.local_origin(&s, &e), Some(point(100.0, 200.0, 300.0)));
}

#[test]
fn resolve_leaves_the_auxiliary_array_alone() {
    let mut e = world();
    let mut s = Session::new();
    let api = EngineApi::resolve(&mut s, &mut e, &site()).expect("table");
    assert_eq!(s.extra_info_base, 0);
    s.frame_counter = 3;
    let p = api.read_player(&mut s, &e, site().client, 5).expect("snapshot");
    assert_eq!(p.team, 0);
    assert_eq!(s.extra_info_base, 0);
}

#[test]
fn table_is_withdrawn_when_its_slots_go_bad() {
    let mut e = world();
    let mut s = Session::new();
    assert!(EngineApi::resolve(&mut s, &mut e, &site()).is_some());
    e.memory.poke_u32(TABLE + 51 * 4, 0);
    assert!(EngineApi::resolve(&mut s, &mut e, &site()).is_none());
    assert!(EngineApi::map_loaded(&s));
}

#[test]
fn unmapped_pages_are_never_loaded() {
    let mut m = SimMemory::new();
    m.map_region(Region { base: 0x5000, size: 0x1000, state: MEM_COMMIT, protect: PAGE_NOACCESS });
    m.poke_u32(0x5000, 0xAABB_CCDD);
    m.poke_u32(0x9000, 0x1122_3344);
    assert_eq!(goldsrc_overlay::memory::read_u32(&m, 0x5000), 0);
    assert_eq!(goldsrc_overlay::memory::read_u32(&m, 0x9000), 0);
    assert_eq!(goldsrc_overlay::memory::read_u8(&m, 0x9000), 0);
    assert!(!goldsrc_overlay::memory::is_readable(&m, 0x5000, 1));
}
