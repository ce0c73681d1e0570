use vstd::prelude::*;
use crate::engine::Engine;
use crate::hook::{build_trampoline, encode_jump, jump_code, trampoline_code};
use crate::math::{Vec3, add_margin, first_usable, plus_four};
use crate::memory::{AddressSpace, MIN_POINTER, at, cstr_at, i16_at, i32_at, is_readable, patched_byte, read_cstr, read_i16, read_i32, read_u32, read_u8, read_vec3, readable, spec_at, u32_at, u8_at, vec3_at};
use crate::scan::{EXTRA_STRIDE, ModuleSpan, SLOT_GET_ENTITY_BY_INDEX, SLOT_GET_LOCAL_PLAYER, extra_info_search, find_gengfuncs_in_client, find_player_extra_info, table_search, window};
use crate::staleness::{StalenessRecord, observe, record_after, reported};
use crate::text::{ascii_chars, ascii_string, label_of, slot_label, weapon_name_of, weapon_token};

verus! {

/// Highest slot number; slots are numbered from 1.
pub const MAX_CLIENTS: i32 = 32;

/// Records kept per slot: one for each slot and the unused record zero.
pub const SLOT_RECORDS: usize = 33;

/// Status while no installation has been attempted.
pub const STATUS_NOT_ATTEMPTED: usize = 0xDEAD;

/// Status once the table was found or the redirection written.
pub const STATUS_OK: usize = 0;

/// Status where the host image does not export its initialization entry point.
pub const STATUS_NOT_EXPORTED: usize = 0xE001;

/// Status where the first bytes of the entry point may not be fetched.
pub const STATUS_UNREADABLE: usize = 0xE002;

/// Status where the redirection could not be written.
pub const STATUS_WRITE_FAILED: usize = 0xE003;

/// How far the acquisition of the host's function table has come.
#[derive(Clone, Copy, Debug, PartialEq, Eq, Structural)]
pub struct Acquisition {
    /// Address of the table; zero while none is published.
    pub engine_table: usize,
    /// Whether a session is live, which is when the table may be used.
    pub map_loaded: bool,
    /// Whether acquisition has been carried out and is not to be repeated.
    pub hook_installed: bool,
    /// Why the last attempt ended as it did.
    pub hook_status: usize,
    /// Entry point chosen for redirection; zero while none was.
    pub init_target: usize,
    /// Whether the entry point has been redirected.
    pub redirected: bool,
}

/// The three states of acquisition.
#[derive(Clone, Copy, Debug, PartialEq, Eq, Structural)]
pub enum AcquisitionState {
    /// Nothing is known of the table and nothing waits for it.
    Unresolved,
    /// The entry point is redirected; the table comes with the next session.
    AwaitingSession,
    /// The table is published and a session is live.
    Resolved,
}

impl Acquisition {
    /// A live session or a redirection exists only once acquisition was carried out.
    pub open spec fn wf(self) -> bool {
        (self.map_loaded ==> self.hook_installed) && (self.redirected ==> self.hook_installed)
    }

    pub open spec fn state(self) -> AcquisitionState {
        if self.map_loaded && self.engine_table != 0 {
            AcquisitionState::Resolved
        } else if self.redirected {
            AcquisitionState::AwaitingSession
        } else {
            AcquisitionState::Unresolved
        }
    }

    pub fn new() -> (a: Acquisition)
        ensures
            a == (Acquisition {
                engine_table: 0,
                map_loaded: false,
                hook_installed: false,
                hook_status: 0xDEAD,
                init_target: 0,
                redirected: false,
            }),
            a.wf(),
            a.state() == AcquisitionState::Unresolved,
    {
        Acquisition {
            engine_table: 0,
            map_loaded: false,
            hook_installed: false,
            hook_status: STATUS_NOT_ATTEMPTED,
            init_target: 0,
            redirected: false,
        }
    }

    pub fn current_state(&self) -> (s: AcquisitionState)
        ensures
            s == self.state(),
    {
        if self.map_loaded && self.engine_table != 0 {
            AcquisitionState::Resolved
        } else if self.redirected {
            AcquisitionState::AwaitingSession
        } else {
            AcquisitionState::Unresolved
        }
    }

    /// The state after the host's entry point has run with the table
    /// pointer `table`: a pointer that is not null is published and the
    /// session is live; a null pointer changes nothing. The entry point
    /// reports here only through its redirection, so with a table
    /// published acquisition counts as carried out.
    pub open spec fn initialized(self, table: usize) -> Acquisition {
        if table != 0 {
            Acquisition { engine_table: table, map_loaded: true, hook_installed: true, ..self }
        } else {
            self
        }
    }

    /// Called by the replacement of the entry point, after the original has run.
    pub fn on_initialize(&mut self, table: usize)
        requires
            old(self).wf(),
        ensures
            *final(self) == old(self).initialized(table),
            final(self).wf(),
            table != 0 ==> final(self).engine_table == table && final(self).map_loaded
                && final(self).state() == AcquisitionState::Resolved,
            table == 0 ==> *final(self) == *old(self),
    {
        if table != 0 {
            self.engine_table = table;
            self.hook_installed = true;
            self.map_loaded = true;
        }
    }

    /// The state after the host reported that no session is live: the table
    /// is withdrawn. Where the entry point is redirected the table comes
    /// again with the next session; where it is not, acquisition starts over.
    pub open spec fn without_session(self) -> Acquisition {
        Acquisition {
            engine_table: 0,
            map_loaded: false,
            hook_installed: self.redirected,
            ..self
        }
    }

    pub fn session_lost(&mut self)
        requires
            old(self).wf(),
        ensures
            *final(self) == old(self).without_session(),
            final(self).wf(),
            final(self).state() == (if old(self).redirected {
                AcquisitionState::AwaitingSession
            } else {
                AcquisitionState::Unresolved
            }),
    {
        self.engine_table = 0;
        self.map_loaded = false;
        self.hook_installed = self.redirected;
    }
}

/// What the loader tells about the host: where its image and the module it
/// depends on lie, where its initialization entry point is, and where the
/// trampoline buffer and the replacement function are.
#[derive(Clone, Copy, Debug, PartialEq, Eq, Structural)]
pub struct HookSite {
    /// Whether the host image is loaded.
    pub client_loaded: bool,
    /// Address range of the host image, where it can be had.
    pub client: Option<ModuleSpan>,
    /// Address range of the module that the table points into.
    pub engine: Option<ModuleSpan>,
    /// Address of the exported entry point; zero where it is not exported.
    pub initialize: usize,
    /// Address of an executable buffer of at least ten bytes.
    pub trampoline: usize,
    /// Address of the function that takes the place of the entry point.
    pub replacement: usize,
}

/// How an attempt at acquisition ended.
#[derive(Clone, Copy, Debug, PartialEq, Eq, Structural)]
pub enum InstallOutcome {
    /// Acquisition was carried out before; nothing was done.
    AlreadyInstalled,
    /// The host image is not loaded.
    ClientMissing,
    /// The host image does not export the entry point.
    NotExported,
    /// The table was found in memory, at the address given.
    TableFound(usize),
    /// The first bytes of the entry point may not be fetched.
    TargetUnreadable,
    /// The trampoline could not be written.
    TrampolineFailed,
    /// The trampoline was written, the jump at the entry point was not.
    JumpFailed,
    /// The entry point is redirected.
    Redirected,
}

/// How an attempt ends, given the state and the memory before it.
pub open spec fn install_outcome<M: AddressSpace>(acq: Acquisition, m: &M, site: HookSite) -> InstallOutcome {
    if acq.hook_installed {
        InstallOutcome::AlreadyInstalled
    } else if !site.client_loaded {
        InstallOutcome::ClientMissing
    } else if site.initialize == 0 {
        InstallOutcome::NotExported
    } else {
        match table_search(m, site.client, site.engine) {
            Some(table) => InstallOutcome::TableFound(table),
            None => if !readable(m, site.initialize, 5) {
                InstallOutcome::TargetUnreadable
            } else if site.trampoline + 10 > usize::MAX + 1 || !m.can_write(site.trampoline, 10) {
                InstallOutcome::TrampolineFailed
            } else if !m.can_write(site.initialize, 5) {
                InstallOutcome::JumpFailed
            } else {
                InstallOutcome::Redirected
            },
        }
    }
}

/// The state that an attempt leaves behind.
pub open spec fn acquisition_after(acq: Acquisition, outcome: InstallOutcome, site: HookSite) -> Acquisition {
    match outcome {
        InstallOutcome::AlreadyInstalled => acq,
        InstallOutcome::ClientMissing => acq,
        InstallOutcome::NotExported => Acquisition { hook_status: 0xE001, ..acq },
        InstallOutcome::TableFound(table) => Acquisition {
            engine_table: table,
            map_loaded: true,
            hook_installed: true,
            hook_status: 0,
            ..acq
        },
        InstallOutcome::TargetUnreadable => Acquisition { hook_status: 0xE002, ..acq },
        InstallOutcome::TrampolineFailed => Acquisition { hook_status: 0xE003, ..acq },
        InstallOutcome::JumpFailed => Acquisition {
            hook_status: 0xE003,
            init_target: site.initialize,
            ..acq
        },
        InstallOutcome::Redirected => Acquisition {
            hook_installed: true,
            hook_status: 0,
            init_target: site.initialize,
            redirected: true,
            ..acq
        },
    }
}

/// The byte at `a` after an attempt, given the memory before it. Only an
/// attempt that gets as far as writing changes anything: the trampoline
/// receives the displaced bytes and the jump back, then the entry point
/// receives the jump to the replacement.
pub open spec fn byte_after_install<M: AddressSpace>(
    m: &M,
    site: HookSite,
    outcome: InstallOutcome,
    a: usize,
) -> u8 {
    let staged = patched_byte(
        m.byte_at(a),
        site.trampoline,
        trampoline_code(window(m, site.initialize, 5), site.trampoline, site.initialize),
        a,
    );
    match outcome {
        InstallOutcome::JumpFailed => staged,
        InstallOutcome::Redirected => patched_byte(
            staged,
            site.initialize,
            jump_code(site.initialize as int, site.replacement as int),
            a,
        ),
        _ => m.byte_at(a),
    }
}

/// The line that an attempt adds to the journal.
pub open spec fn install_line(outcome: InstallOutcome) -> Seq<char> {
    match outcome {
        InstallOutcome::AlreadyInstalled => Seq::empty(),
        InstallOutcome::ClientMissing => "client.dll not loaded yet"@,
        InstallOutcome::NotExported => "Initialize not exported"@,
        InstallOutcome::TableFound(_) => "engine table found via memory scan"@,
        InstallOutcome::TargetUnreadable => "Initialize not readable"@,
        InstallOutcome::TrampolineFailed => "trampoline write failed"@,
        InstallOutcome::JumpFailed => "write_jmp failed"@,
        InstallOutcome::Redirected => "Initialize JMP hook installed"@,
    }
}

/// The lines of a journal as sequences of characters.
pub open spec fn lines_of(journal: Seq<String>) -> Seq<Seq<char>> {
    Seq::new(journal.len(), |i: int| journal[i]@)
}

/// Everything that is kept from one frame to the next.
pub struct Session {
    pub acquisition: Acquisition,
    /// Address of the auxiliary array; zero until it is found.
    pub extra_info_base: usize,
    /// Number of the frame being drawn.
    pub frame_counter: u32,
    /// Handle of the module that holds this library.
    pub dll_hinst: usize,
    /// One record per slot, indexed by slot number.
    pub staleness: Vec<StalenessRecord>,
    /// Diagnostic lines, oldest first.
    pub journal: Vec<String>,
}

impl Session {
    pub open spec fn wf(&self) -> bool {
        &&& self.acquisition.wf()
        &&& self.staleness@.len() == 33
        &&& forall|i: int| 0 <= i < 33 ==> (#[trigger] self.staleness@[i]).wf()
    }

    /// Equal in everything but the journal.
    pub open spec fn same_state(&self, other: &Session) -> bool {
        &&& self.acquisition == other.acquisition
        &&& self.extra_info_base == other.extra_info_base
        &&& self.frame_counter == other.frame_counter
        &&& self.dll_hinst == other.dll_hinst
        &&& self.staleness == other.staleness
    }

    pub fn new() -> (s: Session)
        ensures
            s.wf(),
            s.acquisition == (Acquisition {
                engine_table: 0,
                map_loaded: false,
                hook_installed: false,
                hook_status: 0xDEAD,
                init_target: 0,
                redirected: false,
            }),
            s.extra_info_base == 0,
            s.frame_counter == 0,
            s.dll_hinst == 0,
            s.journal@.len() == 0,
            forall|i: int|
                0 <= i < 33 ==> #[trigger] s.staleness@[i] == (StalenessRecord {
                    origin: crate::math::Vec3 { x: 0, y: 0, z: 0 },
                    cursor: 0,
                    frame: 0,
                }),
    {
        let mut staleness: Vec<StalenessRecord> = Vec::new();
        let mut i: usize = 0;
        while i < SLOT_RECORDS
            invariant
                i <= 33,
                staleness@.len() == i,
                forall|k: int|
                    0 <= k < i ==> (#[trigger] staleness@[k]).wf() && staleness@[k] == (
                    StalenessRecord {
                        origin: crate::math::Vec3 { x: 0, y: 0, z: 0 },
                        cursor: 0,
                        frame: 0,
                    }),
            decreases 33 - i,
        {
            staleness.push(StalenessRecord::new());
            i += 1;
        }
        Session {
            acquisition: Acquisition::new(),
            extra_info_base: 0,
            frame_counter: 0,
            dll_hinst: 0,
            staleness,
            journal: Vec::new(),
        }
    }
}

/// Sets the number of the frame being drawn, by which staleness is timed.
pub fn set_frame_counter(session: &mut Session, f: u32)
    ensures
        final(session).frame_counter == f,
        final(session).acquisition == old(session).acquisition,
        final(session).extra_info_base == old(session).extra_info_base,
        final(session).dll_hinst == old(session).dll_hinst,
        final(session).staleness == old(session).staleness,
        final(session).journal == old(session).journal,
{
    session.frame_counter = f;
}

/// Records the handle of the module that holds this library.
pub fn set_dll_hinst(session: &mut Session, h: usize)
    ensures
        final(session).dll_hinst == h,
        final(session).acquisition == old(session).acquisition,
        final(session).extra_info_base == old(session).extra_info_base,
        final(session).frame_counter == old(session).frame_counter,
        final(session).staleness == old(session).staleness,
        final(session).journal == old(session).journal,
{
    session.dll_hinst = h;
}

/// Appends a line to the journal.
pub fn log(session: &mut Session, s: &str)
    ensures
        lines_of(final(session).journal@) == lines_of(old(session).journal@).push(s@),
        final(session).same_state(old(session)),
{
    session.journal.push(s.to_owned());
    assert(lines_of(session.journal@) =~= lines_of(old(session).journal@).push(s@));
}

/// Appends a line that the caller has put together.
pub fn logf(session: &mut Session, s: String)
    ensures
        lines_of(final(session).journal@) == lines_of(old(session).journal@).push(s@),
        final(session).same_state(old(session)),
{
    session.journal.push(s);
    assert(lines_of(session.journal@) =~= lines_of(old(session).journal@).push(s@));
}

/// The text of a journal file: every line in UTF-8, each ended by a line feed.
pub open spec fn journal_text(lines: Seq<Seq<char>>) -> Seq<u8>
    decreases lines.len(),
{
    if lines.len() == 0 {
        Seq::empty()
    } else {
        journal_text(lines.drop_last()) + vstd::utf8::encode_utf8(lines.last()) + seq![10u8]
    }
}

/// Renders the whole journal as the text of its file, which is written
/// anew on every flush.
pub fn flush_log(session: &Session) -> (text: Vec<u8>)
    ensures
        text@ == journal_text(lines_of(session.journal@)),
{
    let mut text: Vec<u8> = Vec::new();
    let mut i: usize = 0;
    while i < session.journal.len()
        invariant
            i <= session.journal.len(),
            text@ == journal_text(lines_of(session.journal@).take(i as int)),
        decreases session.journal.len() - i,
    {
        let line = session.journal[i].as_str().as_bytes();
        let ghost before = text@;
        let mut k: usize = 0;
        while k < line.len()
            invariant
                k <= line.len(),
                text@ == before + line@.take(k as int),
            decreases line.len() - k,
        {
            text.push(line[k]);
            assert(line@.take(k + 1) =~= line@.take(k as int).push(line@[k as int]));
            k += 1;
        }
        text.push(10);
        proof {
            let all = lines_of(session.journal@);
            assert(line@.take(k as int) =~= line@);
            assert(all.take(i + 1).drop_last() =~= all.take(i as int));
            assert(all.take(i + 1).last() == session.journal@[i as int]@);
        }
        i += 1;
    }
    assert(lines_of(session.journal@).take(i as int) =~= lines_of(session.journal@));
    text
}

/// Acquires the host's function table, once.
///
/// The host image is searched for the table first. Where none is found the
/// initialization entry point is redirected to `site.replacement`: its
/// first five bytes and a jump back go to the trampoline, and a jump to the
/// replacement goes over those five bytes. The table then arrives through
/// `Acquisition::on_initialize` when the host next starts a session. Every
/// way in which the attempt can end leaves a status behind and a line in
/// the journal.
pub fn install_initialize_hook<M: AddressSpace>(
    session: &mut Session,
    m: &mut M,
    site: &HookSite,
) -> (outcome: InstallOutcome)
    requires
        old(session).wf(),
    ensures
        outcome == install_outcome(old(session).acquisition, old(m), *site),
        final(session).acquisition == acquisition_after(old(session).acquisition, outcome, *site),
        final(session).wf(),
        final(session).extra_info_base == old(session).extra_info_base,
        final(session).frame_counter == old(session).frame_counter,
        final(session).dll_hinst == old(session).dll_hinst,
        final(session).staleness == old(session).staleness,
        outcome == InstallOutcome::AlreadyInstalled ==> final(session).journal == old(
            session,
        ).journal,
        outcome != InstallOutcome::AlreadyInstalled ==> lines_of(final(session).journal@)
            == lines_of(old(session).journal@).push(install_line(outcome)),
        forall|a: usize| #[trigger] final(m).region_at(a) == old(m).region_at(a),
        forall|a: usize, n: usize| #[trigger] final(m).can_write(a, n) == old(m).can_write(a, n),
        forall|a: usize| #[trigger]
            final(m).byte_at(a) == byte_after_install(old(m), *site, outcome, a),
{
    if session.acquisition.hook_installed {
        return InstallOutcome::AlreadyInstalled;
    }
    if !site.client_loaded {
        log(session, "client.dll not loaded yet");
        return InstallOutcome::ClientMissing;
    }
    let target = site.initialize;
    if target == 0 {
        session.acquisition.hook_status = STATUS_NOT_EXPORTED;
        log(session, "Initialize not exported");
        return InstallOutcome::NotExported;
    }
    match find_gengfuncs_in_client(m, site.client, site.engine) {
        Some(table) => {
            session.acquisition.engine_table = table;
            session.acquisition.map_loaded = true;
            session.acquisition.hook_status = STATUS_OK;
            session.acquisition.hook_installed = true;
            log(session, "engine table found via memory scan");
            return InstallOutcome::TableFound(table);
        },
        None => {},
    }
    if !is_readable(m, target, 5) {
        session.acquisition.hook_status = STATUS_UNREADABLE;
        log(session, "Initialize not readable");
        return InstallOutcome::TargetUnreadable;
    }
    let mut displaced: Vec<u8> = Vec::new();
    displaced.push(m.load(target, 0));
    displaced.push(m.load(target, 1));
    displaced.push(m.load(target, 2));
    displaced.push(m.load(target, 3));
    displaced.push(m.load(target, 4));
    assert(displaced@ =~= window(m, target, 5));
    let staged = match site.trampoline.checked_add(9) {
        Some(_) => {
            let code = build_trampoline(&displaced, site.trampoline, target);
            m.write_code(site.trampoline, &code)
        },
        None => false,
    };
    if !staged {
        session.acquisition.hook_status = STATUS_WRITE_FAILED;
        log(session, "trampoline write failed");
        return InstallOutcome::TrampolineFailed;
    }
    session.acquisition.init_target = target;
    let jump = encode_jump(target, site.replacement);
    if !m.write_code(target, &jump) {
        session.acquisition.hook_status = STATUS_WRITE_FAILED;
        log(session, "write_jmp failed");
        return InstallOutcome::JumpFailed;
    }
    session.acquisition.hook_status = STATUS_OK;
    session.acquisition.hook_installed = true;
    session.acquisition.redirected = true;
    log(session, "Initialize JMP hook installed");
    InstallOutcome::Redirected
}

/// Table slot of the function that describes a participant.
pub const SLOT_GET_PLAYER_INFO: usize = 21;

/// Table slot of the pointer to the drawing interface.
pub const SLOT_PTRIAPI: usize = 82;

/// Table slot of the function that returns a model by index.
pub const SLOT_GET_MODEL_BY_INDEX: usize = 107;

/// Slot of the projection function within the drawing interface.
pub const TRI_WORLD_TO_SCREEN: usize = 12;

/// Offset of the self-reported index within an entity.
pub const ENT_INDEX: usize = 0x00;

/// Offset of the flag that marks an entity as a participant.
pub const ENT_PLAYER: usize = 0x04;

/// Offset of the state block within an entity.
pub const CURSTATE_OFFSET: usize = 0x2B0;

/// Offset of the cursor into the position history.
pub const ENT_CURPOS: usize = 0x404;

/// Offset of the position history, a ring of 64 entries.
pub const ENT_PH_BASE: usize = 0x408;

/// Size of one entry of the position history.
pub const PH_ENTRY_SIZE: usize = 28;

/// Offset of the position within an entry of the history.
pub const PH_ORIGIN: usize = 4;

/// Number of entries of the position history.
pub const PH_ENTRIES: u32 = 64;

/// Offset of the interpolated position within an entity.
pub const ENT_ORIGIN: usize = 0xB48;

/// Offsets within the state block: position, bounds maxima, weapon model, hull.
pub const ES_ORIGIN: usize = 0x10;

pub const ES_MAXS: usize = 0x88;

pub const ES_WEAPONMODEL: usize = 0xB4;

pub const ES_USEHULL: usize = 0xC8;

/// Offsets within an entry of the auxiliary array: team number, dead flag.
pub const EXTRA_OFF_TEAMNUMBER: usize = 0x2A;

pub const EXTRA_OFF_DEAD: usize = 0x3C;

/// Longest display name that is read.
pub const NAME_LEN: usize = 32;

/// Longest model path that is read.
pub const MODEL_PATH_LEN: usize = 64;

/// Bounds: a crouched hull is plausible below 60 units, a standing one
/// between 60 and 90. The values are bit patterns of single-precision
/// numbers, which order as the numbers do while the sign bit is clear.
pub const HEIGHT_SPLIT: u32 = 0x4270_0000;

pub const HEIGHT_LIMIT: u32 = 0x42B4_0000;

/// Height assumed for a crouched hull, before the margin: 44 units.
pub const HEIGHT_CROUCHED: u32 = 0x4230_0000;

/// Height assumed for a standing hull, before the margin: 72 units.
pub const HEIGHT_STANDING: u32 = 0x4290_0000;

/// A pointer is plausible when it lies above the pointer floor.
pub open spec fn plausible(p: usize) -> bool {
    p > 0x10000
}

/// The pointer in slot `slot` of the table at `table`.
pub open spec fn slot_pointer<M: AddressSpace>(m: &M, table: usize, slot: usize) -> usize {
    u32_at(m, spec_at(table, (slot * 4) as usize)) as usize
}

fn table_slot<M: AddressSpace>(m: &M, table: usize, slot: usize) -> (p: usize)
    requires
        slot <= 1024,
    ensures
        p == slot_pointer(m, table, slot),
{
    read_u32(m, at(table, slot * 4)) as usize
}

/// The table that may be handed out: a session is live, a table is
/// published, and its two well-known slots hold plausible pointers.
pub open spec fn resolved_handle<M: AddressSpace>(acq: Acquisition, m: &M) -> Option<usize> {
    if acq.map_loaded && acq.engine_table != 0 && plausible(
        slot_pointer(m, acq.engine_table, 51),
    ) && plausible(slot_pointer(m, acq.engine_table, 53)) {
        Some(acq.engine_table)
    } else {
        None
    }
}

/// The table that may be handed out depends on the contents of memory alone.
pub proof fn handle_depends_on_contents<M: AddressSpace>(acq: Acquisition, m1: &M, m2: &M)
    requires
        forall|a: usize| #[trigger] m2.region_at(a) == m1.region_at(a),
        forall|a: usize| #[trigger] m2.byte_at(a) == m1.byte_at(a),
    ensures
        resolved_handle(acq, m2) == resolved_handle(acq, m1),
{
}

/// Resolving is idempotent. Let a first call, made in state `acq` on memory
/// `m0`, leave the memory `m1` behind and hand out a table. Then that call
/// wrote nothing; and a second call, which leaves `m2` behind, finds
/// acquisition carried out, so it neither searches nor installs: it keeps
/// the state, writes nothing, and hands out the same table.
pub proof fn resolve_is_idempotent<M: AddressSpace>(
    acq: Acquisition,
    m0: &M,
    m1: &M,
    m2: &M,
    site: HookSite,
)
    requires
        acq.wf(),
        forall|a: usize| #[trigger] m1.region_at(a) == m0.region_at(a),
        forall|a: usize| #[trigger]
            m1.byte_at(a) == byte_after_install(m0, site, install_outcome(acq, m0, site), a),
        resolved_handle(acquisition_after(acq, install_outcome(acq, m0, site), site), m1) is Some,
        forall|a: usize| #[trigger] m2.region_at(a) == m1.region_at(a),
        forall|a: usize| #[trigger]
            m2.byte_at(a) == byte_after_install(
                m1,
                site,
                install_outcome(
                    acquisition_after(acq, install_outcome(acq, m0, site), site),
                    m1,
                    site,
                ),
                a,
            ),
    ensures
        ({
            let first = acquisition_after(acq, install_outcome(acq, m0, site), site);
            let second = acquisition_after(first, install_outcome(first, m1, site), site);
            &&& forall|a: usize| #[trigger] m1.byte_at(a) == m0.byte_at(a)
            &&& install_outcome(first, m1, site) == InstallOutcome::AlreadyInstalled
            &&& second == first
            &&& forall|a: usize| #[trigger] m2.byte_at(a) == m1.byte_at(a)
            &&& resolved_handle(second, m2) == resolved_handle(first, m1)
        }),
{
    let first = acquisition_after(acq, install_outcome(acq, m0, site), site);
    assert(first.map_loaded);
    assert(first.hook_installed);
    handle_depends_on_contents(first, m1, m2);
}

/// The address of the auxiliary array after it was asked for: the cached
/// one where there is one, else what the search finds, else zero.
pub open spec fn extra_base_after<M: AddressSpace>(
    cached: usize,
    m: &M,
    client: Option<ModuleSpan>,
) -> usize {
    if cached != 0 {
        cached
    } else {
        match extra_info_search(m, client) {
            Some(p) => p,
            None => 0,
        }
    }
}

/// Once the auxiliary array is found its address stays: asking again gives
/// the same address, whatever memory holds by then.
pub proof fn extra_base_is_permanent<M: AddressSpace>(
    cached: usize,
    m: &M,
    later: &M,
    client: Option<ModuleSpan>,
    later_client: Option<ModuleSpan>,
)
    requires
        extra_base_after(cached, m, client) != 0,
    ensures
        extra_base_after(extra_base_after(cached, m, client), later, later_client)
            == extra_base_after(cached, m, client),
{
}

/// Returns the address of the auxiliary array, searching for it unless it is cached.
pub fn get_extra_info_base<M: AddressSpace>(
    session: &mut Session,
    m: &M,
    client: Option<ModuleSpan>,
) -> (base: usize)
    ensures
        base == extra_base_after(old(session).extra_info_base, m, client),
        final(session).extra_info_base == base,
        final(session).acquisition == old(session).acquisition,
        final(session).frame_counter == old(session).frame_counter,
        final(session).dll_hinst == old(session).dll_hinst,
        final(session).staleness == old(session).staleness,
        final(session).journal == old(session).journal,
{
    let cached = session.extra_info_base;
    if cached != 0 {
        return cached;
    }
    match find_player_extra_info(m, client) {
        Some(p) => {
            session.extra_info_base = p;
            p
        },
        None => 0,
    }
}

/// What is told of one participant for one frame.
pub struct PlayerData {
    /// Position in the world.
    pub origin: Vec3,
    /// Height that the box is drawn with, margin included; the bit pattern
    /// of a single-precision number.
    pub maxs_z: u32,
    /// Team number.
    pub team: i32,
    /// Display name.
    pub name: String,
    /// Display name of the weapon held; empty where none is known.
    pub weapon: String,
    /// Whether this is the local participant.
    pub is_local: bool,
    /// Whether the participant is crouched.
    pub is_ducking: bool,
}

/// `PlayerData` with its strings as sequences of characters.
pub struct Snapshot {
    pub origin: Vec3,
    pub maxs_z: u32,
    pub team: i32,
    pub name: Seq<char>,
    pub weapon: Seq<char>,
    pub is_local: bool,
    pub is_ducking: bool,
}

impl View for PlayerData {
    type V = Snapshot;

    open spec fn view(&self) -> Snapshot {
        Snapshot {
            origin: self.origin,
            maxs_z: self.maxs_z,
            team: self.team,
            name: self.name@,
            weapon: self.weapon@,
            is_local: self.is_local,
            is_ducking: self.is_ducking,
        }
    }
}

/// The name that the host lists for a slot.
pub open spec fn listed_name<H: Engine>(h: &H, table: usize, idx: i32) -> Option<Seq<u8>> {
    cstr_at(h, h.player_info(slot_pointer(h, table, 21), idx).name, 32)
}

/// A slot is admitted unless the host can be asked and lists no name for
/// it, or lists a spectator.
pub open spec fn admitted<H: Engine>(h: &H, table: usize, idx: i32) -> bool {
    plausible(slot_pointer(h, table, 21)) ==> listed_name(h, table, idx) is Some && h.player_info(
        slot_pointer(h, table, 21),
        idx,
    ).spectator == 0
}

/// The name shown for an admitted slot: the listed one, or a label made of
/// the slot number where the host cannot be asked.
pub open spec fn display_name<H: Engine>(h: &H, table: usize, idx: i32) -> Seq<u8> {
    if plausible(slot_pointer(h, table, 21)) && listed_name(h, table, idx) is Some {
        listed_name(h, table, idx).unwrap()
    } else {
        slot_label(idx)
    }
}

pub open spec fn local_flag<H: Engine>(h: &H, table: usize, idx: i32) -> bool {
    plausible(slot_pointer(h, table, 21)) && h.player_info(
        slot_pointer(h, table, 21),
        idx,
    ).thisplayer != 0
}

/// The entity in a slot: what the host returns, provided it is not null,
/// is flagged as a participant, and reports the slot's own index.
pub open spec fn entity_base<H: Engine>(h: &H, table: usize, idx: i32) -> Option<usize> {
    let f = slot_pointer(h, table, 53);
    if !plausible(f) {
        None
    } else {
        let e = h.entity(f, idx);
        if e == 0 {
            None
        } else if i32_at(h, spec_at(e, 4)) == 0 {
            None
        } else if i32_at(h, e) != idx {
            None
        } else {
            Some(e)
        }
    }
}

/// The cursor into the position history, reduced to the ring's bounds.
pub open spec fn cursor_of<M: AddressSpace>(m: &M, base: usize) -> usize {
    (u32_at(m, spec_at(base, 0x404)) % 64) as usize
}

/// Address of the position in entry `cursor` of the history.
pub open spec fn history_address(base: usize, cursor: usize) -> usize {
    spec_at(base, (0x408 + cursor * 28 + 4) as usize)
}

/// The position read for an entity: the interpolated one, else the one at
/// the cursor of the history, else the one of the state block; the first
/// among them that is usable.
pub open spec fn fresh_origin<M: AddressSpace>(m: &M, base: usize) -> Option<Vec3> {
    first_usable(
        vec3_at(m, spec_at(base, 0xB48)),
        vec3_at(m, history_address(base, cursor_of(m, base))),
        vec3_at(m, spec_at(spec_at(base, 0x2B0), 0x10)),
    )
}

/// The entity and fresh position of a slot, where the slot is in range and
/// admitted and both can be had.
pub open spec fn located<H: Engine>(h: &H, table: usize, idx: i32) -> Option<(usize, Vec3)> {
    if !(1 <= idx <= 32) || !admitted(h, table, idx) {
        None
    } else {
        match entity_base(h, table, idx) {
            None => None,
            Some(base) => match fresh_origin(h, base) {
                None => None,
                Some(fresh) => Some((base, fresh)),
            },
        }
    }
}

/// The records after a slot was examined: the record of a located slot is
/// brought up to date, every other record stays.
pub open spec fn records_after<H: Engine>(
    h: &H,
    table: usize,
    records: Seq<StalenessRecord>,
    frame: u32,
    idx: i32,
) -> Seq<StalenessRecord> {
    match located(h, table, idx) {
        None => records,
        Some((base, fresh)) => records.update(
            idx as int,
            record_after(records[idx as int], cursor_of(h, base), frame, fresh),
        ),
    }
}

/// The entity of a slot and the position to report for it, staleness considered.
pub open spec fn positioned<H: Engine>(
    h: &H,
    table: usize,
    records: Seq<StalenessRecord>,
    frame: u32,
    idx: i32,
) -> Option<(usize, Vec3)> {
    match located(h, table, idx) {
        None => None,
        Some((base, fresh)) => match reported(records[idx as int], cursor_of(h, base), frame, fresh) {
            None => None,
            Some(p) => Some((base, p)),
        },
    }
}

/// Address of the entry of slot `idx` in the auxiliary array at `extra`.
pub open spec fn extra_entry(extra: usize, idx: i32) -> usize {
    spec_at(extra, (idx * 0x68) as usize)
}

pub open spec fn team_of<M: AddressSpace>(m: &M, extra: usize, idx: i32) -> i32 {
    i16_at(m, spec_at(extra_entry(extra, idx), 0x2A)) as i32
}

pub open spec fn dead<M: AddressSpace>(m: &M, extra: usize, idx: i32) -> bool {
    u8_at(m, spec_at(extra_entry(extra, idx), 0x3C)) != 0
}

/// The display name of the weapon whose model has index `model_index`.
pub open spec fn weapon_name<H: Engine>(h: &H, table: usize, model_index: i32) -> Seq<u8> {
    let f = slot_pointer(h, table, 107);
    if !plausible(f) {
        Seq::empty()
    } else {
        let model = h.model(f, model_index);
        if model == 0 || !readable(h, model, 64) {
            Seq::empty()
        } else {
            match cstr_at(h, model, 64) {
                Some(path) => weapon_token(path),
                None => Seq::empty(),
            }
        }
    }
}

/// The display name of the weapon that the entity at `base` holds.
pub open spec fn weapon_of<H: Engine>(h: &H, table: usize, base: usize) -> Seq<u8> {
    let index = i32_at(h, spec_at(spec_at(base, 0x2B0), 0xB4));
    if index > 0 {
        weapon_name(h, table, index)
    } else {
        Seq::empty()
    }
}

pub open spec fn ducking<M: AddressSpace>(m: &M, base: usize) -> bool {
    i32_at(m, spec_at(spec_at(base, 0x2B0), 0xC8)) == 1
}

/// The height of a hull before the margin: the one read where it is
/// plausible for the posture, the assumed one where it is not.
pub open spec fn hull_base(ducking: bool, maxs: u32) -> u32 {
    if ducking {
        if 0 < maxs < 0x4270_0000 {
            maxs
        } else {
            0x4230_0000
        }
    } else {
        if 0x4270_0000 < maxs < 0x42B4_0000 {
            maxs
        } else {
            0x4290_0000
        }
    }
}

/// The height that a box is drawn with: the height of the hull and the
/// margin of four units, as one single-precision number.
pub open spec fn hull_height(ducking: bool, maxs: u32) -> u32 {
    plus_four(hull_base(ducking, maxs))
}

/// The assumed heights come to 48 units crouched and 76 standing, and a
/// crouched hull read as 40 units high comes to 44.
pub proof fn heights_with_margin()
    ensures
        forall|maxs: u32| !(0 < maxs < 0x4270_0000) ==> #[trigger] hull_height(true, maxs)
            == 0x4240_0000,
        forall|maxs: u32|
            !(0x4270_0000 < maxs < 0x42B4_0000) ==> #[trigger] hull_height(false, maxs)
                == 0x4298_0000,
        hull_height(true, 0x4220_0000) == 0x4230_0000,
{
}

pub fn choose_height(ducking: bool, maxs: u32) -> (h: u32)
    ensures
        h == hull_height(ducking, maxs),
        0x4080_0000 <= h <= 0x42BC_0000,
{
    let base = if ducking {
        if 0 < maxs && maxs < HEIGHT_SPLIT {
            maxs
        } else {
            HEIGHT_CROUCHED
        }
    } else {
        if HEIGHT_SPLIT < maxs && maxs < HEIGHT_LIMIT {
            maxs
        } else {
            HEIGHT_STANDING
        }
    };
    add_margin(base)
}

/// What is told of slot `idx`, given the records and the frame, and the
/// address `cached` of the auxiliary array as far as it is known.
pub open spec fn snapshot<H: Engine>(
    h: &H,
    table: usize,
    records: Seq<StalenessRecord>,
    frame: u32,
    cached: usize,
    client: Option<ModuleSpan>,
    idx: i32,
) -> Option<Snapshot> {
    match positioned(h, table, records, frame, idx) {
        None => None,
        Some((base, origin)) => {
            let extra = extra_base_after(cached, h, client);
            if dead(h, extra, idx) {
                None
            } else {
                Some(
                    Snapshot {
                        origin,
                        maxs_z: hull_height(
                            ducking(h, base),
                            u32_at(h, spec_at(spec_at(base, 0x2B0), 0x90)),
                        ),
                        team: team_of(h, extra, idx),
                        name: ascii_chars(display_name(h, table, idx)),
                        weapon: ascii_chars(weapon_of(h, table, base)),
                        is_local: local_flag(h, table, idx),
                        is_ducking: ducking(h, base),
                    },
                )
            }
        },
    }
}

/// A handle may be used while a session is live and the table it was
/// handed out for is the one published.
pub open spec fn live(acq: Acquisition, table: usize) -> bool {
    acq.map_loaded && table != 0 && acq.engine_table == table
}

/// The position of the local participant: the interpolated position of the
/// entity that the host returns, where that position is usable. Nothing
/// while the table is not resolved.
pub open spec fn local_position<H: Engine>(acq: Acquisition, h: &H, table: usize) -> Option<Vec3> {
    let f = slot_pointer(h, table, 51);
    if !live(acq, table) || !plausible(f) {
        None
    } else {
        let e = h.local_player(f);
        if e == 0 || !vec3_at(h, spec_at(e, 0xB48)).usable() {
            None
        } else {
            Some(vec3_at(h, spec_at(e, 0xB48)))
        }
    }
}

/// What is told of slot `idx`: nothing while the table is not resolved,
/// else the snapshot.
pub open spec fn told<H: Engine>(
    acq: Acquisition,
    h: &H,
    table: usize,
    records: Seq<StalenessRecord>,
    frame: u32,
    cached: usize,
    client: Option<ModuleSpan>,
    idx: i32,
) -> Option<Snapshot> {
    if live(acq, table) {
        snapshot(h, table, records, frame, cached, client, idx)
    } else {
        None
    }
}

/// The view coordinates of a point of the world, unless it lies behind the
/// viewer. Nothing while the table is not resolved.
pub open spec fn screen_point<H: Engine>(
    acq: Acquisition,
    h: &H,
    table: usize,
    world: Vec3,
) -> Option<(u32, u32)> {
    let tri = slot_pointer(h, table, 82);
    if !live(acq, table) || !plausible(tri) {
        None
    } else {
        let f = u32_at(h, spec_at(tri, 48)) as usize;
        if !plausible(f) {
            None
        } else {
            let p = h.projection(f, world);
            if p.clipped != 0 {
                None
            } else {
                Some((p.x, p.y))
            }
        }
    }
}

/// A handle to the host's function table.
pub struct EngineApi {
    table: usize,
}

impl EngineApi {
    /// Address of the table.
    pub closed spec fn handle(&self) -> usize {
        self.table
    }

    pub fn table(&self) -> (t: usize)
        ensures
            t == self.handle(),
    {
        self.table
    }

    /// Hands out the table, acquiring it first unless that was done before.
    ///
    /// Once acquisition has been carried out, a call changes neither the
    /// state of acquisition nor the journal nor the memory, and hands out the
    /// same table for as long as the session is live and the table's two
    /// well-known slots hold plausible pointers.
    pub fn resolve<M: AddressSpace>(session: &mut Session, m: &mut M, site: &HookSite) -> (r:
        Option<EngineApi>)
        requires
            old(session).wf(),
        ensures
            final(session).wf(),
            final(session).acquisition == acquisition_after(
                old(session).acquisition,
                install_outcome(old(session).acquisition, old(m), *site),
                *site,
            ),
            match r {
                Some(api) => resolved_handle(final(session).acquisition, final(m)) == Some(
                    api.handle(),
                ) && api.handle() != 0,
                None => resolved_handle(final(session).acquisition, final(m)) is None,
            },
            r matches Some(api) ==> live(final(session).acquisition, api.handle()),
            final(session).extra_info_base == old(session).extra_info_base,
            final(session).frame_counter == old(session).frame_counter,
            final(session).dll_hinst == old(session).dll_hinst,
            final(session).staleness == old(session).staleness,
            old(session).acquisition.hook_installed ==> final(session).journal == old(
                session,
            ).journal,
            !old(session).acquisition.hook_installed ==> lines_of(final(session).journal@)
                == lines_of(old(session).journal@).push(
                install_line(install_outcome(old(session).acquisition, old(m), *site)),
            ),
            forall|a: usize| #[trigger] final(m).region_at(a) == old(m).region_at(a),
            forall|a: usize, n: usize| #[trigger]
                final(m).can_write(a, n) == old(m).can_write(a, n),
            forall|a: usize| #[trigger]
                final(m).byte_at(a) == byte_after_install(
                    old(m),
                    *site,
                    install_outcome(old(session).acquisition, old(m), *site),
                    a,
                ),
    {
        if !session.acquisition.hook_installed {
            install_initialize_hook(session, m, site);
        }
        if !session.acquisition.map_loaded {
            return None;
        }
        let table = session.acquisition.engine_table;
        if table == 0 {
            return None;
        }
        let s51 = table_slot(m, table, SLOT_GET_LOCAL_PLAYER);
        let s53 = table_slot(m, table, SLOT_GET_ENTITY_BY_INDEX);
        if s51 <= MIN_POINTER || s53 <= MIN_POINTER {
            return None;
        }
        Some(EngineApi { table })
    }

    /// Whether a session is live.
    pub fn map_loaded(session: &Session) -> (r: bool)
        ensures
            r == session.acquisition.map_loaded,
    {
        session.acquisition.map_loaded
    }

    /// The highest slot number.
    pub fn max_clients(&self) -> (n: i32)
        ensures
            n == 32,
    {
        MAX_CLIENTS
    }

    /// Whether this handle may be used: a session is live and the table
    /// published is the one that the handle was handed out for.
    pub fn is_live(&self, session: &Session) -> (r: bool)
        ensures
            r == live(session.acquisition, self.handle()),
    {
        session.acquisition.map_loaded && self.table != 0 && session.acquisition.engine_table
            == self.table
    }

    /// Reads the position of the local participant. While the table is not
    /// resolved nothing is read and nothing is returned.
    pub fn local_origin<H: Engine>(&self, session: &Session, h: &H) -> (r: Option<Vec3>)
        ensures
            r == local_position(session.acquisition, h, self.handle()),
            r matches Some(v) ==> v.usable(),
            !live(session.acquisition, self.handle()) ==> r is None,
    {
        if !self.is_live(session) {
            return None;
        }
        let f = table_slot(h, self.table, SLOT_GET_LOCAL_PLAYER);
        if f <= MIN_POINTER {
            return None;
        }
        let ent = h.get_local_player(f);
        if ent == 0 {
            return None;
        }
        let o = read_vec3(h, at(ent, ENT_ORIGIN));
        if !o.is_usable() {
            return None;
        }
        Some(o)
    }

    /// Projects a point of the world into view coordinates. While the table
    /// is not resolved nothing is read or called and nothing is returned.
    pub fn world_to_screen<H: Engine>(&self, session: &Session, h: &H, world: Vec3) -> (r: Option<
        (u32, u32),
    >)
        ensures
            r == screen_point(session.acquisition, h, self.handle(), world),
            !live(session.acquisition, self.handle()) ==> r is None,
    {
        if !self.is_live(session) {
            return None;
        }
        let tri = table_slot(h, self.table, SLOT_PTRIAPI);
        if tri <= MIN_POINTER {
            return None;
        }
        let f = read_u32(h, at(tri, TRI_WORLD_TO_SCREEN * 4)) as usize;
        if f <= MIN_POINTER {
            return None;
        }
        let p = h.project(f, world);
        if p.clipped != 0 {
            return None;
        }
        Some((p.x, p.y))
    }

    /// Looks up the display name of a weapon by the index of its model.
    /// While the table is not resolved nothing is read or called and the
    /// name is empty.
    pub fn get_weapon_name<H: Engine>(&self, session: &Session, h: &H, model_index: i32) -> (name:
        String)
        ensures
            name@ == (if live(session.acquisition, self.handle()) {
                ascii_chars(weapon_name(h, self.handle(), model_index))
            } else {
                Seq::empty()
            }),
    {
        if !self.is_live(session) {
            return String::new();
        }
        let token = self.weapon_token_of(h, model_index);
        ascii_string(&token)
    }

    fn weapon_token_of<H: Engine>(&self, h: &H, model_index: i32) -> (token: Vec<u8>)
        ensures
            token@ == weapon_name(h, self.handle(), model_index),
            forall|k: int| 0 <= k < token@.len() ==> #[trigger] token@[k] < 128,
    {
        let f = table_slot(h, self.table, SLOT_GET_MODEL_BY_INDEX);
        if f <= MIN_POINTER {
            return Vec::new();
        }
        let model = h.get_model_by_index(f, model_index);
        if model == 0 || !is_readable(h, model, MODEL_PATH_LEN) {
            return Vec::new();
        }
        match read_cstr(h, model, MODEL_PATH_LEN) {
            Some(path) => weapon_name_of(&path),
            None => Vec::new(),
        }
    }

    /// Tells whether slot `idx` is admitted, and with which name and local flag.
    fn identify<H: Engine>(&self, h: &H, idx: i32) -> (r: Option<(Vec<u8>, bool)>)
        requires
            1 <= idx <= 32,
        ensures
            r is Some == admitted(h, self.handle(), idx),
            r matches Some((name, local)) ==> name@ == display_name(h, self.handle(), idx)
                && local == local_flag(h, self.handle(), idx) && forall|k: int|
                0 <= k < name@.len() ==> #[trigger] name@[k] < 128,
    {
        let f = table_slot(h, self.table, SLOT_GET_PLAYER_INFO);
        if f <= MIN_POINTER {
            return Some((label_of(idx), false));
        }
        let info = h.get_player_info(f, idx);
        match read_cstr(h, info.name, NAME_LEN) {
            None => None,
            Some(name) => {
                if info.spectator != 0 {
                    None
                } else {
                    Some((name, info.thisplayer != 0))
                }
            },
        }
    }

    /// Fetches the entity in slot `idx` and checks that it is that slot's participant.
    fn entity_of<H: Engine>(&self, h: &H, idx: i32) -> (r: Option<usize>)
        ensures
            r == entity_base(h, self.handle(), idx),
    {
        let f = table_slot(h, self.table, SLOT_GET_ENTITY_BY_INDEX);
        if f <= MIN_POINTER {
            return None;
        }
        let base = h.get_entity_by_index(f, idx);
        if base == 0 {
            return None;
        }
        let ent_index = read_i32(h, at(base, ENT_INDEX));
        let is_player = read_i32(h, at(base, ENT_PLAYER));
        if is_player == 0 {
            return None;
        }
        if ent_index != idx {
            return None;
        }
        Some(base)
    }

    /// Reads what is to be told of the participant in slot `idx` this frame.
    ///
    /// Nothing is told while the table is not resolved, nor of a slot out of
    /// range: in both cases nothing is read and the session stays as it is.
    /// Nothing is told either of a slot that the host lists without a name
    /// or as a spectator, of one without a valid entity or a usable
    /// position, of one gone stale, nor of a dead participant. The slot's
    /// record is brought up to date as soon as a position was read.
    pub fn read_player<H: Engine>(
        &self,
        session: &mut Session,
        h: &H,
        client: Option<ModuleSpan>,
        idx: i32,
    ) -> (r: Option<PlayerData>)
        requires
            old(session).wf(),
        ensures
            final(session).wf(),
            match r {
                Some(p) => told(
                    old(session).acquisition,
                    h,
                    self.handle(),
                    old(session).staleness@,
                    old(session).frame_counter,
                    old(session).extra_info_base,
                    client,
                    idx,
                ) == Some(p@),
                None => told(
                    old(session).acquisition,
                    h,
                    self.handle(),
                    old(session).staleness@,
                    old(session).frame_counter,
                    old(session).extra_info_base,
                    client,
                    idx,
                ) is None,
            },
            live(old(session).acquisition, self.handle()) ==> final(session).staleness@
                == records_after(
                h,
                self.handle(),
                old(session).staleness@,
                old(session).frame_counter,
                idx,
            ),
            live(old(session).acquisition, self.handle()) ==> final(session).extra_info_base == (
            if positioned(
                h,
                self.handle(),
                old(session).staleness@,
                old(session).frame_counter,
                idx,
            ) is Some {
                extra_base_after(old(session).extra_info_base, h, client)
            } else {
                old(session).extra_info_base
            }),
            final(session).acquisition == old(session).acquisition,
            final(session).frame_counter == old(session).frame_counter,
            final(session).dll_hinst == old(session).dll_hinst,
            final(session).journal == old(session).journal,
            !live(old(session).acquisition, self.handle()) || !(1 <= idx <= 32) ==> r is None,
            !live(old(session).acquisition, self.handle()) || !(1 <= idx <= 32) ==> final(
                session
            ).staleness == old(session).staleness,
            !live(old(session).acquisition, self.handle()) || !(1 <= idx <= 32) ==> final(
                session
            ).extra_info_base == old(session).extra_info_base,
            r matches Some(p) ==> p.origin.usable(),
    {
        if !self.is_live(session) {
            return None;
        }
        if idx <= 0 || idx > MAX_CLIENTS {
            return None;
        }
        let (name, is_local) = match self.identify(h, idx) {
            Some(found) => found,
            None => {
                return None;
            },
        };
        let base = match self.entity_of(h, idx) {
            Some(base) => base,
            None => {
                return None;
            },
        };
        let cs = at(base, CURSTATE_OFFSET);
        let cursor = (read_u32(h, at(base, ENT_CURPOS)) % PH_ENTRIES) as usize;
        let mut fresh = read_vec3(h, at(base, ENT_ORIGIN));
        if !fresh.is_usable() {
            let history = read_vec3(h, at(base, ENT_PH_BASE + cursor * PH_ENTRY_SIZE + PH_ORIGIN));
            if history.is_usable() {
                fresh = history;
            } else {
                let state = read_vec3(h, at(cs, ES_ORIGIN));
                if state.is_usable() {
                    fresh = state;
                } else {
                    return None;
                }
            }
        }
        let frame = session.frame_counter;
        let slot = idx as usize;
        let mut record = session.staleness[slot];
        let report = observe(&mut record, cursor, frame, fresh);
        session.staleness.set(slot, record);
        let origin = match report {
            Some(origin) => origin,
            None => {
                return None;
            },
        };
        let extra = get_extra_info_base(session, h, client);
        let entry = at(extra, slot * EXTRA_STRIDE);
        let team = read_i16(h, at(entry, EXTRA_OFF_TEAMNUMBER)) as i32;
        if read_u8(h, at(entry, EXTRA_OFF_DEAD)) != 0 {
            return None;
        }
        let model_index = read_i32(h, at(cs, ES_WEAPONMODEL));
        let weapon = if model_index > 0 {
            self.weapon_token_of(h, model_index)
        } else {
            Vec::new()
        };
        let is_ducking = read_i32(h, at(cs, ES_USEHULL)) == 1;
        let maxs_z = choose_height(is_ducking, read_u32(h, at(cs, ES_MAXS + 8)));
        Some(
            PlayerData {
                origin,
                maxs_z,
                team,
                name: ascii_string(&name),
                weapon: ascii_string(&weapon),
                is_local,
                is_ducking,
            },
        )
    }
}

} // verus!
