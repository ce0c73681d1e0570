use vstd::prelude::*;
use crate::engine::{Engine, HudPlayerInfo, Projection};
use crate::math::Vec3;
use crate::memory::{AddressSpace, Region, MEM_COMMIT, patched_byte, le_bytes, encode_le32};

verus! {

/// Whether `region` spans `addr`.
pub open spec fn spans(region: Region, addr: usize) -> bool {
    region.base <= addr < region.base + region.size
}

/// The first region at or after position `from` that spans `addr`.
pub open spec fn first_region(regions: Seq<Region>, addr: usize, from: int) -> Option<Region>
    decreases regions.len() - from,
{
    if from < 0 || from >= regions.len() {
        None
    } else if spans(regions[from], addr) {
        Some(regions[from])
    } else {
        first_region(regions, addr, from + 1)
    }
}

/// The value most recently stored for `addr`, or zero if none was.
pub open spec fn last_store(cells: Seq<(usize, u8)>, addr: usize) -> u8
    decreases cells.len(),
{
    if cells.len() == 0 {
        0
    } else if cells.last().0 == addr {
        cells.last().1
    } else {
        last_store(cells.drop_last(), addr)
    }
}

/// An address space held in ordinary data: a list of mapped regions and a
/// journal of byte stores, the latest store to an address winning.
pub struct SimMemory {
    pub regions: Vec<Region>,
    pub cells: Vec<(usize, u8)>,
}

impl SimMemory {
    pub fn new() -> (m: SimMemory)
        ensures
            m.regions@.len() == 0,
            m.cells@.len() == 0,
            forall|a: usize| m.region_at(a) is None,
            forall|a: usize| m.byte_at(a) == 0,
    {
        SimMemory { regions: Vec::new(), cells: Vec::new() }
    }

    /// Maps a region. Regions mapped earlier take precedence where two overlap.
    pub fn map_region(&mut self, region: Region)
        ensures
            final(self).regions@ == old(self).regions@.push(region),
            final(self).cells@ == old(self).cells@,
    {
        self.regions.push(region);
    }

    /// Stores one byte, mapped or not.
    pub fn poke(&mut self, addr: usize, value: u8)
        ensures
            final(self).regions@ == old(self).regions@,
            final(self).cells@ == old(self).cells@.push((addr, value)),
            forall|a: usize|
                final(self).byte_at(a) == (if a == addr {
                    value
                } else {
                    old(self).byte_at(a)
                }),
    {
        self.cells.push((addr, value));
        assert(self.cells@.drop_last() == old(self).cells@);
    }

    /// Stores a run of bytes from `addr` on, mapped or not.
    pub fn poke_bytes(&mut self, addr: usize, bytes: &Vec<u8>)
        requires
            addr + bytes.len() <= usize::MAX + 1,
        ensures
            final(self).regions@ == old(self).regions@,
            forall|a: usize| #[trigger]
                final(self).byte_at(a) == patched_byte(old(self).byte_at(a), addr, bytes@, a),
    {
        let mut i: usize = 0;
        while i < bytes.len()
            invariant
                i <= bytes.len(),
                addr + bytes.len() <= usize::MAX + 1,
                self.regions@ == old(self).regions@,
                forall|a: usize| #[trigger]
                    self.byte_at(a) == patched_byte(
                        old(self).byte_at(a),
                        addr,
                        bytes@.take(i as int),
                        a,
                    ),
            decreases bytes.len() - i,
        {
            self.poke(addr + i, bytes[i]);
            i += 1;
        }
        assert(bytes@.take(i as int) == bytes@);
    }

    /// Stores a 32-bit value in little-endian order.
    pub fn poke_u32(&mut self, addr: usize, value: u32)
        requires
            addr + 4 <= usize::MAX + 1,
        ensures
            final(self).regions@ == old(self).regions@,
            forall|a: usize| #[trigger]
                final(self).byte_at(a) == patched_byte(
                    old(self).byte_at(a),
                    addr,
                    le_bytes(value),
                    a,
                ),
    {
        let bytes = encode_le32(value);
        self.poke_bytes(addr, &bytes);
    }
}

/// The byte `k` places past `addr` lies in a committed region.
pub open spec fn committed_at(regions: Seq<Region>, addr: usize, k: int) -> bool {
    match first_region(regions, (addr + k) as usize, 0) {
        Some(region) => region.state == 0x1000u32,
        None => false,
    }
}

impl AddressSpace for SimMemory {
    open spec fn region_at(&self, addr: usize) -> Option<Region> {
        first_region(self.regions@, addr, 0)
    }

    open spec fn byte_at(&self, addr: usize) -> u8 {
        last_store(self.cells@, addr)
    }

    open spec fn can_write(&self, addr: usize, len: usize) -> bool {
        forall|k: int| 0 <= k < len ==> #[trigger] committed_at(self.regions@, addr, k)
    }

    fn query(&self, addr: usize) -> (r: Option<Region>) {
        let mut i: usize = 0;
        while i < self.regions.len()
            invariant
                i <= self.regions.len(),
                first_region(self.regions@, addr, 0) == first_region(self.regions@, addr, i as int),
            decreases self.regions.len() - i,
        {
            let region = self.regions[i];
            if region.base <= addr && addr - region.base < region.size {
                return Some(region);
            }
            i += 1;
        }
        None
    }

    fn load(&self, anchor: usize, offset: usize) -> (b: u8) {
        let addr = anchor + offset;
        let mut i: usize = self.cells.len();
        assert(self.cells@.take(i as int) == self.cells@);
        while i > 0
            invariant
                i <= self.cells.len(),
                addr == anchor + offset,
                last_store(self.cells@, addr) == last_store(self.cells@.take(i as int), addr),
            decreases i,
        {
            let cell = self.cells[i - 1];
            assert(self.cells@.take(i as int).drop_last() == self.cells@.take(i - 1));
            assert(self.cells@.take(i as int).last() == cell);
            if cell.0 == addr {
                return cell.1;
            }
            i -= 1;
        }
        0
    }

    /// Succeeds where every byte of the span lies in a committed region.
    fn write_code(&mut self, addr: usize, bytes: &Vec<u8>) -> (ok: bool) {
        let mut i: usize = 0;
        while i < bytes.len()
            invariant
                i <= bytes.len(),
                addr + bytes.len() <= usize::MAX + 1,
                *self == *old(self),
                forall|k: int| 0 <= k < i ==> #[trigger] committed_at(self.regions@, addr, k),
            decreases bytes.len() - i,
        {
            let committed = match self.query(addr + i) {
                Some(region) => region.state == MEM_COMMIT,
                None => false,
            };
            if !committed {
                assert(!committed_at(self.regions@, addr, i as int));
                return false;
            }
            i += 1;
        }
        self.poke_bytes(addr, bytes);
        true
    }
}

/// The entry of `table` for `idx`, or `missing` where `idx` is out of its range.
pub open spec fn entry_or<T>(table: Seq<T>, idx: i32, missing: T) -> T {
    if 0 <= idx < table.len() {
        table[idx as int]
    } else {
        missing
    }
}

/// A host held in ordinary data: a simulated address space, and for each of
/// the host's functions a table of what it returns. The pointer through
/// which a function is called plays no part.
pub struct SimEngine {
    pub memory: SimMemory,
    /// Entity of the local participant.
    pub local: usize,
    /// Entity by slot number.
    pub entities: Vec<usize>,
    /// Participant information by slot number.
    pub infos: Vec<HudPlayerInfo>,
    /// Model by model index.
    pub models: Vec<usize>,
    /// What the projection returns, whatever the point.
    pub projected: Projection,
}

impl SimEngine {
    pub fn new(memory: SimMemory) -> (e: SimEngine)
        ensures
            e.memory == memory,
            e.local == 0,
            e.entities@.len() == 0,
            e.infos@.len() == 0,
            e.models@.len() == 0,
            e.projected == (Projection { clipped: 0, x: 0, y: 0 }),
    {
        SimEngine {
            memory,
            local: 0,
            entities: Vec::new(),
            infos: Vec::new(),
            models: Vec::new(),
            projected: Projection { clipped: 0, x: 0, y: 0 },
        }
    }
}

impl AddressSpace for SimEngine {
    open spec fn region_at(&self, addr: usize) -> Option<Region> {
        self.memory.region_at(addr)
    }

    open spec fn byte_at(&self, addr: usize) -> u8 {
        self.memory.byte_at(addr)
    }

    open spec fn can_write(&self, addr: usize, len: usize) -> bool {
        self.memory.can_write(addr, len)
    }

    fn query(&self, addr: usize) -> (r: Option<Region>) {
        self.memory.query(addr)
    }

    fn load(&self, anchor: usize, offset: usize) -> (b: u8) {
        self.memory.load(anchor, offset)
    }

    fn write_code(&mut self, addr: usize, bytes: &Vec<u8>) -> (ok: bool) {
        self.memory.write_code(addr, bytes)
    }
}

impl Engine for SimEngine {
    open spec fn local_player(&self, f: usize) -> usize {
        self.local
    }

    open spec fn entity(&self, f: usize, idx: i32) -> usize {
        entry_or(self.entities@, idx, 0)
    }

    open spec fn player_info(&self, f: usize, idx: i32) -> HudPlayerInfo {
        entry_or(self.infos@, idx, HudPlayerInfo { name: 0, thisplayer: 0, spectator: 0 })
    }

    open spec fn model(&self, f: usize, idx: i32) -> usize {
        entry_or(self.models@, idx, 0)
    }

    open spec fn projection(&self, f: usize, world: Vec3) -> Projection {
        self.projected
    }

    fn get_local_player(&self, f: usize) -> (e: usize) {
        self.local
    }

    fn get_entity_by_index(&self, f: usize, idx: i32) -> (e: usize) {
        if 0 <= idx && (idx as usize) < self.entities.len() {
            self.entities[idx as usize]
        } else {
            0
        }
    }

    fn get_player_info(&self, f: usize, idx: i32) -> (info: HudPlayerInfo) {
        if 0 <= idx && (idx as usize) < self.infos.len() {
            self.infos[idx as usize]
        } else {
            HudPlayerInfo { name: 0, thisplayer: 0, spectator: 0 }
        }
    }

    fn get_model_by_index(&self, f: usize, idx: i32) -> (model: usize) {
        if 0 <= idx && (idx as usize) < self.models.len() {
            self.models[idx as usize]
        } else {
            0
        }
    }

    fn project(&self, f: usize, world: Vec3) -> (p: Projection) {
        self.projected
    }
}

} // verus!
