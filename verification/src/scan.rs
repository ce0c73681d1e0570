use vstd::prelude::*;
use crate::memory::{AddressSpace, Region, MIN_POINTER, at, spec_at, readable, is_readable, u32_at, read_u32, le32};

verus! {

/// Number of consecutive in-range pointers that marks a candidate table.
pub const RUN_LENGTH: usize = 8;

/// Width of one pointer of the inspected process.
pub const POINTER_SIZE: usize = 4;

/// A window matches a masked pattern when it has the pattern's length and
/// agrees with it wherever the mask holds 1; other positions are wildcards.
pub open spec fn pattern_matches(window: Seq<u8>, pattern: Seq<u8>, mask: Seq<u8>) -> bool {
    &&& window.len() == pattern.len()
    &&& forall|i: int|
        0 <= i < pattern.len() && #[trigger] mask[i] == 1 ==> window[i] == pattern[i]
}

/// The `n` bytes stored from `start` on.
pub open spec fn window<M: AddressSpace>(m: &M, start: usize, n: nat) -> Seq<u8> {
    Seq::new(n, |i: int| m.byte_at((start + i) as usize))
}

/// The pointer that a match at `scan` yields: the 32-bit value stored
/// `ptr_offset` bytes into the match, accepted when it lies above the
/// pointer floor and `validate_size` bytes may be fetched there.
pub open spec fn accepted_pointer<M: AddressSpace>(
    m: &M,
    scan: usize,
    ptr_offset: usize,
    validate_size: usize,
) -> Option<usize> {
    let p = u32_at(m, spec_at(scan, ptr_offset)) as usize;
    if p > MIN_POINTER && readable(m, p, validate_size) {
        Some(p)
    } else {
        None
    }
}

/// What the window that starts at `scan` yields: an accepted pointer where
/// the pattern matches there, nothing otherwise.
pub open spec fn hit_at<M: AddressSpace>(
    m: &M,
    scan: usize,
    pattern: Seq<u8>,
    mask: Seq<u8>,
    ptr_offset: usize,
    validate_size: usize,
) -> Option<usize> {
    if pattern_matches(window(m, scan, pattern.len()), pattern, mask) {
        accepted_pointer(m, scan, ptr_offset, validate_size)
    } else {
        None
    }
}

/// The first hit among the windows that start in `[scan, limit - len]`.
pub open spec fn first_hit_in<M: AddressSpace>(
    m: &M,
    scan: int,
    limit: int,
    pattern: Seq<u8>,
    mask: Seq<u8>,
    ptr_offset: usize,
    validate_size: usize,
) -> Option<usize>
    decreases limit - scan + 1,
{
    if scan < 0 || scan + pattern.len() > limit || limit > usize::MAX {
        None
    } else {
        match hit_at(m, scan as usize, pattern, mask, ptr_offset, validate_size) {
            Some(p) => Some(p),
            None => first_hit_in(m, scan + 1, limit, pattern, mask, ptr_offset, validate_size),
        }
    }
}

/// Where the region reported for `addr` stops, cut off at `end`.
pub open spec fn region_stop(region: Region, end: usize) -> int {
    if region.end() < end {
        region.end()
    } else {
        end as int
    }
}

/// The result of a scan of `[addr, end)`, taken region by region: a region
/// that is not readable is passed over whole, a failed query or a region
/// that does not reach past `addr` ends the scan.
pub open spec fn scan_result<M: AddressSpace>(
    m: &M,
    addr: usize,
    end: usize,
    pattern: Seq<u8>,
    mask: Seq<u8>,
    ptr_offset: usize,
    validate_size: usize,
) -> Option<usize>
    decreases end - addr,
{
    if addr >= end {
        None
    } else {
        match m.region_at(addr) {
            None => None,
            Some(region) => {
                let stop = region_stop(region, end);
                if stop <= addr {
                    None
                } else {
                    let hit = if region.readable() {
                        first_hit_in(m, addr as int, stop, pattern, mask, ptr_offset, validate_size)
                    } else {
                        None
                    };
                    match hit {
                        Some(p) => Some(p),
                        None => scan_result(
                            m,
                            stop as usize,
                            end,
                            pattern,
                            mask,
                            ptr_offset,
                            validate_size,
                        ),
                    }
                }
            },
        }
    }
}

/// The end of `region` cut off at `end`.
pub fn stop_of(region: &Region, end: usize) -> (stop: usize)
    ensures
        stop == region_stop(*region, end),
{
    match region.base.checked_add(region.size) {
        Some(e) => if e < end {
            e
        } else {
            end
        },
        None => end,
    }
}

/// Compares the window that starts `rel` bytes past `anchor` with a masked pattern.
pub fn window_matches<M: AddressSpace>(
    m: &M,
    anchor: usize,
    rel: usize,
    pattern: &Vec<u8>,
    mask: &Vec<u8>,
) -> (r: bool)
    requires
        pattern.len() == mask.len(),
        m.region_at(anchor) is Some,
        m.region_at(anchor).unwrap().readable(),
        anchor + rel + pattern.len() <= m.region_at(anchor).unwrap().end(),
        anchor + rel + pattern.len() <= usize::MAX,
    ensures
        r == pattern_matches(window(m, (anchor + rel) as usize, pattern@.len()), pattern@, mask@),
{
    let ghost w = window(m, (anchor + rel) as usize, pattern@.len());
    let mut i: usize = 0;
    while i < pattern.len()
        invariant
            i <= pattern.len(),
            pattern.len() == mask.len(),
            m.region_at(anchor) is Some,
            m.region_at(anchor).unwrap().readable(),
            anchor + rel + pattern.len() <= m.region_at(anchor).unwrap().end(),
            anchor + rel + pattern.len() <= usize::MAX,
            w == window(m, (anchor + rel) as usize, pattern@.len()),
            forall|k: int| 0 <= k < i && #[trigger] mask@[k] == 1 ==> w[k] == pattern@[k],
        decreases pattern.len() - i,
    {
        if mask[i] == 1 {
            let b = m.load(anchor, rel + i);
            assert(b == w[i as int]);
            if b != pattern[i] {
                return false;
            }
        }
        i += 1;
    }
    true
}

/// Reads the pointer that a match at `scan` designates and accepts or rejects it.
pub fn accept_pointer<M: AddressSpace>(
    m: &M,
    scan: usize,
    ptr_offset: usize,
    validate_size: usize,
) -> (r: Option<usize>)
    ensures
        r == accepted_pointer(m, scan, ptr_offset, validate_size),
        r matches Some(p) ==> p > MIN_POINTER && readable(m, p, validate_size),
{
    let p = read_u32(m, at(scan, ptr_offset)) as usize;
    if p > MIN_POINTER && is_readable(m, p, validate_size) {
        Some(p)
    } else {
        None
    }
}

/// Searches `[start, end)` for a masked byte pattern and returns the pointer
/// stored `ptr_offset` bytes into the first match whose pointer is accepted.
///
/// The range is walked by memory region. A window is compared only where it
/// lies wholly inside one readable region.
pub fn scan_with_pattern<M: AddressSpace>(
    m: &M,
    start: usize,
    end: usize,
    pattern: &Vec<u8>,
    mask: &Vec<u8>,
    ptr_offset: usize,
    validate_size: usize,
) -> (r: Option<usize>)
    requires
        pattern.len() == mask.len(),
    ensures
        r == scan_result(m, start, end, pattern@, mask@, ptr_offset, validate_size),
        r matches Some(p) ==> p > MIN_POINTER && readable(m, p, validate_size),
{
    let mut addr: usize = start;
    while addr < end
        invariant
            pattern.len() == mask.len(),
            scan_result(m, start, end, pattern@, mask@, ptr_offset, validate_size) == scan_result(
                m,
                addr,
                end,
                pattern@,
                mask@,
                ptr_offset,
                validate_size,
            ),
        decreases end - addr,
    {
        let region = match m.query(addr) {
            Some(region) => region,
            None => {
                return None;
            },
        };
        let stop = stop_of(&region, end);
        if stop <= addr {
            return None;
        }
        let ghost whole = scan_result(m, start, end, pattern@, mask@, ptr_offset, validate_size);
        let ghost rest = scan_result(m, stop, end, pattern@, mask@, ptr_offset, validate_size);
        if region.is_readable() {
            let mut scan: usize = addr;
            let mut exhausted = false;
            while !exhausted && pattern.len() <= stop - scan
                invariant
                    pattern.len() == mask.len(),
                    whole == scan_result(m, start, end, pattern@, mask@, ptr_offset, validate_size),
                    whole == (match first_hit_in(
                        m,
                        addr as int,
                        stop as int,
                        pattern@,
                        mask@,
                        ptr_offset,
                        validate_size,
                    ) {
                        Some(p) => Some(p),
                        None => rest,
                    }),
                    addr <= scan <= stop,
                    stop <= end,
                    stop <= region.end(),
                    m.region_at(addr) == Some(region),
                    region.readable(),
                    first_hit_in(
                        m,
                        addr as int,
                        stop as int,
                        pattern@,
                        mask@,
                        ptr_offset,
                        validate_size,
                    ) == (if exhausted {
                        None
                    } else {
                        first_hit_in(
                            m,
                            scan as int,
                            stop as int,
                            pattern@,
                            mask@,
                            ptr_offset,
                            validate_size,
                        )
                    }),
                decreases stop - scan + (if exhausted { 0int } else { 1int }),
            {
                if window_matches(m, addr, scan - addr, pattern, mask) {
                    match accept_pointer(m, scan, ptr_offset, validate_size) {
                        Some(p) => {
                            return Some(p);
                        },
                        None => {},
                    }
                }
                if scan == stop {
                    assert(first_hit_in(
                        m,
                        scan + 1,
                        stop as int,
                        pattern@,
                        mask@,
                        ptr_offset,
                        validate_size,
                    ) is None);
                    exhausted = true;
                } else {
                    scan += 1;
                }
            }
        }
        addr = stop;
    }
    None
}

/// A pattern matches itself whatever the mask.
pub proof fn pattern_matches_itself(pattern: Seq<u8>, mask: Seq<u8>)
    ensures
        pattern_matches(pattern, pattern, mask),
{
}

/// A matching window still matches after the byte at a wildcard position is
/// replaced by any value.
pub proof fn wildcard_byte_is_free(
    window: Seq<u8>,
    pattern: Seq<u8>,
    mask: Seq<u8>,
    i: int,
    value: u8,
)
    requires
        pattern.len() == mask.len(),
        pattern_matches(window, pattern, mask),
        0 <= i < pattern.len(),
        mask[i] != 1,
    ensures
        pattern_matches(window.update(i, value), pattern, mask),
{
    let changed = window.update(i, value);
    assert forall|k: int| 0 <= k < pattern.len() && #[trigger] mask[k] == 1 implies changed[k]
        == pattern[k] by {
        assert(changed[k] == window[k]);
    }
}

/// No window matches once the byte at a required position differs from the
/// pattern's byte there.
pub proof fn required_byte_is_binding(
    window: Seq<u8>,
    pattern: Seq<u8>,
    mask: Seq<u8>,
    i: int,
    value: u8,
)
    requires
        pattern.len() == mask.len(),
        window.len() == pattern.len(),
        0 <= i < pattern.len(),
        mask[i] == 1,
        value != pattern[i],
    ensures
        !pattern_matches(window.update(i, value), pattern, mask),
{
    let changed = window.update(i, value);
    assert(changed[i] == value);
}

/// The pattern matches the window of memory that starts at `s`.
pub open spec fn matches_at<M: AddressSpace>(m: &M, s: int, pattern: Seq<u8>, mask: Seq<u8>) -> bool {
    pattern_matches(window(m, s as usize, pattern.len()), pattern, mask)
}

/// Whether a window matches depends only on the bytes at its required
/// positions: two memories that agree there agree on the match, whatever
/// stands at the wildcard positions.
pub proof fn wildcards_do_not_matter<M: AddressSpace>(
    m1: &M,
    m2: &M,
    s: int,
    pattern: Seq<u8>,
    mask: Seq<u8>,
)
    requires
        pattern.len() == mask.len(),
        forall|i: int|
            0 <= i < pattern.len() && #[trigger] mask[i] == 1 ==> m2.byte_at((s as usize + i) as usize)
                == m1.byte_at((s as usize + i) as usize),
    ensures
        matches_at(m2, s, pattern, mask) == matches_at(m1, s, pattern, mask),
{
    let w1 = window(m1, s as usize, pattern.len());
    let w2 = window(m2, s as usize, pattern.len());
    assert forall|i: int| 0 <= i < pattern.len() && #[trigger] mask[i] == 1 implies w2[i]
        == w1[i] by {}
    if pattern_matches(w1, pattern, mask) {
        assert forall|i: int| 0 <= i < pattern.len() && #[trigger] mask[i] == 1 implies w2[i]
            == pattern[i] by {
            assert(w2[i] == w1[i]);
        }
    }
    if pattern_matches(w2, pattern, mask) {
        assert forall|i: int| 0 <= i < pattern.len() && #[trigger] mask[i] == 1 implies w1[i]
            == pattern[i] by {
            assert(w2[i] == w1[i]);
        }
    }
}

/// A window does not match while the byte at one of its required positions
/// differs from the pattern's.
pub proof fn required_byte_decides<M: AddressSpace>(
    m: &M,
    s: int,
    pattern: Seq<u8>,
    mask: Seq<u8>,
    i: int,
)
    requires
        pattern.len() == mask.len(),
        0 <= i < pattern.len(),
        mask[i] == 1,
        m.byte_at((s as usize + i) as usize) != pattern[i],
    ensures
        !matches_at(m, s, pattern, mask),
{
    let w = window(m, s as usize, pattern.len());
    assert(w[i] == m.byte_at((s as usize + i) as usize));
}

/// Within one region: where no window matches, nothing is found.
pub proof fn no_match_in_region<M: AddressSpace>(
    m: &M,
    scan: int,
    limit: int,
    pattern: Seq<u8>,
    mask: Seq<u8>,
    ptr_offset: usize,
    validate_size: usize,
)
    requires
        forall|s: int|
            scan <= s && s + pattern.len() <= limit ==> !#[trigger] matches_at(m, s, pattern, mask),
    ensures
        first_hit_in(m, scan, limit, pattern, mask, ptr_offset, validate_size) is None,
    decreases limit - scan + 1,
{
    if scan < 0 || scan + pattern.len() > limit || limit > usize::MAX {
    } else {
        assert(!matches_at(m, scan, pattern, mask));
        no_match_in_region(m, scan + 1, limit, pattern, mask, ptr_offset, validate_size);
    }
}

/// Within one region: the first window that matches decides, provided the
/// pointer it designates is accepted.
pub proof fn first_match_in_region<M: AddressSpace>(
    m: &M,
    scan: int,
    limit: int,
    pos: int,
    pattern: Seq<u8>,
    mask: Seq<u8>,
    ptr_offset: usize,
    validate_size: usize,
)
    requires
        0 <= scan <= pos,
        pos + pattern.len() <= limit <= usize::MAX,
        matches_at(m, pos, pattern, mask),
        forall|s: int| scan <= s < pos ==> !#[trigger] matches_at(m, s, pattern, mask),
        accepted_pointer(m, pos as usize, ptr_offset, validate_size) is Some,
    ensures
        first_hit_in(m, scan, limit, pattern, mask, ptr_offset, validate_size) == accepted_pointer(
            m,
            pos as usize,
            ptr_offset,
            validate_size,
        ),
    decreases pos - scan,
{
    if scan < pos {
        assert(!matches_at(m, scan, pattern, mask));
        first_match_in_region(m, scan + 1, limit, pos, pattern, mask, ptr_offset, validate_size);
    }
}

/// The walk over `[addr, end)` compares the window at `pos`: some region of
/// the walk is readable and holds the whole window.
pub open spec fn covered<M: AddressSpace>(m: &M, addr: usize, end: usize, pos: int, len: nat) -> bool
    decreases end - addr,
{
    if addr >= end {
        false
    } else {
        match m.region_at(addr) {
            None => false,
            Some(region) => {
                let stop = region_stop(region, end);
                if stop <= addr {
                    false
                } else if region.readable() && addr <= pos && pos + len <= stop {
                    true
                } else {
                    covered(m, stop as usize, end, pos, len)
                }
            },
        }
    }
}

/// A window that the walk compares lies inside the range walked.
pub proof fn covered_lies_ahead<M: AddressSpace>(m: &M, addr: usize, end: usize, pos: int, len: nat)
    requires
        covered(m, addr, end, pos, len),
    ensures
        addr <= pos,
        pos + len <= end,
    decreases end - addr,
{
    let region = m.region_at(addr).unwrap();
    let stop = region_stop(region, end);
    if region.readable() && addr <= pos && pos + len <= stop {
    } else {
        covered_lies_ahead(m, stop as usize, end, pos, len);
    }
}

/// The scan returns the pointer of the lowest match. Let the window at
/// `pos` be compared by the walk and match, let no window below it match,
/// and let the pointer that it designates be accepted: then that pointer is
/// the result. By `wildcards_do_not_matter` this holds whatever stands at
/// the wildcard positions.
pub proof fn scan_finds_first_match<M: AddressSpace>(
    m: &M,
    addr: usize,
    end: usize,
    pos: int,
    pattern: Seq<u8>,
    mask: Seq<u8>,
    ptr_offset: usize,
    validate_size: usize,
)
    requires
        covered(m, addr, end, pos, pattern.len()),
        matches_at(m, pos, pattern, mask),
        forall|s: int| addr <= s < pos ==> !#[trigger] matches_at(m, s, pattern, mask),
        accepted_pointer(m, pos as usize, ptr_offset, validate_size) is Some,
    ensures
        scan_result(m, addr, end, pattern, mask, ptr_offset, validate_size) == accepted_pointer(
            m,
            pos as usize,
            ptr_offset,
            validate_size,
        ),
    decreases end - addr,
{
    let region = m.region_at(addr).unwrap();
    let stop = region_stop(region, end);
    if region.readable() && addr <= pos && pos + pattern.len() <= stop {
        first_match_in_region(
            m,
            addr as int,
            stop,
            pos,
            pattern,
            mask,
            ptr_offset,
            validate_size,
        );
    } else {
        covered_lies_ahead(m, stop as usize, end, pos, pattern.len());
        if region.readable() {
            no_match_in_region(m, addr as int, stop, pattern, mask, ptr_offset, validate_size);
        }
        scan_finds_first_match(
            m,
            stop as usize,
            end,
            pos,
            pattern,
            mask,
            ptr_offset,
            validate_size,
        );
    }
}

/// The scan finds nothing where no window of the range matches; so it
/// finds nothing once the one match of a range has lost a required byte.
pub proof fn scan_without_match<M: AddressSpace>(
    m: &M,
    addr: usize,
    end: usize,
    pattern: Seq<u8>,
    mask: Seq<u8>,
    ptr_offset: usize,
    validate_size: usize,
)
    requires
        forall|s: int|
            addr <= s && s + pattern.len() <= end ==> !#[trigger] matches_at(m, s, pattern, mask),
    ensures
        scan_result(m, addr, end, pattern, mask, ptr_offset, validate_size) is None,
    decreases end - addr,
{
    if addr >= end {
    } else {
        match m.region_at(addr) {
            None => {},
            Some(region) => {
                let stop = region_stop(region, end);
                if stop <= addr {
                } else {
                    no_match_in_region(
                        m,
                        addr as int,
                        stop,
                        pattern,
                        mask,
                        ptr_offset,
                        validate_size,
                    );
                    scan_without_match(
                        m,
                        stop as usize,
                        end,
                        pattern,
                        mask,
                        ptr_offset,
                        validate_size,
                    );
                }
            },
        }
    }
}

/// Half-open address range of a loaded module.
#[derive(Clone, Copy, Debug, PartialEq, Eq, Structural)]
pub struct ModuleSpan {
    pub base: usize,
    pub end: usize,
}

impl ModuleSpan {
    pub open spec fn holds(self, v: usize) -> bool {
        self.base <= v < self.end
    }

    pub fn contains(&self, v: usize) -> (r: bool)
        ensures
            r == self.holds(v),
    {
        self.base <= v && v < self.end
    }
}

/// Table slot of the function that returns the local participant.
pub const SLOT_GET_LOCAL_PLAYER: usize = 51;

/// Table slot of the function that returns an entity by index.
pub const SLOT_GET_ENTITY_BY_INDEX: usize = 53;

/// The pointer stored at `addr`, without any check that it may be fetched.
pub open spec fn raw_pointer<M: AddressSpace>(m: &M, addr: usize) -> usize {
    le32(
        m.byte_at(addr),
        m.byte_at((addr + 1) as usize),
        m.byte_at((addr + 2) as usize),
        m.byte_at((addr + 3) as usize),
    ) as usize
}

/// Eight consecutive pointers from `scan` on lie below `stop` and point into `target`.
pub open spec fn run_at<M: AddressSpace>(m: &M, scan: int, stop: int, target: ModuleSpan) -> bool {
    &&& 0 <= scan
    &&& scan + 32 <= stop
    &&& stop <= usize::MAX
    &&& forall|j: int|
        0 <= j < 8 ==> target.holds(#[trigger] raw_pointer(m, (scan + 4 * j) as usize))
}

/// Slot `slot` of the table at `table` may be fetched and points into `target`.
pub open spec fn slot_valid<M: AddressSpace>(
    m: &M,
    table: usize,
    slot: usize,
    target: ModuleSpan,
) -> bool {
    let a = spec_at(table, (slot * 4) as usize);
    readable(m, a, 4) && target.holds(u32_at(m, a) as usize)
}

/// The run at `scan` is taken for the table: it is a run, and the two
/// well-known slots point into `target` as well.
pub open spec fn table_at<M: AddressSpace>(m: &M, scan: int, stop: int, target: ModuleSpan) -> bool {
    &&& run_at(m, scan, stop, target)
    &&& slot_valid(m, scan as usize, 51, target)
    &&& slot_valid(m, scan as usize, 53, target)
}

/// The first position among `scan, scan + 4, ..` below `stop` that is taken for the table.
pub open spec fn first_table_in<M: AddressSpace>(
    m: &M,
    scan: int,
    stop: int,
    target: ModuleSpan,
) -> Option<usize>
    decreases stop - scan + 4,
{
    if scan < 0 || scan + 4 > stop || stop > usize::MAX {
        None
    } else if table_at(m, scan, stop, target) {
        Some(scan as usize)
    } else {
        first_table_in(m, scan + 4, stop, target)
    }
}

/// The result of the table search over `[addr, end)`, taken region by region.
pub open spec fn table_result<M: AddressSpace>(
    m: &M,
    addr: usize,
    end: usize,
    target: ModuleSpan,
) -> Option<usize>
    decreases end - addr,
{
    if addr >= end {
        None
    } else {
        match m.region_at(addr) {
            None => None,
            Some(region) => {
                let stop = region_stop(region, end);
                if stop <= addr {
                    None
                } else {
                    let hit = if region.readable() {
                        first_table_in(m, addr as int, stop, target)
                    } else {
                        None
                    };
                    match hit {
                        Some(p) => Some(p),
                        None => table_result(m, stop as usize, end, target),
                    }
                }
            },
        }
    }
}

/// The table search with the two module ranges as the loader reports them.
pub open spec fn table_search<M: AddressSpace>(
    m: &M,
    client: Option<ModuleSpan>,
    engine: Option<ModuleSpan>,
) -> Option<usize> {
    match (client, engine) {
        (Some(c), Some(e)) => table_result(m, c.base, c.end, e),
        _ => None,
    }
}

/// Reads the pointer stored `rel` bytes past `anchor`, inside the region of `anchor`.
fn load_pointer<M: AddressSpace>(m: &M, anchor: usize, rel: usize) -> (v: usize)
    requires
        m.region_at(anchor) is Some,
        m.region_at(anchor).unwrap().readable(),
        anchor + rel + 4 <= m.region_at(anchor).unwrap().end(),
        anchor + rel + 4 <= usize::MAX,
    ensures
        v == raw_pointer(m, (anchor + rel) as usize),
{
    let b0 = m.load(anchor, rel);
    let b1 = m.load(anchor, rel + 1);
    let b2 = m.load(anchor, rel + 2);
    let b3 = m.load(anchor, rel + 3);
    let v: u32 = (b0 as u32) + 256 * (b1 as u32) + 65536 * (b2 as u32) + 16777216 * (b3 as u32);
    v as usize
}

/// Whether eight pointers into `target` start `rel` bytes past `anchor`.
fn is_run<M: AddressSpace>(m: &M, anchor: usize, rel: usize, stop: usize, target: &ModuleSpan) -> (r:
    bool)
    requires
        m.region_at(anchor) is Some,
        m.region_at(anchor).unwrap().readable(),
        stop <= m.region_at(anchor).unwrap().end(),
        anchor + rel + 4 <= stop,
    ensures
        r == run_at(m, anchor + rel, stop as int, *target),
{
    if stop - anchor - rel < 32 {
        return false;
    }
    let mut j: usize = 0;
    while j < RUN_LENGTH
        invariant
            j <= 8,
            m.region_at(anchor) is Some,
            m.region_at(anchor).unwrap().readable(),
            stop <= m.region_at(anchor).unwrap().end(),
            anchor + rel + 32 <= stop,
            forall|k: int|
                0 <= k < j ==> target.holds(
                    #[trigger] raw_pointer(m, (anchor + rel + 4 * k) as usize),
                ),
        decreases 8 - j,
    {
        let v = load_pointer(m, anchor, rel + 4 * j);
        if !target.contains(v) {
            assert(!target.holds(raw_pointer(m, (anchor + rel + 4 * j) as usize)));
            return false;
        }
        j += 1;
    }
    true
}

/// Checks one well-known slot of a candidate table.
fn check_slot<M: AddressSpace>(m: &M, table: usize, slot: usize, target: &ModuleSpan) -> (r: bool)
    requires
        slot <= 1024,
    ensures
        r == slot_valid(m, table, slot, *target),
{
    let a = at(table, slot * 4);
    is_readable(m, a, 4) && target.contains(read_u32(m, a) as usize)
}

/// Searches the image `client` for the function table: a run of at least
/// eight pointers into `engine` whose two well-known slots point into
/// `engine` too. Returns the address of the first such run.
pub fn find_gengfuncs_in_client<M: AddressSpace>(
    m: &M,
    client: Option<ModuleSpan>,
    engine: Option<ModuleSpan>,
) -> (r: Option<usize>)
    ensures
        r == table_search(m, client, engine),
        r matches Some(t) ==> client is Some && engine is Some && slot_valid(
            m,
            t,
            51,
            engine.unwrap(),
        ) && slot_valid(m, t, 53, engine.unwrap()),
{
    let (image, target) = match (client, engine) {
        (Some(c), Some(e)) => (c, e),
        _ => {
            return None;
        },
    };
    let end = image.end;
    let mut addr: usize = image.base;
    while addr < end
        invariant
            client == Some(image),
            engine == Some(target),
            end == image.end,
            table_result(m, image.base, end, target) == table_result(m, addr, end, target),
        decreases end - addr,
    {
        let region = match m.query(addr) {
            Some(region) => region,
            None => {
                return None;
            },
        };
        let stop = stop_of(&region, end);
        if stop <= addr {
            return None;
        }
        let ghost whole = table_result(m, image.base, end, target);
        let ghost rest = table_result(m, stop, end, target);
        if region.is_readable() {
            let mut scan: usize = addr;
            while 4 <= stop - scan
                invariant
                    client == Some(image),
                    engine == Some(target),
                    end == image.end,
                    addr <= scan <= stop,
                    stop <= end,
                    stop <= region.end(),
                    m.region_at(addr) == Some(region),
                    region.readable(),
                    whole == table_result(m, image.base, end, target),
                    whole == (match first_table_in(m, addr as int, stop as int, target) {
                        Some(p) => Some(p),
                        None => rest,
                    }),
                    first_table_in(m, addr as int, stop as int, target) == first_table_in(
                        m,
                        scan as int,
                        stop as int,
                        target,
                    ),
                decreases stop - scan,
            {
                if is_run(m, addr, scan - addr, stop, &target) && check_slot(
                    m,
                    scan,
                    SLOT_GET_LOCAL_PLAYER,
                    &target,
                ) && check_slot(m, scan, SLOT_GET_ENTITY_BY_INDEX, &target) {
                    return Some(scan);
                }
                scan += 4;
            }
        }
        addr = stop;
    }
    None
}

/// Bytes reserved for one participant in the auxiliary array.
pub const EXTRA_STRIDE: usize = 0x68;

/// Number of entries of the auxiliary array that must be readable: one per
/// slot, and the unused entry zero.
pub const EXTRA_ENTRIES: usize = 33;

/// The code that indexes the auxiliary array, as one compiler lays it out.
pub open spec fn primary_pattern() -> Seq<u8> {
    seq![
        0x0Fu8, 0xBF, 0x87, 0xCC, 0xCC, 0xCC, 0xCC,
        0x8B, 0x16, 0x50, 0x68, 0xCC, 0xCC, 0xCC, 0xCC,
        0x8B, 0xCE, 0xFF, 0x52, 0xCC,
        0x8D, 0x4C, 0xAD, 0x00,
        0x66, 0x8B, 0x04, 0x8D,
    ]
}

pub open spec fn primary_mask() -> Seq<u8> {
    seq![
        1u8, 1, 1, 0, 0, 0, 0,
        1, 1, 1, 1, 0, 0, 0, 0,
        1, 1, 1, 1, 0,
        1, 1, 1, 1,
        1, 1, 1, 1,
    ]
}

/// The same code as another compiler setting lays it out.
pub open spec fn alternate_pattern() -> Seq<u8> {
    seq![
        0x0Fu8, 0xBF, 0x87, 0xCC, 0xCC, 0xCC, 0xCC,
        0x8B, 0x16, 0x50, 0x68, 0xCC, 0xCC, 0xCC, 0xCC,
        0x8B, 0xCE, 0xFF, 0x52, 0xCC,
        0x8B, 0xCD, 0xC1, 0xE1, 0x05,
        0x66, 0x8B, 0x81, 0xCC, 0xCC, 0xCC, 0xCC,
        0x66, 0x3D, 0x01, 0x00, 0x7D, 0x46,
    ]
}

pub open spec fn alternate_mask() -> Seq<u8> {
    seq![
        1u8, 1, 1, 0, 0, 0, 0,
        1, 1, 1, 1, 0, 0, 0, 0,
        1, 1, 1, 1, 0,
        1, 1, 1, 1, 1,
        1, 1, 1, 0, 0, 0, 0,
        1, 1, 1, 1, 1, 1,
    ]
}

/// The auxiliary array as the two signatures locate it in `client`: the
/// primary signature first, the alternate one where the primary yields nothing.
pub open spec fn extra_info_search<M: AddressSpace>(m: &M, client: Option<ModuleSpan>) -> Option<
    usize,
> {
    match client {
        None => None,
        Some(c) => match scan_result(
            m,
            c.base,
            c.end,
            primary_pattern(),
            primary_mask(),
            27,
            (0x68 * 33) as usize,
        ) {
            Some(p) => Some(p),
            None => scan_result(
                m,
                c.base,
                c.end,
                alternate_pattern(),
                alternate_mask(),
                3,
                (0x68 * 33) as usize,
            ),
        },
    }
}

/// Locates the auxiliary per-participant array by signature.
pub fn find_player_extra_info<M: AddressSpace>(m: &M, client: Option<ModuleSpan>) -> (r: Option<
    usize,
>)
    ensures
        r == extra_info_search(m, client),
        r matches Some(p) ==> p > MIN_POINTER && readable(m, p, (0x68 * 33) as usize),
{
    let image = match client {
        Some(c) => c,
        None => {
            return None;
        },
    };
    let pattern: Vec<u8> = vec![
        0x0Fu8, 0xBF, 0x87, 0xCC, 0xCC, 0xCC, 0xCC,
        0x8B, 0x16, 0x50, 0x68, 0xCC, 0xCC, 0xCC, 0xCC,
        0x8B, 0xCE, 0xFF, 0x52, 0xCC,
        0x8D, 0x4C, 0xAD, 0x00,
        0x66, 0x8B, 0x04, 0x8D,
    ];
    let mask: Vec<u8> = vec![
        1u8, 1, 1, 0, 0, 0, 0,
        1, 1, 1, 1, 0, 0, 0, 0,
        1, 1, 1, 1, 0,
        1, 1, 1, 1,
        1, 1, 1, 1,
    ];
    assert(pattern@ =~= primary_pattern());
    assert(mask@ =~= primary_mask());
    match scan_with_pattern(m, image.base, image.end, &pattern, &mask, 27, EXTRA_STRIDE * EXTRA_ENTRIES) {
        Some(p) => {
            return Some(p);
        },
        None => {},
    }
    let pattern2: Vec<u8> = vec![
        0x0Fu8, 0xBF, 0x87, 0xCC, 0xCC, 0xCC, 0xCC,
        0x8B, 0x16, 0x50, 0x68, 0xCC, 0xCC, 0xCC, 0xCC,
        0x8B, 0xCE, 0xFF, 0x52, 0xCC,
        0x8B, 0xCD, 0xC1, 0xE1, 0x05,
        0x66, 0x8B, 0x81, 0xCC, 0xCC, 0xCC, 0xCC,
        0x66, 0x3D, 0x01, 0x00, 0x7D, 0x46,
    ];
    let mask2: Vec<u8> = vec![
        1u8, 1, 1, 0, 0, 0, 0,
        1, 1, 1, 1, 0, 0, 0, 0,
        1, 1, 1, 1, 0,
        1, 1, 1, 1, 1,
        1, 1, 1, 0, 0, 0, 0,
        1, 1, 1, 1, 1, 1,
    ];
    assert(pattern2@ =~= alternate_pattern());
    assert(mask2@ =~= alternate_mask());
    scan_with_pattern(m, image.base, image.end, &pattern2, &mask2, 3, EXTRA_STRIDE * EXTRA_ENTRIES)
}

} // verus!
