use vstd::prelude::*;
use crate::math::Vec3;

verus! {

/// Region state reported for committed pages.
pub const MEM_COMMIT: u32 = 0x1000;

/// Protection values, as the operating system reports them.
pub const PAGE_NOACCESS: u32 = 0x01;

pub const PAGE_READONLY: u32 = 0x02;

pub const PAGE_READWRITE: u32 = 0x04;

pub const PAGE_WRITECOPY: u32 = 0x08;

pub const PAGE_EXECUTE_READ: u32 = 0x20;

pub const PAGE_EXECUTE_READWRITE: u32 = 0x40;

pub const PAGE_EXECUTE_WRITECOPY: u32 = 0x80;

/// Union of every protection value that permits reading.
pub const READABLE_MASK: u32 = 0xEE;

/// Smallest value that is not taken for a pointer: anything at or below it
/// lies in the guard area at the bottom of the address space.
pub const MIN_POINTER: usize = 0x10000;

/// What the operating system reports about the pages around an address.
#[derive(Clone, Copy, Debug, PartialEq, Eq, Structural)]
pub struct Region {
    pub base: usize,
    pub size: usize,
    pub state: u32,
    pub protect: u32,
}

impl Region {
    /// Committed, with at least one protection bit that permits reading.
    pub open spec fn readable(self) -> bool {
        self.state == 0x1000u32 && self.protect & 0xEEu32 != 0
    }

    /// First address past the region.
    pub open spec fn end(self) -> int {
        self.base + self.size
    }

    pub fn is_readable(&self) -> (r: bool)
        ensures
            r == self.readable(),
    {
        self.state == MEM_COMMIT && self.protect & READABLE_MASK != 0
    }
}

/// An address space whose pages may be unmapped or protected, as it stands
/// during one pass over it.
///
/// The first three functions describe the address space; contracts speak
/// of them. The other three act on it. An implementation outside this
/// library gives all six as ordinary functions.
pub trait AddressSpace {
    /// The region reported for `addr`, if the query succeeds.
    spec fn region_at(&self, addr: usize) -> Option<Region>;

    /// The byte stored at `addr`.
    spec fn byte_at(&self, addr: usize) -> u8;

    /// Whether `len` bytes from `addr` on can be replaced.
    spec fn can_write(&self, addr: usize, len: usize) -> bool;

    /// Asks for the region around `addr`. Never faults.
    fn query(&self, addr: usize) -> (r: Option<Region>)
        ensures
            r == self.region_at(addr),
    ;

    /// Fetches the byte `offset` bytes past `anchor`. The region reported
    /// for `anchor` must be readable and reach past that byte, which is
    /// what keeps the fetch from faulting.
    fn load(&self, anchor: usize, offset: usize) -> (b: u8)
        requires
            anchor + offset <= usize::MAX,
            self.region_at(anchor) is Some,
            self.region_at(anchor).unwrap().readable(),
            anchor + offset < self.region_at(anchor).unwrap().end(),
        ensures
            b == self.byte_at((anchor + offset) as usize),
    ;

    /// Replaces the bytes from `addr` on by `bytes`, or fails and changes
    /// nothing. Whatever protection must be lifted for the write is put
    /// back before the call returns: the regions are as before.
    fn write_code(&mut self, addr: usize, bytes: &Vec<u8>) -> (ok: bool)
        requires
            addr + bytes.len() <= usize::MAX + 1,
        ensures
            ok == old(self).can_write(addr, bytes.len()),
            forall|a: usize| #[trigger] final(self).region_at(a) == old(self).region_at(a),
            forall|a: usize, n: usize| #[trigger]
                final(self).can_write(a, n) == old(self).can_write(a, n),
            ok ==> forall|a: usize| #[trigger]
                final(self).byte_at(a) == patched_byte(old(self).byte_at(a), addr, bytes@, a),
            !ok ==> forall|a: usize| #[trigger] final(self).byte_at(a) == old(self).byte_at(a),
    ;
}

/// The byte at `a` after `bytes` were stored from `addr` on, given the byte before.
pub open spec fn patched_byte(before: u8, addr: usize, bytes: Seq<u8>, a: usize) -> u8 {
    if addr <= a < addr + bytes.len() {
        bytes[a - addr]
    } else {
        before
    }
}

/// The address `off` bytes past `base`. The null address stays null, and a
/// sum that leaves the address space is null.
pub open spec fn spec_at(base: usize, off: usize) -> usize {
    if base != 0 && base + off <= usize::MAX {
        (base + off) as usize
    } else {
        0
    }
}

pub fn at(base: usize, off: usize) -> (r: usize)
    ensures
        r == spec_at(base, off),
{
    if base == 0 {
        return 0;
    }
    match base.checked_add(off) {
        Some(a) => a,
        None => 0,
    }
}

/// `len` bytes from `addr` on may be fetched: the address is not null, the
/// length is not zero, and the region reported for `addr` is readable and
/// reaches at least to the end of the span.
pub open spec fn readable<M: AddressSpace>(m: &M, addr: usize, len: usize) -> bool {
    &&& addr != 0
    &&& len != 0
    &&& addr + len - 1 <= usize::MAX
    &&& m.region_at(addr) is Some
    &&& m.region_at(addr).unwrap().readable()
    &&& addr + len <= m.region_at(addr).unwrap().end()
}

pub fn is_readable<M: AddressSpace>(m: &M, addr: usize, len: usize) -> (r: bool)
    ensures
        r == readable(m, addr, len),
{
    if addr == 0 || len == 0 {
        return false;
    }
    let last = match addr.checked_add(len - 1) {
        Some(v) => v,
        None => { return false; },
    };
    match m.query(addr) {
        None => false,
        Some(region) => {
            if !region.is_readable() {
                false
            } else {
                match region.base.checked_add(region.size) {
                    Some(end) => last < end,
                    None => true,
                }
            }
        },
    }
}

/// Little-endian value of two bytes.
pub open spec fn le16(b0: u8, b1: u8) -> u16 {
    (b0 + 256 * b1) as u16
}

/// Little-endian value of four bytes.
pub open spec fn le32(b0: u8, b1: u8, b2: u8, b3: u8) -> u32 {
    (b0 + 256 * b1 + 65536 * b2 + 16777216 * b3) as u32
}

/// The four bytes of `value`, least significant first.
pub open spec fn le_bytes(value: u32) -> Seq<u8> {
    seq![
        (value % 256) as u8,
        (value / 256 % 256) as u8,
        (value / 65536 % 256) as u8,
        (value / 16777216) as u8,
    ]
}

pub fn encode_le32(value: u32) -> (bytes: Vec<u8>)
    ensures
        bytes@ == le_bytes(value),
{
    let mut bytes: Vec<u8> = Vec::new();
    bytes.push((value % 256) as u8);
    bytes.push((value / 256 % 256) as u8);
    bytes.push((value / 65536 % 256) as u8);
    bytes.push((value / 16777216) as u8);
    assert(bytes@ =~= le_bytes(value));
    bytes
}

/// Reading back the bytes of a value gives the value.
pub proof fn le_bytes_round_trip(value: u32)
    ensures
        le32(le_bytes(value)[0], le_bytes(value)[1], le_bytes(value)[2], le_bytes(value)[3])
            == value,
{
}

/// Two's-complement reading of a 16-bit pattern.
pub open spec fn signed16(v: u16) -> i16 {
    if v < 0x8000 {
        v as i16
    } else {
        (v - 0x1_0000) as i16
    }
}

/// Two's-complement reading of a 32-bit pattern.
pub open spec fn signed32(v: u32) -> i32 {
    if v < 0x8000_0000 {
        v as i32
    } else {
        (v - 0x1_0000_0000) as i32
    }
}

pub fn to_signed16(v: u16) -> (r: i16)
    ensures
        r == signed16(v),
{
    if v < 0x8000 {
        v as i16
    } else {
        ((v - 0x8000) as i16) + i16::MIN
    }
}

pub fn to_signed32(v: u32) -> (r: i32)
    ensures
        r == signed32(v),
{
    if v < 0x8000_0000 {
        v as i32
    } else {
        ((v - 0x8000_0000) as i32) + i32::MIN
    }
}

/// The byte at `addr`, or zero where it may not be fetched.
pub open spec fn u8_at<M: AddressSpace>(m: &M, addr: usize) -> u8 {
    if readable(m, addr, 1) {
        m.byte_at(addr)
    } else {
        0
    }
}

/// The little-endian 16-bit pattern at `addr`, or zero where it may not be fetched.
pub open spec fn u16_at<M: AddressSpace>(m: &M, addr: usize) -> u16 {
    if readable(m, addr, 2) {
        le16(m.byte_at(addr), m.byte_at((addr + 1) as usize))
    } else {
        0
    }
}

/// The little-endian 32-bit pattern at `addr`, or zero where it may not be fetched.
pub open spec fn u32_at<M: AddressSpace>(m: &M, addr: usize) -> u32 {
    if readable(m, addr, 4) {
        le32(
            m.byte_at(addr),
            m.byte_at((addr + 1) as usize),
            m.byte_at((addr + 2) as usize),
            m.byte_at((addr + 3) as usize),
        )
    } else {
        0
    }
}

pub open spec fn i16_at<M: AddressSpace>(m: &M, addr: usize) -> i16 {
    signed16(u16_at(m, addr))
}

pub open spec fn i32_at<M: AddressSpace>(m: &M, addr: usize) -> i32 {
    signed32(u32_at(m, addr))
}

pub fn read_u8<M: AddressSpace>(m: &M, addr: usize) -> (v: u8)
    ensures
        v == u8_at(m, addr),
{
    if !is_readable(m, addr, 1) {
        return 0;
    }
    m.load(addr, 0)
}

pub fn read_u16<M: AddressSpace>(m: &M, addr: usize) -> (v: u16)
    ensures
        v == u16_at(m, addr),
{
    if !is_readable(m, addr, 2) {
        return 0;
    }
    let b0 = m.load(addr, 0);
    let b1 = m.load(addr, 1);
    (b0 as u16) + 256 * (b1 as u16)
}

pub fn read_u32<M: AddressSpace>(m: &M, addr: usize) -> (v: u32)
    ensures
        v == u32_at(m, addr),
{
    if !is_readable(m, addr, 4) {
        return 0;
    }
    let b0 = m.load(addr, 0);
    let b1 = m.load(addr, 1);
    let b2 = m.load(addr, 2);
    let b3 = m.load(addr, 3);
    (b0 as u32) + 256 * (b1 as u32) + 65536 * (b2 as u32) + 16777216 * (b3 as u32)
}

pub fn read_i16<M: AddressSpace>(m: &M, addr: usize) -> (v: i16)
    ensures
        v == i16_at(m, addr),
{
    to_signed16(read_u16(m, addr))
}

pub fn read_i32<M: AddressSpace>(m: &M, addr: usize) -> (v: i32)
    ensures
        v == i32_at(m, addr),
{
    to_signed32(read_u32(m, addr))
}

/// The three single-precision bit patterns stored from `addr` on.
pub open spec fn vec3_at<M: AddressSpace>(m: &M, addr: usize) -> Vec3 {
    Vec3 { x: u32_at(m, addr), y: u32_at(m, spec_at(addr, 4)), z: u32_at(m, spec_at(addr, 8)) }
}

pub fn read_vec3<M: AddressSpace>(m: &M, addr: usize) -> (v: Vec3)
    ensures
        v == vec3_at(m, addr),
{
    Vec3 { x: read_u32(m, addr), y: read_u32(m, at(addr, 4)), z: read_u32(m, at(addr, 8)) }
}

/// Printable characters are those from the space to the tilde.
pub open spec fn printable(b: u8) -> bool {
    32 <= b <= 126
}

/// The printable bytes of the string at `base`, from its byte `i` on. The
/// string ends at a zero byte, at a byte that may not be fetched, or after
/// `max_len` bytes.
pub open spec fn cstr_from<M: AddressSpace>(m: &M, base: usize, i: nat, max_len: nat) -> Seq<u8>
    decreases max_len - i,
{
    if i >= max_len || i > usize::MAX {
        Seq::empty()
    } else {
        let a = spec_at(base, i as usize);
        if !readable(m, a, 1) || m.byte_at(a) == 0 {
            Seq::empty()
        } else {
            let rest = cstr_from(m, base, i + 1, max_len);
            if printable(m.byte_at(a)) {
                seq![m.byte_at(a)] + rest
            } else {
                rest
            }
        }
    }
}

/// The string at `ptr`, absent where the pointer is null or no printable
/// byte is found.
pub open spec fn cstr_at<M: AddressSpace>(m: &M, ptr: usize, max_len: usize) -> Option<Seq<u8>> {
    if ptr == 0 || cstr_from(m, ptr, 0, max_len as nat).len() == 0 {
        None
    } else {
        Some(cstr_from(m, ptr, 0, max_len as nat))
    }
}

/// Reads a null-terminated string of at most `max_len` bytes, keeping its
/// printable bytes.
pub fn read_cstr<M: AddressSpace>(m: &M, ptr: usize, max_len: usize) -> (r: Option<Vec<u8>>)
    ensures
        r is Some == cstr_at(m, ptr, max_len) is Some,
        r matches Some(v) ==> v@ == cstr_at(m, ptr, max_len).unwrap() && 0 < v@.len() <= max_len
            && forall|k: int| 0 <= k < v@.len() ==> printable(#[trigger] v@[k]),
{
    if ptr == 0 {
        return None;
    }
    let mut out: Vec<u8> = Vec::new();
    let mut i: usize = 0;
    let mut open = true;
    while open && i < max_len
        invariant
            i <= max_len,
            out@.len() <= i,
            forall|k: int| 0 <= k < out@.len() ==> printable(#[trigger] out@[k]),
            cstr_from(m, ptr, 0, max_len as nat) == out@ + (if open {
                cstr_from(m, ptr, i as nat, max_len as nat)
            } else {
                Seq::empty()
            }),
        decreases max_len - i + (if open { 1int } else { 0int }),
    {
        let a = at(ptr, i);
        if !is_readable(m, a, 1) {
            open = false;
        } else {
            let b = m.load(a, 0);
            if b == 0 {
                open = false;
            } else {
                if 32 <= b && b <= 126 {
                    assert(out@ + (seq![b] + cstr_from(m, ptr, (i + 1) as nat, max_len as nat))
                        =~= out@.push(b) + cstr_from(m, ptr, (i + 1) as nat, max_len as nat));
                    out.push(b);
                }
                i += 1;
            }
        }
    }
    assert(cstr_from(m, ptr, 0, max_len as nat) =~= out@);
    if out.len() == 0 {
        None
    } else {
        Some(out)
    }
}

} // verus!
