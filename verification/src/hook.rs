use vstd::prelude::*;
use crate::memory::{le_bytes, encode_le32};

verus! {

/// Opcode of the near jump with a 32-bit displacement.
pub const JMP_OPCODE: u8 = 0xE9;

/// Width of that jump: the opcode and four bytes of displacement.
pub const JMP_LEN: usize = 5;

/// Bytes of the trampoline that carry code: the displaced bytes and a jump back.
pub const TRAMPOLINE_LEN: usize = 10;

/// Displacement of a jump placed at `from` that lands on `to`. It is
/// counted from the end of the jump and taken modulo 2^32.
pub open spec fn jump_rel(from: int, to: int) -> u32 {
    ((to - from - 5) % 0x1_0000_0000) as u32
}

/// The five bytes of a jump placed at `from` that lands on `to`.
pub open spec fn jump_code(from: int, to: int) -> Seq<u8> {
    seq![0xE9u8] + le_bytes(jump_rel(from, to))
}

/// The trampoline for a redirected function at `target`: the bytes that the
/// redirection displaces, then a jump from the trampoline to just past them.
pub open spec fn trampoline_code(displaced: Seq<u8>, trampoline: usize, target: usize) -> Seq<u8> {
    displaced + jump_code(trampoline + 5, target + 5)
}

/// A jump placed at `from` with the displacement `jump_rel(from, to)` lands
/// on `to`, in 32-bit address arithmetic.
pub proof fn jump_lands(from: int, to: int)
    ensures
        (from + 5 + jump_rel(from, to)) % 0x1_0000_0000 == to % 0x1_0000_0000,
{
}

/// The jump that the trampoline ends in lands just past the displaced bytes.
pub proof fn trampoline_returns(displaced: Seq<u8>, trampoline: usize, target: usize)
    requires
        displaced.len() == 5,
    ensures
        trampoline_code(displaced, trampoline, target).len() == 10,
        trampoline_code(displaced, trampoline, target).take(5) == displaced,
        trampoline_code(displaced, trampoline, target).skip(5) == jump_code(
            trampoline + 5,
            target + 5,
        ),
        (trampoline + 10 + jump_rel(trampoline + 5, target + 5)) % 0x1_0000_0000 == (target + 5)
            % 0x1_0000_0000,
{
    let code = trampoline_code(displaced, trampoline, target);
    assert(code.take(5) =~= displaced);
    assert(code.skip(5) =~= jump_code(trampoline + 5, target + 5));
}

/// Computes the displacement of a jump from `from` to `to`.
fn displacement(from: usize, to: usize) -> (rel: u32)
    ensures
        rel == jump_rel(from as int, to as int),
{
    let a: u64 = (to as u64) % 0x1_0000_0000;
    let b: u64 = (from as u64) % 0x1_0000_0000;
    let d: u64 = (a + 0x2_0000_0000 - b - 5) % 0x1_0000_0000;
    d as u32
}

/// Encodes the jump that redirects `from` to `to`.
pub fn encode_jump(from: usize, to: usize) -> (code: Vec<u8>)
    ensures
        code@ == jump_code(from as int, to as int),
        code@.len() == 5,
        code@[0] == 0xE9,
{
    let rel = displacement(from, to);
    let tail = encode_le32(rel);
    let mut code: Vec<u8> = Vec::new();
    code.push(JMP_OPCODE);
    code.push(tail[0]);
    code.push(tail[1]);
    code.push(tail[2]);
    code.push(tail[3]);
    assert(code@ =~= jump_code(from as int, to as int));
    code
}

/// Builds the trampoline for the function at `target` whose first five bytes are `displaced`.
pub fn build_trampoline(displaced: &Vec<u8>, trampoline: usize, target: usize) -> (code: Vec<u8>)
    requires
        displaced.len() == 5,
    ensures
        code@ == trampoline_code(displaced@, trampoline, target),
        code@.len() == 10,
{
    let rel = displacement(trampoline, target);
    assert(rel == jump_rel(trampoline + 5, target + 5));
    let tail = encode_le32(rel);
    let mut code: Vec<u8> = Vec::new();
    code.push(displaced[0]);
    code.push(displaced[1]);
    code.push(displaced[2]);
    code.push(displaced[3]);
    code.push(displaced[4]);
    code.push(JMP_OPCODE);
    code.push(tail[0]);
    code.push(tail[1]);
    code.push(tail[2]);
    code.push(tail[3]);
    assert(code@ =~= trampoline_code(displaced@, trampoline, target));
    code
}

} // verus!
