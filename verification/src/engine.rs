use vstd::prelude::*;
use crate::math::Vec3;
use crate::memory::{AddressSpace, MIN_POINTER};

verus! {

/// What the host tells about the participant in a slot.
#[derive(Clone, Copy, Debug, PartialEq, Eq, Structural)]
pub struct HudPlayerInfo {
    /// Address of the display name, a null-terminated string; null for an empty slot.
    pub name: usize,
    /// Non-zero for the local participant.
    pub thisplayer: u8,
    /// Non-zero for a spectator.
    pub spectator: u8,
}

/// What the host's projection function hands back.
#[derive(Clone, Copy, Debug, PartialEq, Eq, Structural)]
pub struct Projection {
    /// Non-zero where the point lies behind the viewer.
    pub clipped: i32,
    /// Horizontal view coordinate, as the bit pattern of a single-precision number.
    pub x: u32,
    /// Vertical view coordinate, likewise.
    pub y: u32,
}

/// The host's functions, each called through a pointer taken from its
/// function table. Within one pass a call with the same arguments gives the
/// same answer. No function is called through a pointer at or below the
/// pointer floor.
pub trait Engine: AddressSpace {
    spec fn local_player(&self, f: usize) -> usize;

    spec fn entity(&self, f: usize, idx: i32) -> usize;

    spec fn player_info(&self, f: usize, idx: i32) -> HudPlayerInfo;

    spec fn model(&self, f: usize, idx: i32) -> usize;

    spec fn projection(&self, f: usize, world: Vec3) -> Projection;

    /// Calls the function at `f` that returns the local participant's entity.
    fn get_local_player(&self, f: usize) -> (e: usize)
        requires
            f > MIN_POINTER,
        ensures
            e == self.local_player(f),
    ;

    /// Calls the function at `f` that returns the entity in slot `idx`.
    fn get_entity_by_index(&self, f: usize, idx: i32) -> (e: usize)
        requires
            f > MIN_POINTER,
        ensures
            e == self.entity(f, idx),
    ;

    /// Calls the function at `f` that describes the participant in slot `idx`.
    fn get_player_info(&self, f: usize, idx: i32) -> (info: HudPlayerInfo)
        requires
            f > MIN_POINTER,
        ensures
            info == self.player_info(f, idx),
    ;

    /// Calls the function at `f` that returns the model with index `idx`.
    fn get_model_by_index(&self, f: usize, idx: i32) -> (model: usize)
        requires
            f > MIN_POINTER,
        ensures
            model == self.model(f, idx),
    ;

    /// Calls the projection function at `f` on `world`.
    fn project(&self, f: usize, world: Vec3) -> (p: Projection)
        requires
            f > MIN_POINTER,
        ensures
            p == self.projection(f, world),
    ;
}

} // verus!
