//! Reading the state of a GoldSrc host from inside its process.
//!
//! The host keeps a table of function pointers and, for every participant,
//! an entity whose layout is known only by offsets. This library finds the
//! table, reads the entities through it, and decides what is fit to be told
//! of each participant in each frame.
//!
//! Nothing here touches memory by itself. Memory and the host's functions
//! are reached through the traits `memory::AddressSpace` and
//! `engine::Engine`; `sim` implements both over ordinary data.
//!
//! Floating-point numbers are held as their bit patterns throughout.

pub mod engine;
pub mod entities;
pub mod hook;
pub mod math;
pub mod memory;
pub mod overlay;
pub mod scan;
pub mod sim;
pub mod staleness;
pub mod text;
