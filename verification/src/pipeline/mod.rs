//! The five pipeline stages. Each stage reads the visible outputs of the
//! stage before it, writes its own pending outputs, and shows them after the
//! end-of-tick latch.

use vstd::prelude::*;

pub mod decode;
pub mod execute;
pub mod fetch;
pub mod memory_access;
pub mod write_back;

verus! {

/// Why the simulator cannot go on. These are the conditions under which the
/// machine stops instead of taking a trap.
#[derive(Debug, PartialEq, Eq, Clone, Copy)]
pub enum Fault {
    /// The fetch stage was sent to an address that is not a multiple of four.
    UnalignedFetch(u32),
    /// A load whose width field is none of byte, half-word and word. Carries
    /// the `funct3` field.
    InvalidLoadWidth(u8),
    /// A store whose width field is none of byte, half-word and word.
    /// Carries the `funct3` field.
    InvalidStoreWidth(u8),
    /// A read of a control and status register that does not exist. Carries
    /// its address.
    UnknownCsr(u32),
    /// A write to a read-only control and status register. Carries its
    /// address.
    ReadOnlyCsr(u32),
}

/// A unit that is driven in two phases: combinational work on the inputs of
/// the tick, then the latch that makes the results visible.
pub trait PipelineStage<T> {
    /// What the stage asks of the inputs of a tick.
    spec fn accepts(&self, params: T) -> bool;

    fn compute(&mut self, params: T)
        requires
            old(self).accepts(params),
    ;

    fn latch_next(&mut self);

    fn reset(&mut self);
}

} // verus!
