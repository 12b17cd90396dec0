//! Command contracts: the shape of one per-frame unit of work handed to
//! dispatch, and the marker for payload types that go through the compute
//! side of the registry.

use vstd::prelude::*;
use crate::pixel::{PxPosition, PxSize};

verus! {

/// Marker for payload types that are eligible for dispatch through the
/// compute side of the registry. It imposes no extra structure: the dispatch
/// contract mirrors the drawable one but targets a compute pass.
pub trait ComputeCommand: Send + Sync {
}

/// One entry of a frame's command list: the stable tag of the command's type
/// together with the destination size and top-left position. The opaque
/// payload itself stays with the renderer that executes the dispatch plan.
#[derive(Clone, Copy, Debug, PartialEq, Eq, Structural)]
pub struct DispatchEntry {
    /// Stable identity of the command's concrete type.
    pub kind: u64,
    /// Destination size in device pixels.
    pub size: PxSize,
    /// Destination top-left position in device pixels.
    pub pos: PxPosition,
}

} // verus!
