//! The host-readback synchronization protocol, as a pure state machine.
//!
//! A staging buffer moves through `Unmapped -> MapRequested -> Mapped` and
//! back to `Unmapped` on release. Reading is permitted only while `Mapped`;
//! requesting a map or assigning the buffer as a copy destination is
//! permitted only while `Unmapped`. Every transition of the device-facing
//! synchronizer follows this model.

use vstd::prelude::*;
use crate::error::Error;

verus! {

/// The mapping state of a staging buffer.
#[derive(Clone, Copy, Debug, PartialEq, Eq, Structural)]
pub enum MapState {
    /// Host-invisible; the buffer may be reused as a copy destination.
    Unmapped,
    /// A map has been requested and the device has not yet confirmed it.
    MapRequested,
    /// The mapping is committed; the host may read the buffer's bytes.
    Mapped,
}

/// An event of the readback protocol. The first and the last three are
/// caller operations; `ConfirmMap` and `FailMap` are resolutions of a
/// pending map request, delivered while the host drives device progress.
#[derive(Clone, Copy, Debug, PartialEq, Eq, Structural)]
pub enum MapOp {
    /// Register a read-only map request; returns immediately.
    RequestMap,
    /// The device confirms that all prior writes completed and the
    /// mapping is committed.
    ConfirmMap,
    /// The device connection was lost mid-map; the pending request
    /// resolves to an error and the buffer is left unmapped.
    FailMap,
    /// Take a snapshot of the mapped bytes.
    Read,
    /// Release the mapping, permitting reuse as a copy destination.
    Release,
    /// Hand the buffer to a command sequence as a copy destination.
    AssignCopyDest,
}

/// Whether the protocol permits `op` in state `s`.
pub open spec fn spec_allows(s: MapState, op: MapOp) -> bool {
    match op {
        MapOp::RequestMap => s == MapState::Unmapped,
        MapOp::ConfirmMap => s == MapState::MapRequested,
        MapOp::FailMap => s == MapState::MapRequested,
        MapOp::Read => s == MapState::Mapped,
        MapOp::Release => s == MapState::Mapped,
        MapOp::AssignCopyDest => s == MapState::Unmapped,
    }
}

/// The state after `op` in state `s`: the transition when the protocol
/// permits it, the unchanged state when it rejects it.
pub open spec fn spec_next(s: MapState, op: MapOp) -> MapState {
    if spec_allows(s, op) {
        match op {
            MapOp::RequestMap => MapState::MapRequested,
            MapOp::ConfirmMap => MapState::Mapped,
            MapOp::FailMap => MapState::Unmapped,
            MapOp::Read => MapState::Mapped,
            MapOp::Release => MapState::Unmapped,
            MapOp::AssignCopyDest => MapState::Unmapped,
        }
    } else {
        s
    }
}

/// The state after a whole sequence of events, applied in order.
pub open spec fn spec_state_after(init: MapState, ops: Seq<MapOp>) -> MapState
    decreases ops.len(),
{
    if ops.len() == 0 {
        init
    } else {
        spec_next(spec_state_after(init, ops.drop_last()), ops.last())
    }
}

/// Applies one protocol event. A permitted caller operation succeeds; a
/// permitted `FailMap` surfaces the lost device; anything the protocol
/// rejects leaves the state unchanged and reports the protocol violation.
pub fn step(s: MapState, op: MapOp) -> (r: (MapState, Result<(), Error>))
    ensures
        r.0 == spec_next(s, op),
        spec_allows(s, op) && op != MapOp::FailMap ==> r.1 == Result::<(), Error>::Ok(()),
        spec_allows(s, op) && op == MapOp::FailMap ==> r.1 == Result::<(), Error>::Err(
            Error::DeviceLost,
        ),
        !spec_allows(s, op) ==> r.1 == Result::<(), Error>::Err(Error::BufferBusy),
{
    let allowed: bool = match op {
        MapOp::RequestMap => s == MapState::Unmapped,
        MapOp::ConfirmMap => s == MapState::MapRequested,
        MapOp::FailMap => s == MapState::MapRequested,
        MapOp::Read => s == MapState::Mapped,
        MapOp::Release => s == MapState::Mapped,
        MapOp::AssignCopyDest => s == MapState::Unmapped,
    };
    if !allowed {
        return (s, Err(Error::BufferBusy));
    }
    match op {
        MapOp::RequestMap => (MapState::MapRequested, Ok(())),
        MapOp::ConfirmMap => (MapState::Mapped, Ok(())),
        MapOp::FailMap => (MapState::Unmapped, Err(Error::DeviceLost)),
        MapOp::Read => (MapState::Mapped, Ok(())),
        MapOp::Release => (MapState::Unmapped, Ok(())),
        MapOp::AssignCopyDest => (MapState::Unmapped, Ok(())),
    }
}

/// A read is permitted only in `Mapped`, and a new copy-destination
/// assignment only in `Unmapped`: in any other state the protocol rejects
/// them and the state is unchanged.
pub proof fn lemma_protocol_exclusion(s: MapState)
    ensures
        spec_allows(s, MapOp::Read) <==> s == MapState::Mapped,
        spec_allows(s, MapOp::AssignCopyDest) <==> s == MapState::Unmapped,
        s == MapState::Mapped ==> !spec_allows(s, MapOp::AssignCopyDest),
        !spec_allows(s, MapOp::Read) ==> spec_next(s, MapOp::Read) == s,
        !spec_allows(s, MapOp::AssignCopyDest) ==> spec_next(s, MapOp::AssignCopyDest) == s,
{
}

/// Until the device has confirmed a map request, no sequence of events
/// reaches `Mapped`, so no read is ever permitted: starting anywhere but
/// `Mapped`, a trace without `ConfirmMap` never allows `Read`.
pub proof fn lemma_read_needs_confirm(init: MapState, ops: Seq<MapOp>)
    requires
        init != MapState::Mapped,
        forall|i: int| 0 <= i < ops.len() ==> ops[i] != MapOp::ConfirmMap,
    ensures
        spec_state_after(init, ops) != MapState::Mapped,
        !spec_allows(spec_state_after(init, ops), MapOp::Read),
    decreases ops.len(),
{
    if ops.len() > 0 {
        assert(forall|i: int|
            0 <= i < ops.drop_last().len() ==> ops.drop_last()[i] != MapOp::ConfirmMap);
        lemma_read_needs_confirm(init, ops.drop_last());
    }
}

} // verus!
