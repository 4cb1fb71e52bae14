//! The readback synchronizer: a staging buffer driven through the
//! map/read/release protocol.
//!
//! Each method's contract is stated against the pure state machine in
//! `protocol`: a caller operation succeeds exactly when the protocol
//! permits the event, and the new state is exactly the protocol's
//! transition. A pending map request carries the channel its completion
//! callback answers, so waiting resolves it the way the device actually
//! decided: a confirmed mapping reaches `Mapped`, a lost device surfaces
//! as `DeviceLost` with the buffer left `Unmapped`. Reading is therefore
//! impossible before the device has confirmed the mapping, and a buffer
//! is never handed back as a copy destination while it is host-visible.

use vstd::prelude::*;
use crate::backend;
use crate::desc::{staging_buffer_desc, TextureDesc, MAX_BUFFER_SIZE};
use crate::device::DeviceContext;
use crate::error::Error;
use crate::format::BufferUsage;
use crate::protocol::{spec_allows, spec_next, MapOp, MapState};
use crate::resources::buffer_usage_bits;

verus! {

/// Where a staging buffer stands in the readback protocol. A pending
/// request owns the channel that the map-completion callback answers.
pub enum MapSlot {
    Unmapped,
    Requested(oneshot::Receiver<bool>),
    Mapped,
}

impl MapSlot {
    /// The protocol state this slot is in.
    pub open spec fn spec_state(self) -> MapState {
        match self {
            MapSlot::Unmapped => MapState::Unmapped,
            MapSlot::Requested(_) => MapState::MapRequested,
            MapSlot::Mapped => MapState::Mapped,
        }
    }
}

/// A host-readable staging buffer and its position in the readback
/// protocol.
pub struct StagingBuffer {
    pub handle: wgpu::Buffer,
    pub size: u64,
    pub slot: MapSlot,
}

impl StagingBuffer {
    /// The protocol state of this buffer.
    pub open spec fn spec_state(self) -> MapState {
        self.slot.spec_state()
    }

    /// A staging buffer fresh from creation or release: unmapped, with a
    /// positive word-aligned size within the device limit.
    pub open spec fn wf(self) -> bool {
        0 < self.size <= MAX_BUFFER_SIZE && self.size % 4 == 0
    }

    /// Creates a staging buffer of `size` bytes: a copy destination that
    /// the host can map and read. The device maps and copies only whole
    /// four-byte words, so a size that is not a positive multiple of
    /// four within the device limit is a `SizeMismatch`.
    pub fn with_size(ctx: &DeviceContext, size: u64) -> (r: Result<StagingBuffer, Error>)
        ensures
            r is Ok <==> 0 < size <= MAX_BUFFER_SIZE && size % 4 == 0,
            r is Err ==> r == Result::<StagingBuffer, Error>::Err(Error::SizeMismatch),
            r matches Ok(s) ==> s.size == size && s.spec_state() == MapState::Unmapped && s.wf(),
    {
        if size == 0 || size > MAX_BUFFER_SIZE || size % 4 != 0 {
            return Err(Error::SizeMismatch);
        }
        let bits = buffer_usage_bits(BufferUsage::staging());
        let handle = backend::create_buffer_raw(&ctx.device, size, bits, false);
        Ok(StagingBuffer { handle, size, slot: MapSlot::Unmapped })
    }

    /// Creates the staging buffer matching a readback of `desc`: one
    /// aligned row stride per texture row. A descriptor whose dimensions
    /// are out of range is a `SizeMismatch`.
    pub fn for_texture(ctx: &DeviceContext, desc: &TextureDesc) -> (r: Result<StagingBuffer, Error>)
        requires
            desc.format.spec_texel_size() == 4,
        ensures
            r is Ok <==> desc.size_ok(),
            r is Err ==> r == Result::<StagingBuffer, Error>::Err(Error::SizeMismatch),
            r matches Ok(s) ==> s.size == desc.spec_staging_size() && s.spec_state()
                == MapState::Unmapped && s.wf(),
    {
        if desc.width == 0 || desc.width > crate::desc::MAX_DIMENSION || desc.height == 0
            || desc.height > crate::desc::MAX_DIMENSION {
            return Err(Error::SizeMismatch);
        }
        let staging_desc = staging_buffer_desc(desc);
        proof {
            crate::desc::lemma_staging_size_wf(*desc);
        }
        let bits = buffer_usage_bits(staging_desc.usage);
        let handle = backend::create_buffer_raw(&ctx.device, staging_desc.size, bits, false);
        Ok(StagingBuffer { handle, size: staging_desc.size, slot: MapSlot::Unmapped })
    }

    /// Registers a read-only map request over the whole buffer and
    /// returns immediately, keeping the channel its completion will
    /// answer. Permitted only while unmapped; in any other state nothing
    /// is registered and the call is a `BufferBusy`.
    pub fn request_map(&mut self) -> (r: Result<(), Error>)
        requires
            old(self).wf(),
        ensures
            final(self).spec_state() == spec_next(old(self).spec_state(), MapOp::RequestMap),
            r is Ok <==> spec_allows(old(self).spec_state(), MapOp::RequestMap),
            r is Err ==> r == Result::<(), Error>::Err(Error::BufferBusy),
            final(self).size == old(self).size,
            final(self).handle == old(self).handle,
            final(self).wf(),
    {
        match &self.slot {
            MapSlot::Unmapped => {},
            _ => {
                return Err(Error::BufferBusy);
            },
        }
        let receiver = backend::request_map_raw(&self.handle);
        self.slot = MapSlot::Requested(receiver);
        Ok(())
    }

    /// Drives device progress until the pending map request has
    /// resolved, then records the resolution the device reported: a
    /// confirmed mapping is committed, a failed one means the device
    /// connection was lost mid-map, and the buffer is left unmapped. In
    /// any state without a pending request nothing is polled and the
    /// call is a `BufferBusy`.
    pub fn wait_mapped(&mut self, ctx: &DeviceContext) -> (r: Result<(), Error>)
        ensures
            old(self).spec_state() != MapState::MapRequested ==> r == Result::<(), Error>::Err(
                Error::BufferBusy,
            ) && final(self).spec_state() == old(self).spec_state(),
            old(self).spec_state() == MapState::MapRequested ==> (r == Result::<(), Error>::Ok(())
                && final(self).spec_state() == spec_next(
                old(self).spec_state(),
                MapOp::ConfirmMap,
            )) || (r == Result::<(), Error>::Err(Error::DeviceLost) && final(self).spec_state()
                == spec_next(old(self).spec_state(), MapOp::FailMap)),
            r is Ok ==> final(self).spec_state() == MapState::Mapped,
            final(self).size == old(self).size,
            final(self).handle == old(self).handle,
    {
        let mut taken = MapSlot::Unmapped;
        core::mem::swap(&mut taken, &mut self.slot);
        let receiver = match taken {
            MapSlot::Requested(receiver) => receiver,
            other => {
                self.slot = other;
                return Err(Error::BufferBusy);
            },
        };
        backend::device_poll_wait(&ctx.device);
        if backend::recv_map_result(receiver) {
            self.slot = MapSlot::Mapped;
            Ok(())
        } else {
            self.slot = MapSlot::Unmapped;
            Err(Error::DeviceLost)
        }
    }

    /// Takes a snapshot of the mapped bytes. Permitted only while
    /// mapped: anywhere else the call is a `BufferBusy` and nothing is
    /// read. A committed whole-buffer mapping spans exactly the buffer's
    /// size; a snapshot of any other length would mean the backend broke
    /// that contract, and is reported as `DeviceLost` rather than
    /// trusted.
    pub fn read(&self) -> (r: Result<Vec<u8>, Error>)
        ensures
            r is Ok ==> spec_allows(self.spec_state(), MapOp::Read),
            self.spec_state() != MapState::Mapped ==> r == Result::<Vec<u8>, Error>::Err(
                Error::BufferBusy,
            ),
            self.spec_state() == MapState::Mapped ==> (r is Ok || r == Result::<
                Vec<u8>,
                Error,
            >::Err(Error::DeviceLost)),
            r matches Ok(bytes) ==> bytes@.len() == self.size,
    {
        match &self.slot {
            MapSlot::Mapped => {},
            _ => {
                return Err(Error::BufferBusy);
            },
        }
        let bytes = backend::read_mapped_bytes(&self.handle);
        if bytes.len() as u64 != self.size {
            return Err(Error::DeviceLost);
        }
        Ok(bytes)
    }

    /// Releases the mapping, returning the buffer to the device so it
    /// may serve as a copy destination again. Permitted only while
    /// mapped; in any other state nothing is released and the call is a
    /// `BufferBusy`.
    pub fn release(&mut self) -> (r: Result<(), Error>)
        ensures
            final(self).spec_state() == spec_next(old(self).spec_state(), MapOp::Release),
            r is Ok <==> spec_allows(old(self).spec_state(), MapOp::Release),
            r is Err ==> r == Result::<(), Error>::Err(Error::BufferBusy),
            final(self).size == old(self).size,
            final(self).handle == old(self).handle,
    {
        match &self.slot {
            MapSlot::Mapped => {},
            _ => {
                return Err(Error::BufferBusy);
            },
        }
        backend::unmap_buffer(&self.handle);
        self.slot = MapSlot::Unmapped;
        Ok(())
    }
}

} // verus!
