//! Handles and descriptions of device buffers.
//!
//! The buffers themselves live with whoever owns the device. The library
//! refers to them by handle and describes the ones it wants created.

use vstd::prelude::*;

verus! {

/// Names the device that a storage or a renderer is bound to.
#[derive(Clone, Copy, Debug, PartialEq, Eq)]
pub struct DeviceId {
    pub index: u32,
}

/// Names one buffer of the pool that the device's owner keeps.
#[derive(Clone, Copy, Debug, PartialEq, Eq)]
pub struct BufferId {
    pub index: u32,
}

impl BufferId {
    /// The handle of the buffer at place `place` of the pool, counted from
    /// zero; there is none when the pool has more places than handles.
    pub fn from_place(place: usize) -> (id: Option<BufferId>)
        ensures
            id == if place <= u32::MAX {
                Some(BufferId { index: place as u32 })
            } else {
                None
            },
    {
        if place <= 0xffff_ffff {
            Some(BufferId { index: place as u32 })
        } else {
            None
        }
    }

    /// The place in the pool of the buffer that the handle names.
    pub fn place(&self) -> (place: usize)
        ensures
            place == self.index,
    {
        self.index as usize
    }
}

/// What a buffer may be used for.
#[derive(Clone, Copy, Debug, PartialEq, Eq)]
pub struct BufferUsage {
    /// Source of a buffer-to-buffer copy.
    pub copy_src: bool,
    /// Destination of a buffer-to-buffer copy.
    pub copy_dst: bool,
    /// Read as index data by a draw.
    pub index: bool,
    /// Read as vertex data by a draw.
    pub vertex: bool,
    /// Read as uniform data by a shader.
    pub uniform: bool,
}

impl BufferUsage {
    /// Usage of a staging buffer: the source of a copy and nothing else.
    pub open spec fn spec_copy_src() -> BufferUsage {
        BufferUsage { copy_src: true, copy_dst: false, index: false, vertex: false, uniform: false }
    }

    /// Usage of an index buffer.
    pub open spec fn spec_index() -> BufferUsage {
        BufferUsage { copy_src: false, copy_dst: false, index: true, vertex: false, uniform: false }
    }

    /// Usage of a vertex buffer.
    pub open spec fn spec_vertex() -> BufferUsage {
        BufferUsage { copy_src: false, copy_dst: false, index: false, vertex: true, uniform: false }
    }

    /// Usage of a buffer that copies fill and shaders read as uniform data.
    pub open spec fn spec_uniform_copy_dst() -> BufferUsage {
        BufferUsage { copy_src: false, copy_dst: true, index: false, vertex: false, uniform: true }
    }

    #[verifier::when_used_as_spec(spec_copy_src)]
    pub fn copy_src() -> (usage: BufferUsage)
        ensures
            usage == BufferUsage::spec_copy_src(),
    {
        BufferUsage { copy_src: true, copy_dst: false, index: false, vertex: false, uniform: false }
    }

    #[verifier::when_used_as_spec(spec_index)]
    pub fn index() -> (usage: BufferUsage)
        ensures
            usage == BufferUsage::spec_index(),
    {
        BufferUsage { copy_src: false, copy_dst: false, index: true, vertex: false, uniform: false }
    }

    #[verifier::when_used_as_spec(spec_vertex)]
    pub fn vertex() -> (usage: BufferUsage)
        ensures
            usage == BufferUsage::spec_vertex(),
    {
        BufferUsage { copy_src: false, copy_dst: false, index: false, vertex: true, uniform: false }
    }

    #[verifier::when_used_as_spec(spec_uniform_copy_dst)]
    pub fn uniform_copy_dst() -> (usage: BufferUsage)
        ensures
            usage == BufferUsage::spec_uniform_copy_dst(),
    {
        BufferUsage { copy_src: false, copy_dst: true, index: false, vertex: false, uniform: true }
    }
}

/// A buffer to be created empty.
#[derive(Clone, Copy, Debug, PartialEq, Eq)]
pub struct BufferDescriptor {
    /// Size in bytes.
    pub size: u64,
    pub usage: BufferUsage,
}

/// A buffer to be created with the given contents, which are never changed
/// afterwards.
#[derive(Debug, PartialEq, Eq)]
pub struct BufferData {
    pub usage: BufferUsage,
    pub contents: Vec<u8>,
}

} // verus!
