//! Buffers: their usage flags, their handles, and the data to fill them with.

use vstd::prelude::*;

verus! {

/// How a buffer is going to be used.
#[derive(Clone, Copy, Debug, PartialEq, Eq, Structural)]
pub struct BufferUsage {
    pub transfer_source: bool,
    pub transfer_destination: bool,
    pub uniform_texel_buffer: bool,
    pub storage_texel_buffer: bool,
    pub uniform_buffer: bool,
    pub storage_buffer: bool,
    pub index_buffer: bool,
    pub vertex_buffer: bool,
    pub indirect_buffer: bool,
    pub device_address: bool,
}

impl BufferUsage {
    /// The usage with every flag set.
    pub open spec fn every() -> BufferUsage {
        BufferUsage {
            transfer_source: true,
            transfer_destination: true,
            uniform_texel_buffer: true,
            storage_texel_buffer: true,
            uniform_buffer: true,
            storage_buffer: true,
            index_buffer: true,
            vertex_buffer: true,
            indirect_buffer: true,
            device_address: true,
        }
    }

    /// The usage with no flag set.
    pub open spec fn empty() -> BufferUsage {
        BufferUsage {
            transfer_source: false,
            transfer_destination: false,
            uniform_texel_buffer: false,
            storage_texel_buffer: false,
            uniform_buffer: false,
            storage_buffer: false,
            index_buffer: false,
            vertex_buffer: false,
            indirect_buffer: false,
            device_address: false,
        }
    }

    /// The usage with every flag set: the general-purpose choice.
    pub fn all() -> (u: BufferUsage)
        ensures
            u == BufferUsage::every(),
    {
        vulkano_usage_all()
    }

    /// The usage with no flag set. No buffer can be allocated with it.
    pub fn none() -> (u: BufferUsage)
        ensures
            u == BufferUsage::empty(),
    {
        BufferUsage {
            transfer_source: false,
            transfer_destination: false,
            uniform_texel_buffer: false,
            storage_texel_buffer: false,
            uniform_buffer: false,
            storage_buffer: false,
            index_buffer: false,
            vertex_buffer: false,
            indirect_buffer: false,
            device_address: false,
        }
    }

    /// Whether no flag is set.
    pub fn is_empty(&self) -> (b: bool)
        ensures
            b == (*self == BufferUsage::empty()),
    {
        !(self.transfer_source || self.transfer_destination || self.uniform_texel_buffer
            || self.storage_texel_buffer || self.uniform_buffer || self.storage_buffer
            || self.index_buffer || self.vertex_buffer || self.indirect_buffer
            || self.device_address)
    }
}

/// Calls `vulkano::buffer::BufferUsage::all` and hands its flags over one by
/// one. The contract is not proved here: it says what the graphics crate does
/// there, which is to set every one of its usage flags.
#[verifier::external_body]
fn vulkano_usage_all() -> (u: BufferUsage)
    ensures
        u == BufferUsage::every(),
{
    let all = vulkano::buffer::BufferUsage::all();
    BufferUsage {
        transfer_source: all.transfer_source,
        transfer_destination: all.transfer_destination,
        uniform_texel_buffer: all.uniform_texel_buffer,
        storage_texel_buffer: all.storage_texel_buffer,
        uniform_buffer: all.uniform_buffer,
        storage_buffer: all.storage_buffer,
        index_buffer: all.index_buffer,
        vertex_buffer: all.vertex_buffer,
        indirect_buffer: all.indirect_buffer,
        device_address: all.device_address,
    }
}

/// Handle of a buffer on a device, with the tags it was allocated with.
#[derive(Clone, Copy, Debug, PartialEq, Eq, Structural)]
pub struct Buffer {
    /// Position of the allocation in the memory of the device that made it.
    pub index: usize,
    /// Number of elements. It never changes.
    pub len: usize,
    pub usage: BufferUsage,
    /// Whether the host may read the contents.
    pub host_visible: bool,
}

/// The integers `0, 1, .., count - 1` in order.
pub open spec fn sequence_to(count: nat) -> Seq<u32> {
    Seq::new(count, |i: int| i as u32)
}

/// The data that a run fills its buffer with: the integers from zero up to
/// `count`, which is left out.
pub fn sequential_data(count: u32) -> (data: Vec<u32>)
    ensures
        data@ == sequence_to(count as nat),
{
    let mut data: Vec<u32> = Vec::new();
    let mut next: u32 = 0;
    while next < count
        invariant
            next <= count,
            data@ == sequence_to(next as nat),
        decreases count - next,
    {
        data.push(next);
        next += 1;
    }
    data
}

} // verus!
