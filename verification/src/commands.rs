//! The commands that the mesh write job records into a command buffer.
//!
//! The write job does not talk to the GPU itself: each of its decisions is a
//! sequence of `WriteCommand`s, in the order in which they are recorded.

use vstd::prelude::*;

verus! {

/// The vertex layout that a mesh pipeline is created with.
#[derive(Clone, Copy, Debug, PartialEq, Eq, Structural)]
pub enum VertexLayoutKind {
    /// Position, normal, tangent, binormal and texture coordinates.
    Full,
    /// Position only.
    Position,
}

/// Which of the per-view descriptor sets of the mesh feature a phase draws with.
#[derive(Clone, Copy, Debug, PartialEq, Eq, Structural)]
pub enum PerViewDescriptorSet {
    /// The shadow map atlas depth set.
    ShadowMapAtlasDepth,
    /// The depth prepass set.
    Depth,
    /// The set of the opaque phase, shared with the wireframe and transparent phases.
    Opaque,
}

/// The size of the elements of an index buffer.
#[derive(Clone, Copy, Debug, PartialEq, Eq, Structural)]
pub enum IndexType {
    Uint32,
    Uint16,
}

/// One command of a write plan.
#[derive(Clone, Copy, Debug, PartialEq, Eq, Structural)]
pub enum WriteCommand {
    /// Get or create the pipeline of the batch's pass for the given vertex
    /// layout, then bind it.
    BindPipeline { batch_index: u32, vertex_layout: VertexLayoutKind },
    /// Bind one of the per-view descriptor sets.
    BindPerViewDescriptorSet { descriptor_set: PerViewDescriptorSet },
    /// Bind the descriptor set that belongs to the batch.
    BindPerBatchDescriptorSet { batch_index: u32 },
    /// Bind the screen-space ambient occlusion descriptor set.
    BindSsaoDescriptorSet,
    /// Bind the descriptor set that holds all materials.
    BindAllMaterialsDescriptorSet,
    /// Bind the shared index buffer.
    BindIndexBuffer { index_type: IndexType, byte_offset: u64 },
    /// Bind the shared vertex buffer.
    BindVertexBuffers { first_binding: u32, byte_offset: u64 },
    /// Draw `command_count` indexed commands of the indirect buffer, starting
    /// at `byte_offset`.
    DrawIndexedIndirect { byte_offset: u32, command_count: u32 },
}

/// Declares rafx's `RafxDrawIndexedIndirectCommand` (rafx-api, `types/misc.rs`)
/// to Verus as an opaque type. Nothing of its fields is claimed: the library
/// only asks `core::mem::size_of` for its size, which vstd's own
/// specification ties to `vstd::layout::size_of`. The numeric value of that
/// size (five 4-byte fields) is left unstated; the tests check it at run time.
#[verifier::external_type_specification]
#[verifier::external_body]
pub struct ExDrawIndexedIndirectCommand(rafx::api::RafxDrawIndexedIndirectCommand);

/// The byte stride of one indexed indirect command, as the write job computes
/// it: the size of `RafxDrawIndexedIndirectCommand`, cast to `u32`.
pub open spec fn indirect_stride() -> u32 {
    vstd::layout::size_of::<rafx::api::RafxDrawIndexedIndirectCommand>() as u32
}

/// The byte offset of the indirect command with the given index.
pub open spec fn indirect_byte_offset(command_index: int) -> int {
    command_index * indirect_stride()
}

/// The byte stride of one indexed indirect command.
pub fn indirect_command_stride() -> (stride: u32)
    ensures
        stride == indirect_stride(),
{
    let size: usize = core::mem::size_of::<rafx::api::RafxDrawIndexedIndirectCommand>();
    size as u32
}

/// The byte offset of the indirect command with the given index.
pub fn indirect_command_byte_offset(command_index: u32) -> (offset: u32)
    requires
        indirect_byte_offset(command_index as int) <= u32::MAX,
    ensures
        offset == indirect_byte_offset(command_index as int),
{
    let stride: u32 = indirect_command_stride();
    command_index * stride
}

} // verus!
