//! The render phases that the mesh feature draws in, and what each of them
//! asks of the write job.

use vstd::prelude::*;

use crate::commands::{PerViewDescriptorSet, VertexLayoutKind};

verus! {

/// The indices under which the render phases that the mesh feature draws in
/// were registered.
#[derive(Clone, Copy, Debug, PartialEq, Eq, Structural)]
pub struct MeshAdvPhaseIndices {
    pub shadow_map: u32,
    pub depth_prepass: u32,
    pub wireframe: u32,
    pub opaque: u32,
    pub transparent: u32,
}

impl MeshAdvPhaseIndices {
    /// No two of the phases share an index, as phases registered with the
    /// renderer do not.
    pub open spec fn distinct(self) -> bool {
        &&& self.shadow_map != self.depth_prepass
        &&& self.shadow_map != self.wireframe
        &&& self.shadow_map != self.opaque
        &&& self.shadow_map != self.transparent
        &&& self.depth_prepass != self.wireframe
        &&& self.depth_prepass != self.opaque
        &&& self.depth_prepass != self.transparent
        &&& self.wireframe != self.opaque
        &&& self.wireframe != self.transparent
        &&& self.opaque != self.transparent
    }

    /// The phase draws meshes with their materials (opaque or transparent).
    pub open spec fn is_material_phase(self, phase_index: u32) -> bool {
        phase_index == self.opaque || phase_index == self.transparent
    }
}

/// Which of a view's per-view descriptor sets exist.
#[derive(Clone, Copy, Debug, PartialEq, Eq, Structural)]
pub struct ViewDescriptorSets {
    pub shadow_map_atlas_depth: bool,
    pub depth: bool,
    pub opaque: bool,
}

impl ViewDescriptorSets {
    /// The view has the given descriptor set.
    pub open spec fn has(self, set: PerViewDescriptorSet) -> bool {
        match set {
            PerViewDescriptorSet::ShadowMapAtlasDepth => self.shadow_map_atlas_depth,
            PerViewDescriptorSet::Depth => self.depth,
            PerViewDescriptorSet::Opaque => self.opaque,
        }
    }

    /// Whether the view has the given descriptor set.
    pub fn contains(&self, set: PerViewDescriptorSet) -> (present: bool)
        ensures
            present == self.has(set),
    {
        match set {
            PerViewDescriptorSet::ShadowMapAtlasDepth => self.shadow_map_atlas_depth,
            PerViewDescriptorSet::Depth => self.depth,
            PerViewDescriptorSet::Opaque => self.opaque,
        }
    }
}

/// What a phase binds before its batches draw: the per-view descriptor set,
/// and whether the SSAO and material descriptor sets follow it.
#[derive(Clone, Copy, Debug, PartialEq, Eq, Structural)]
pub struct PerViewBinding {
    pub descriptor_set: PerViewDescriptorSet,
    pub bind_ssao_and_materials: bool,
}

/// The per-view binding of a phase, tested in the order shadow map, depth
/// prepass, wireframe, opaque or transparent; `None` for any other phase,
/// in which meshes cannot be drawn as batches.
pub open spec fn per_view_binding_of(phase_index: u32, phases: MeshAdvPhaseIndices) -> Option<
    PerViewBinding,
> {
    if phase_index == phases.shadow_map {
        Some(
            PerViewBinding {
                descriptor_set: PerViewDescriptorSet::ShadowMapAtlasDepth,
                bind_ssao_and_materials: false,
            },
        )
    } else if phase_index == phases.depth_prepass {
        Some(
            PerViewBinding {
                descriptor_set: PerViewDescriptorSet::Depth,
                bind_ssao_and_materials: false,
            },
        )
    } else if phase_index == phases.wireframe {
        Some(
            PerViewBinding {
                descriptor_set: PerViewDescriptorSet::Opaque,
                bind_ssao_and_materials: false,
            },
        )
    } else if phases.is_material_phase(phase_index) {
        Some(
            PerViewBinding {
                descriptor_set: PerViewDescriptorSet::Opaque,
                bind_ssao_and_materials: true,
            },
        )
    } else {
        None
    }
}

/// The vertex layout of a phase's pipelines: the full layout for the opaque
/// and transparent phases, the position-only layout for every other phase.
pub open spec fn vertex_layout_of(phase_index: u32, phases: MeshAdvPhaseIndices) -> VertexLayoutKind {
    if phases.is_material_phase(phase_index) {
        VertexLayoutKind::Full
    } else {
        VertexLayoutKind::Position
    }
}

} // verus!
