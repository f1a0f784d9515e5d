//! The write job of the mesh feature: what it records for a batch of meshes
//! and for each submit node.

use vstd::prelude::*;

use crate::commands::{
    indirect_byte_offset, indirect_command_byte_offset, indirect_command_stride, IndexType,
    PerViewDescriptorSet, VertexLayoutKind, WriteCommand,
};
use crate::phases::{
    per_view_binding_of, vertex_layout_of, MeshAdvPhaseIndices, PerViewBinding, ViewDescriptorSets,
};

verus! {

/// What the write job reads of a batched pass: whether its descriptor set
/// exists, the type of its indices and the range of the indirect buffer that
/// holds its draw commands.
#[derive(Clone, Copy, Debug, PartialEq, Eq, Structural)]
pub struct BatchInfo {
    pub has_per_batch_descriptor_set: bool,
    pub index_type: IndexType,
    pub indirect_buffer_first_command_index: u32,
    pub indirect_buffer_command_count: u32,
}

/// The data of a submit node: a whole batch, or a single mesh draw of a batch
/// (as in the transparent phase, whose nodes are depth sorted).
#[derive(Clone, Copy, Debug, PartialEq, Eq, Structural)]
pub enum DrawCall {
    Batched { batch_index: u32 },
    Unbatched { batch_index: u32, draw_data_index: u32 },
}

/// The write job of the mesh feature for one frame.
pub struct MeshAdvWriteJob {
    phases: MeshAdvPhaseIndices,
    feature_index: u32,
    batches: Vec<BatchInfo>,
    has_all_materials_descriptor_set: bool,
}

/// The model of a write job: the phase indices, the feature index, the
/// batched passes of the frame and whether its materials descriptor set exists.
pub struct WriteJobView {
    pub phases: MeshAdvPhaseIndices,
    pub feature_index: u32,
    pub batches: Seq<BatchInfo>,
    pub has_all_materials_descriptor_set: bool,
}

impl View for MeshAdvWriteJob {
    type V = WriteJobView;

    closed spec fn view(&self) -> WriteJobView {
        WriteJobView {
            phases: self.phases,
            feature_index: self.feature_index,
            batches: self.batches@,
            has_all_materials_descriptor_set: self.has_all_materials_descriptor_set,
        }
    }
}

/// The commands that prepare a batch for drawing: its pipeline, the per-view
/// and per-batch descriptor sets, in material phases the SSAO set (where one is
/// available) and the materials set, then the index and vertex buffers.
pub open spec fn setup_commands(
    batch_index: u32,
    batch: BatchInfo,
    vertex_layout: VertexLayoutKind,
    binding: PerViewBinding,
    ssao_available: bool,
) -> Seq<WriteCommand> {
    let head = seq![
        WriteCommand::BindPipeline { batch_index, vertex_layout },
        WriteCommand::BindPerViewDescriptorSet { descriptor_set: binding.descriptor_set },
        WriteCommand::BindPerBatchDescriptorSet { batch_index },
    ];
    let materials = if !binding.bind_ssao_and_materials {
        Seq::<WriteCommand>::empty()
    } else if ssao_available {
        seq![WriteCommand::BindSsaoDescriptorSet, WriteCommand::BindAllMaterialsDescriptorSet]
    } else {
        seq![WriteCommand::BindAllMaterialsDescriptorSet]
    };
    let buffers = seq![
        WriteCommand::BindIndexBuffer { index_type: batch.index_type, byte_offset: 0 },
        WriteCommand::BindVertexBuffers { first_binding: 0, byte_offset: 0 },
    ];
    head + materials + buffers
}

/// The draw of `command_count` indirect commands from `first_command_index` on.
pub open spec fn indirect_draw(first_command_index: int, command_count: u32) -> WriteCommand {
    WriteCommand::DrawIndexedIndirect {
        byte_offset: indirect_byte_offset(first_command_index) as u32,
        command_count,
    }
}

impl WriteJobView {
    /// A batch can be set up in a phase: it exists and has its descriptor
    /// set, meshes can be drawn as batches in the phase, the view has the
    /// phase's per-view set, and in material phases the materials set exists.
    pub open spec fn can_setup(self, batch_index: u32, phase_index: u32, view_sets: ViewDescriptorSets) -> bool {
        &&& batch_index < self.batches.len()
        &&& self.batches[batch_index as int].has_per_batch_descriptor_set
        &&& per_view_binding_of(phase_index, self.phases) is Some
        &&& view_sets.has(per_view_binding_of(phase_index, self.phases).unwrap().descriptor_set)
        &&& per_view_binding_of(phase_index, self.phases).unwrap().bind_ssao_and_materials
            ==> self.has_all_materials_descriptor_set
    }

    /// The batch exists and meshes can be drawn as batches in the phase: the
    /// setup plan of the batch in the phase is then defined.
    pub open spec fn plans_batch(self, batch_index: u32, phase_index: u32) -> bool {
        &&& batch_index < self.batches.len()
        &&& per_view_binding_of(phase_index, self.phases) is Some
    }

    pub open spec fn setup_plan(self, batch_index: u32, phase_index: u32, ssao_available: bool) -> Seq<
        WriteCommand,
    > {
        setup_commands(
            batch_index,
            self.batches[batch_index as int],
            vertex_layout_of(phase_index, self.phases),
            per_view_binding_of(phase_index, self.phases).unwrap(),
            ssao_available,
        )
    }

    /// A whole batch can be drawn in a phase: it can be set up, and the byte
    /// offset of its first indirect command fits in a `u32`.
    pub open spec fn can_draw_batch(self, batch_index: u32, phase_index: u32, view_sets: ViewDescriptorSets) -> bool {
        &&& self.can_setup(batch_index, phase_index, view_sets)
        &&& indirect_byte_offset(
            self.batches[batch_index as int].indirect_buffer_first_command_index as int,
        ) <= u32::MAX
    }

    pub open spec fn draw_batch_plan(self, batch_index: u32, phase_index: u32, ssao_available: bool) -> Seq<
        WriteCommand,
    > {
        let batch = self.batches[batch_index as int];
        self.setup_plan(batch_index, phase_index, ssao_available).push(
            indirect_draw(
                batch.indirect_buffer_first_command_index as int,
                batch.indirect_buffer_command_count,
            ),
        )
    }

    /// The index, in the indirect buffer, of the command of a single draw.
    pub open spec fn single_command_index(self, batch_index: u32, draw_data_index: u32) -> int {
        self.batches[batch_index as int].indirect_buffer_first_command_index + draw_data_index
    }

    /// A single draw of a batch can be recorded: the batch exists, and the
    /// index of its command and that command's byte offset fit in a `u32`.
    pub open spec fn can_draw_single(self, batch_index: u32, draw_data_index: u32) -> bool {
        &&& batch_index < self.batches.len()
        &&& self.single_command_index(batch_index, draw_data_index) <= u32::MAX
        &&& indirect_byte_offset(self.single_command_index(batch_index, draw_data_index))
            <= u32::MAX
    }

    pub open spec fn draw_single_plan(self, batch_index: u32, draw_data_index: u32) -> Seq<
        WriteCommand,
    > {
        seq![indirect_draw(self.single_command_index(batch_index, draw_data_index), 1)]
    }

    /// The start of a batch of submit nodes can be handled: in the transparent
    /// phase the batch that the sort key names can be set up.
    pub open spec fn can_begin(self, phase_index: u32, sort_key: u32, view_sets: ViewDescriptorSets) -> bool {
        phase_index == self.phases.transparent ==> self.can_setup(sort_key, phase_index, view_sets)
    }

    pub open spec fn begin_plan(self, phase_index: u32, sort_key: u32, ssao_available: bool) -> Seq<
        WriteCommand,
    > {
        if phase_index == self.phases.transparent {
            self.setup_plan(sort_key, phase_index, ssao_available)
        } else {
            Seq::empty()
        }
    }

    /// A submit node can be rendered: outside the transparent phase it is a
    /// whole batch that can be drawn, in it a single draw that can be recorded.
    pub open spec fn can_render(self, phase_index: u32, draw_call: DrawCall, view_sets: ViewDescriptorSets) -> bool {
        if phase_index != self.phases.transparent {
            match draw_call {
                DrawCall::Batched { batch_index } => self.can_draw_batch(
                    batch_index,
                    phase_index,
                    view_sets,
                ),
                DrawCall::Unbatched { .. } => false,
            }
        } else {
            match draw_call {
                DrawCall::Batched { .. } => false,
                DrawCall::Unbatched { batch_index, draw_data_index } => self.can_draw_single(
                    batch_index,
                    draw_data_index,
                ),
            }
        }
    }

    pub open spec fn render_plan(self, phase_index: u32, draw_call: DrawCall, ssao_available: bool) -> Seq<
        WriteCommand,
    > {
        match draw_call {
            DrawCall::Batched { batch_index } => self.draw_batch_plan(
                batch_index,
                phase_index,
                ssao_available,
            ),
            DrawCall::Unbatched { batch_index, draw_data_index } => self.draw_single_plan(
                batch_index,
                draw_data_index,
            ),
        }
    }
}

impl MeshAdvWriteJob {
    /// A write job over the batched passes of a frame.
    pub fn new(
        phases: MeshAdvPhaseIndices,
        feature_index: u32,
        batches: Vec<BatchInfo>,
        has_all_materials_descriptor_set: bool,
    ) -> (job: Self)
        ensures
            job@.phases == phases,
            job@.feature_index == feature_index,
            job@.batches == batches@,
            job@.has_all_materials_descriptor_set == has_all_materials_descriptor_set,
    {
        MeshAdvWriteJob { phases, feature_index, batches, has_all_materials_descriptor_set }
    }

    /// The index under which the mesh feature was registered.
    pub fn feature_index(&self) -> (index: u32)
        ensures
            index == self@.feature_index,
    {
        self.feature_index
    }

    /// The number of batched passes of the frame.
    pub fn batch_count(&self) -> (count: usize)
        ensures
            count == self@.batches.len(),
    {
        self.batches.len()
    }

    /// The vertex layout of the pipelines of a phase.
    pub fn vertex_layout_for_phase_index(&self, phase_index: u32) -> (layout: VertexLayoutKind)
        ensures
            layout == vertex_layout_of(phase_index, self@.phases),
    {
        if phase_index == self.phases.opaque || phase_index == self.phases.transparent {
            VertexLayoutKind::Full
        } else {
            VertexLayoutKind::Position
        }
    }

    /// The per-view binding of a phase; `None` where meshes cannot be drawn as
    /// batches in it.
    pub fn per_view_binding_for_phase(&self, phase_index: u32) -> (binding: Option<PerViewBinding>)
        ensures
            binding == per_view_binding_of(phase_index, self@.phases),
    {
        if phase_index == self.phases.shadow_map {
            Some(
                PerViewBinding {
                    descriptor_set: PerViewDescriptorSet::ShadowMapAtlasDepth,
                    bind_ssao_and_materials: false,
                },
            )
        } else if phase_index == self.phases.depth_prepass {
            Some(
                PerViewBinding {
                    descriptor_set: PerViewDescriptorSet::Depth,
                    bind_ssao_and_materials: false,
                },
            )
        } else if phase_index == self.phases.wireframe {
            Some(
                PerViewBinding {
                    descriptor_set: PerViewDescriptorSet::Opaque,
                    bind_ssao_and_materials: false,
                },
            )
        } else if phase_index == self.phases.opaque || phase_index == self.phases.transparent {
            Some(
                PerViewBinding {
                    descriptor_set: PerViewDescriptorSet::Opaque,
                    bind_ssao_and_materials: true,
                },
            )
        } else {
            None
        }
    }

    /// The commands that prepare a batch for drawing in a phase.
    pub fn setup_for_batch(
        &self,
        batch_index: u32,
        render_phase_index: u32,
        view_sets: ViewDescriptorSets,
        ssao_available: bool,
    ) -> (plan: Vec<WriteCommand>)
        requires
            self@.can_setup(batch_index, render_phase_index, view_sets),
        ensures
            plan@ == self@.setup_plan(batch_index, render_phase_index, ssao_available),
    {
        let binding = self.per_view_binding_for_phase(render_phase_index).unwrap();
        let vertex_layout = self.vertex_layout_for_phase_index(render_phase_index);
        let batch = self.batches[batch_index as usize];
        let mut plan: Vec<WriteCommand> = Vec::new();
        plan.push(WriteCommand::BindPipeline { batch_index, vertex_layout });
        plan.push(WriteCommand::BindPerViewDescriptorSet { descriptor_set: binding.descriptor_set });
        plan.push(WriteCommand::BindPerBatchDescriptorSet { batch_index });
        if binding.bind_ssao_and_materials {
            if ssao_available {
                plan.push(WriteCommand::BindSsaoDescriptorSet);
            }
            plan.push(WriteCommand::BindAllMaterialsDescriptorSet);
        }
        plan.push(WriteCommand::BindIndexBuffer { index_type: batch.index_type, byte_offset: 0 });
        plan.push(WriteCommand::BindVertexBuffers { first_binding: 0, byte_offset: 0 });
        assert(plan@ =~= self@.setup_plan(batch_index, render_phase_index, ssao_available));
        plan
    }
    /// The commands that draw a whole batch: its setup, then one indirect draw
    /// of all its commands.
    pub fn draw_batch(
        &self,
        render_phase_index: u32,
        draw_call: DrawCall,
        view_sets: ViewDescriptorSets,
        ssao_available: bool,
    ) -> (plan: Vec<WriteCommand>)
        requires
            draw_call is Batched,
            self@.can_draw_batch(draw_call->Batched_batch_index, render_phase_index, view_sets),
        ensures
            plan@ == self@.draw_batch_plan(
                draw_call->Batched_batch_index,
                render_phase_index,
                ssao_available,
            ),
    {
        let batch_index: u32 = match draw_call {
            DrawCall::Batched { batch_index } => batch_index,
            DrawCall::Unbatched { batch_index, .. } => batch_index,
        };
        let mut plan = self.setup_for_batch(batch_index, render_phase_index, view_sets, ssao_available);
        let batch = self.batches[batch_index as usize];
        let byte_offset: u32 = indirect_command_byte_offset(
            batch.indirect_buffer_first_command_index,
        );
        plan.push(
            WriteCommand::DrawIndexedIndirect {
                byte_offset,
                command_count: batch.indirect_buffer_command_count,
            },
        );
        plan
    }

    /// The command that draws a single mesh of a batch: one indirect draw of
    /// the command at the mesh's draw data index within the batch's range.
    pub fn draw_single_render_node(&self, draw_call: DrawCall) -> (plan: Vec<WriteCommand>)
        requires
            draw_call is Unbatched,
            self@.can_draw_single(
                draw_call->Unbatched_batch_index,
                draw_call->Unbatched_draw_data_index,
            ),
        ensures
            plan@ == self@.draw_single_plan(
                draw_call->Unbatched_batch_index,
                draw_call->Unbatched_draw_data_index,
            ),
    {
        let (batch_index, draw_data_index): (u32, u32) = match draw_call {
            DrawCall::Batched { batch_index } => (batch_index, 0),
            DrawCall::Unbatched { batch_index, draw_data_index } => (batch_index, draw_data_index),
        };
        let batch = self.batches[batch_index as usize];
        let command_index: u32 = batch.indirect_buffer_first_command_index + draw_data_index;
        let byte_offset: u32 = indirect_command_byte_offset(command_index);
        let mut plan: Vec<WriteCommand> = Vec::new();
        plan.push(WriteCommand::DrawIndexedIndirect { byte_offset, command_count: 1 });
        assert(plan@ =~= self@.draw_single_plan(batch_index, draw_data_index));
        plan
    }

    /// The commands recorded when a batch of submit nodes begins: in the
    /// transparent phase, the setup of the batch that the sort key names;
    /// nothing in any other phase.
    pub fn begin_submit_node_batch(
        &self,
        render_phase_index: u32,
        sort_key: u32,
        view_sets: ViewDescriptorSets,
        ssao_available: bool,
    ) -> (plan: Vec<WriteCommand>)
        requires
            self@.can_begin(render_phase_index, sort_key, view_sets),
        ensures
            plan@ == self@.begin_plan(render_phase_index, sort_key, ssao_available),
    {
        if render_phase_index == self.phases.transparent {
            let batch_index: u32 = sort_key;
            self.setup_for_batch(batch_index, render_phase_index, view_sets, ssao_available)
        } else {
            let plan: Vec<WriteCommand> = Vec::new();
            assert(plan@ =~= Seq::<WriteCommand>::empty());
            plan
        }
    }

    /// The commands recorded for a submit node: outside the transparent phase
    /// a node is a whole batch, drawn with its setup; in the transparent phase
    /// it is a single draw, whose batch was set up when its batch of submit
    /// nodes began.
    pub fn render_submit_node(
        &self,
        render_phase_index: u32,
        draw_call: DrawCall,
        view_sets: ViewDescriptorSets,
        ssao_available: bool,
    ) -> (plan: Vec<WriteCommand>)
        requires
            self@.can_render(render_phase_index, draw_call, view_sets),
        ensures
            plan@ == self@.render_plan(render_phase_index, draw_call, ssao_available),
    {
        if render_phase_index != self.phases.transparent {
            self.draw_batch(render_phase_index, draw_call, view_sets, ssao_available)
        } else {
            self.draw_single_render_node(draw_call)
        }
    }
    /// Whether a batch can be set up in a phase: `false` exactly where
    /// `setup_for_batch` may not be called, because the batch or its
    /// descriptor set does not exist, the phase draws no batches, or the view's
    /// per-view set or the materials set that the phase binds does not exist.
    pub fn can_setup_batch(&self, batch_index: u32, render_phase_index: u32, view_sets: ViewDescriptorSets) -> (ok:
        bool)
        ensures
            ok == self@.can_setup(batch_index, render_phase_index, view_sets),
    {
        if (batch_index as usize) >= self.batches.len() {
            return false;
        }
        if !self.batches[batch_index as usize].has_per_batch_descriptor_set {
            return false;
        }
        match self.per_view_binding_for_phase(render_phase_index) {
            Some(binding) => view_sets.contains(binding.descriptor_set) && (
            !binding.bind_ssao_and_materials || self.has_all_materials_descriptor_set),
            None => false,
        }
    }

    /// Whether a batch of submit nodes can begin: `false` exactly where
    /// `begin_submit_node_batch` may not be called, because the transparent
    /// batch that the sort key names cannot be set up.
    pub fn can_begin_submit_node_batch(&self, render_phase_index: u32, sort_key: u32, view_sets: ViewDescriptorSets) -> (ok:
        bool)
        ensures
            ok == self@.can_begin(render_phase_index, sort_key, view_sets),
    {
        render_phase_index != self.phases.transparent || self.can_setup_batch(
            sort_key,
            render_phase_index,
            view_sets,
        )
    }

    /// Whether a submit node can be rendered: `false` exactly where
    /// `render_submit_node` may not be called, because the node's data is not
    /// of the kind the phase draws, the batch cannot be set up in the phase,
    /// the batch does not exist, or an indirect command index or byte offset
    /// overflows.
    pub fn can_render_submit_node(&self, render_phase_index: u32, draw_call: DrawCall, view_sets: ViewDescriptorSets) -> (ok:
        bool)
        ensures
            ok == self@.can_render(render_phase_index, draw_call, view_sets),
    {
        if render_phase_index != self.phases.transparent {
            match draw_call {
                DrawCall::Batched { batch_index } => {
                    if !self.can_setup_batch(batch_index, render_phase_index, view_sets) {
                        return false;
                    }
                    let first: u32 = self.batches[batch_index as usize].indirect_buffer_first_command_index;
                    let stride: u32 = indirect_command_stride();
                    first.checked_mul(stride).is_some()
                },
                DrawCall::Unbatched { .. } => false,
            }
        } else {
            match draw_call {
                DrawCall::Batched { .. } => false,
                DrawCall::Unbatched { batch_index, draw_data_index } => {
                    if (batch_index as usize) >= self.batches.len() {
                        return false;
                    }
                    let first: u32 = self.batches[batch_index as usize].indirect_buffer_first_command_index;
                    match first.checked_add(draw_data_index) {
                        Some(command_index) => {
                            let stride: u32 = indirect_command_stride();
                            command_index.checked_mul(stride).is_some()
                        },
                        None => false,
                    }
                },
            }
        }
    }
}

} // verus!
