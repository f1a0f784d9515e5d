//! Laws on what the write job's plans are for, stated over all inputs: how the
//! SSAO set follows its availability, what a setup depends on, what a whole
//! batch draws, and which per-view set a phase needs.

use vstd::prelude::*;

use crate::binding_state::draw_free;
use crate::commands::{indirect_byte_offset, IndexType, PerViewDescriptorSet, WriteCommand};
use crate::phases::{per_view_binding_of, vertex_layout_of, ViewDescriptorSets};
use crate::write_job::{DrawCall, WriteJobView};

verus! {

/// The command with the batch it names, and the index type it carries, set to
/// those of another batch; every other command unchanged.
pub open spec fn for_batch(command: WriteCommand, batch_index: u32, index_type: IndexType) -> WriteCommand {
    match command {
        WriteCommand::BindPipeline { vertex_layout, .. } => WriteCommand::BindPipeline {
            batch_index,
            vertex_layout,
        },
        WriteCommand::BindPerBatchDescriptorSet { .. } => WriteCommand::BindPerBatchDescriptorSet {
            batch_index,
        },
        WriteCommand::BindIndexBuffer { byte_offset, .. } => WriteCommand::BindIndexBuffer {
            index_type,
            byte_offset,
        },
        _ => command,
    }
}

/// Law: in every phase whose per-view binding binds the SSAO and materials
/// sets, and for every batch, the setup binds the SSAO set exactly when one is
/// available, and always binds the materials set; in every other phase it binds
/// neither.
pub proof fn lemma_ssao_bound_iff_available(
    job: WriteJobView,
    batch_index: u32,
    phase_index: u32,
    ssao_available: bool,
)
    requires
        job.plans_batch(batch_index, phase_index),
    ensures
        ({
            let plan = job.setup_plan(batch_index, phase_index, ssao_available);
            let materials_phase = per_view_binding_of(
                phase_index,
                job.phases,
            ).unwrap().bind_ssao_and_materials;
            &&& plan.contains(WriteCommand::BindSsaoDescriptorSet) <==> (materials_phase
                && ssao_available)
            &&& plan.contains(WriteCommand::BindAllMaterialsDescriptorSet) <==> materials_phase
        }),
{
    let plan = job.setup_plan(batch_index, phase_index, ssao_available);
    let binding = per_view_binding_of(phase_index, job.phases).unwrap();
    if binding.bind_ssao_and_materials {
        if ssao_available {
            assert(plan[3] == WriteCommand::BindSsaoDescriptorSet);
            assert(plan[4] == WriteCommand::BindAllMaterialsDescriptorSet);
        } else {
            assert(plan.len() == 6);
            assert(plan[3] == WriteCommand::BindAllMaterialsDescriptorSet);
            assert forall|i: int| 0 <= i < plan.len() implies plan[i]
                != WriteCommand::BindSsaoDescriptorSet by {}
        }
    } else {
        assert(plan.len() == 5);
        assert forall|i: int| 0 <= i < plan.len() implies plan[i]
            != WriteCommand::BindSsaoDescriptorSet && plan[i]
            != WriteCommand::BindAllMaterialsDescriptorSet by {}
    }
}

/// Law: a setup depends on the phase only through the phase's per-view
/// binding and vertex layout: two phases that bind alike and draw with the
/// same layout set a batch up alike.
pub proof fn lemma_setup_depends_on_binding_and_layout(
    job: WriteJobView,
    batch_index: u32,
    phase: u32,
    other_phase: u32,
    ssao_available: bool,
)
    requires
        job.plans_batch(batch_index, phase),
        job.plans_batch(batch_index, other_phase),
        per_view_binding_of(phase, job.phases) == per_view_binding_of(other_phase, job.phases),
        vertex_layout_of(phase, job.phases) == vertex_layout_of(other_phase, job.phases),
    ensures
        job.setup_plan(batch_index, phase, ssao_available) == job.setup_plan(
            batch_index,
            other_phase,
            ssao_available,
        ),
        job.draw_batch_plan(batch_index, phase, ssao_available) == job.draw_batch_plan(
            batch_index,
            other_phase,
            ssao_available,
        ),
{
}

/// Law: with distinct phase indices, the opaque and transparent phases set up
/// and draw a batch alike.
pub proof fn lemma_opaque_and_transparent_set_up_alike(
    job: WriteJobView,
    batch_index: u32,
    ssao_available: bool,
)
    requires
        job.phases.distinct(),
        batch_index < job.batches.len(),
    ensures
        job.setup_plan(batch_index, job.phases.opaque, ssao_available) == job.setup_plan(
            batch_index,
            job.phases.transparent,
            ssao_available,
        ),
{
    lemma_setup_depends_on_binding_and_layout(
        job,
        batch_index,
        job.phases.opaque,
        job.phases.transparent,
        ssao_available,
    );
}

/// Law: in a phase, the setups of two batches differ only in the batch they
/// name and the index type they bind: the one is the other with those two
/// replaced.
pub proof fn lemma_batches_set_up_alike(
    job: WriteJobView,
    batch_index: u32,
    other_batch: u32,
    phase_index: u32,
    ssao_available: bool,
)
    requires
        job.plans_batch(batch_index, phase_index),
        job.plans_batch(other_batch, phase_index),
    ensures
        job.setup_plan(other_batch, phase_index, ssao_available) == job.setup_plan(
            batch_index,
            phase_index,
            ssao_available,
        ).map_values(
            |command: WriteCommand|
                for_batch(command, other_batch, job.batches[other_batch as int].index_type),
        ),
{
    let plan = job.setup_plan(batch_index, phase_index, ssao_available);
    let other = job.setup_plan(other_batch, phase_index, ssao_available);
    let mapped = plan.map_values(
        |command: WriteCommand|
            for_batch(command, other_batch, job.batches[other_batch as int].index_type),
    );
    assert(other.len() == plan.len());
    assert forall|i: int| 0 <= i < other.len() implies other[i] == mapped[i] by {}
    assert(other =~= mapped);
}

/// Law: drawing a whole batch records its setup, which draws nothing, and
/// then exactly one draw: of the batch's whole indirect range, from its first
/// command on, with as many commands as the batch has, in every phase.
pub proof fn lemma_batch_draw_covers_batch_range(
    job: WriteJobView,
    batch_index: u32,
    phase_index: u32,
    ssao_available: bool,
)
    requires
        job.plans_batch(batch_index, phase_index),
    ensures
        ({
            let plan = job.draw_batch_plan(batch_index, phase_index, ssao_available);
            let batch = job.batches[batch_index as int];
            &&& plan.len() > 0
            &&& draw_free(plan.drop_last())
            &&& plan.last() == WriteCommand::DrawIndexedIndirect {
                byte_offset: indirect_byte_offset(
                    batch.indirect_buffer_first_command_index as int,
                ) as u32,
                command_count: batch.indirect_buffer_command_count,
            }
        }),
{
    let plan = job.draw_batch_plan(batch_index, phase_index, ssao_available);
    let setup = job.setup_plan(batch_index, phase_index, ssao_available);
    assert(plan.drop_last() =~= setup);
    let binding = per_view_binding_of(phase_index, job.phases).unwrap();
    assert forall|i: int| 0 <= i < setup.len() implies !(
    #[trigger] setup[i] is DrawIndexedIndirect) by {
        if binding.bind_ssao_and_materials && ssao_available {
            assert(setup.len() == 7);
        } else if binding.bind_ssao_and_materials {
            assert(setup.len() == 6);
        } else {
            assert(setup.len() == 5);
        }
    }
}

/// Law: whether a batch can be set up depends on the view's descriptor sets
/// only through the set that the phase's binding names: two views that agree
/// on that set agree on whether the batch can be set up.
pub proof fn lemma_can_setup_reads_only_the_phase_set(
    job: WriteJobView,
    batch_index: u32,
    phase_index: u32,
    view: ViewDescriptorSets,
    other_view: ViewDescriptorSets,
)
    requires
        per_view_binding_of(phase_index, job.phases) is Some,
        view.has(per_view_binding_of(phase_index, job.phases).unwrap().descriptor_set)
            == other_view.has(
            per_view_binding_of(phase_index, job.phases).unwrap().descriptor_set,
        ),
    ensures
        job.can_setup(batch_index, phase_index, view) == job.can_setup(
            batch_index,
            phase_index,
            other_view,
        ),
{
}

/// Law: in the shadow map phase a batch that exists with its descriptor set
/// can be set up in any view that has the shadow map atlas depth set, whatever
/// other sets the view lacks and whether the materials set exists.
pub proof fn lemma_shadow_map_view_can_set_up(
    job: WriteJobView,
    batch_index: u32,
    view: ViewDescriptorSets,
)
    requires
        batch_index < job.batches.len(),
        job.batches[batch_index as int].has_per_batch_descriptor_set,
        view.shadow_map_atlas_depth,
    ensures
        job.can_setup(batch_index, job.phases.shadow_map, view),
{
    assert(per_view_binding_of(job.phases.shadow_map, job.phases).unwrap().descriptor_set
        == PerViewDescriptorSet::ShadowMapAtlasDepth);
}

/// Law: whether a submit node can be rendered depends on the view's
/// descriptor sets only through the set that the phase's binding names; a
/// single draw in the transparent phase binds nothing and needs no set at all.
pub proof fn lemma_can_render_reads_only_the_phase_set(
    job: WriteJobView,
    phase_index: u32,
    draw_call: DrawCall,
    view: ViewDescriptorSets,
    other_view: ViewDescriptorSets,
)
    requires
        phase_index == job.phases.transparent || per_view_binding_of(phase_index, job.phases) is None
            || view.has(per_view_binding_of(phase_index, job.phases).unwrap().descriptor_set)
            == other_view.has(
            per_view_binding_of(phase_index, job.phases).unwrap().descriptor_set,
        ),
    ensures
        job.can_render(phase_index, draw_call, view) == job.can_render(
            phase_index,
            draw_call,
            other_view,
        ),
{
}

/// Law: with distinct phase indices, the setup binds the shadow map atlas
/// depth set in the shadow map phase, the depth set in the depth prepass, and
/// the opaque set in the wireframe, opaque and transparent phases, right after
/// the pipeline.
pub proof fn lemma_per_view_set_of_each_phase(
    job: WriteJobView,
    batch_index: u32,
    ssao_available: bool,
)
    requires
        job.phases.distinct(),
        batch_index < job.batches.len(),
    ensures
        job.setup_plan(batch_index, job.phases.shadow_map, ssao_available)[1]
            == (WriteCommand::BindPerViewDescriptorSet {
            descriptor_set: PerViewDescriptorSet::ShadowMapAtlasDepth,
        }),
        job.setup_plan(batch_index, job.phases.depth_prepass, ssao_available)[1]
            == (WriteCommand::BindPerViewDescriptorSet {
            descriptor_set: PerViewDescriptorSet::Depth,
        }),
        job.setup_plan(batch_index, job.phases.wireframe, ssao_available)[1]
            == (WriteCommand::BindPerViewDescriptorSet {
            descriptor_set: PerViewDescriptorSet::Opaque,
        }),
        job.setup_plan(batch_index, job.phases.opaque, ssao_available)[1]
            == (WriteCommand::BindPerViewDescriptorSet {
            descriptor_set: PerViewDescriptorSet::Opaque,
        }),
        job.setup_plan(batch_index, job.phases.transparent, ssao_available)[1]
            == (WriteCommand::BindPerViewDescriptorSet {
            descriptor_set: PerViewDescriptorSet::Opaque,
        }),
{
}

} // verus!
