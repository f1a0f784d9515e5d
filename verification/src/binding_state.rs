//! What a command buffer has bound after a plan runs, and the laws that tie
//! the write job's plans together: every draw happens with the pipeline,
//! descriptor sets and buffers of its own batch bound.

use vstd::prelude::*;

use crate::commands::{
    indirect_byte_offset, IndexType, PerViewDescriptorSet, VertexLayoutKind, WriteCommand,
};
use crate::phases::{per_view_binding_of, vertex_layout_of};
use crate::write_job::{indirect_draw, DrawCall, WriteJobView};

verus! {

/// What is bound on a command buffer, as far as the mesh write job is
/// concerned.
pub struct BindingState {
    /// The pipeline: the batch whose pass it was created for, and its layout.
    pub pipeline: Option<(u32, VertexLayoutKind)>,
    pub per_view: Option<PerViewDescriptorSet>,
    /// The batch whose descriptor set is bound.
    pub per_batch: Option<u32>,
    pub ssao: bool,
    pub materials: bool,
    pub index_buffer: Option<IndexType>,
    pub vertex_buffers: bool,
}

impl BindingState {
    /// A command buffer on which nothing is bound.
    pub open spec fn unbound() -> BindingState {
        BindingState {
            pipeline: None,
            per_view: None,
            per_batch: None,
            ssao: false,
            materials: false,
            index_buffer: None,
            vertex_buffers: false,
        }
    }

    /// The state after one command.
    pub open spec fn apply(self, command: WriteCommand) -> BindingState {
        match command {
            WriteCommand::BindPipeline { batch_index, vertex_layout } => BindingState {
                pipeline: Some((batch_index, vertex_layout)),
                ..self
            },
            WriteCommand::BindPerViewDescriptorSet { descriptor_set } => BindingState {
                per_view: Some(descriptor_set),
                ..self
            },
            WriteCommand::BindPerBatchDescriptorSet { batch_index } => BindingState {
                per_batch: Some(batch_index),
                ..self
            },
            WriteCommand::BindSsaoDescriptorSet => BindingState { ssao: true, ..self },
            WriteCommand::BindAllMaterialsDescriptorSet => BindingState { materials: true, ..self },
            WriteCommand::BindIndexBuffer { index_type, .. } => BindingState {
                index_buffer: Some(index_type),
                ..self
            },
            WriteCommand::BindVertexBuffers { .. } => BindingState { vertex_buffers: true, ..self },
            WriteCommand::DrawIndexedIndirect { .. } => self,
        }
    }

    /// The state after a plan.
    pub open spec fn run(self, plan: Seq<WriteCommand>) -> BindingState
        decreases plan.len(),
    {
        if plan.len() == 0 {
            self
        } else {
            self.apply(plan[0]).run(plan.drop_first())
        }
    }

    /// Everything that a draw of the batch in the phase reads is bound: the
    /// pipeline of the batch with the phase's vertex layout, the phase's
    /// per-view set, the batch's set, the materials set in material phases,
    /// and the index (of the batch's index type) and vertex buffers.
    pub open spec fn ready_for(self, job: WriteJobView, phase_index: u32, batch_index: u32) -> bool {
        let binding = per_view_binding_of(phase_index, job.phases).unwrap();
        &&& self.pipeline == Some((batch_index, vertex_layout_of(phase_index, job.phases)))
        &&& self.per_view == Some(binding.descriptor_set)
        &&& self.per_batch == Some(batch_index)
        &&& binding.bind_ssao_and_materials ==> self.materials
        &&& self.index_buffer == Some(job.batches[batch_index as int].index_type)
        &&& self.vertex_buffers
    }

    /// Running the plan from this state, each draw finds the state ready for
    /// the batch in the phase.
    pub open spec fn draws_ready(
        self,
        plan: Seq<WriteCommand>,
        job: WriteJobView,
        phase_index: u32,
        batch_index: u32,
    ) -> bool
        decreases plan.len(),
    {
        if plan.len() == 0 {
            true
        } else {
            &&& (plan[0] is DrawIndexedIndirect ==> self.ready_for(job, phase_index, batch_index))
            &&& self.apply(plan[0]).draws_ready(plan.drop_first(), job, phase_index, batch_index)
        }
    }
}

/// The plan holds no draw.
pub open spec fn draw_free(plan: Seq<WriteCommand>) -> bool {
    forall|i: int| 0 <= i < plan.len() ==> !(#[trigger] plan[i] is DrawIndexedIndirect)
}

proof fn lemma_run_concat(s: BindingState, a: Seq<WriteCommand>, b: Seq<WriteCommand>)
    ensures
        s.run(a + b) == s.run(a).run(b),
    decreases a.len(),
{
    if a.len() == 0 {
        assert(a + b =~= b);
    } else {
        assert((a + b).drop_first() =~= a.drop_first() + b);
        assert((a + b)[0] == a[0]);
        lemma_run_concat(s.apply(a[0]), a.drop_first(), b);
    }
}

proof fn lemma_draws_ready_concat(
    s: BindingState,
    a: Seq<WriteCommand>,
    b: Seq<WriteCommand>,
    job: WriteJobView,
    phase_index: u32,
    batch_index: u32,
)
    ensures
        s.draws_ready(a + b, job, phase_index, batch_index) == (s.draws_ready(
            a,
            job,
            phase_index,
            batch_index,
        ) && s.run(a).draws_ready(b, job, phase_index, batch_index)),
    decreases a.len(),
{
    if a.len() == 0 {
        assert(a + b =~= b);
    } else {
        assert((a + b).drop_first() =~= a.drop_first() + b);
        assert((a + b)[0] == a[0]);
        lemma_draws_ready_concat(s.apply(a[0]), a.drop_first(), b, job, phase_index, batch_index);
    }
}

proof fn lemma_draw_free_ready(
    s: BindingState,
    plan: Seq<WriteCommand>,
    job: WriteJobView,
    phase_index: u32,
    batch_index: u32,
)
    requires
        draw_free(plan),
    ensures
        s.draws_ready(plan, job, phase_index, batch_index),
    decreases plan.len(),
{
    if plan.len() > 0 {
        assert(!(plan[0] is DrawIndexedIndirect));
        assert forall|i: int| 0 <= i < plan.drop_first().len() implies !(
        #[trigger] plan.drop_first()[i] is DrawIndexedIndirect) by {
            assert(plan.drop_first()[i] == plan[i + 1]);
        }
        lemma_draw_free_ready(s.apply(plan[0]), plan.drop_first(), job, phase_index, batch_index);
    }
}

/// After the setup of a batch in a phase, from any state, the command buffer
/// is ready for draws of that batch in that phase; the setup itself draws
/// nothing.
proof fn lemma_setup_ready(
    s: BindingState,
    job: WriteJobView,
    batch_index: u32,
    phase_index: u32,
    ssao_available: bool,
)
    requires
        job.plans_batch(batch_index, phase_index),
    ensures
        draw_free(job.setup_plan(batch_index, phase_index, ssao_available)),
        s.run(job.setup_plan(batch_index, phase_index, ssao_available)).ready_for(
            job,
            phase_index,
            batch_index,
        ),
{
    let batch = job.batches[batch_index as int];
    let layout = vertex_layout_of(phase_index, job.phases);
    let binding = per_view_binding_of(phase_index, job.phases).unwrap();
    let head = seq![
        WriteCommand::BindPipeline { batch_index, vertex_layout: layout },
        WriteCommand::BindPerViewDescriptorSet { descriptor_set: binding.descriptor_set },
        WriteCommand::BindPerBatchDescriptorSet { batch_index },
    ];
    let materials = if !binding.bind_ssao_and_materials {
        Seq::<WriteCommand>::empty()
    } else if ssao_available {
        seq![WriteCommand::BindSsaoDescriptorSet, WriteCommand::BindAllMaterialsDescriptorSet]
    } else {
        seq![WriteCommand::BindAllMaterialsDescriptorSet]
    };
    let buffers = seq![
        WriteCommand::BindIndexBuffer { index_type: batch.index_type, byte_offset: 0 },
        WriteCommand::BindVertexBuffers { first_binding: 0, byte_offset: 0 },
    ];
    let plan = job.setup_plan(batch_index, phase_index, ssao_available);
    assert(plan == head + materials + buffers);
    assert forall|i: int| 0 <= i < plan.len() implies !(#[trigger] plan[i] is DrawIndexedIndirect) by {
        if i < head.len() {
            assert(plan[i] == head[i]);
        } else if i < head.len() + materials.len() {
            assert(plan[i] == materials[i - head.len()]);
        } else {
            assert(plan[i] == buffers[i - head.len() - materials.len()]);
        }
    }
    lemma_run_concat(s, head + materials, buffers);
    lemma_run_concat(s, head, materials);
    reveal_with_fuel(BindingState::run, 4);
    let s1 = s.run(head);
    assert(s1.pipeline == Some((batch_index, layout)));
    assert(s1.per_view == Some(binding.descriptor_set));
    assert(s1.per_batch == Some(batch_index));
    let s2 = s1.run(materials);
    assert(s2.pipeline == s1.pipeline && s2.per_view == s1.per_view && s2.per_batch == s1.per_batch);
    assert(binding.bind_ssao_and_materials ==> s2.materials);
    let s3 = s2.run(buffers);
    assert(s3.materials == s2.materials);
    assert(s3.ready_for(job, phase_index, batch_index));
}

/// Law: a whole batch draws only once everything it reads is bound for it,
/// whatever was bound before: the plan for a batched submit node is
/// self-contained.
pub proof fn lemma_batched_node_self_contained(
    job: WriteJobView,
    phase_index: u32,
    batch_index: u32,
    ssao_available: bool,
    s: BindingState,
)
    requires
        phase_index != job.phases.transparent,
        job.plans_batch(batch_index, phase_index),
    ensures
        s.draws_ready(
            job.render_plan(phase_index, DrawCall::Batched { batch_index }, ssao_available),
            job,
            phase_index,
            batch_index,
        ),
{
    let setup = job.setup_plan(batch_index, phase_index, ssao_available);
    let batch = job.batches[batch_index as int];
    let draw = seq![
        indirect_draw(
            batch.indirect_buffer_first_command_index as int,
            batch.indirect_buffer_command_count,
        ),
    ];
    assert(job.render_plan(phase_index, DrawCall::Batched { batch_index }, ssao_available)
        =~= setup + draw);
    lemma_setup_ready(s, job, batch_index, phase_index, ssao_available);
    lemma_draw_free_ready(s, setup, job, phase_index, batch_index);
    lemma_draws_ready_concat(s, setup, draw, job, phase_index, batch_index);
    reveal_with_fuel(BindingState::draws_ready, 2);
}

/// Law: in the transparent phase, once a batch of submit nodes has begun with
/// a batch's sort key, the single draw of a node of that batch directly
/// follows the binds of the batch's setup, with no command in between, and
/// finds everything it reads bound for that batch, whatever was bound before
/// the batch began.
pub proof fn lemma_transparent_node_after_begin(
    job: WriteJobView,
    sort_key: u32,
    draw_data_index: u32,
    ssao_available: bool,
    s: BindingState,
)
    requires
        sort_key < job.batches.len(),
    ensures
        job.begin_plan(job.phases.transparent, sort_key, ssao_available) + job.render_plan(
            job.phases.transparent,
            DrawCall::Unbatched { batch_index: sort_key, draw_data_index },
            ssao_available,
        ) == job.setup_plan(sort_key, job.phases.transparent, ssao_available).push(
            indirect_draw(job.single_command_index(sort_key, draw_data_index), 1),
        ),
        s.draws_ready(
            job.begin_plan(job.phases.transparent, sort_key, ssao_available) + job.render_plan(
                job.phases.transparent,
                DrawCall::Unbatched { batch_index: sort_key, draw_data_index },
                ssao_available,
            ),
            job,
            job.phases.transparent,
            sort_key,
        ),
{
    let phase_index = job.phases.transparent;
    let begin = job.begin_plan(phase_index, sort_key, ssao_available);
    let render = job.render_plan(
        phase_index,
        DrawCall::Unbatched { batch_index: sort_key, draw_data_index },
        ssao_available,
    );
    assert(per_view_binding_of(phase_index, job.phases) is Some);
    assert(begin + render =~= job.setup_plan(sort_key, phase_index, ssao_available).push(
        indirect_draw(job.single_command_index(sort_key, draw_data_index), 1),
    ));
    lemma_setup_ready(s, job, sort_key, phase_index, ssao_available);
    lemma_draw_free_ready(s, begin, job, phase_index, sort_key);
    lemma_draws_ready_concat(s, begin, render, job, phase_index, sort_key);
    reveal_with_fuel(BindingState::draws_ready, 2);
}

/// Law: a single draw binds nothing, so the state that a begun batch of
/// submit nodes left stays in place for every further single draw.
pub proof fn lemma_single_draw_binds_nothing(
    job: WriteJobView,
    batch_index: u32,
    draw_data_index: u32,
    ssao_available: bool,
    s: BindingState,
)
    ensures
        s.run(
            job.render_plan(
                job.phases.transparent,
                DrawCall::Unbatched { batch_index, draw_data_index },
                ssao_available,
            ),
        ) == s,
{
    reveal_with_fuel(BindingState::run, 2);
}

/// Law: with distinct phase indices, a batch's pipeline has the full vertex
/// layout exactly when the setup binds the materials set.
pub proof fn lemma_full_layout_iff_materials(
    job: WriteJobView,
    batch_index: u32,
    phase_index: u32,
    ssao_available: bool,
)
    requires
        job.phases.distinct(),
        job.plans_batch(batch_index, phase_index),
    ensures
        (vertex_layout_of(phase_index, job.phases) == VertexLayoutKind::Full) <==> job.setup_plan(
            batch_index,
            phase_index,
            ssao_available,
        ).contains(WriteCommand::BindAllMaterialsDescriptorSet),
{
    let plan = job.setup_plan(batch_index, phase_index, ssao_available);
    let binding = per_view_binding_of(phase_index, job.phases).unwrap();
    if binding.bind_ssao_and_materials {
        let k: int = if ssao_available { 4 } else { 3 };
        assert(plan[k] == WriteCommand::BindAllMaterialsDescriptorSet);
    } else {
        assert(plan.len() == 5);
        assert forall|i: int| 0 <= i < plan.len() implies plan[i]
            != WriteCommand::BindAllMaterialsDescriptorSet by {}
    }
}

/// Law: a single draw of a mesh whose draw data index lies within its batch
/// draws one command of the range that drawing the whole batch covers.
pub proof fn lemma_single_draw_within_batch(
    job: WriteJobView,
    batch_index: u32,
    draw_data_index: u32,
)
    requires
        job.can_draw_single(batch_index, draw_data_index),
        draw_data_index < job.batches[batch_index as int].indirect_buffer_command_count,
    ensures
        ({
            let batch = job.batches[batch_index as int];
            let index = job.single_command_index(batch_index, draw_data_index);
            &&& batch.indirect_buffer_first_command_index <= index
            &&& index < batch.indirect_buffer_first_command_index
                + batch.indirect_buffer_command_count
            &&& job.draw_single_plan(batch_index, draw_data_index) == seq![
                WriteCommand::DrawIndexedIndirect {
                    byte_offset: indirect_byte_offset(index) as u32,
                    command_count: 1,
                },
            ]
        }),
{
}

/// Law: the single draws of a batch's meshes, one for each draw data index
/// below the batch's command count, draw exactly the commands of the range
/// that drawing the whole batch covers: each lies in it, and each command of
/// it is drawn by one of them.
pub proof fn lemma_single_draws_cover_batch(job: WriteJobView, batch_index: u32)
    requires
        batch_index < job.batches.len(),
    ensures
        ({
            let batch = job.batches[batch_index as int];
            let first = batch.indirect_buffer_first_command_index as int;
            let count = batch.indirect_buffer_command_count as int;
            &&& forall|k: u32|
                k < count ==> first <= #[trigger] job.single_command_index(batch_index, k) < first
                    + count
            &&& Set::new(
                |j: int|
                    exists|k: u32|
                        k < count && #[trigger] job.single_command_index(batch_index, k) == j,
            ) == Set::new(|j: int| first <= j < first + count)
        }),
{
    let batch = job.batches[batch_index as int];
    let first = batch.indirect_buffer_first_command_index as int;
    let count = batch.indirect_buffer_command_count as int;
    let drawn = Set::new(
        |j: int| exists|k: u32| k < count && #[trigger] job.single_command_index(batch_index, k) == j,
    );
    let range = Set::new(|j: int| first <= j < first + count);
    assert forall|j: int| range.contains(j) implies drawn.contains(j) by {
        let k: u32 = (j - first) as u32;
        assert(job.single_command_index(batch_index, k) == j);
    }
    assert(drawn =~= range);
}

} // verus!
