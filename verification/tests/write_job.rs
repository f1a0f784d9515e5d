use mesh_adv_write::commands::{
    indirect_command_byte_offset, indirect_command_stride, IndexType, PerViewDescriptorSet,
    VertexLayoutKind, WriteCommand,
};
use mesh_adv_write::phases::{MeshAdvPhaseIndices, PerViewBinding, ViewDescriptorSets};
use mesh_adv_write::write_job::{BatchInfo, DrawCall, MeshAdvWriteJob};

const SHADOW: u32 = 10;
const DEPTH: u32 = 11;
const WIREFRAME: u32 = 12;
const OPAQUE: u32 = 13;
const TRANSPARENT: u32 = 14;
const UNKNOWN: u32 = 15;

fn phases() -> MeshAdvPhaseIndices {
    MeshAdvPhaseIndices {
        shadow_map: SHADOW,
        depth_prepass: DEPTH,
        wireframe: WIREFRAME,
        opaque: OPAQUE,
        transparent: TRANSPARENT,
    }
}

fn batches() -> Vec<BatchInfo> {
    vec![
        BatchInfo {
            has_per_batch_descriptor_set: true,
            index_type: IndexType::Uint32,
            indirect_buffer_first_command_index: 0,
            indirect_buffer_command_count: 4,
        },
        BatchInfo {
            has_per_batch_descriptor_set: true,
            index_type: IndexType::Uint16,
            indirect_buffer_first_command_index: 4,
            indirect_buffer_command_count: 3,
        },
    ]
}

fn job() -> MeshAdvWriteJob {
    MeshAdvWriteJob::new(phases(), 6, batches(), true)
}

const ALL_SETS: ViewDescriptorSets =
    ViewDescriptorSets { shadow_map_atlas_depth: true, depth: true, opaque: true };

fn tail(index_type: IndexType) -> Vec<WriteCommand> {
    vec![
        WriteCommand::BindIndexBuffer { index_type, byte_offset: 0 },
        WriteCommand::BindVertexBuffers { first_binding: 0, byte_offset: 0 },
    ]
}

/// What is bound on a command buffer, tracked while replaying a plan.
#[derive(Default, Clone, Debug, PartialEq)]
struct Bound {
    pipeline: Option<(u32, VertexLayoutKind)>,
    per_view: Option<PerViewDescriptorSet>,
    per_batch: Option<u32>,
    materials: bool,
    index_buffer: Option<IndexType>,
    vertex_buffers: bool,
}

impl Bound {
    fn apply(&mut self, command: &WriteCommand) {
        match *command {
            WriteCommand::BindPipeline { batch_index, vertex_layout } => {
                self.pipeline = Some((batch_index, vertex_layout))
            }
            WriteCommand::BindPerViewDescriptorSet { descriptor_set } => {
                self.per_view = Some(descriptor_set)
            }
            WriteCommand::BindPerBatchDescriptorSet { batch_index } => {
                self.per_batch = Some(batch_index)
            }
            WriteCommand::BindSsaoDescriptorSet => {}
            WriteCommand::BindAllMaterialsDescriptorSet => self.materials = true,
            WriteCommand::BindIndexBuffer { index_type, .. } => {
                self.index_buffer = Some(index_type)
            }
            WriteCommand::BindVertexBuffers { .. } => self.vertex_buffers = true,
            WriteCommand::DrawIndexedIndirect { .. } => {}
        }
    }

    /// Replays the plan; at each draw, checks that everything the draw of the
    /// batch reads is bound for it.
    fn replay_ready(&mut self, plan: &[WriteCommand], batch_index: u32, layout: VertexLayoutKind) -> usize {
        let mut draws = 0;
        for command in plan {
            if let WriteCommand::DrawIndexedIndirect { .. } = command {
                assert_eq!(self.pipeline, Some((batch_index, layout)));
                assert!(self.per_view.is_some());
                assert_eq!(self.per_batch, Some(batch_index));
                assert_eq!(
                    self.index_buffer,
                    Some(batches()[batch_index as usize].index_type)
                );
                assert!(self.vertex_buffers);
                draws += 1;
            }
            self.apply(command);
        }
        draws
    }
}

#[test]
fn indirect_stride_is_the_size_of_an_indexed_indirect_command() {
    assert_eq!(indirect_command_stride(), 20);
    assert_eq!(indirect_command_byte_offset(0), 0);
    assert_eq!(indirect_command_byte_offset(7), 140);
}

#[test]
fn vertex_layout_is_full_only_in_material_phases() {
    let job = job();
    assert_eq!(job.vertex_layout_for_phase_index(OPAQUE), VertexLayoutKind::Full);
    assert_eq!(job.vertex_layout_for_phase_index(TRANSPARENT), VertexLayoutKind::Full);
    assert_eq!(job.vertex_layout_for_phase_index(SHADOW), VertexLayoutKind::Position);
    assert_eq!(job.vertex_layout_for_phase_index(DEPTH), VertexLayoutKind::Position);
    assert_eq!(job.vertex_layout_for_phase_index(WIREFRAME), VertexLayoutKind::Position);
    assert_eq!(job.vertex_layout_for_phase_index(UNKNOWN), VertexLayoutKind::Position);
}

#[test]
fn per_view_binding_of_each_phase() {
    let job = job();
    assert_eq!(
        job.per_view_binding_for_phase(SHADOW),
        Some(PerViewBinding {
            descriptor_set: PerViewDescriptorSet::ShadowMapAtlasDepth,
            bind_ssao_and_materials: false,
        })
    );
    assert_eq!(
        job.per_view_binding_for_phase(DEPTH),
        Some(PerViewBinding {
            descriptor_set: PerViewDescriptorSet::Depth,
            bind_ssao_and_materials: false,
        })
    );
    assert_eq!(
        job.per_view_binding_for_phase(WIREFRAME),
        Some(PerViewBinding {
            descriptor_set: PerViewDescriptorSet::Opaque,
            bind_ssao_and_materials: false,
        })
    );
    for phase in [OPAQUE, TRANSPARENT] {
        assert_eq!(
            job.per_view_binding_for_phase(phase),
            Some(PerViewBinding {
                descriptor_set: PerViewDescriptorSet::Opaque,
                bind_ssao_and_materials: true,
            })
        );
    }
    assert_eq!(job.per_view_binding_for_phase(UNKNOWN), None);
}

#[test]
fn shared_phase_index_takes_the_first_match() {
    let phases = MeshAdvPhaseIndices {
        shadow_map: OPAQUE,
        depth_prepass: DEPTH,
        wireframe: WIREFRAME,
        opaque: OPAQUE,
        transparent: TRANSPARENT,
    };
    let job = MeshAdvWriteJob::new(phases, 0, batches(), true);
    assert_eq!(
        job.per_view_binding_for_phase(OPAQUE),
        Some(PerViewBinding {
            descriptor_set: PerViewDescriptorSet::ShadowMapAtlasDepth,
            bind_ssao_and_materials: false,
        })
    );
    assert_eq!(job.vertex_layout_for_phase_index(OPAQUE), VertexLayoutKind::Full);
}

#[test]
fn setup_for_batch_in_shadow_map_phase() {
    let mut expected = vec![
        WriteCommand::BindPipeline { batch_index: 1, vertex_layout: VertexLayoutKind::Position },
        WriteCommand::BindPerViewDescriptorSet {
            descriptor_set: PerViewDescriptorSet::ShadowMapAtlasDepth,
        },
        WriteCommand::BindPerBatchDescriptorSet { batch_index: 1 },
    ];
    expected.extend(tail(IndexType::Uint16));
    assert_eq!(job().setup_for_batch(1, SHADOW, ALL_SETS, true), expected);
}

#[test]
fn setup_for_batch_in_depth_and_wireframe_phases() {
    let job = job();
    let mut depth = vec![
        WriteCommand::BindPipeline { batch_index: 0, vertex_layout: VertexLayoutKind::Position },
        WriteCommand::BindPerViewDescriptorSet { descriptor_set: PerViewDescriptorSet::Depth },
        WriteCommand::BindPerBatchDescriptorSet { batch_index: 0 },
    ];
    depth.extend(tail(IndexType::Uint32));
    assert_eq!(job.setup_for_batch(0, DEPTH, ALL_SETS, true), depth);

    let mut wireframe = vec![
        WriteCommand::BindPipeline { batch_index: 0, vertex_layout: VertexLayoutKind::Position },
        WriteCommand::BindPerViewDescriptorSet { descriptor_set: PerViewDescriptorSet::Opaque },
        WriteCommand::BindPerBatchDescriptorSet { batch_index: 0 },
    ];
    wireframe.extend(tail(IndexType::Uint32));
    assert_eq!(job.setup_for_batch(0, WIREFRAME, ALL_SETS, false), wireframe);
}

#[test]
fn setup_for_batch_in_opaque_phase_binds_ssao_when_available() {
    let job = job();
    let head = vec![
        WriteCommand::BindPipeline { batch_index: 0, vertex_layout: VertexLayoutKind::Full },
        WriteCommand::BindPerViewDescriptorSet { descriptor_set: PerViewDescriptorSet::Opaque },
        WriteCommand::BindPerBatchDescriptorSet { batch_index: 0 },
    ];
    let mut with_ssao = head.clone();
    with_ssao.push(WriteCommand::BindSsaoDescriptorSet);
    with_ssao.push(WriteCommand::BindAllMaterialsDescriptorSet);
    with_ssao.extend(tail(IndexType::Uint32));
    assert_eq!(job.setup_for_batch(0, OPAQUE, ALL_SETS, true), with_ssao);

    let mut without_ssao = head.clone();
    without_ssao.push(WriteCommand::BindAllMaterialsDescriptorSet);
    without_ssao.extend(tail(IndexType::Uint32));
    assert_eq!(job.setup_for_batch(0, OPAQUE, ALL_SETS, false), without_ssao);
}

#[test]
fn draw_batch_draws_the_whole_indirect_range() {
    let job = job();
    let plan = job.draw_batch(OPAQUE, DrawCall::Batched { batch_index: 1 }, ALL_SETS, false);
    let mut expected = job.setup_for_batch(1, OPAQUE, ALL_SETS, false);
    expected.push(WriteCommand::DrawIndexedIndirect { byte_offset: 80, command_count: 3 });
    assert_eq!(plan, expected);
}

#[test]
fn draw_single_render_node_draws_one_command() {
    let job = job();
    let plan = job.draw_single_render_node(DrawCall::Unbatched { batch_index: 1, draw_data_index: 2 });
    assert_eq!(plan, vec![WriteCommand::DrawIndexedIndirect { byte_offset: 120, command_count: 1 }]);
}

#[test]
fn begin_submit_node_batch_sets_up_only_transparent_batches() {
    let job = job();
    assert_eq!(
        job.begin_submit_node_batch(TRANSPARENT, 1, ALL_SETS, true),
        job.setup_for_batch(1, TRANSPARENT, ALL_SETS, true)
    );
    assert!(job.begin_submit_node_batch(OPAQUE, 1, ALL_SETS, true).is_empty());
    assert!(job.begin_submit_node_batch(SHADOW, 99, ALL_SETS, false).is_empty());
}

#[test]
fn render_submit_node_draws_batches_outside_the_transparent_phase() {
    let job = job();
    for phase in [SHADOW, DEPTH, WIREFRAME, OPAQUE] {
        let call = DrawCall::Batched { batch_index: 0 };
        assert_eq!(job.render_submit_node(phase, call, ALL_SETS, true), job.draw_batch(phase, call, ALL_SETS, true));
    }
    let call = DrawCall::Unbatched { batch_index: 0, draw_data_index: 3 };
    assert_eq!(
        job.render_submit_node(TRANSPARENT, call, ALL_SETS, true),
        vec![WriteCommand::DrawIndexedIndirect { byte_offset: 60, command_count: 1 }]
    );
}

#[test]
fn can_begin_and_can_render_name_the_inputs_that_would_fail() {
    let job = job();
    assert!(job.can_begin_submit_node_batch(TRANSPARENT, 1, ALL_SETS));
    assert!(!job.can_begin_submit_node_batch(TRANSPARENT, 2, ALL_SETS));
    assert!(job.can_begin_submit_node_batch(OPAQUE, 2, ALL_SETS));

    assert!(job.can_render_submit_node(OPAQUE, DrawCall::Batched { batch_index: 1 }, ALL_SETS));
    assert!(!job.can_render_submit_node(OPAQUE, DrawCall::Batched { batch_index: 2 }, ALL_SETS));
    assert!(!job.can_render_submit_node(UNKNOWN, DrawCall::Batched { batch_index: 0 }, ALL_SETS));
    assert!(!job.can_render_submit_node(OPAQUE, DrawCall::Unbatched { batch_index: 0, draw_data_index: 0 }, ALL_SETS));
    assert!(job.can_render_submit_node(TRANSPARENT, DrawCall::Unbatched { batch_index: 1, draw_data_index: 2 }, ALL_SETS));
    assert!(!job.can_render_submit_node(TRANSPARENT, DrawCall::Batched { batch_index: 0 }, ALL_SETS));
    assert!(!job.can_render_submit_node(TRANSPARENT, DrawCall::Unbatched { batch_index: 5, draw_data_index: 0 }, ALL_SETS));
}

#[test]
fn can_render_rejects_overflowing_indirect_offsets() {
    let batches = vec![
        BatchInfo {
            has_per_batch_descriptor_set: true,
            index_type: IndexType::Uint32,
            indirect_buffer_first_command_index: u32::MAX / 20 + 1,
            indirect_buffer_command_count: 1,
        },
        BatchInfo {
            has_per_batch_descriptor_set: true,
            index_type: IndexType::Uint32,
            indirect_buffer_first_command_index: u32::MAX,
            indirect_buffer_command_count: 1,
        },
        BatchInfo {
            has_per_batch_descriptor_set: true,
            index_type: IndexType::Uint32,
            indirect_buffer_first_command_index: u32::MAX / 20,
            indirect_buffer_command_count: 2,
        },
    ];
    let job = MeshAdvWriteJob::new(phases(), 0, batches, true);
    assert!(!job.can_render_submit_node(OPAQUE, DrawCall::Batched { batch_index: 0 }, ALL_SETS));
    assert!(!job.can_render_submit_node(TRANSPARENT, DrawCall::Unbatched { batch_index: 1, draw_data_index: 1 }, ALL_SETS));
    assert!(job.can_render_submit_node(OPAQUE, DrawCall::Batched { batch_index: 2 }, ALL_SETS));
    assert!(!job.can_render_submit_node(TRANSPARENT, DrawCall::Unbatched { batch_index: 2, draw_data_index: 1 }, ALL_SETS));
}

#[test]
fn feature_index_and_batch_count() {
    let job = job();
    assert_eq!(job.feature_index(), 6);
    assert_eq!(job.batch_count(), 2);
}

#[test]
fn batched_node_is_self_contained() {
    let job = job();
    for phase in [SHADOW, DEPTH, WIREFRAME, OPAQUE] {
        let plan = job.render_submit_node(phase, DrawCall::Batched { batch_index: 1 }, ALL_SETS, true);
        let layout = job.vertex_layout_for_phase_index(phase);
        let mut bound = Bound::default();
        bound.pipeline = Some((0, VertexLayoutKind::Full));
        bound.per_batch = Some(0);
        assert_eq!(bound.replay_ready(&plan, 1, layout), 1);
    }
}

#[test]
fn transparent_node_is_ready_after_begin() {
    let job = job();
    let mut bound = Bound::default();
    let begin = job.begin_submit_node_batch(TRANSPARENT, 1, ALL_SETS, false);
    assert_eq!(bound.replay_ready(&begin, 1, VertexLayoutKind::Full), 0);
    assert!(bound.materials);
    for draw_data_index in 0..3 {
        let before = bound.clone();
        let plan = job.render_submit_node(TRANSPARENT, DrawCall::Unbatched { batch_index: 1, draw_data_index }, ALL_SETS, false);
        assert_eq!(bound.replay_ready(&plan, 1, VertexLayoutKind::Full), 1);
        assert_eq!(bound, before);
    }
}

#[test]
fn full_layout_exactly_when_materials_are_bound() {
    let job = job();
    for phase in [SHADOW, DEPTH, WIREFRAME, OPAQUE, TRANSPARENT] {
        for ssao in [false, true] {
            let plan = job.setup_for_batch(0, phase, ALL_SETS, ssao);
            let materials = plan.contains(&WriteCommand::BindAllMaterialsDescriptorSet);
            assert_eq!(
                job.vertex_layout_for_phase_index(phase) == VertexLayoutKind::Full,
                materials
            );
        }
    }
}

#[test]
fn single_draw_lies_within_its_batch() {
    let job = job();
    let batch = batches()[1];
    for draw_data_index in 0..batch.indirect_buffer_command_count {
        let plan = job.draw_single_render_node(DrawCall::Unbatched { batch_index: 1, draw_data_index });
        match plan[0] {
            WriteCommand::DrawIndexedIndirect { byte_offset, command_count } => {
                assert_eq!(command_count, 1);
                assert!(byte_offset >= batch.indirect_buffer_first_command_index * 20);
                assert!(
                    byte_offset
                        < (batch.indirect_buffer_first_command_index
                            + batch.indirect_buffer_command_count)
                            * 20
                );
            }
            _ => panic!("expected a draw"),
        }
    }
}

#[test]
fn missing_descriptor_sets_block_setup() {
    let job = job();
    let no_opaque = ViewDescriptorSets { shadow_map_atlas_depth: true, depth: true, opaque: false };
    let no_shadow = ViewDescriptorSets { shadow_map_atlas_depth: false, depth: true, opaque: true };
    let no_depth = ViewDescriptorSets { shadow_map_atlas_depth: true, depth: false, opaque: true };

    assert!(job.can_setup_batch(0, OPAQUE, ALL_SETS));
    assert!(!job.can_setup_batch(0, OPAQUE, no_opaque));
    assert!(!job.can_setup_batch(0, WIREFRAME, no_opaque));
    assert!(job.can_setup_batch(0, WIREFRAME, no_shadow));
    assert!(!job.can_setup_batch(0, SHADOW, no_shadow));
    assert!(!job.can_setup_batch(0, DEPTH, no_depth));
    assert!(job.can_setup_batch(0, SHADOW, no_depth));
    assert!(!job.can_setup_batch(2, SHADOW, ALL_SETS));
    assert!(!job.can_setup_batch(0, UNKNOWN, ALL_SETS));

    assert!(!job.can_begin_submit_node_batch(TRANSPARENT, 0, no_opaque));
    assert!(job.can_begin_submit_node_batch(OPAQUE, 0, no_opaque));
    assert!(!job.can_render_submit_node(DEPTH, DrawCall::Batched { batch_index: 0 }, no_depth));
    // A single transparent draw binds nothing, so it needs no descriptor set.
    assert!(job.can_render_submit_node(
        TRANSPARENT,
        DrawCall::Unbatched { batch_index: 0, draw_data_index: 1 },
        no_opaque
    ));
}

#[test]
fn missing_per_batch_or_materials_set_blocks_setup() {
    let mut batches = batches();
    batches[1].has_per_batch_descriptor_set = false;
    let job = MeshAdvWriteJob::new(phases(), 0, batches, false);
    assert!(!job.can_setup_batch(1, SHADOW, ALL_SETS));
    assert!(job.can_setup_batch(0, SHADOW, ALL_SETS));
    assert!(job.can_setup_batch(0, WIREFRAME, ALL_SETS));
    assert!(!job.can_setup_batch(0, OPAQUE, ALL_SETS));
    assert!(!job.can_setup_batch(0, TRANSPARENT, ALL_SETS));
    assert!(!job.can_render_submit_node(OPAQUE, DrawCall::Batched { batch_index: 0 }, ALL_SETS));
    assert!(job.can_render_submit_node(DEPTH, DrawCall::Batched { batch_index: 0 }, ALL_SETS));
    assert!(!job.can_render_submit_node(DEPTH, DrawCall::Batched { batch_index: 1 }, ALL_SETS));
}

#[test]
fn single_draws_cover_the_batch_range() {
    let job = job();
    let batch = batches()[1];
    let whole = job.draw_batch(OPAQUE, DrawCall::Batched { batch_index: 1 }, ALL_SETS, false);
    let (start, count) = match *whole.last().unwrap() {
        WriteCommand::DrawIndexedIndirect { byte_offset, command_count } => (byte_offset, command_count),
        _ => panic!("expected a draw"),
    };
    let mut offsets = Vec::new();
    for draw_data_index in 0..batch.indirect_buffer_command_count {
        match job.draw_single_render_node(DrawCall::Unbatched { batch_index: 1, draw_data_index })[0] {
            WriteCommand::DrawIndexedIndirect { byte_offset, .. } => offsets.push(byte_offset),
            _ => panic!("expected a draw"),
        }
    }
    let expected: Vec<u32> = (0..count).map(|k| start + k * indirect_command_stride()).collect();
    assert_eq!(offsets, expected);
}

#[test]
fn begin_then_render_is_setup_then_draw() {
    let job = job();
    let mut plan = job.begin_submit_node_batch(TRANSPARENT, 1, ALL_SETS, true);
    plan.extend(job.render_submit_node(
        TRANSPARENT,
        DrawCall::Unbatched { batch_index: 1, draw_data_index: 2 },
        ALL_SETS,
        true,
    ));
    let mut expected = job.setup_for_batch(1, TRANSPARENT, ALL_SETS, true);
    expected.push(WriteCommand::DrawIndexedIndirect { byte_offset: 120, command_count: 1 });
    assert_eq!(plan, expected);
}
