//! Recorded render commands.
//!
//! Within one frame a render pass records a plain sequence of commands;
//! the device replays them in order.  The recorder checks, against the
//! current pipeline's declared slot list, that every resource group is
//! bound to the slot whose layout it satisfies — binding to any other slot
//! is a programming error, refused here rather than silently mis-rendered.
//! The module also defines which pipeline each recorded command belongs
//! to, and proves that a frame recorded light-pass-first keeps every
//! light/debug command ahead of every main-pass command.

use vstd::prelude::*;

use crate::bindings::{BindGroup, LayoutKind};
use crate::pipeline::{pass_slots, PassKind, PipelineDesc};

verus! {

/// Identifies one of the renderer's device buffers inside a recorded
/// command.
#[derive(Clone, Copy, PartialEq, Eq, Structural, Debug)]
pub enum BufferId {
    /// The triangle's vertex buffer.
    TriangleVertex,
    /// The triangle's index buffer.
    TriangleIndex,
    /// The baked per-instance transform buffer.
    InstanceBuffer,
    /// The vertex buffer of one mesh of the scene model.
    SceneMeshVertex { mesh: usize },
    /// The index buffer of one mesh of the scene model.
    SceneMeshIndex { mesh: usize },
    /// The vertex buffer of one mesh of the light's marker model.
    LightMeshVertex { mesh: usize },
    /// The index buffer of one mesh of the light's marker model.
    LightMeshIndex { mesh: usize },
}

/// The width of the indices in an index buffer.
#[derive(Clone, Copy, PartialEq, Eq, Structural, Debug)]
pub enum IndexFormatKind {
    Uint16,
    Uint32,
}

/// One recorded command.
#[derive(Clone, Copy, PartialEq, Eq, Structural, Debug)]
pub enum RenderCommand {
    SetPipeline { pass: PassKind },
    SetBindGroup { slot: u32, group: LayoutKind },
    SetVertexBuffer { slot: u32, buffer: BufferId },
    SetIndexBuffer { buffer: BufferId, format: IndexFormatKind },
    DrawIndexed { index_count: u32, base_vertex: i32, first_instance: u32, instance_count: u32 },
}

/// Whether a command switches pipelines.
pub open spec fn is_set_pipeline(c: RenderCommand) -> bool {
    c matches RenderCommand::SetPipeline { .. }
}

/// The pass whose pipeline is in effect after `cmds` have been recorded.
pub open spec fn current_pass(cmds: Seq<RenderCommand>) -> Option<PassKind>
    decreases cmds.len(),
{
    if cmds.len() == 0 {
        None
    } else {
        match cmds.last() {
            RenderCommand::SetPipeline { pass } => Some(pass),
            _ => current_pass(cmds.drop_last()),
        }
    }
}

/// The pass command `i` belongs to: the pipeline in effect when it runs.
pub open spec fn command_pass(cmds: Seq<RenderCommand>, i: int) -> Option<PassKind> {
    current_pass(cmds.take(i + 1))
}

/// The draw-order discipline of a frame: the main pipeline is never set
/// before a light/debug pipeline switch that follows it.
pub open spec fn light_before_main(cmds: Seq<RenderCommand>) -> bool {
    forall|a: int, b: int|
        0 <= a <= b < cmds.len() ==> !(#[trigger] cmds[a] == (RenderCommand::SetPipeline {
            pass: PassKind::Main,
        }) && #[trigger] cmds[b] == (RenderCommand::SetPipeline { pass: PassKind::LightDebug }))
}

/// No switch to the main pipeline has been recorded yet.
pub open spec fn no_main_pipeline(cmds: Seq<RenderCommand>) -> bool {
    forall|a: int|
        0 <= a < cmds.len() ==> #[trigger] cmds[a] != (RenderCommand::SetPipeline {
            pass: PassKind::Main,
        })
}

/// While no main switch is recorded, any command keeps the discipline.
pub proof fn lemma_order_push_before_main(cmds: Seq<RenderCommand>, c: RenderCommand)
    requires
        no_main_pipeline(cmds),
    ensures
        light_before_main(cmds.push(c)),
        c != (RenderCommand::SetPipeline { pass: PassKind::Main }) ==> no_main_pipeline(
            cmds.push(c),
        ),
{
    assert forall|a: int, b: int| 0 <= a <= b < cmds.push(c).len() implies !(#[trigger] cmds.push(
        c,
    )[a] == (RenderCommand::SetPipeline { pass: PassKind::Main }) && #[trigger] cmds.push(c)[b]
        == (RenderCommand::SetPipeline { pass: PassKind::LightDebug })) by {
        if a < cmds.len() {
            assert(cmds.push(c)[a] == cmds[a]);
        }
    }
}

/// After the main pipeline is in place, any command that is not a switch
/// to the light/debug pipeline keeps the discipline.
pub proof fn lemma_order_push_after_main(cmds: Seq<RenderCommand>, c: RenderCommand)
    requires
        light_before_main(cmds),
        c != (RenderCommand::SetPipeline { pass: PassKind::LightDebug }),
    ensures
        light_before_main(cmds.push(c)),
{
    assert forall|a: int, b: int| 0 <= a <= b < cmds.push(c).len() implies !(#[trigger] cmds.push(
        c,
    )[a] == (RenderCommand::SetPipeline { pass: PassKind::Main }) && #[trigger] cmds.push(c)[b]
        == (RenderCommand::SetPipeline { pass: PassKind::LightDebug })) by {
        if b < cmds.len() {
            assert(cmds.push(c)[a] == cmds[a]);
            assert(cmds.push(c)[b] == cmds[b]);
        } else {
            assert(cmds.push(c)[b] == c);
        }
    }
}

/// Recording one more command only changes the pipeline in effect when
/// that command is itself a switch.
pub proof fn lemma_current_pass_push(cmds: Seq<RenderCommand>, c: RenderCommand)
    ensures
        current_pass(cmds.push(c)) == (match c {
            RenderCommand::SetPipeline { pass } => Some(pass),
            _ => current_pass(cmds),
        }),
{
    assert(cmds.push(c).drop_last() =~= cmds);
    assert(cmds.push(c).last() == c);
}

/// A sequence with a pipeline in effect holds the switch that set it, with
/// no later switch.
proof fn lemma_current_pass_witness(cmds: Seq<RenderCommand>, p: PassKind)
    requires
        current_pass(cmds) == Some(p),
    ensures
        exists|l: int|
            {
                &&& 0 <= l < cmds.len()
                &&& #[trigger] cmds[l] == (RenderCommand::SetPipeline { pass: p })
                &&& forall|m: int| l < m < cmds.len() ==> !is_set_pipeline(#[trigger] cmds[m])
            },
    decreases cmds.len(),
{
    if cmds.last() matches RenderCommand::SetPipeline { pass } {
        let l = cmds.len() - 1;
        assert(cmds[l] == (RenderCommand::SetPipeline { pass: p }));
    } else {
        lemma_current_pass_witness(cmds.drop_last(), p);
        let l = choose|l: int|
            {
                &&& 0 <= l < cmds.drop_last().len()
                &&& #[trigger] cmds.drop_last()[l] == (RenderCommand::SetPipeline { pass: p })
                &&& forall|m: int|
                    l < m < cmds.drop_last().len() ==> !is_set_pipeline(
                        #[trigger] cmds.drop_last()[m],
                    )
            };
        assert(cmds[l] == (RenderCommand::SetPipeline { pass: p }));
        assert forall|m: int| l < m < cmds.len() implies !is_set_pipeline(#[trigger] cmds[m]) by {
            if m < cmds.len() - 1 {
                assert(cmds.drop_last()[m] == cmds[m]);
            } else {
                assert(cmds[m] == cmds.last());
            }
        }
    }
}

/// The draw-order invariant: under the discipline, every command that
/// belongs to the light/debug pipeline precedes every command that
/// belongs to the main pipeline.
pub proof fn lemma_light_commands_precede_main(cmds: Seq<RenderCommand>, i: int, j: int)
    requires
        light_before_main(cmds),
        0 <= i < cmds.len(),
        0 <= j < cmds.len(),
        command_pass(cmds, i) == Some(PassKind::LightDebug),
        command_pass(cmds, j) == Some(PassKind::Main),
    ensures
        i < j,
{
    if j <= i {
        let ci = cmds.take(i + 1);
        let cj = cmds.take(j + 1);
        lemma_current_pass_witness(ci, PassKind::LightDebug);
        lemma_current_pass_witness(cj, PassKind::Main);
        let li = choose|l: int|
            {
                &&& 0 <= l < ci.len()
                &&& #[trigger] ci[l] == (RenderCommand::SetPipeline { pass: PassKind::LightDebug })
                &&& forall|m: int| l < m < ci.len() ==> !is_set_pipeline(#[trigger] ci[m])
            };
        let lj = choose|l: int|
            {
                &&& 0 <= l < cj.len()
                &&& #[trigger] cj[l] == (RenderCommand::SetPipeline { pass: PassKind::Main })
                &&& forall|m: int| l < m < cj.len() ==> !is_set_pipeline(#[trigger] cj[m])
            };
        assert(cmds[li] == (RenderCommand::SetPipeline { pass: PassKind::LightDebug }));
        assert(cmds[lj] == (RenderCommand::SetPipeline { pass: PassKind::Main }));
        if lj < li {
            assert(!(cmds[lj] == (RenderCommand::SetPipeline { pass: PassKind::Main }) && cmds[li]
                == (RenderCommand::SetPipeline { pass: PassKind::LightDebug })));
            assert(false);
        } else if lj == li {
            assert(false);
        } else {
            // The main switch would sit after the light switch but within
            // the light command's window, where no switch exists.
            assert(lj <= j <= i);
            assert(ci[lj] == cmds[lj]);
            assert(!is_set_pipeline(ci[lj]));
            assert(false);
        }
    }
}

/// The attachments one render pass clears and draws into.
#[derive(Clone, Copy, PartialEq, Eq, Structural, Debug)]
pub struct RenderPassDesc {
    /// The scalar patterns of the background color the color attachment
    /// is cleared to.
    pub clear_color_r: u32,
    pub clear_color_g: u32,
    pub clear_color_b: u32,
    pub clear_color_a: u32,
    /// The pattern of the value the depth attachment is cleared to, when
    /// one is bound.
    pub depth_clear: Option<u32>,
}

/// A render pass being recorded: its attachments and the commands so far.
/// Exists only for the duration of one frame's recording.
pub struct RenderPass {
    pub desc: RenderPassDesc,
    pub commands: Vec<RenderCommand>,
}

impl RenderPass {
    /// Opens a pass over the given attachments, with nothing recorded.
    pub fn begin_render_pass(desc: RenderPassDesc) -> (r: RenderPass)
        ensures
            r.desc == desc,
            r.commands@ == Seq::<RenderCommand>::empty(),
    {
        let r = RenderPass { desc, commands: Vec::new() };
        proof {
            assert(r.commands@ =~= Seq::<RenderCommand>::empty());
        }
        r
    }

    /// Switches to `pipeline`.
    pub fn set_pipeline(&mut self, pipeline: &PipelineDesc)
        ensures
            final(self).commands@ == old(self).commands@.push(
                RenderCommand::SetPipeline { pass: pipeline.pass },
            ),
            final(self).desc == old(self).desc,
    {
        self.commands.push(RenderCommand::SetPipeline { pass: pipeline.pass });
    }

    /// Binds `group` to `slot`.  The current pipeline must declare, at
    /// that slot, exactly the layout the group satisfies; anything else is
    /// the layout-mismatch programming error and is refused statically.
    pub fn set_bind_group(&mut self, slot: u32, group: &BindGroup)
        requires
            current_pass(old(self).commands@) matches Some(p) && slot < pass_slots(p).len()
                && pass_slots(p)[slot as int] == group.layout,
        ensures
            final(self).commands@ == old(self).commands@.push(
                RenderCommand::SetBindGroup { slot, group: group.layout },
            ),
            final(self).desc == old(self).desc,
    {
        self.commands.push(RenderCommand::SetBindGroup { slot, group: group.layout });
    }

    /// Binds `buffer` as vertex stream `slot`.
    pub fn set_vertex_buffer(&mut self, slot: u32, buffer: BufferId)
        ensures
            final(self).commands@ == old(self).commands@.push(
                RenderCommand::SetVertexBuffer { slot, buffer },
            ),
            final(self).desc == old(self).desc,
    {
        self.commands.push(RenderCommand::SetVertexBuffer { slot, buffer });
    }

    /// Binds `buffer` as the index buffer.
    pub fn set_index_buffer(&mut self, buffer: BufferId, format: IndexFormatKind)
        ensures
            final(self).commands@ == old(self).commands@.push(
                RenderCommand::SetIndexBuffer { buffer, format },
            ),
            final(self).desc == old(self).desc,
    {
        self.commands.push(RenderCommand::SetIndexBuffer { buffer, format });
    }

    /// Draws `index_count` indices over an instance range.  A pipeline
    /// must be in effect.
    pub fn draw_indexed(
        &mut self,
        index_count: u32,
        base_vertex: i32,
        first_instance: u32,
        instance_count: u32,
    )
        requires
            current_pass(old(self).commands@) is Some,
        ensures
            final(self).commands@ == old(self).commands@.push(
                RenderCommand::DrawIndexed { index_count, base_vertex, first_instance, instance_count },
            ),
            final(self).desc == old(self).desc,
    {
        self.commands.push(
            RenderCommand::DrawIndexed { index_count, base_vertex, first_instance, instance_count },
        );
    }
}

} // verus!
