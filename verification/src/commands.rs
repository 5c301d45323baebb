//! The commands that draw the frame, in the order in which they are
//! recorded.

use vstd::prelude::*;
use crate::color::Rgba8;

verus! {

/// One recorded command.
#[derive(Clone, Copy, Debug, PartialEq, Eq, Structural)]
pub enum Command {
    /// Enter the render pass and clear the colour attachment to `clear`.
    BeginRenderPass { clear: Rgba8 },
    /// Bind the graphics pipeline.
    BindPipeline,
    /// Bind the vertex buffer at the given binding slot.
    BindVertexBuffer { binding: u32 },
    /// Draw `vertex_count` vertices, `instance_count` times, starting at
    /// the given vertex and instance.
    Draw { vertex_count: u32, instance_count: u32, first_vertex: u32, first_instance: u32 },
    /// Leave the render pass.
    EndRenderPass,
    /// Copy the rendered image into the output buffer.
    CopyImageToBuffer,
}

/// The commands of one frame: clear, bind the pipeline, bind the vertices at
/// slot 0, draw all of them once from the first, end the pass, copy the
/// image out.
pub open spec fn frame_commands(clear: Rgba8, vertex_count: u32) -> Seq<Command> {
    seq![
        Command::BeginRenderPass { clear },
        Command::BindPipeline,
        Command::BindVertexBuffer { binding: 0 },
        Command::Draw { vertex_count, instance_count: 1, first_vertex: 0, first_instance: 0 },
        Command::EndRenderPass,
        Command::CopyImageToBuffer,
    ]
}

/// The commands of one frame, in recording order.
pub fn record_frame(clear: Rgba8, vertex_count: u32) -> (commands: Vec<Command>)
    ensures
        commands@ == frame_commands(clear, vertex_count),
{
    let mut commands: Vec<Command> = Vec::new();
    commands.push(Command::BeginRenderPass { clear });
    commands.push(Command::BindPipeline);
    commands.push(Command::BindVertexBuffer { binding: 0 });
    commands.push(
        Command::Draw { vertex_count, instance_count: 1, first_vertex: 0, first_instance: 0 },
    );
    commands.push(Command::EndRenderPass);
    commands.push(Command::CopyImageToBuffer);
    assert(commands@ =~= frame_commands(clear, vertex_count));
    commands
}

/// Whether the command at `i` is a draw.
pub open spec fn is_draw(commands: Seq<Command>, i: int) -> bool {
    0 <= i < commands.len() && commands[i] is Draw
}

/// A frame's commands hold exactly one draw. Before it the pass is begun
/// and pipeline and vertices are bound; after it the pass is ended, and only
/// then is the image copied out.
pub proof fn lemma_one_draw_inside_the_pass(clear: Rgba8, vertex_count: u32)
    ensures
        frame_commands(clear, vertex_count).len() == 6,
        forall|i: int| is_draw(frame_commands(clear, vertex_count), i) <==> i == 3,
        frame_commands(clear, vertex_count)[0] == (Command::BeginRenderPass { clear }),
        frame_commands(clear, vertex_count)[1] == Command::BindPipeline,
        frame_commands(clear, vertex_count)[2] == (Command::BindVertexBuffer { binding: 0 }),
        frame_commands(clear, vertex_count)[4] == Command::EndRenderPass,
        frame_commands(clear, vertex_count)[5] == Command::CopyImageToBuffer,
{
    let commands = frame_commands(clear, vertex_count);
    assert forall|i: int| is_draw(commands, i) <==> i == 3 by {
        if 0 <= i < 6 {
            if i == 0 {
                assert(commands[0] is BeginRenderPass);
            } else if i == 1 {
                assert(commands[1] is BindPipeline);
            } else if i == 2 {
                assert(commands[2] is BindVertexBuffer);
            } else if i == 3 {
                assert(commands[3] is Draw);
            } else if i == 4 {
                assert(commands[4] is EndRenderPass);
            } else {
                assert(commands[5] is CopyImageToBuffer);
            }
        }
    }
}

} // verus!
