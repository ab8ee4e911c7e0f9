use crate::render::pipelines::terrain::IndexFormat;
use crate::render::pipelines::BindGroup;
use crate::render::DeviceLimits;
use vstd::prelude::*;

verus! {

/// The size of the window's drawing area, in pixels.
#[derive(Clone, Copy, Debug, PartialEq, Eq, Structural)]
pub struct Size {
    pub width: u32,
    pub height: u32,
}

impl Size {
    /// A size without a pixel. A surface cannot have it.
    #[verifier::when_used_as_spec(spec_is_empty)]
    pub fn is_empty(&self) -> (empty: bool)
        ensures
            empty == self.spec_is_empty(),
    {
        self.width == 0 || self.height == 0
    }

    pub open spec fn spec_is_empty(&self) -> bool {
        self.width == 0 || self.height == 0
    }
}

/// Why no frame could be acquired from the surface.
#[derive(Clone, Copy, Debug, PartialEq, Eq, Structural)]
pub enum SurfaceError {
    Timeout,
    Outdated,
    Lost,
    OutOfMemory,
    Other,
}

/// Why a drawable could not record its commands.
#[derive(Clone, Copy, Debug, PartialEq, Eq, Structural)]
pub enum DrawError {
    OutOfMemory,
    Validation,
    Internal,
}

/// One command of a render pass.
#[derive(Clone, Copy, Debug, PartialEq, Eq, Structural)]
pub enum DrawCommand {
    /// Use the drawable's pipeline.
    SetPipeline,
    /// Bind a group of resources to a slot of the pipeline.
    SetBindGroup { index: u32, group: BindGroup },
    /// Bind the whole of the drawable's vertex buffer to a slot.
    SetVertexBuffer { slot: u32 },
    /// Bind the whole of the drawable's index buffer.
    SetIndexBuffer { format: IndexFormat },
    /// Draw the indices from `first_index` up to, not including, `end_index`, once
    /// for each instance from `first_instance` up to, not including, `end_instance`.
    DrawIndexed {
        first_index: u32,
        end_index: u32,
        base_vertex: i32,
        first_instance: u32,
        end_instance: u32,
    },
}

impl DrawCommand {
    /// How many instances a command draws; none unless it is a draw call.
    pub open spec fn instances(self) -> int {
        match self {
            DrawCommand::DrawIndexed { first_instance, end_instance, .. } => end_instance
                - first_instance,
            _ => 0,
        }
    }
}

/// How many draw calls a run of commands holds.
pub open spec fn draw_calls(commands: Seq<DrawCommand>) -> nat
    decreases commands.len(),
{
    if commands.len() == 0 {
        0
    } else {
        draw_calls(commands.drop_last()) + if commands.last() is DrawIndexed {
            1nat
        } else {
            0nat
        }
    }
}

/// An open render pass: the commands recorded so far, in order.
#[derive(Debug)]
pub struct RenderPass {
    commands: Vec<DrawCommand>,
}

impl RenderPass {
    pub closed spec fn commands(&self) -> Seq<DrawCommand> {
        self.commands@
    }

    /// Opens a pass with nothing recorded.
    pub fn begin() -> (pass: RenderPass)
        ensures
            pass.commands() == Seq::<DrawCommand>::empty(),
    {
        RenderPass { commands: Vec::new() }
    }

    pub fn set_pipeline(&mut self)
        ensures
            final(self).commands() == old(self).commands().push(DrawCommand::SetPipeline),
    {
        self.commands.push(DrawCommand::SetPipeline);
    }

    pub fn set_bind_group(&mut self, index: u32, group: BindGroup)
        ensures
            final(self).commands() == old(self).commands().push(
                DrawCommand::SetBindGroup { index, group },
            ),
    {
        self.commands.push(DrawCommand::SetBindGroup { index, group });
    }

    pub fn set_vertex_buffer(&mut self, slot: u32)
        ensures
            final(self).commands() == old(self).commands().push(
                DrawCommand::SetVertexBuffer { slot },
            ),
    {
        self.commands.push(DrawCommand::SetVertexBuffer { slot });
    }

    pub fn set_index_buffer(&mut self, format: IndexFormat)
        ensures
            final(self).commands() == old(self).commands().push(
                DrawCommand::SetIndexBuffer { format },
            ),
    {
        self.commands.push(DrawCommand::SetIndexBuffer { format });
    }

    pub fn draw_indexed(
        &mut self,
        first_index: u32,
        end_index: u32,
        base_vertex: i32,
        first_instance: u32,
        end_instance: u32,
    )
        ensures
            final(self).commands() == old(self).commands().push(
                DrawCommand::DrawIndexed {
                    first_index,
                    end_index,
                    base_vertex,
                    first_instance,
                    end_instance,
                },
            ),
    {
        self.commands.push(
            DrawCommand::DrawIndexed {
                first_index,
                end_index,
                base_vertex,
                first_instance,
                end_instance,
            },
        );
    }

    /// The commands in the order they were recorded.
    pub fn recorded(&self) -> (commands: &Vec<DrawCommand>)
        ensures
            commands@ == self.commands(),
    {
        &self.commands
    }
}

/// Something that can record itself into an open render pass.
pub trait Draw {
    /// The commands that drawing records.
    spec fn commands(&self) -> Seq<DrawCommand>;

    /// Whether drawing succeeds.
    spec fn outcome(&self) -> Result<(), DrawError>;

    /// Records the drawable at the end of the pass. What the pass held stays in
    /// front, also when drawing fails.
    fn draw(&self, render_pass: &mut RenderPass) -> (result: Result<(), DrawError>)
        ensures
            result == self.outcome(),
            old(render_pass).commands().is_prefix_of(final(render_pass).commands()),
            result is Ok ==> final(render_pass).commands() == old(render_pass).commands()
                + self.commands(),
    ;
}

/// A frame that was acquired and recorded: the pass to submit, and how drawing went.
#[derive(Debug)]
pub struct Frame {
    pub pass: RenderPass,
    pub drawn: Result<(), DrawError>,
}

/// What the renderer knows of the surface and of the device.
#[derive(Clone, Copy, Debug, PartialEq, Eq, Structural)]
pub struct Renderer {
    /// The size that the surface was last configured for.
    pub size: Size,
    /// When the last frame was started, in nanoseconds of the caller's clock.
    pub last_render_time: u64,
    pub limits: DeviceLimits,
}

impl Renderer {
    pub fn new(size: Size, limits: DeviceLimits, now: u64) -> (renderer: Renderer)
        ensures
            renderer == (Renderer { size, last_render_time: now, limits }),
    {
        Renderer { size, last_render_time: now, limits }
    }

    /// The renderer after a request to resize: an empty size changes nothing.
    pub open spec fn resized(self, new_size: Size) -> Renderer {
        if new_size.is_empty() {
            self
        } else {
            Renderer { size: new_size, ..self }
        }
    }

    /// The size to configure the surface for after a request to resize, if any.
    pub open spec fn reconfigured(new_size: Size) -> Option<Size> {
        if new_size.is_empty() {
            None
        } else {
            Some(new_size)
        }
    }

    /// A size with no pixels is ignored: nothing changes and the surface is left
    /// alone. Any other size is recorded, and the surface is to be configured for it.
    pub fn resize(&mut self, new_size: Size) -> (configure: Option<Size>)
        ensures
            *final(self) == old(self).resized(new_size),
            configure == Self::reconfigured(new_size),
    {
        if new_size.is_empty() {
            None
        } else {
            self.size = new_size;
            Some(new_size)
        }
    }

    /// The time since the last frame was started; none if the clock went back.
    pub open spec fn elapsed(self, now: u64) -> u64 {
        if now >= self.last_render_time {
            (now - self.last_render_time) as u64
        } else {
            0
        }
    }

    /// Starts a frame at `now` and returns the time since the last one was started.
    pub fn tick(&mut self, now: u64) -> (dt: u64)
        ensures
            dt == old(self).elapsed(now),
            *final(self) == (Renderer { last_render_time: now, ..*old(self) }),
    {
        let dt: u64 = if now >= self.last_render_time {
            now - self.last_render_time
        } else {
            0
        };
        self.last_render_time = now;
        dt
    }

    /// Records one frame. `acquired` says whether the surface handed out a frame;
    /// if it did, one pass is opened and the drawable is recorded into it.
    pub fn render<D: Draw>(&self, acquired: Result<(), SurfaceError>, drawable: &D) -> (result:
        Result<Frame, SurfaceError>)
        ensures
            match acquired {
                Err(error) => result == Err::<Frame, SurfaceError>(error),
                Ok(_) => {
                    &&& result matches Ok(frame)
                    &&& frame.drawn == drawable.outcome()
                    &&& frame.drawn is Ok ==> frame.pass.commands() == drawable.commands()
                },
            },
    {
        match acquired {
            Err(error) => Err(error),
            Ok(_) => {
                let mut pass = RenderPass::begin();
                let drawn = drawable.draw(&mut pass);
                Ok(Frame { pass, drawn })
            },
        }
    }
}

/// Asking twice for the same size leaves the renderer as asking once does.
pub proof fn lemma_resize_is_idempotent(renderer: Renderer, size: Size)
    ensures
        renderer.resized(size).resized(size) == renderer.resized(size),
{
}

} // verus!
