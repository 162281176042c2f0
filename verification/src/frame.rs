//! The per-frame synchronization protocol: a single-frame-in-flight
//! state machine that runs acquire, record, submit, present each
//! iteration. The shell performs the blocking driver calls and reports
//! each completed step; the machine dictates the order, the command
//! sequence to record and the submission wiring, and accounts for what
//! the GPU may still be reading.

use vstd::prelude::*;
use crate::model::Extent2D;
use crate::pipeline::STAGE_COLOR_ATTACHMENT_OUTPUT_BIT;

verus! {

/// Where the driver stands inside one loop iteration.
#[derive(Clone, Copy, Debug, PartialEq, Eq, Structural)]
pub enum FramePhase {
    /// Between iterations: every started triple has fully presented.
    Idle,
    /// The in-flight marker was waited on and reset; no GPU work is
    /// outstanding.
    Ready,
    /// A swapchain image index is acquired for this iteration.
    Acquired,
    /// The command buffer for the acquired image is recorded.
    Recorded,
    /// The work is submitted; the GPU owns it until the marker signals.
    Submitted,
}

/// The clear color of the single color attachment: opaque black.
#[derive(Clone, Copy, Debug, PartialEq, Eq, Structural)]
pub enum ClearColor {
    OpaqueBlack,
}

/// One command of the re-recorded per-frame command buffer.
#[derive(Clone, Copy, Debug, PartialEq, Eq, Structural)]
pub enum RenderCommand {
    /// Begin the render pass on the framebuffer of the acquired image,
    /// over the full extent, clearing to the given color.
    BeginRenderPass { framebuffer_index: u32, render_area: Extent2D, clear: ClearColor },
    /// Bind the one graphics pipeline.
    BindPipeline,
    /// Supply the dynamic viewport: the full swapchain extent.
    SetViewport { extent: Extent2D },
    /// Supply the dynamic scissor: the full swapchain extent.
    SetScissor { extent: Extent2D },
    /// A single non-indexed draw.
    Draw { vertex_count: u32, instance_count: u32, first_vertex: u32, first_instance: u32 },
    EndRenderPass,
}

/// How one frame's submission is wired to the synchronization
/// primitives.
#[derive(Clone, Copy, Debug, PartialEq, Eq, Structural)]
pub struct SubmitPlan {
    /// Wait on the image-available signal before writing color output.
    pub wait_image_available: bool,
    /// The stage the wait gates: color-attachment output.
    pub wait_stage_mask: u32,
    /// Signal render-finished when the commands complete.
    pub signal_render_finished: bool,
    /// Signal the in-flight marker when the GPU work fully completes.
    pub signal_in_flight: bool,
    pub command_buffer_count: u32,
}

/// How one frame's presentation is wired.
#[derive(Clone, Copy, Debug, PartialEq, Eq, Structural)]
pub struct PresentPlan {
    /// Wait on the render-finished signal before presenting.
    pub wait_render_finished: bool,
    /// The acquired image index to present.
    pub image_index: u32,
    pub swapchain_count: u32,
}

/// The command pool the single command buffer is allocated from.
#[derive(Clone, Copy, Debug, PartialEq, Eq, Structural)]
pub struct CommandPoolConfig {
    /// The queue family the pool's buffers are submitted to.
    pub queue_family_index: u32,
    /// Buffers from this pool may be individually reset, so the frame
    /// loop can re-record the one command buffer each iteration.
    pub allow_buffer_reset: bool,
}

/// Configures the command pool: it lives on the graphics queue family
/// and allows individual buffer reset.
pub fn command_pool_config(graphics_family: u32) -> (r: CommandPoolConfig)
    ensures
        r == (CommandPoolConfig { queue_family_index: graphics_family, allow_buffer_reset: true }),
{
    CommandPoolConfig { queue_family_index: graphics_family, allow_buffer_reset: true }
}

/// The frame driver: owns the synchronization accounting of the
/// single-frame-in-flight loop. The counters record how many acquire,
/// submit and present steps have occurred since creation.
#[derive(Clone, Copy, Debug)]
pub struct FrameDriver {
    pub phase: FramePhase,
    /// How many images the swapchain holds.
    pub image_count: u32,
    /// The image index acquired for the current iteration.
    pub image_index: u32,
    pub acquires: u64,
    pub submits: u64,
    pub presents: u64,
    /// The in-flight marker is known to be signaled: it starts out
    /// signaled, so the first wait returns at once, and the reset at
    /// each iteration start clears it.
    pub in_flight_signaled: bool,
    /// A submission is outstanding whose completion the host has not
    /// yet observed through a blocking wait.
    pub gpu_busy: bool,
}

impl FrameDriver {
    /// The protocol invariant: the marker is only signaled once no
    /// submission is outstanding, at most one triple is ever in flight,
    /// and between iterations the acquire, submit and present counts
    /// agree exactly.
    pub open spec fn wf(self) -> bool {
        &&& self.image_count > 0
        &&& (self.in_flight_signaled ==> !self.gpu_busy)
        &&& (self.phase == FramePhase::Idle ==> self.acquires == self.submits
            && self.submits == self.presents)
        &&& (self.phase == FramePhase::Ready ==> self.acquires == self.submits
            && self.submits == self.presents && !self.gpu_busy && !self.in_flight_signaled)
        &&& ((self.phase == FramePhase::Acquired || self.phase == FramePhase::Recorded)
            ==> self.acquires == self.presents + 1 && self.submits == self.presents
            && self.image_index < self.image_count && !self.gpu_busy && !self.in_flight_signaled)
        &&& (self.phase == FramePhase::Submitted ==> self.acquires == self.presents + 1
            && self.submits == self.presents + 1 && self.image_index < self.image_count
            && !self.in_flight_signaled)
    }

    /// Creates the driver for a swapchain of `image_count` images. The
    /// in-flight marker starts signaled, so the first iteration's wait
    /// never blocks on work that was never submitted.
    pub fn new(image_count: u32) -> (d: FrameDriver)
        requires
            image_count > 0,
        ensures
            d.wf(),
            d.phase == FramePhase::Idle,
            d.image_count == image_count,
            d.acquires == 0,
            d.submits == 0,
            d.presents == 0,
            d.in_flight_signaled,
            !d.gpu_busy,
    {
        FrameDriver {
            phase: FramePhase::Idle,
            image_count,
            image_index: 0,
            acquires: 0,
            submits: 0,
            presents: 0,
            in_flight_signaled: true,
            gpu_busy: false,
        }
    }

    /// Marks the blocking wait on the in-flight marker and its reset to
    /// unsignaled, the sole point keeping the CPU from reusing the
    /// command buffer or an image the GPU still reads: the wait returns
    /// only once no submission is outstanding, and the shell calls this
    /// only after that wait returned.
    pub fn begin_frame(&mut self)
        requires
            old(self).wf(),
            old(self).phase == FramePhase::Idle,
        ensures
            final(self).wf(),
            final(self).phase == FramePhase::Ready,
            !final(self).gpu_busy,
            !final(self).in_flight_signaled,
            final(self).image_count == old(self).image_count,
            final(self).acquires == old(self).acquires,
            final(self).submits == old(self).submits,
            final(self).presents == old(self).presents,
    {
        self.gpu_busy = false;
        self.in_flight_signaled = false;
        self.phase = FramePhase::Ready;
    }

    /// Records that the driver handed back `image_index` from the
    /// acquire call, with the image-available signal wired to it.
    pub fn acquire_image(&mut self, image_index: u32)
        requires
            old(self).wf(),
            old(self).phase == FramePhase::Ready,
            image_index < old(self).image_count,
            old(self).acquires < u64::MAX,
        ensures
            final(self).wf(),
            final(self).phase == FramePhase::Acquired,
            final(self).image_index == image_index,
            final(self).acquires == old(self).acquires + 1,
            final(self).image_count == old(self).image_count,
            final(self).submits == old(self).submits,
            final(self).presents == old(self).presents,
            !final(self).gpu_busy,
            !final(self).in_flight_signaled,
    {
        self.image_index = image_index;
        self.acquires = self.acquires + 1;
        self.phase = FramePhase::Acquired;
    }

    /// Produces the command sequence to re-record into the single
    /// command buffer for the acquired image: begin the render pass on
    /// the matching framebuffer cleared to opaque black, bind the
    /// pipeline, set viewport and scissor to the swapchain extent, draw
    /// three vertices in one instance, end.
    pub fn record_commands(&mut self, extent: Extent2D) -> (commands: Vec<RenderCommand>)
        requires
            old(self).wf(),
            old(self).phase == FramePhase::Acquired,
        ensures
            final(self).wf(),
            final(self).phase == FramePhase::Recorded,
            final(self).image_index == old(self).image_index,
            final(self).image_count == old(self).image_count,
            final(self).acquires == old(self).acquires,
            final(self).submits == old(self).submits,
            final(self).presents == old(self).presents,
            !final(self).gpu_busy,
            !final(self).in_flight_signaled,
            commands@ =~= seq![
                (RenderCommand::BeginRenderPass {
                    framebuffer_index: old(self).image_index,
                    render_area: extent,
                    clear: ClearColor::OpaqueBlack,
                }),
                RenderCommand::BindPipeline,
                (RenderCommand::SetViewport { extent }),
                (RenderCommand::SetScissor { extent }),
                (RenderCommand::Draw {
                    vertex_count: 3,
                    instance_count: 1,
                    first_vertex: 0,
                    first_instance: 0,
                }),
                RenderCommand::EndRenderPass,
            ],
    {
        let mut commands: Vec<RenderCommand> = Vec::new();
        commands.push(
            RenderCommand::BeginRenderPass {
                framebuffer_index: self.image_index,
                render_area: extent,
                clear: ClearColor::OpaqueBlack,
            },
        );
        commands.push(RenderCommand::BindPipeline);
        commands.push(RenderCommand::SetViewport { extent });
        commands.push(RenderCommand::SetScissor { extent });
        commands.push(
            RenderCommand::Draw {
                vertex_count: 3,
                instance_count: 1,
                first_vertex: 0,
                first_instance: 0,
            },
        );
        commands.push(RenderCommand::EndRenderPass);
        self.phase = FramePhase::Recorded;
        commands
    }

    /// Marks the submission to the graphics queue and returns its
    /// wiring: wait on image-available gated at color-attachment
    /// output, signal render-finished, and signal the in-flight marker
    /// when the GPU work fully completes. From here the GPU owns the
    /// work until the marker signals.
    pub fn submit(&mut self) -> (plan: SubmitPlan)
        requires
            old(self).wf(),
            old(self).phase == FramePhase::Recorded,
            old(self).submits < u64::MAX,
        ensures
            final(self).wf(),
            final(self).phase == FramePhase::Submitted,
            final(self).image_index == old(self).image_index,
            final(self).image_count == old(self).image_count,
            final(self).acquires == old(self).acquires,
            final(self).submits == old(self).submits + 1,
            final(self).presents == old(self).presents,
            final(self).gpu_busy,
            !final(self).in_flight_signaled,
            plan == (SubmitPlan {
                wait_image_available: true,
                wait_stage_mask: STAGE_COLOR_ATTACHMENT_OUTPUT_BIT,
                signal_render_finished: true,
                signal_in_flight: true,
                command_buffer_count: 1,
            }),
    {
        self.submits = self.submits + 1;
        self.gpu_busy = true;
        self.phase = FramePhase::Submitted;
        SubmitPlan {
            wait_image_available: true,
            wait_stage_mask: STAGE_COLOR_ATTACHMENT_OUTPUT_BIT,
            signal_render_finished: true,
            signal_in_flight: true,
            command_buffer_count: 1,
        }
    }

    /// Marks the presentation of the acquired image and returns its
    /// wiring: wait on render-finished, present the acquired index.
    /// This closes the iteration's acquire/submit/present triple.
    pub fn present(&mut self) -> (plan: PresentPlan)
        requires
            old(self).wf(),
            old(self).phase == FramePhase::Submitted,
            old(self).presents < u64::MAX,
        ensures
            final(self).wf(),
            final(self).phase == FramePhase::Idle,
            final(self).image_count == old(self).image_count,
            final(self).acquires == old(self).acquires,
            final(self).submits == old(self).submits,
            final(self).presents == old(self).presents + 1,
            final(self).acquires == final(self).presents,
            final(self).submits == final(self).presents,
            plan == (PresentPlan {
                wait_render_finished: true,
                image_index: old(self).image_index,
                swapchain_count: 1,
            }),
    {
        self.presents = self.presents + 1;
        self.phase = FramePhase::Idle;
        PresentPlan {
            wait_render_finished: true,
            image_index: self.image_index,
            swapchain_count: 1,
        }
    }

    /// Marks the device-idle wait that precedes teardown: the shell
    /// calls this after the blocking wait for the whole device returned,
    /// so no submission is outstanding and the first destroy call is
    /// safe.
    pub fn finish(&mut self)
        requires
            old(self).wf(),
            old(self).phase == FramePhase::Idle,
        ensures
            final(self).wf(),
            final(self).phase == FramePhase::Idle,
            final(self).image_count == old(self).image_count,
            final(self).acquires == old(self).acquires,
            final(self).submits == old(self).submits,
            final(self).presents == old(self).presents,
            final(self).in_flight_signaled == old(self).in_flight_signaled,
            !final(self).gpu_busy,
    {
        self.gpu_busy = false;
    }
}

/// Between iterations the loop is balanced: however many iterations
/// have completed, exactly that many acquire, submit and present steps
/// have occurred, with no second triple ever started early.
pub proof fn lemma_idle_loop_is_balanced(d: FrameDriver)
    requires
        d.wf(),
        d.phase == FramePhase::Idle,
    ensures
        d.acquires == d.presents,
        d.submits == d.presents,
{
}

/// After the in-flight wait of an iteration returns, no submission is
/// outstanding: the wait for iteration k + 1 cannot return before
/// iteration k's submission is GPU-complete.
pub proof fn lemma_wait_never_overlaps_gpu_work(d: FrameDriver)
    requires
        d.wf(),
        d.phase == FramePhase::Ready,
    ensures
        !d.gpu_busy,
{
}

} // verus!
