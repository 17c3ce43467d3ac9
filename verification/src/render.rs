//! The render loop's state machine: it owns the active pipeline, applies
//! window events and at most one reload per frame between frames, and decides
//! when the surface must be reconfigured and when the loop shuts down. The
//! actual device, surface and window calls are driven outside the library;
//! every decision they follow is made — and proved — here.

use vstd::prelude::*;

use crate::pipeline::{build_plan, plan_for, PipelinePlan};
use crate::registry::{resolve_index, EntryPointNotFound, ModuleRegistry};
use crate::Constants;

verus! {

/// Where the loop stands.
#[derive(Debug, Clone, Copy, PartialEq, Eq, Structural)]
pub enum Phase {
    /// No device work done yet: no pipeline exists.
    Uninitialized,
    /// The initial pipeline is built; the per-frame loop has not begun.
    Ready,
    /// Inside the per-frame loop.
    Rendering,
    /// A close request, an escape press, or an unrecoverable device failure
    /// arrived; resources are to be released.
    ShuttingDown,
    /// Everything released; the process may exit.
    Terminated,
}

/// A window event, as one synchronous per-frame drain hands it over.
#[derive(Debug)]
pub enum WindowEvent {
    CloseRequested,
    EscapePressed,
    FullscreenTogglePressed,
    Resized(u32, u32),
    ScaleFactorChanged(u32, u32),
    /// Anything the loop ignores.
    Other,
}

/// How presenting one frame went, as the device reports it.
#[derive(Debug)]
pub enum FrameOutcome {
    Presented,
    /// The surface is stale (a resize race): reconfigure it and retry next
    /// iteration, never terminate.
    SurfaceLost,
    /// A transiently unusable frame; the next iteration simply tries again.
    SurfaceOutdated,
    /// Unrecoverable device loss.
    DeviceLost,
    /// Unrecoverable exhaustion.
    OutOfMemory,
}

/// The render loop's whole state between steps.
#[derive(Debug)]
pub struct RenderLoop {
    pub phase: Phase,
    /// The drawable size; updated only by resizes to positive dimensions.
    pub width: u32,
    pub height: u32,
    /// An orthogonal window state: toggling it touches nothing else.
    pub fullscreen: bool,
    /// The surface no longer matches the window and must be reconfigured
    /// before the next frame.
    pub needs_reconfigure: bool,
    /// The entry points every pipeline of this loop binds.
    pub vertex_entry: String,
    pub fragment_entry: String,
    /// The active pipeline's plan; `None` only before initialization.
    pub pipeline: Option<PipelinePlan>,
    /// The active pipeline's identity: each replacement gets the next number,
    /// so an old and a new pipeline are always distinguishable.
    pub pipeline_generation: u64,
}

impl RenderLoop {
    /// What every step preserves: a pipeline exists from `Ready` on, and
    /// dimensions stay positive.
    pub open spec fn wf(self) -> bool {
        &&& self.width > 0
        &&& self.height > 0
        &&& (self.phase is Uninitialized ==> self.pipeline is None && self.pipeline_generation
            == 0)
        &&& (!(self.phase is Uninitialized) ==> self.pipeline is Some && self.pipeline_generation
            >= 1)
    }

    /// Everything except the pipeline slot, its identity and the phase is the
    /// same in `self` as in `other` — the frame on which the swap-related
    /// contracts say "nothing else moved".
    pub open spec fn same_but_pipeline(self, other: RenderLoop) -> bool {
        &&& self.width == other.width
        &&& self.height == other.height
        &&& self.fullscreen == other.fullscreen
        &&& self.needs_reconfigure == other.needs_reconfigure
        &&& self.vertex_entry == other.vertex_entry
        &&& self.fragment_entry == other.fragment_entry
    }

    /// A loop that has not touched the device yet.
    pub fn new(vertex_entry: String, fragment_entry: String, width: u32, height: u32) -> (r:
        RenderLoop)
        requires
            width > 0,
            height > 0,
        ensures
            r.wf(),
            r.phase is Uninitialized,
            r.width == width,
            r.height == height,
            !r.fullscreen,
            !r.needs_reconfigure,
            r.vertex_entry == vertex_entry,
            r.fragment_entry == fragment_entry,
            r.pipeline is None,
            r.pipeline_generation == 0,
    {
        RenderLoop {
            phase: Phase::Uninitialized,
            width,
            height,
            fullscreen: false,
            needs_reconfigure: false,
            vertex_entry,
            fragment_entry,
            pipeline: None,
            pipeline_generation: 0,
        }
    }

    /// Build the initial pipeline from the initial snapshot: the move from
    /// `Uninitialized` to `Ready`. A missing entry point is the fatal
    /// build/config mismatch and leaves the loop untouched; success is owed
    /// exactly when both entry points resolve in the snapshot.
    pub fn initialize(&mut self, registry: &ModuleRegistry) -> (r: Result<(), EntryPointNotFound>)
        requires
            old(self).wf(),
            old(self).phase is Uninitialized,
            registry.wf(),
        ensures
            final(self).wf(),
            r is Ok <==> resolve_index(registry.entries@, old(self).vertex_entry@) is Some
                && resolve_index(registry.entries@, old(self).fragment_entry@) is Some,
            r is Ok ==> {
                &&& final(self).phase is Ready
                &&& final(self).pipeline matches Some(p) && plan_for(
                    p,
                    *registry,
                    old(self).vertex_entry@,
                    old(self).fragment_entry@,
                )
                &&& final(self).pipeline_generation == 1
                &&& final(self).same_but_pipeline(*old(self))
            },
            r matches Err(e) ==> *final(self) == *old(self) && e.entry_point@ == (
            if resolve_index(registry.entries@, old(self).vertex_entry@) is None {
                old(self).vertex_entry@
            } else {
                old(self).fragment_entry@
            }),
    {
        match build_plan(registry, &self.vertex_entry, &self.fragment_entry) {
            Ok(plan) => {
                self.pipeline = Some(plan);
                self.pipeline_generation = 1;
                self.phase = Phase::Ready;
                Ok(())
            },
            Err(e) => Err(e),
        }
    }

    /// Enter the per-frame loop.
    pub fn start_rendering(&mut self)
        requires
            old(self).wf(),
            old(self).phase is Ready,
        ensures
            final(self).wf(),
            *final(self) == (RenderLoop { phase: Phase::Rendering, ..*old(self) }),
    {
        self.phase = Phase::Rendering;
    }

    /// Apply a delivered snapshot: build its pipeline and swap it in,
    /// discarding the old one. The new pipeline's identity differs from the
    /// old — the replacement is observable — and nothing else moves. A
    /// snapshot missing an entry point is the fatal mismatch and changes
    /// nothing; success is owed exactly when both entry points resolve.
    pub fn apply_reload(&mut self, registry: &ModuleRegistry) -> (r: Result<
        (),
        EntryPointNotFound,
    >)
        requires
            old(self).wf(),
            old(self).phase is Rendering,
            old(self).pipeline_generation < u64::MAX,
            registry.wf(),
        ensures
            final(self).wf(),
            r is Ok <==> resolve_index(registry.entries@, old(self).vertex_entry@) is Some
                && resolve_index(registry.entries@, old(self).fragment_entry@) is Some,
            r is Ok ==> {
                &&& final(self).phase is Rendering
                &&& final(self).pipeline matches Some(p) && plan_for(
                    p,
                    *registry,
                    old(self).vertex_entry@,
                    old(self).fragment_entry@,
                )
                &&& final(self).pipeline_generation == old(self).pipeline_generation + 1
                &&& final(self).pipeline_generation != old(self).pipeline_generation
                &&& final(self).same_but_pipeline(*old(self))
            },
            r matches Err(e) ==> *final(self) == *old(self) && e.entry_point@ == (
            if resolve_index(registry.entries@, old(self).vertex_entry@) is None {
                old(self).vertex_entry@
            } else {
                old(self).fragment_entry@
            }),
    {
        match build_plan(registry, &self.vertex_entry, &self.fragment_entry) {
            Ok(plan) => {
                self.pipeline = Some(plan);
                self.pipeline_generation = self.pipeline_generation + 1;
                Ok(())
            },
            Err(e) => Err(e),
        }
    }

    /// A resize: only positive dimensions take effect and mark the surface
    /// for reconfiguration; a 0-by-0 report changes nothing. Either way the
    /// active pipeline and its identity are untouched — a resize never
    /// rebuilds.
    pub fn handle_resize(&mut self, width: u32, height: u32)
        requires
            old(self).wf(),
        ensures
            final(self).wf(),
            width > 0 && height > 0 ==> *final(self) == (RenderLoop {
                width,
                height,
                needs_reconfigure: true,
                ..*old(self)
            }),
            !(width > 0 && height > 0) ==> *final(self) == *old(self),
    {
        if width > 0 && height > 0 {
            self.width = width;
            self.height = height;
            self.needs_reconfigure = true;
        }
    }

    /// Toggle fullscreen: an orthogonal window transition with no interaction
    /// with the pipeline state machine.
    pub fn toggle_fullscreen(&mut self)
        requires
            old(self).wf(),
        ensures
            final(self).wf(),
            *final(self) == (RenderLoop { fullscreen: !old(self).fullscreen, ..*old(self) }),
    {
        self.fullscreen = !self.fullscreen;
    }

    /// Begin shutting down: close request, escape, or unrecoverable loss.
    pub fn request_shutdown(&mut self)
        requires
            old(self).wf(),
            !(old(self).phase is Uninitialized),
        ensures
            final(self).wf(),
            *final(self) == (RenderLoop { phase: Phase::ShuttingDown, ..*old(self) }),
    {
        self.phase = Phase::ShuttingDown;
    }

    /// One drained window event, applied synchronously. Close and escape
    /// begin shutdown; the fullscreen toggle flips only that flag; resizes
    /// follow the resize rule; anything else changes nothing. No window
    /// event ever touches the pipeline.
    pub fn handle_window_event(&mut self, event: &WindowEvent)
        requires
            old(self).wf(),
            old(self).phase is Rendering,
        ensures
            final(self).wf(),
            match *event {
                WindowEvent::CloseRequested | WindowEvent::EscapePressed => *final(self) == (
                RenderLoop { phase: Phase::ShuttingDown, ..*old(self) }),
                WindowEvent::FullscreenTogglePressed => *final(self) == (RenderLoop {
                    fullscreen: !old(self).fullscreen,
                    ..*old(self)
                }),
                WindowEvent::Resized(w, h) | WindowEvent::ScaleFactorChanged(w, h) => if w > 0 && h
                    > 0 {
                    *final(self) == (RenderLoop {
                        width: w,
                        height: h,
                        needs_reconfigure: true,
                        ..*old(self)
                    })
                } else {
                    *final(self) == *old(self)
                },
                WindowEvent::Other => *final(self) == *old(self),
            },
    {
        match event {
            WindowEvent::CloseRequested => self.request_shutdown(),
            WindowEvent::EscapePressed => self.request_shutdown(),
            WindowEvent::FullscreenTogglePressed => self.toggle_fullscreen(),
            WindowEvent::Resized(w, h) => self.handle_resize(*w, *h),
            WindowEvent::ScaleFactorChanged(w, h) => self.handle_resize(*w, *h),
            WindowEvent::Other => {},
        }
    }

    /// What presenting one frame reported. A stale surface only marks the
    /// reconfiguration; unrecoverable loss begins shutdown; nothing here
    /// ever touches the pipeline.
    pub fn handle_frame_outcome(&mut self, outcome: &FrameOutcome)
        requires
            old(self).wf(),
            old(self).phase is Rendering,
        ensures
            final(self).wf(),
            match *outcome {
                FrameOutcome::Presented | FrameOutcome::SurfaceOutdated => *final(self) == *old(
                    self,
                ),
                FrameOutcome::SurfaceLost => *final(self) == (RenderLoop {
                    needs_reconfigure: true,
                    ..*old(self)
                }),
                FrameOutcome::DeviceLost | FrameOutcome::OutOfMemory => *final(self) == (
                RenderLoop { phase: Phase::ShuttingDown, ..*old(self) }),
            },
    {
        match outcome {
            FrameOutcome::Presented => {},
            FrameOutcome::SurfaceOutdated => {},
            FrameOutcome::SurfaceLost => {
                self.needs_reconfigure = true;
            },
            FrameOutcome::DeviceLost => self.request_shutdown(),
            FrameOutcome::OutOfMemory => self.request_shutdown(),
        }
    }

    /// The surface was just reconfigured to the current dimensions.
    pub fn surface_reconfigured(&mut self)
        requires
            old(self).wf(),
        ensures
            final(self).wf(),
            *final(self) == (RenderLoop { needs_reconfigure: false, ..*old(self) }),
    {
        self.needs_reconfigure = false;
    }

    /// The per-frame resource constants: the current dimensions, the elapsed
    /// time's bit pattern, and the reserved words as every frame carries
    /// them.
    pub fn frame_constants(&self, time_bits: u32) -> (c: Constants)
        ensures
            c.width == self.width,
            c.height == self.height,
            c.time_bits == time_bits,
            c.reserved@ == seq![0u32, 1u32, 0u32],
    {
        let c = Constants { width: self.width, height: self.height, time_bits, reserved: [
            0u32,
            1u32,
            0u32,
        ] };
        proof {
            assert(c.reserved@ =~= seq![0u32, 1u32, 0u32]);
        }
        c
    }

    /// Release everything and stop.
    pub fn finish(&mut self)
        requires
            old(self).wf(),
            old(self).phase is ShuttingDown,
        ensures
            final(self).wf(),
            *final(self) == (RenderLoop { phase: Phase::Terminated, ..*old(self) }),
    {
        self.phase = Phase::Terminated;
    }
}

/// The first sRGB-capable surface format, or the device's first offered one:
/// the choice the loop configures its surface with. `is_srgb` holds, per
/// offered format in the device's preference order, whether it is sRGB.
pub fn select_format_index(is_srgb: &Vec<bool>) -> (k: usize)
    requires
        is_srgb@.len() > 0,
    ensures
        k < is_srgb@.len(),
        (exists|i: int| 0 <= i < is_srgb@.len() && is_srgb@[i]) ==> is_srgb@[k as int] && forall|
            i: int,
        | 0 <= i < k ==> !is_srgb@[i],
        !(exists|i: int| 0 <= i < is_srgb@.len() && is_srgb@[i]) ==> k == 0,
{
    let n = is_srgb.len();
    let mut i: usize = 0;
    while i < n
        invariant
            n == is_srgb@.len(),
            0 <= i <= n,
            forall|j: int| 0 <= j < i ==> !is_srgb@[j],
        decreases n - i,
    {
        if is_srgb[i] {
            return i;
        }
        i = i + 1;
    }
    0
}

} // verus!
