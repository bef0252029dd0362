//! The event-loop driver: a state machine over platform lifecycle events.
//!
//! The driver owns a model of the renderer's state: the resource bundle
//! (absent or ready), a terminal flag set by a close request, and the platform
//! trait of whether the operating system suspends and resumes the process.
//! Each platform event is dispatched to [`Driver::dispatch`], which updates
//! the model and returns the [`Action`] the embedding program must perform on
//! the real window and GPU objects. After dispatch, [`Driver::next_schedule`]
//! decides whether the loop exits or requests a redraw and waits.
//!
//! GPU objects themselves cannot be inspected here; the model carries each as
//! an opaque handle the embedder assigns, and carries the surface
//! configuration's dimensions as plain numbers. The present mode (vsync-locked
//! first-in-first-out) and the render-attachment usage are the same for every
//! configuration, so the model does not repeat them.

use vstd::prelude::*;

use crate::pacing::wait_after;

verus! {

/// The surface configuration: the window's current inner size and the
/// surface's preferred pixel format, the format as an opaque token chosen by
/// the platform at initialization.
#[derive(Clone, Copy, Debug, PartialEq, Eq, Structural)]
pub struct SurfaceConfig {
    pub width: u32,
    pub height: u32,
    pub format: u64,
}

/// The aggregate of the nine GPU-side resources needed to present a frame.
/// Every field but the configuration is an opaque handle standing for the
/// real object the embedder created. The bundle exists as a whole or not at
/// all; [`BundleState`] makes a partial bundle unrepresentable.
#[derive(Clone, Copy, Debug, PartialEq, Eq, Structural)]
pub struct Bundle {
    pub instance: u64,
    pub adapter: u64,
    pub shader: u64,
    pub pipeline_layout: u64,
    pub config: SurfaceConfig,
    pub surface: u64,
    pub device: u64,
    pub queue: u64,
    pub render_pipeline: u64,
}

/// Whether the resource bundle currently exists.
#[derive(Clone, Copy, Debug, PartialEq, Eq, Structural)]
pub enum BundleState {
    /// No GPU resources exist: before the first initialization, or after a
    /// suspend tore them down.
    Absent,
    /// All nine resources exist and the surface is configured.
    Ready(Bundle),
}

/// A platform lifecycle event, as the windowing system delivers it.
#[derive(Clone, Copy, Debug, PartialEq, Eq, Structural)]
pub enum Event {
    /// The process gained (or regained) the ability to render.
    Resumed,
    /// The operating system invalidated the rendering surface.
    Suspended,
    /// The window's inner size changed.
    Resized { width: u32, height: u32 },
    /// The platform asks for a frame.
    RedrawRequested,
    /// The user asked to close the window.
    CloseRequested,
    /// Any other event; none of them concerns the renderer.
    Other,
}

/// What one frame consists of: one render pass that clears the target to a
/// fixed color, binds the render pipeline, and issues one draw call whose
/// vertex shader synthesizes a triangle from the vertex index alone.
#[derive(Clone, Copy, Debug, PartialEq, Eq, Structural)]
pub struct FramePlan {
    /// Render passes recorded into the frame's command buffer.
    pub pass_count: u32,
    /// First vertex index of the single draw call.
    pub first_vertex: u32,
    /// Vertices drawn: the triangle's three corners.
    pub vertex_count: u32,
    /// First instance index of the single draw call.
    pub first_instance: u32,
    /// Instances drawn.
    pub instance_count: u32,
    /// Clear color, one byte per channel: fully saturated green.
    pub clear_red: u8,
    pub clear_green: u8,
    pub clear_blue: u8,
    pub clear_alpha: u8,
}

/// The one frame this renderer ever draws.
pub open spec fn spec_frame_plan() -> FramePlan {
    FramePlan {
        pass_count: 1,
        first_vertex: 0,
        vertex_count: 3,
        first_instance: 0,
        instance_count: 1,
        clear_red: 0,
        clear_green: 255,
        clear_blue: 0,
        clear_alpha: 255,
    }
}

/// Builds the plan of the single frame: one pass, one draw call of three
/// vertices and one instance, clear color green.
pub fn frame_plan() -> (plan: FramePlan)
    ensures
        plan == spec_frame_plan(),
{
    FramePlan {
        pass_count: 1,
        first_vertex: 0,
        vertex_count: 3,
        first_instance: 0,
        instance_count: 1,
        clear_red: 0,
        clear_green: 255,
        clear_blue: 0,
        clear_alpha: 255,
    }
}

/// What the embedding program must do on the real window and GPU objects in
/// answer to one dispatched event.
#[derive(Clone, Copy, Debug, PartialEq, Eq, Structural)]
pub enum Action {
    /// Build every bundle resource anew and hand the result to
    /// [`Driver::install_bundle`].
    Initialize,
    /// Drop every bundle resource.
    Release,
    /// Reconfigure the surface against the device at the new size.
    Reconfigure { width: u32, height: u32 },
    /// Acquire the next presentable texture, record the planned render pass,
    /// submit it, and present.
    Draw { plan: FramePlan },
    /// Do nothing.
    Nothing,
}

/// The loop's next step once an event has been dispatched.
#[derive(Clone, Copy, Debug, PartialEq, Eq, Structural)]
pub enum Schedule {
    /// Leave the event loop; no redraw is requested.
    Exit,
    /// Request a redraw now, then wait for events until
    /// `loop start + wait_millis`.
    Continue { wait_millis: u64 },
}

/// The renderer's state between events.
#[derive(Clone, Copy, Debug, PartialEq, Eq, Structural)]
pub struct Driver {
    /// The resource bundle, absent or fully present.
    pub bundle: BundleState,
    /// Set once a close was requested; nothing is scheduled afterwards.
    pub terminal: bool,
    /// Whether this platform suspends and resumes the process. Without the
    /// lifecycle the bundle is built once and lives until exit; with it,
    /// suspend tears the bundle down and resume rebuilds it.
    pub suspend_lifecycle: bool,
}

/// The state after one event. A close request makes the state terminal, a
/// suspend (on a platform with the lifecycle) empties the bundle, a resize
/// (while the bundle is present) records the new size in the configuration;
/// no other event, and no event in a terminal state, changes anything. The
/// bundle a resume asks for enters the state only through
/// [`Driver::install_bundle`], once the embedder has built it.
pub open spec fn spec_step(state: Driver, event: Event) -> Driver {
    if state.terminal {
        state
    } else {
        match event {
            Event::Suspended => {
                if state.suspend_lifecycle {
                    Driver {
                        bundle: BundleState::Absent,
                        terminal: state.terminal,
                        suspend_lifecycle: state.suspend_lifecycle,
                    }
                } else {
                    state
                }
            },
            Event::Resized { width, height } => {
                match state.bundle {
                    BundleState::Ready(b) => Driver {
                        bundle: BundleState::Ready(
                            Bundle {
                                config: SurfaceConfig { width, height, format: b.config.format },
                                ..b
                            },
                        ),
                        terminal: state.terminal,
                        suspend_lifecycle: state.suspend_lifecycle,
                    },
                    BundleState::Absent => state,
                }
            },
            Event::CloseRequested => Driver {
                bundle: state.bundle,
                terminal: true,
                suspend_lifecycle: state.suspend_lifecycle,
            },
            _ => state,
        }
    }
}

/// The action one event demands. In a terminal state every event demands
/// nothing. A resume demands a fresh initialization unless the bundle is
/// already present on a platform without a suspend lifecycle; a suspend with
/// a live bundle demands its release; a resize or a redraw request acts only
/// while the bundle is present.
pub open spec fn spec_action(state: Driver, event: Event) -> Action {
    if state.terminal {
        Action::Nothing
    } else {
        match event {
            Event::Resumed => {
                if state.bundle is Ready && !state.suspend_lifecycle {
                    Action::Nothing
                } else {
                    Action::Initialize
                }
            },
            Event::Suspended => {
                if state.suspend_lifecycle && state.bundle is Ready {
                    Action::Release
                } else {
                    Action::Nothing
                }
            },
            Event::Resized { width, height } => {
                if state.bundle is Ready {
                    Action::Reconfigure { width, height }
                } else {
                    Action::Nothing
                }
            },
            Event::RedrawRequested => {
                if state.bundle is Ready {
                    Action::Draw { plan: spec_frame_plan() }
                } else {
                    Action::Nothing
                }
            },
            Event::CloseRequested => Action::Nothing,
            Event::Other => Action::Nothing,
        }
    }
}

/// The state once a freshly built bundle is installed.
pub open spec fn spec_install(state: Driver, bundle: Bundle) -> Driver {
    Driver {
        bundle: BundleState::Ready(bundle),
        terminal: state.terminal,
        suspend_lifecycle: state.suspend_lifecycle,
    }
}

/// The loop's next step: exit once terminal, otherwise request a redraw and
/// wait out the rest of the frame interval.
pub open spec fn spec_schedule(state: Driver, elapsed_millis: u64) -> Schedule {
    if state.terminal {
        Schedule::Exit
    } else {
        Schedule::Continue { wait_millis: wait_after(elapsed_millis) }
    }
}

impl Driver {
    /// A driver before any event: no bundle, not terminal.
    pub fn new(suspend_lifecycle: bool) -> (driver: Driver)
        ensures
            driver.bundle is Absent,
            !driver.terminal,
            driver.suspend_lifecycle == suspend_lifecycle,
    {
        Driver { bundle: BundleState::Absent, terminal: false, suspend_lifecycle }
    }

    /// Installs the bundle a fresh initialization produced: every field of the
    /// new state's bundle comes from the argument, none from any earlier
    /// bundle.
    pub fn install_bundle(&mut self, bundle: Bundle)
        ensures
            *final(self) == spec_install(*old(self), bundle),
            final(self).bundle == BundleState::Ready(bundle),
    {
        self.bundle = BundleState::Ready(bundle);
    }

    /// Dispatches one platform event: updates the model as [`spec_step`] says
    /// and returns the action [`spec_action`] demands of the embedder.
    pub fn dispatch(&mut self, event: Event) -> (action: Action)
        ensures
            *final(self) == spec_step(*old(self), event),
            action == spec_action(*old(self), event),
    {
        if self.terminal {
            return Action::Nothing;
        }
        match event {
            Event::Resumed => {
                match self.bundle {
                    BundleState::Ready(_) => {
                        if self.suspend_lifecycle {
                            Action::Initialize
                        } else {
                            Action::Nothing
                        }
                    },
                    BundleState::Absent => Action::Initialize,
                }
            },
            Event::Suspended => {
                if self.suspend_lifecycle {
                    match self.bundle {
                        BundleState::Ready(_) => {
                            self.bundle = BundleState::Absent;
                            Action::Release
                        },
                        BundleState::Absent => Action::Nothing,
                    }
                } else {
                    Action::Nothing
                }
            },
            Event::Resized { width, height } => {
                match self.bundle {
                    BundleState::Ready(b) => {
                        self.bundle = BundleState::Ready(
                            Bundle {
                                config: SurfaceConfig { width, height, format: b.config.format },
                                ..b
                            },
                        );
                        Action::Reconfigure { width, height }
                    },
                    BundleState::Absent => Action::Nothing,
                }
            },
            Event::RedrawRequested => {
                match self.bundle {
                    BundleState::Ready(_) => Action::Draw { plan: frame_plan() },
                    BundleState::Absent => Action::Nothing,
                }
            },
            Event::CloseRequested => {
                self.terminal = true;
                Action::Nothing
            },
            Event::Other => Action::Nothing,
        }
    }

    /// Decides the loop's next step after an event was dispatched: exit once
    /// terminal, otherwise request a redraw and wait until `loop start +
    /// wait_millis`.
    pub fn next_schedule(&self, elapsed_millis: u64) -> (schedule: Schedule)
        ensures
            schedule == spec_schedule(*self, elapsed_millis),
            self.terminal ==> schedule is Exit,
            !self.terminal ==> schedule == (Schedule::Continue {
                wait_millis: wait_after(elapsed_millis),
            }),
    {
        if self.terminal {
            Schedule::Exit
        } else {
            Schedule::Continue { wait_millis: crate::pacing::compute_wait(elapsed_millis) }
        }
    }
}

} // verus!
