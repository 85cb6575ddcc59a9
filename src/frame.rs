use vstd::prelude::*;
use crate::controller::{CameraController, InputEvent};

verus! {

/// Width and height, in physical pixels, of the presentation surface.
#[derive(Clone, Copy, Debug, PartialEq, Eq, Structural)]
pub struct SurfaceSize {
    pub width: u32,
    pub height: u32,
}

impl SurfaceSize {
    pub fn new(width: u32, height: u32) -> (r: SurfaceSize)
        ensures
            r.width == width,
            r.height == height,
    {
        SurfaceSize { width, height }
    }

    /// The screen-size uniform: width then height, each as the four bytes of a
    /// `u32` in the machine's own order.
    pub fn uniform_bytes(&self) -> (r: Vec<u8>)
        ensures
            r@ == le_word(self.width) + le_word(self.height) || r@ == be_word(self.width)
                + be_word(self.height),
    {
        let words: Vec<u32> = vec![self.width, self.height];
        let r = u32s_as_bytes(words.as_slice());
        proof {
            assert(words@[0] == self.width && words@[1] == self.height);
            let first: int = 0;
            let second: int = 1;
            let lo = r@.subrange(4 * first, 4 * first + 4);
            let hi = r@.subrange(4 * second, 4 * second + 4);
            assert(r@ =~= lo + hi);
            if lo == le_word(words@[first]) && hi == le_word(words@[second]) {
                assert(r@ == le_word(self.width) + le_word(self.height));
            } else {
                assert(r@ == be_word(self.width) + be_word(self.height));
            }
        }
        r
    }
}

/// The four bytes of a word, least significant first.
pub open spec fn le_word(x: u32) -> Seq<u8> {
    seq![
        (x % 0x100) as u8,
        (x / 0x100 % 0x100) as u8,
        (x / 0x1_0000 % 0x100) as u8,
        (x / 0x100_0000 % 0x100) as u8,
    ]
}

/// The four bytes of a word, most significant first.
pub open spec fn be_word(x: u32) -> Seq<u8> {
    seq![
        (x / 0x100_0000 % 0x100) as u8,
        (x / 0x1_0000 % 0x100) as u8,
        (x / 0x100 % 0x100) as u8,
        (x % 0x100) as u8,
    ]
}

/// Relies on bytemuck::cast_slice from `u32` to `u8`: the bytes of the words as
/// they lie in memory, four per word, all in the machine's one byte order. The
/// cast cannot fail, as `u8` has neither a larger alignment nor a size that
/// leaves a remainder.
#[verifier::external_body]
fn u32s_as_bytes(words: &[u32]) -> (r: Vec<u8>)
    ensures
        r@.len() == 4 * words@.len(),
        (forall|i: int|
            0 <= i < words@.len() ==> #[trigger] r@.subrange(4 * i, 4 * i + 4) == le_word(
                words@[i],
            )) || (forall|i: int|
            0 <= i < words@.len() ==> #[trigger] r@.subrange(4 * i, 4 * i + 4) == be_word(
                words@[i],
            )),
{
    bytemuck::cast_slice::<u32, u8>(words).to_vec()
}

/// Where the frame cycle stands. A resize and a present are each carried out
/// within one action, so neither needs a phase of its own.
#[derive(Clone, Copy, Debug, PartialEq, Eq, Structural)]
pub enum FramePhase {
    /// GPU objects are being built.
    Initializing,
    /// Between frames: resizes and redraw requests are taken.
    Ready,
    /// The per-frame update (camera, light, bounds, noise) is running.
    Updating,
    /// The frame is being drawn, submitted and presented.
    Rendering,
    /// Terminal: the application is closing.
    ShuttingDown,
}

/// How acquiring and presenting a surface image went.
#[derive(Clone, Copy, Debug, PartialEq, Eq, Structural)]
pub enum PresentOutcome {
    Presented,
    Lost,
    Outdated,
    Timeout,
    OutOfMemory,
    Other,
}

/// What drives the frame cycle.
#[derive(Clone, Copy, Debug, PartialEq, Eq, Structural)]
pub enum FrameEvent {
    /// Construction of the GPU objects finished.
    Initialized,
    /// The window's client area changed size.
    Resized { width: u32, height: u32 },
    /// The window asks for a new frame.
    RedrawRequested,
    /// The per-frame update finished.
    Updated,
    /// The frame's image was acquired and presented, or failed as given.
    Presented { outcome: PresentOutcome },
    /// The window is to close.
    CloseRequested,
}

/// What the caller does next.
#[derive(Clone, Copy, Debug, PartialEq, Eq, Structural)]
pub enum FrameAction {
    /// Nothing.
    Idle,
    /// Reconfigure the surface, rebuild the depth buffer, set the camera's
    /// aspect ratio and upload the screen size, all at the given size.
    Reconfigure { size: SurfaceSize },
    /// Run the per-frame update.
    Update,
    /// Acquire an image, draw, submit and present.
    Render,
    /// Log that a frame missed its deadline and go on.
    WarnTimeout,
    /// Terminate the application.
    Exit,
}

/// The state of the frame cycle: its phase and the size of the surface.
#[derive(Clone, Copy, Debug, PartialEq, Eq, Structural)]
pub struct FrameState {
    pub phase: FramePhase,
    pub size: SurfaceSize,
}

impl FrameState {
    /// The state after a resize request: a size with a zero side changes nothing.
    pub open spec fn resized(self, width: u32, height: u32) -> FrameState {
        if width > 0 && height > 0 {
            FrameState { size: SurfaceSize { width, height }, ..self }
        } else {
            self
        }
    }

    /// The next state and the action for one event.
    pub open spec fn step(self, event: FrameEvent) -> (FrameState, FrameAction) {
        if self.phase == FramePhase::ShuttingDown {
            (self, FrameAction::Idle)
        } else {
            match event {
                FrameEvent::CloseRequested => (
                    FrameState { phase: FramePhase::ShuttingDown, ..self },
                    FrameAction::Exit,
                ),
                FrameEvent::Initialized => if self.phase == FramePhase::Initializing {
                    (FrameState { phase: FramePhase::Ready, ..self }, FrameAction::Idle)
                } else {
                    (self, FrameAction::Idle)
                },
                FrameEvent::Resized { width, height } => if width > 0 && height > 0 {
                    (
                        self.resized(width, height),
                        FrameAction::Reconfigure { size: SurfaceSize { width, height } },
                    )
                } else {
                    (self, FrameAction::Idle)
                },
                FrameEvent::RedrawRequested => if self.phase == FramePhase::Ready {
                    (FrameState { phase: FramePhase::Updating, ..self }, FrameAction::Update)
                } else {
                    (self, FrameAction::Idle)
                },
                FrameEvent::Updated => if self.phase == FramePhase::Updating {
                    (FrameState { phase: FramePhase::Rendering, ..self }, FrameAction::Render)
                } else {
                    (self, FrameAction::Idle)
                },
                FrameEvent::Presented { outcome } => if self.phase == FramePhase::Rendering {
                    match outcome {
                        PresentOutcome::Presented => (
                            FrameState { phase: FramePhase::Ready, ..self },
                            FrameAction::Idle,
                        ),
                        PresentOutcome::Lost | PresentOutcome::Outdated => (
                            FrameState { phase: FramePhase::Ready, ..self },
                            FrameAction::Reconfigure { size: self.size },
                        ),
                        PresentOutcome::Timeout => (
                            FrameState { phase: FramePhase::Ready, ..self },
                            FrameAction::WarnTimeout,
                        ),
                        PresentOutcome::OutOfMemory | PresentOutcome::Other => (
                            FrameState { phase: FramePhase::ShuttingDown, ..self },
                            FrameAction::Exit,
                        ),
                    }
                } else {
                    (self, FrameAction::Idle)
                },
            }
        }
    }
}

/// Sequences resize, update, render and present across frames, and decides how
/// to react to a failed present.
pub struct FrameOrchestrator {
    state: FrameState,
}

impl View for FrameOrchestrator {
    type V = FrameState;

    closed spec fn view(&self) -> FrameState {
        self.state
    }
}

impl FrameOrchestrator {
    /// A cycle that is building its GPU objects for a surface of the given size.
    pub fn new(width: u32, height: u32) -> (r: FrameOrchestrator)
        ensures
            r@ == (FrameState {
                phase: FramePhase::Initializing,
                size: SurfaceSize { width, height },
            }),
    {
        FrameOrchestrator {
            state: FrameState { phase: FramePhase::Initializing, size: SurfaceSize { width, height } },
        }
    }

    pub fn phase(&self) -> (r: FramePhase)
        ensures
            r == self@.phase,
    {
        self.state.phase
    }

    /// The surface size, the one source of the aspect ratio and the screen-size uniform.
    pub fn size(&self) -> (r: SurfaceSize)
        ensures
            r == self@.size,
    {
        self.state.size
    }

    /// Takes a new window size. A size with a zero side is ignored; otherwise the
    /// size is stored and `true` says that the GPU resources must be rebuilt at it.
    pub fn resize(&mut self, width: u32, height: u32) -> (r: bool)
        ensures
            r == (width > 0 && height > 0),
            final(self)@ == old(self)@.resized(width, height),
    {
        if width > 0 && height > 0 {
            self.state.size = SurfaceSize { width, height };
            true
        } else {
            false
        }
    }

    /// Advances the cycle by one event and says what to do next.
    pub fn handle_event(&mut self, event: FrameEvent) -> (r: FrameAction)
        ensures
            (final(self)@, r) == old(self)@.step(event),
    {
        if self.state.phase == FramePhase::ShuttingDown {
            return FrameAction::Idle;
        }
        match event {
            FrameEvent::CloseRequested => {
                self.state.phase = FramePhase::ShuttingDown;
                FrameAction::Exit
            },
            FrameEvent::Initialized => {
                if self.state.phase == FramePhase::Initializing {
                    self.state.phase = FramePhase::Ready;
                }
                FrameAction::Idle
            },
            FrameEvent::Resized { width, height } => {
                if self.resize(width, height) {
                    FrameAction::Reconfigure { size: self.state.size }
                } else {
                    FrameAction::Idle
                }
            },
            FrameEvent::RedrawRequested => {
                if self.state.phase == FramePhase::Ready {
                    self.state.phase = FramePhase::Updating;
                    FrameAction::Update
                } else {
                    FrameAction::Idle
                }
            },
            FrameEvent::Updated => {
                if self.state.phase == FramePhase::Updating {
                    self.state.phase = FramePhase::Rendering;
                    FrameAction::Render
                } else {
                    FrameAction::Idle
                }
            },
            FrameEvent::Presented { outcome } => {
                if self.state.phase != FramePhase::Rendering {
                    return FrameAction::Idle;
                }
                match outcome {
                    PresentOutcome::Presented => {
                        self.state.phase = FramePhase::Ready;
                        FrameAction::Idle
                    },
                    PresentOutcome::Lost | PresentOutcome::Outdated => {
                        self.state.phase = FramePhase::Ready;
                        FrameAction::Reconfigure { size: self.state.size }
                    },
                    PresentOutcome::Timeout => {
                        self.state.phase = FramePhase::Ready;
                        FrameAction::WarnTimeout
                    },
                    PresentOutcome::OutOfMemory | PresentOutcome::Other => {
                        self.state.phase = FramePhase::ShuttingDown;
                        FrameAction::Exit
                    },
                }
            },
        }
    }
}

/// Hands one window event to the camera controller and then, unless the
/// controller took it, to the frame cycle.
///
/// `input` is the event as the controller sees it and `frame_event` as the
/// frame cycle sees it, if at all. While the UI layer claims the input
/// (`ui_captures`), the controller is left out.
pub fn route_window_event<S: Copy>(
    controller: &mut CameraController<S>,
    frame: &mut FrameOrchestrator,
    input: &InputEvent,
    frame_event: Option<FrameEvent>,
    ui_captures: bool,
) -> (r: FrameAction)
    ensures
        ui_captures ==> *final(controller) == *old(controller),
        !ui_captures ==> *final(controller) == old(controller).after(*input),
        if !ui_captures && old(controller).consumes(*input) {
            final(frame)@ == old(frame)@ && r == FrameAction::Idle
        } else {
            match frame_event {
                Some(e) => (final(frame)@, r) == old(frame)@.step(e),
                None => final(frame)@ == old(frame)@ && r == FrameAction::Idle,
            }
        },
{
    if !ui_captures && controller.process_events(input) {
        return FrameAction::Idle;
    }
    match frame_event {
        Some(e) => frame.handle_event(e),
        None => FrameAction::Idle,
    }
}

/// A resize to a size with a zero side is a no-op: the stored size, and so every
/// GPU resource built at it, stays as it was, and nothing is rebuilt.
pub proof fn lemma_zero_resize_is_noop(s: FrameState, width: u32, height: u32)
    requires
        width == 0 || height == 0,
    ensures
        s.resized(width, height) == s,
        s.step(FrameEvent::Resized { width, height }) == (s, FrameAction::Idle),
{
}

/// Resizing twice to the same size leaves the state of a single resize.
pub proof fn lemma_resize_idempotent(s: FrameState, width: u32, height: u32)
    ensures
        s.resized(width, height).resized(width, height) == s.resized(width, height),
{
}

/// A lost or outdated surface is rebuilt at the size already known, and the
/// cycle goes back to waiting for the next frame.
pub proof fn lemma_lost_surface_recovers(s: FrameState, outcome: PresentOutcome)
    requires
        s.phase == FramePhase::Rendering,
        outcome == PresentOutcome::Lost || outcome == PresentOutcome::Outdated,
    ensures
        s.step(FrameEvent::Presented { outcome }) == (
            FrameState { phase: FramePhase::Ready, ..s },
            FrameAction::Reconfigure { size: s.size },
        ),
{
}

} // verus!
