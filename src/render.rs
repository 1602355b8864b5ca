use vstd::prelude::*;

verus! {

/// Pixel size of a window or of the surface configured for it.
#[derive(Clone, Copy, Debug, PartialEq, Eq, Structural)]
pub struct Size {
    pub width: u32,
    pub height: u32,
}

/// A size the surface can be configured with: no side is zero.
pub open spec fn is_drawable(s: Size) -> bool {
    s.width > 0 && s.height > 0
}

/// Why the next frame target could not be acquired.
#[derive(Clone, Copy, Debug, PartialEq, Eq, Structural)]
pub enum SurfaceError {
    /// The surface must be configured again.
    Lost,
    /// The surface configuration no longer matches the window.
    Outdated,
    /// The device ran out of memory.
    OutOfMemory,
    /// No frame became available in time.
    Timeout,
}

/// What the caller does after one frame attempt.
#[derive(Clone, Copy, Debug, PartialEq, Eq, Structural)]
pub enum FrameAction {
    /// The frame was drawn and presented.
    Presented,
    /// Nothing was drawn: configure the surface at this size before the next
    /// frame.
    Reconfigure(Size),
    /// Nothing was drawn: try again on the next tick.
    Skip,
    /// Stop: no further frame will be rendered.
    Exit,
}

/// A window event, as far as the render loop distinguishes them.
#[derive(Clone, Copy, Debug, PartialEq, Eq, Structural)]
pub enum WindowEvent {
    CloseRequested,
    EscapePressed,
    Resized(Size),
    ScaleFactorChanged(Size),
    RedrawRequested,
    EventsCleared,
    Other,
}

/// What the caller does in answer to a window event.
#[derive(Clone, Copy, Debug, PartialEq, Eq, Structural)]
pub enum LoopAction {
    /// Leave the event loop.
    Exit,
    /// Configure the surface at this size.
    Configure(Size),
    /// Render one frame and report its outcome to `State::after_render`.
    Render,
    /// Ask the window for a redraw.
    RequestRedraw,
    /// Nothing to do.
    Wait,
}

/// How a running renderer answers `event`, moving from `before` to `after`:
/// closing stops it; a resize configures a drawable size and ignores any
/// other; a redraw request renders; the end of a batch of events asks for a
/// redraw.
pub open spec fn answers(before: State, event: WindowEvent, after: State, r: LoopAction) -> bool {
    match event {
        WindowEvent::CloseRequested | WindowEvent::EscapePressed => {
            &&& r == LoopAction::Exit
            &&& !after.spec_running()
            &&& after.spec_size() == before.spec_size()
        },
        WindowEvent::Resized(s) | WindowEvent::ScaleFactorChanged(s) => {
            &&& after.spec_running()
            &&& if is_drawable(s) {
                r == LoopAction::Configure(s) && after.spec_size() == s
            } else {
                r == LoopAction::Wait && after.spec_size() == before.spec_size()
            }
        },
        WindowEvent::RedrawRequested => r == LoopAction::Render && after == before,
        WindowEvent::EventsCleared => r == LoopAction::RequestRedraw && after == before,
        WindowEvent::Other => r == LoopAction::Wait && after == before,
    }
}

/// The decision state of a renderer: the size its surface is configured
/// with, how many indices each frame draws, and whether frames may still be
/// rendered.
pub struct State {
    size: Size,
    index_count: u32,
    running: bool,
}

impl State {
    pub closed spec fn spec_size(&self) -> Size {
        self.size
    }

    pub closed spec fn spec_index_count(&self) -> u32 {
        self.index_count
    }

    pub closed spec fn spec_running(&self) -> bool {
        self.running
    }

    /// A renderer whose surface is configured at `size` and whose index
    /// buffer holds `index_count` indices.
    pub fn new(size: Size, index_count: u32) -> (s: State)
        ensures
            s.spec_size() == size,
            s.spec_index_count() == index_count,
            s.spec_running(),
    {
        State { size, index_count, running: true }
    }

    /// The size the surface is configured with.
    pub fn size(&self) -> (r: Size)
        ensures
            r == self.spec_size(),
    {
        self.size
    }

    /// Number of indices that one frame draws, as a single instance.
    pub fn index_count(&self) -> (r: u32)
        ensures
            r == self.spec_index_count(),
    {
        self.index_count
    }

    /// Whether frames may still be rendered.
    pub fn is_running(&self) -> (r: bool)
        ensures
            r == self.spec_running(),
    {
        self.running
    }

    /// Records a new window size. A size with a zero side is ignored and
    /// `None` returned; otherwise it is stored and returned, and the caller
    /// configures the surface with it.
    pub fn resize(&mut self, new_size: Size) -> (r: Option<Size>)
        ensures
            is_drawable(new_size) ==> final(self).spec_size() == new_size && r == Some(new_size),
            !is_drawable(new_size) ==> final(self).spec_size() == old(self).spec_size()
                && r is None,
            final(self).spec_index_count() == old(self).spec_index_count(),
            final(self).spec_running() == old(self).spec_running(),
    {
        if new_size.width > 0 && new_size.height > 0 {
            self.size = new_size;
            Some(new_size)
        } else {
            None
        }
    }

    /// Decides what follows one attempt to render a frame, given whether the
    /// frame target was acquired. A lost or outdated surface is resized to
    /// the last known size; running out of memory stops rendering for good;
    /// a timeout skips the tick.
    pub fn after_render(&mut self, acquired: Result<(), SurfaceError>) -> (r: FrameAction)
        ensures
            final(self).spec_size() == old(self).spec_size(),
            final(self).spec_index_count() == old(self).spec_index_count(),
            acquired is Ok ==> r == FrameAction::Presented && final(self).spec_running()
                == old(self).spec_running(),
            acquired == Err::<(), SurfaceError>(SurfaceError::Lost) || acquired == Err::<
                (),
                SurfaceError,
            >(SurfaceError::Outdated) ==> final(self).spec_running() == old(self).spec_running()
                && (if is_drawable(old(self).spec_size()) {
                r == FrameAction::Reconfigure(old(self).spec_size())
            } else {
                r == FrameAction::Skip
            }),
            acquired == Err::<(), SurfaceError>(SurfaceError::OutOfMemory) ==> r
                == FrameAction::Exit && !final(self).spec_running(),
            acquired == Err::<(), SurfaceError>(SurfaceError::Timeout) ==> r == FrameAction::Skip
                && final(self).spec_running() == old(self).spec_running(),
    {
        match acquired {
            Ok(()) => FrameAction::Presented,
            Err(SurfaceError::Lost) | Err(SurfaceError::Outdated) => {
                let size = self.size;
                match self.resize(size) {
                    Some(s) => FrameAction::Reconfigure(s),
                    None => FrameAction::Skip,
                }
            },
            Err(SurfaceError::OutOfMemory) => {
                self.running = false;
                FrameAction::Exit
            },
            Err(SurfaceError::Timeout) => FrameAction::Skip,
        }
    }

    /// Decides how the event loop answers a window event. Once rendering has
    /// stopped, every event ends the loop.
    pub fn on_event(&mut self, event: WindowEvent) -> (r: LoopAction)
        ensures
            final(self).spec_index_count() == old(self).spec_index_count(),
            !old(self).spec_running() ==> r == LoopAction::Exit && *final(self) == *old(self),
            old(self).spec_running() ==> answers(*old(self), event, *final(self), r),
    {
        if !self.running {
            return LoopAction::Exit;
        }
        match event {
            WindowEvent::CloseRequested | WindowEvent::EscapePressed => {
                self.running = false;
                LoopAction::Exit
            },
            WindowEvent::Resized(s) | WindowEvent::ScaleFactorChanged(s) => {
                match self.resize(s) {
                    Some(c) => LoopAction::Configure(c),
                    None => LoopAction::Wait,
                }
            },
            WindowEvent::RedrawRequested => LoopAction::Render,
            WindowEvent::EventsCleared => LoopAction::RequestRedraw,
            WindowEvent::Other => LoopAction::Wait,
        }
    }
}

} // verus!
