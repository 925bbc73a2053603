//! Values exchanged between the protocol side and the foreground.

use vstd::prelude::*;

verus! {

/// Stable identifier of one top-level window, issued by the protocol side.
#[derive(Clone, Copy, Debug, PartialEq, Eq, Structural)]
pub struct WindowHandle(pub u64);

/// A state flag that the compositor reports for a window.
#[derive(Clone, Copy, Debug, PartialEq, Eq, Structural)]
pub enum ToplevelState {
    Maximized,
    Minimized,
    Activated,
    Fullscreen,
}

/// Descriptive state of a window at one point in time.
#[derive(Clone, Debug)]
pub struct ToplevelInfo {
    pub app_id: String,
    pub title: String,
    pub states: Vec<ToplevelState>,
}

/// One change of the window set, as delivered by the protocol side.
#[derive(Clone, Debug)]
pub enum ToplevelUpdate {
    Add(WindowHandle, ToplevelInfo),
    Update(WindowHandle, ToplevelInfo),
    Remove(WindowHandle),
}

/// A command for one window.
#[derive(Clone, Copy, Debug, PartialEq, Eq, Structural)]
pub enum ToplevelRequest {
    Activate(WindowHandle),
}

/// Everything the protocol side sends to the foreground. `S` is the sending
/// end of the command channel, handed over once by `Init`.
#[derive(Clone, Debug)]
pub enum WaylandUpdate<S> {
    Init(S),
    Finished,
    Toplevel(ToplevelUpdate),
}

/// Everything the foreground sends to the protocol side.
#[derive(Clone, Copy, Debug, PartialEq, Eq, Structural)]
pub enum WaylandRequest {
    Toplevel(ToplevelRequest),
}

impl ToplevelUpdate {
    /// The window that the update is about.
    pub open spec fn handle_spec(&self) -> WindowHandle {
        match self {
            ToplevelUpdate::Add(h, _) => *h,
            ToplevelUpdate::Update(h, _) => *h,
            ToplevelUpdate::Remove(h) => *h,
        }
    }

    /// The window that the update is about.
    pub fn handle(&self) -> (r: WindowHandle)
        ensures
            r == self.handle_spec(),
    {
        match self {
            ToplevelUpdate::Add(h, _) => *h,
            ToplevelUpdate::Update(h, _) => *h,
            ToplevelUpdate::Remove(h) => *h,
        }
    }
}

} // verus!
