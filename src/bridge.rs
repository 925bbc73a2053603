//! The decisions of the background side: which message each protocol event
//! becomes, what each command asks of the connection, and when the loop is
//! over. The host runs the loop, performs the actions and reports the
//! events.

use vstd::prelude::*;
use crate::protocol::{ToplevelInfo, ToplevelRequest, ToplevelUpdate, WaylandRequest, WaylandUpdate, WindowHandle};

verus! {

/// A decoded window event of the protocol connection.
#[derive(Clone, Debug)]
pub enum ProtocolEvent {
    /// A window appeared, with its first info.
    NewToplevel(WindowHandle, ToplevelInfo),
    /// A window's info changed.
    ToplevelChanged(WindowHandle, ToplevelInfo),
    /// A window went away.
    ToplevelClosed(WindowHandle),
}

/// Something the background loop woke up for.
#[derive(Clone, Debug)]
pub enum BridgeEvent {
    /// An event of the protocol connection.
    Protocol(ProtocolEvent),
    /// A command received from the foreground.
    Request(WaylandRequest),
    /// The connection rejected an activation, e.g. of a window that is gone.
    ActivationFailed(WindowHandle),
    /// The connection broke for good.
    ConnectionLost,
}

/// What the host does on the background side after an event.
#[derive(Clone, Debug)]
pub enum BridgeAction<S> {
    /// Nothing.
    Nothing,
    /// Send this message to the foreground.
    Emit(WaylandUpdate<S>),
    /// Ask the connection to activate this window.
    ActivateWindow(WindowHandle),
}

/// Where the background loop is in its life.
#[derive(Clone, Copy, Debug, PartialEq, Eq, Structural)]
pub enum BridgeState {
    /// Not started: the foreground has no sender yet.
    Idle,
    /// `Init` has been sent; events are being handled.
    Running,
    /// The connection is gone; `Finished` has been sent.
    Stopped,
}

/// The update that a protocol event becomes: one event, one update.
pub open spec fn translated(ev: ProtocolEvent) -> ToplevelUpdate {
    match ev {
        ProtocolEvent::NewToplevel(h, info) => ToplevelUpdate::Add(h, info),
        ProtocolEvent::ToplevelChanged(h, info) => ToplevelUpdate::Update(h, info),
        ProtocolEvent::ToplevelClosed(h) => ToplevelUpdate::Remove(h),
    }
}

/// The state after `ev` in state `st`.
pub open spec fn bridge_next(st: BridgeState, ev: BridgeEvent) -> BridgeState {
    match (st, ev) {
        (BridgeState::Running, BridgeEvent::ConnectionLost) => BridgeState::Stopped,
        _ => st,
    }
}

/// The action for `ev` in state `st`: a protocol event is forwarded, an
/// activation command goes to the connection, a failed activation is
/// ignored, a lost connection is reported as `Finished`. Nothing happens
/// outside the running state.
pub open spec fn bridge_action<S>(st: BridgeState, ev: BridgeEvent) -> BridgeAction<S> {
    if st != BridgeState::Running {
        BridgeAction::Nothing
    } else {
        match ev {
            BridgeEvent::Protocol(p) => BridgeAction::Emit(WaylandUpdate::Toplevel(translated(p))),
            BridgeEvent::Request(WaylandRequest::Toplevel(ToplevelRequest::Activate(h))) => BridgeAction::ActivateWindow(h),
            BridgeEvent::ActivationFailed(_) => BridgeAction::Nothing,
            BridgeEvent::ConnectionLost => BridgeAction::Emit(WaylandUpdate::Finished),
        }
    }
}

/// The update that a protocol event becomes.
pub fn translate(ev: ProtocolEvent) -> (r: ToplevelUpdate)
    ensures
        r == translated(ev),
{
    match ev {
        ProtocolEvent::NewToplevel(h, info) => ToplevelUpdate::Add(h, info),
        ProtocolEvent::ToplevelChanged(h, info) => ToplevelUpdate::Update(h, info),
        ProtocolEvent::ToplevelClosed(h) => ToplevelUpdate::Remove(h),
    }
}

/// The background side's state.
pub struct EventBridge {
    state: BridgeState,
}

impl View for EventBridge {
    type V = BridgeState;

    closed spec fn view(&self) -> BridgeState {
        self.state
    }
}

impl EventBridge {
    /// A bridge that has not started.
    pub fn new() -> (r: Self)
        ensures
            r@ == BridgeState::Idle,
    {
        EventBridge { state: BridgeState::Idle }
    }

    /// The current state.
    pub fn state(&self) -> (r: BridgeState)
        ensures
            r == self@,
    {
        self.state
    }

    /// Starts the loop: the first call yields the `Init` message carrying
    /// the command sender, every later call yields nothing, so `Init` goes
    /// out exactly once.
    pub fn start<S>(&mut self, command_sender: S) -> (r: Option<WaylandUpdate<S>>)
        ensures
            old(self)@ == BridgeState::Idle ==> final(self)@ == BridgeState::Running
                && r == Some(WaylandUpdate::Init(command_sender)),
            old(self)@ != BridgeState::Idle ==> final(self)@ == old(self)@ && r.is_none(),
    {
        if self.state == BridgeState::Idle {
            self.state = BridgeState::Running;
            Some(WaylandUpdate::Init(command_sender))
        } else {
            None
        }
    }

    /// Handles one event of the loop.
    pub fn handle<S>(&mut self, ev: BridgeEvent) -> (r: BridgeAction<S>)
        ensures
            final(self)@ == bridge_next(old(self)@, ev),
            r == bridge_action::<S>(old(self)@, ev),
    {
        if self.state != BridgeState::Running {
            return BridgeAction::Nothing;
        }
        match ev {
            BridgeEvent::Protocol(p) => BridgeAction::Emit(WaylandUpdate::Toplevel(translate(p))),
            BridgeEvent::Request(WaylandRequest::Toplevel(ToplevelRequest::Activate(h))) => BridgeAction::ActivateWindow(h),
            BridgeEvent::ActivationFailed(_) => BridgeAction::Nothing,
            BridgeEvent::ConnectionLost => {
                self.state = BridgeState::Stopped;
                BridgeAction::Emit(WaylandUpdate::Finished)
            },
        }
    }
}

/// Keeps a subscription from spawning more than one background loop when
/// the host activates it again.
pub struct SubscriptionAdapter {
    spawned: bool,
}

impl View for SubscriptionAdapter {
    type V = bool;

    closed spec fn view(&self) -> bool {
        self.spawned
    }
}

impl SubscriptionAdapter {
    /// An adapter that has not spawned its loop.
    pub fn new() -> (r: Self)
        ensures
            !r@,
    {
        SubscriptionAdapter { spawned: false }
    }

    /// Called on each activation of the subscription: true, meaning "spawn
    /// the background loop now", on the first call only.
    pub fn activate(&mut self) -> (spawn: bool)
        ensures
            spawn == !old(self)@,
            final(self)@,
    {
        let spawn = !self.spawned;
        self.spawned = true;
        spawn
    }

    /// Whether the background loop has been spawned.
    pub fn is_spawned(&self) -> (r: bool)
        ensures
            r == self@,
    {
        self.spawned
    }
}

} // verus!
