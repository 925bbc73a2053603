//! The foreground controller: owns the window registry and the command
//! sender, and turns each received message into a state change and at most
//! one effect for the host to perform.

use vstd::prelude::*;
use crate::protocol::{ToplevelRequest, ToplevelUpdate, WaylandRequest, WaylandUpdate, WindowHandle};
use crate::registry::{RegistryEntry, WindowRegistry, applied, needs_resolution, unique_handles};

verus! {

/// A message delivered to the foreground: something from the protocol side,
/// or the user asking for a window to be activated.
#[derive(Clone, Debug)]
pub enum Message<S> {
    Wayland(WaylandUpdate<S>),
    Activate(WindowHandle),
}

/// What the host does after a message has been handled.
#[derive(Clone, Copy, Debug, PartialEq, Eq, Structural)]
pub enum Effect {
    /// Nothing.
    Idle,
    /// Send this request through the command sender.
    Send(WaylandRequest),
    /// The protocol side is gone: stop, loudly.
    Fatal,
}

/// The state of the controller as a mathematical value.
pub struct AppletModel<S, M> {
    pub windows: Seq<RegistryEntry<M>>,
    pub sender: Option<S>,
    pub halted: bool,
}

/// The request that activating `handle` sends, if a sender is known.
pub open spec fn activation<S>(sender: Option<S>, handle: WindowHandle) -> Option<WaylandRequest> {
    if sender.is_some() {
        Some(WaylandRequest::Toplevel(ToplevelRequest::Activate(handle)))
    } else {
        None
    }
}

/// Whether handling `msg` in state `m` needs metadata resolved first.
pub open spec fn message_needs_resolution<S, M>(m: AppletModel<S, M>, msg: Message<S>) -> bool {
    !m.halted && match msg {
        Message::Wayland(WaylandUpdate::Toplevel(u)) => needs_resolution(m.windows, u),
        _ => false,
    }
}

/// The state after handling `msg` in state `m`.
pub open spec fn step<S, M>(m: AppletModel<S, M>, msg: Message<S>, resolved: Option<M>) -> AppletModel<S, M> {
    if m.halted {
        m
    } else {
        match msg {
            Message::Wayland(WaylandUpdate::Init(tx)) => AppletModel { sender: Some(tx), ..m },
            Message::Wayland(WaylandUpdate::Finished) => AppletModel { halted: true, ..m },
            Message::Wayland(WaylandUpdate::Toplevel(u)) => AppletModel {
                windows: applied(m.windows, u, resolved),
                ..m
            },
            Message::Activate(_) => m,
        }
    }
}

/// The effect of handling `msg` in state `m`.
pub open spec fn effect_of<S, M>(m: AppletModel<S, M>, msg: Message<S>) -> Effect {
    if m.halted {
        Effect::Fatal
    } else {
        match msg {
            Message::Wayland(WaylandUpdate::Finished) => Effect::Fatal,
            Message::Activate(h) => match activation(m.sender, h) {
                Some(req) => Effect::Send(req),
                None => Effect::Idle,
            },
            _ => Effect::Idle,
        }
    }
}

/// The foreground state of the applet.
pub struct Minimize<S, M> {
    apps: WindowRegistry<M>,
    tx: Option<S>,
    finished: bool,
}

impl<S, M> View for Minimize<S, M> {
    type V = AppletModel<S, M>;

    closed spec fn view(&self) -> AppletModel<S, M> {
        AppletModel { windows: self.apps@, sender: self.tx, halted: self.finished }
    }
}

impl<S, M> Minimize<S, M> {
    /// Well-formed: the registry holds each handle at most once.
    pub closed spec fn wf(&self) -> bool {
        self.apps.wf()
    }

    /// A fresh controller: no windows, no sender yet, not halted.
    pub fn new() -> (r: Self)
        ensures
            r.wf(),
            r@.windows == Seq::<RegistryEntry<M>>::empty(),
            r@.sender.is_none(),
            !r@.halted,
    {
        Minimize { apps: WindowRegistry::new(), tx: None, finished: false }
    }

    /// The known windows in display order.
    pub fn entries(&self) -> (r: &Vec<RegistryEntry<M>>)
        requires
            self.wf(),
        ensures
            r@ == self@.windows,
            unique_handles(r@),
    {
        self.apps.entries()
    }

    /// The command sender, once the protocol side has handed it over.
    pub fn sender(&self) -> (r: Option<&S>)
        ensures
            r.is_some() == self@.sender.is_some(),
            r.is_some() ==> *r->0 == self@.sender->0,
    {
        self.tx.as_ref()
    }

    /// Whether the protocol side has finished, after which nothing is
    /// handled any more.
    pub fn is_finished(&self) -> (r: bool)
        ensures
            r == self@.halted,
    {
        self.finished
    }

    /// Whether `message` needs metadata for its application identifier
    /// before it is handled. Resolve it exactly when this holds.
    pub fn needs_metadata(&self, message: &Message<S>) -> (r: bool)
        requires
            self.wf(),
        ensures
            r == message_needs_resolution(self@, *message),
    {
        if self.finished {
            return false;
        }
        match message {
            Message::Wayland(WaylandUpdate::Toplevel(u)) => self.apps.needs_metadata(u),
            _ => false,
        }
    }

    /// The request that activates `handle`, or `None` while no sender is
    /// known: such a request is dropped, not queued.
    pub fn activate(&self, handle: WindowHandle) -> (r: Option<WaylandRequest>)
        ensures
            r == activation(self@.sender, handle),
    {
        if self.tx.is_some() {
            Some(WaylandRequest::Toplevel(ToplevelRequest::Activate(handle)))
        } else {
            None
        }
    }

    /// Handles one message. `Init` stores the sender, `Finished` halts the
    /// controller for good, a window update goes to the registry, and an
    /// activation yields a request to send once a sender is known. Once
    /// halted, every message is answered with `Effect::Fatal` and changes
    /// nothing. `resolved` is the metadata for the update's application
    /// identifier, given exactly when `needs_metadata` says so.
    pub fn update(&mut self, message: Message<S>, resolved: Option<M>) -> (r: Effect)
        requires
            old(self).wf(),
            resolved.is_some() == message_needs_resolution(old(self)@, message),
        ensures
            final(self).wf(),
            final(self)@ == step(old(self)@, message, resolved),
            r == effect_of(old(self)@, message),
    {
        if self.finished {
            return Effect::Fatal;
        }
        match message {
            Message::Wayland(WaylandUpdate::Init(tx)) => {
                self.tx = Some(tx);
                Effect::Idle
            },
            Message::Wayland(WaylandUpdate::Finished) => {
                self.finished = true;
                Effect::Fatal
            },
            Message::Wayland(WaylandUpdate::Toplevel(u)) => {
                self.apps.apply(u, resolved);
                Effect::Idle
            },
            Message::Activate(h) => match self.activate(h) {
                Some(req) => Effect::Send(req),
                None => Effect::Idle,
            },
        }
    }
}

} // verus!
