//! Window tracking core of a panel applet that lists the open top-level
//! windows and lets the user bring one of them to the front.
//!
//! The protocol connection, the desktop-entry lookup and the rendering stay
//! with the host program; this library holds the verified state machines
//! between them.

pub mod protocol;
pub mod registry;
pub mod registry_laws;
pub mod applet;
pub mod applet_laws;
pub mod bridge;
