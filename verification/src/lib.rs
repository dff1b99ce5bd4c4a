//! Decision logic for bringing a VPN tunnel up and down: classification of the
//! client's output lines, the handshake state machine of a session, and the
//! escalation rules that make sure a virtual network adapter exists.
//!
//! Nothing here touches a process, a file or a clock. The hosting program
//! performs each step that a function of this crate orders and reports back
//! what happened.

pub mod text;
pub mod event;
pub mod session;
pub mod session_laws;
pub mod provision;
pub mod provision_laws;
pub mod driver;
pub mod layout;
pub mod credentials;
pub mod adapters;
pub mod messages;
