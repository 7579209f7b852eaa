//! Rendezvous logic between a controlling process and a terminal agent
//! running in a freshly opened terminal window.
//!
//! The library holds the verified core: assembling the agent's argument
//! vector, trimming the identity line the agent sends back, resolving the
//! terminal's device names per platform model, and the detach/attach/detach
//! sequencing that a console-model platform needs. The socket rendezvous and
//! the raw console calls themselves are plain I/O and live with the caller.

pub mod args;
pub mod console;
pub mod numeric;
pub mod terminal;
pub mod text;
