//! Core logic of a terminal session host.
//!
//! The library holds the decision-making parts of a terminal session:
//! translating key events into control bytes or clipboard actions,
//! coalescing window-size observations, the per-read decision of the
//! output relay, and the values a session is started with (shell path,
//! child environment, buffer size).  The surrounding process — opening
//! the pseudo-terminal, spawning the shell, and running the relay
//! threads — performs I/O only and feeds these functions plain values.

pub mod color;
pub mod keys;
pub mod resize;
pub mod session;
