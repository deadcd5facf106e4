//! Routing core for driving a virtual game controller on a remote host from
//! one physical controller.
//!
//! The library holds the pure decision logic: translating captured input
//! events into compact wire messages and back into virtual-device actions
//! (`packet`, `replay`), and the selection router that decides, per event,
//! whether it is a client-selection gesture or a value to forward (`router`).
//! Capturing events, carrying messages over the network and driving the
//! virtual device are left to the surrounding binary.

pub mod packet;
pub mod replay;
pub mod router;
