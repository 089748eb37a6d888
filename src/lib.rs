//! Task orchestration and radio logic for a battery-powered field device:
//! single-slot mailboxes, a bounded byte pipe, the button and LED state
//! machines, the SX1276 interface variant, the point-to-point radio cycle and
//! the WiFi connection supervisor.

pub mod button;
pub mod iv;
pub mod led;
pub mod lora;
pub mod mailbox;
pub mod p2p;
pub mod pipe;
pub mod wifi;
