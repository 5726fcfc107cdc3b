//! Device-side engine for the USB Device Firmware Upgrade (DFU) protocol,
//! version 1.1a.
//!
//! The crate interprets DFU class-specific control requests, drives the DFU
//! state machine, and delegates storage operations (read, erase, program,
//! manifestation) to a memory back end supplied by the user through the
//! [`DFUMemIO`] trait. The USB transport itself (endpoint handling, control
//! transfer framing, descriptor enumeration) is left to the caller: the
//! engine receives plain request records and returns plain accept/reject
//! outcomes together with any reply bytes.

pub mod class;
pub mod laws;
pub mod memio;
pub mod status;

pub use crate::class::{functional_descriptor, DFUClass, InResponse, OutResponse, Recipient, Request, RequestType};
pub use crate::memio::{DFUConfig, DFUManifestationError, DFUMemError, DFUMemIO};
pub use crate::status::{Command, DFUState, DFUStatus, DFUStatusCode};
