//! A stateful LED-device control service: a validated command layer over an
//! LED strip capability, a per-call dispatcher, and the start/stop lifecycle
//! of the worker that serves incoming calls.

pub mod color;
pub mod command;
pub mod device;
pub mod fault;
pub mod lifecycle;
pub mod service;
