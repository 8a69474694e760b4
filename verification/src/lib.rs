//! A safety layer over a native device-communication subsystem.
//!
//! Every handle obtained from the native layer is wrapped in a [`guard::Guard`]
//! with a one-way invalidation transition, so that a released handle is a
//! checked runtime error instead of undefined behavior.  Devices own their
//! handle; service clients borrow validity from the device (and, for the image
//! mounter, from a specific lockdown session) and re-validate it before every
//! operation.
//!
//! The native subsystem itself is an opaque collaborator: each native call is
//! performed by the embedding application, which hands the resulting status
//! code and handle token to this library as plain values.  Everything this
//! library decides from those values is verified.

pub mod cli;
pub mod command;
pub mod device;
pub mod discovery;
pub mod error;
pub mod guard;
pub mod instproxy;
pub mod lockdownd;
pub mod marshal;
