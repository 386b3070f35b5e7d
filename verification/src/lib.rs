//! Provisioning of a virtual machine whose guest operating system image must
//! be fetched, validated, and bound to a persistent hardware identity before
//! the machine can boot.
//!
//! The crate is organised leaf-first:
//!
//! - [`errors`] — the failure taxonomy of a provisioning run;
//! - [`blob`] — the byte encoding of the persisted identity artifacts;
//! - [`identity`] — the identity store: create and load the platform identity;
//! - [`inspector`] — the image inspector and its configuration requirements;
//! - [`image_store`] — the restore-image cache and its atomic persist rules;
//! - [`config`] — the configuration builder and its single-pass validation;
//! - [`queue`] — the serial execution queue and its one-shot rendezvous;
//! - [`orchestrator`] — the end-to-end provisioning state machine.
//!
//! Everything that touches the network, the filesystem, or the hypervisor
//! runtime stays outside this crate; the functions here take the outcomes of
//! those operations as plain values and decide what follows from them.

pub mod blob;
pub mod config;
pub mod errors;
pub mod identity;
pub mod image_store;
pub mod inspector;
pub mod orchestrator;
pub mod queue;

pub use errors::ErrorKind;
pub use errors::ProvisioningError;
