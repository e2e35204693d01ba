//! A PCI GPIO expander driver core, verified.
//!
//! The driver binds three independently managed entities: a memory-mapped
//! register window claimed from a PCI device, the line-controller object the
//! host GPIO subsystem exposes to consumers, and the driver's own per-device
//! state. The modules below model the host-side collaborators (PCI bus, GPIO
//! subsystem, driver framework) as plain values, so that the resource-binding
//! protocol itself — bounds-checked register access, the probe sequence with
//! its failure short-circuits and cleanup, the teardown ordering — is stated
//! in contracts and proved.

pub mod bus;
pub mod chip;
pub mod context;
pub mod errors;
pub mod lifecycle;
pub mod regs;
