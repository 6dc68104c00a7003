//! Decoders for a raw PCI/PCIe configuration-space snapshot.
//!
//! A [`config::Pci`] owns an immutable copy of one device's configuration
//! space (at most 4096 bytes, zero-padded internally) and exposes bounded,
//! little-endian field reads, the fixed header fields, the two capability
//! linked-list walks, and typed decoders for the well-known capabilities
//! (power management, MSI, MSI-X, PCI Express, device serial number).
//!
//! Every read is bounds-checked against the captured snapshot length; a read
//! that would run past it returns [`config::PciError::OutOfBounds`] instead of
//! aliasing adjacent memory. Both list walks carry an explicit hop bound, so
//! they terminate even on a corrupted snapshot whose next-pointers form a
//! cycle.

pub mod bits;
pub mod cap;
pub mod config;
pub mod fld;
