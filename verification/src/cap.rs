//! Typed capability records.
//!
//! Each record carries plain extracted values, never a live view into the
//! snapshot. `cap_on == false` together with `base_ptr == 0` and zeroed
//! sub-fields stands for an absent capability; offset 0 is never a legitimate
//! capability location, since the first 64 bytes hold the fixed header.

use vstd::prelude::*;

use crate::fld::{
    CapExtHdr, CapHdr, DevCap, DevCap2, DevControl, DevControl2, DevStatus, DevStatus2, LinkCap,
    LinkCap2, LinkControl, LinkControl2, LinkStatus, LinkStatus2, MsiCap, MsixCap, PciCap, PmCap,
    PmCsr,
};

verus! {

/// The power-management capability: header, capabilities and control/status.
#[derive(Debug, Clone, Copy, PartialEq, Eq, Structural)]
pub struct PM {
    pub cap_on: bool,
    pub base_ptr: u8,
    pub hdr: CapHdr,
    pub cap: PmCap,
    pub csr: PmCsr,
}

impl PM {
    /// The record standing for an absent power-management capability.
    pub open spec fn absent() -> PM {
        PM { cap_on: false, base_ptr: 0u8, hdr: CapHdr(0u16), cap: PmCap(0u16), csr: PmCsr(0u16) }
    }

    pub fn new() -> (r: PM)
        ensures
            r == PM::absent(),
    {
        PM { cap_on: false, base_ptr: 0, hdr: CapHdr(0), cap: PmCap(0), csr: PmCsr(0) }
    }
}

/// The MSI capability: header and message control.
#[derive(Debug, Clone, Copy, PartialEq, Eq, Structural)]
pub struct MSI {
    pub cap_on: bool,
    pub base_ptr: u8,
    pub hdr: CapHdr,
    pub cap: MsiCap,
}

impl MSI {
    /// The record standing for an absent MSI capability.
    pub open spec fn absent() -> MSI {
        MSI { cap_on: false, base_ptr: 0u8, hdr: CapHdr(0u16), cap: MsiCap(0u16) }
    }

    pub fn new() -> (r: MSI)
        ensures
            r == MSI::absent(),
    {
        MSI { cap_on: false, base_ptr: 0, hdr: CapHdr(0), cap: MsiCap(0) }
    }
}

/// The MSI-X capability: header and message control.
#[derive(Debug, Clone, Copy, PartialEq, Eq, Structural)]
pub struct MSIX {
    pub cap_on: bool,
    pub base_ptr: u8,
    pub hdr: CapHdr,
    pub cap: MsixCap,
}

impl MSIX {
    /// The record standing for an absent MSI-X capability.
    pub open spec fn absent() -> MSIX {
        MSIX { cap_on: false, base_ptr: 0u8, hdr: CapHdr(0u16), cap: MsixCap(0u16) }
    }

    pub fn new() -> (r: MSIX)
        ensures
            r == MSIX::absent(),
    {
        MSIX { cap_on: false, base_ptr: 0, hdr: CapHdr(0), cap: MsixCap(0) }
    }
}

/// The PCI Express device capability/control/status word group.
#[derive(Debug, Clone, Copy, PartialEq, Eq, Structural)]
pub struct DEV {
    pub cap: DevCap,
    pub control: DevControl,
    pub status: DevStatus,
}

impl DEV {
    /// The all-zero device word group.
    pub open spec fn absent() -> DEV {
        DEV { cap: DevCap(0u32), control: DevControl(0u16), status: DevStatus(0u16) }
    }

    pub fn new() -> (r: DEV)
        ensures
            r == DEV::absent(),
    {
        DEV { cap: DevCap(0), control: DevControl(0), status: DevStatus(0) }
    }
}

/// The PCI Express device capability-2/control-2/status-2 word group.
#[derive(Debug, Clone, Copy, PartialEq, Eq, Structural)]
pub struct DEV2 {
    pub cap: DevCap2,
    pub control: DevControl2,
    pub status: DevStatus2,
}

impl DEV2 {
    /// The all-zero device-2 word group.
    pub open spec fn absent() -> DEV2 {
        DEV2 { cap: DevCap2(0u32), control: DevControl2(0u16), status: DevStatus2(0u16) }
    }

    pub fn new() -> (r: DEV2)
        ensures
            r == DEV2::absent(),
    {
        DEV2 { cap: DevCap2(0), control: DevControl2(0), status: DevStatus2(0) }
    }
}

/// The PCI Express link capability/control/status word group.
#[derive(Debug, Clone, Copy, PartialEq, Eq, Structural)]
pub struct LINK {
    pub cap: LinkCap,
    pub control: LinkControl,
    pub status: LinkStatus,
}

impl LINK {
    /// The all-zero link word group.
    pub open spec fn absent() -> LINK {
        LINK { cap: LinkCap(0u32), control: LinkControl(0u16), status: LinkStatus(0u16) }
    }

    pub fn new() -> (r: LINK)
        ensures
            r == LINK::absent(),
    {
        LINK { cap: LinkCap(0), control: LinkControl(0), status: LinkStatus(0) }
    }
}

/// The PCI Express link capability-2/control-2/status-2 word group.
#[derive(Debug, Clone, Copy, PartialEq, Eq, Structural)]
pub struct LINK2 {
    pub cap: LinkCap2,
    pub control: LinkControl2,
    pub status: LinkStatus2,
}

impl LINK2 {
    /// The all-zero link-2 word group.
    pub open spec fn absent() -> LINK2 {
        LINK2 { cap: LinkCap2(0u32), control: LinkControl2(0u16), status: LinkStatus2(0u16) }
    }

    pub fn new() -> (r: LINK2)
        ensures
            r == LINK2::absent(),
    {
        LINK2 { cap: LinkCap2(0), control: LinkControl2(0), status: LinkStatus2(0) }
    }
}

/// The PCI Express capability: header plus device and link word groups.
#[derive(Debug, Clone, Copy, PartialEq, Eq, Structural)]
pub struct PCIE {
    pub cap_on: bool,
    pub base_ptr: u8,
    pub hdr: CapHdr,
    pub cap: PciCap,
    pub dev: DEV,
    pub dev2: DEV2,
    pub link: LINK,
    pub link2: LINK2,
}

impl PCIE {
    /// The record standing for an absent PCI Express capability.
    pub open spec fn absent() -> PCIE {
        PCIE {
            cap_on: false,
            base_ptr: 0u8,
            hdr: CapHdr(0u16),
            cap: PciCap(0u16),
            dev: DEV::absent(),
            dev2: DEV2::absent(),
            link: LINK::absent(),
            link2: LINK2::absent(),
        }
    }

    pub fn new() -> (r: PCIE)
        ensures
            r == PCIE::absent(),
    {
        PCIE {
            cap_on: false,
            base_ptr: 0,
            hdr: CapHdr(0),
            cap: PciCap(0),
            dev: DEV::new(),
            dev2: DEV2::new(),
            link: LINK::new(),
            link2: LINK2::new(),
        }
    }
}

/// The device-serial-number extended capability.
#[derive(Debug, Clone, Copy, PartialEq, Eq, Structural)]
pub struct DSN {
    pub cap_on: bool,
    pub base_ptr: u16,
    pub hdr: CapExtHdr,
    pub serial: u64,
}

impl DSN {
    /// The record standing for an absent device-serial-number capability.
    pub open spec fn absent() -> DSN {
        DSN { cap_on: false, base_ptr: 0u16, hdr: CapExtHdr(0u32), serial: 0u64 }
    }

    pub fn new() -> (r: DSN)
        ensures
            r == DSN::absent(),
    {
        DSN { cap_on: false, base_ptr: 0, hdr: CapExtHdr(0), serial: 0 }
    }
}

/// The generic fallback for an extended capability with no typed decoder:
/// only the header fields.
#[derive(Debug, Clone, Copy, PartialEq, Eq, Structural)]
pub struct EmptyExtPcieCap {
    pub cap_on: bool,
    pub base_ptr: u16,
    pub hdr: CapExtHdr,
}

impl EmptyExtPcieCap {
    /// The record standing for an absent extended capability.
    pub open spec fn absent() -> EmptyExtPcieCap {
        EmptyExtPcieCap { cap_on: false, base_ptr: 0u16, hdr: CapExtHdr(0u32) }
    }

    pub fn new() -> (r: EmptyExtPcieCap)
        ensures
            r == EmptyExtPcieCap::absent(),
    {
        EmptyExtPcieCap { cap_on: false, base_ptr: 0, hdr: CapExtHdr(0) }
    }
}

} // verus!
