//! Typed views of single configuration-space registers.
//!
//! Each type wraps one raw register word; each getter extracts one named
//! sub-field, with its bit range fixed by the PCI and PCI Express base
//! specifications and pinned in the getter's contract.

use vstd::prelude::*;

use crate::bits::{bit_of, bits_of, get_bit, get_bits_u8, get_bits_u16, get_bits_u32};

verus! {

/// A standard capability header: ID in bits 7..0, next-pointer in bits 15..8.
#[derive(Debug, Clone, Copy, PartialEq, Eq, Structural)]
pub struct CapHdr(pub u16);

impl CapHdr {
    pub fn cap_id(&self) -> (r: u8)
        ensures
            r as u64 == bits_of(self.0 as u64, 7, 0),
    {
        get_bits_u8(self.0 as u64, 7, 0)
    }

    pub fn cap_next_ptr(&self) -> (r: u8)
        ensures
            r as u64 == bits_of(self.0 as u64, 15, 8),
    {
        get_bits_u8(self.0 as u64, 15, 8)
    }
}

/// An extended capability header: ID in bits 7..0, next-pointer in bits 31..20.
#[derive(Debug, Clone, Copy, PartialEq, Eq, Structural)]
pub struct CapExtHdr(pub u32);

impl CapExtHdr {
    pub fn cap_id(&self) -> (r: u8)
        ensures
            r as u64 == bits_of(self.0 as u64, 7, 0),
    {
        get_bits_u8(self.0 as u64, 7, 0)
    }

    pub fn cap_next_ptr(&self) -> (r: u16)
        ensures
            r as u64 == bits_of(self.0 as u64, 31, 20),
    {
        get_bits_u16(self.0 as u64, 31, 20)
    }
}

/// The power-management capabilities register.
#[derive(Debug, Clone, Copy, PartialEq, Eq, Structural)]
pub struct PmCap(pub u16);

impl PmCap {
    pub fn pm_cap_version(&self) -> (r: u8)
        ensures
            r as u64 == bits_of(self.0 as u64, 2, 0),
    {
        get_bits_u8(self.0 as u64, 2, 0)
    }

    pub fn pm_cap_pme_clock(&self) -> (r: bool)
        ensures
            r == bit_of(self.0 as u64, 3),
    {
        get_bit(self.0 as u64, 3)
    }

    pub fn pm_cap_dsi(&self) -> (r: bool)
        ensures
            r == bit_of(self.0 as u64, 5),
    {
        get_bit(self.0 as u64, 5)
    }

    pub fn pm_cap_auxcurrent(&self) -> (r: u8)
        ensures
            r as u64 == bits_of(self.0 as u64, 8, 6),
    {
        get_bits_u8(self.0 as u64, 8, 6)
    }

    pub fn pm_cap_d1support(&self) -> (r: bool)
        ensures
            r == bit_of(self.0 as u64, 9),
    {
        get_bit(self.0 as u64, 9)
    }

    pub fn pm_cap_d2support(&self) -> (r: bool)
        ensures
            r == bit_of(self.0 as u64, 10),
    {
        get_bit(self.0 as u64, 10)
    }

    pub fn pm_cap_pmesupport(&self) -> (r: u8)
        ensures
            r as u64 == bits_of(self.0 as u64, 15, 11),
    {
        get_bits_u8(self.0 as u64, 15, 11)
    }
}

/// The power-management control/status register.
#[derive(Debug, Clone, Copy, PartialEq, Eq, Structural)]
pub struct PmCsr(pub u16);

impl PmCsr {
    pub fn pm_csr_power_state(&self) -> (r: u8)
        ensures
            r as u64 == bits_of(self.0 as u64, 1, 0),
    {
        get_bits_u8(self.0 as u64, 1, 0)
    }

    pub fn pm_csr_nosoftrst(&self) -> (r: bool)
        ensures
            r == bit_of(self.0 as u64, 3),
    {
        get_bit(self.0 as u64, 3)
    }

    pub fn pm_csr_dynamic_data(&self) -> (r: bool)
        ensures
            r == bit_of(self.0 as u64, 4),
    {
        get_bit(self.0 as u64, 4)
    }

    pub fn pm_csr_pme_enabled(&self) -> (r: bool)
        ensures
            r == bit_of(self.0 as u64, 8),
    {
        get_bit(self.0 as u64, 8)
    }

    pub fn pm_csr_data_select(&self) -> (r: u8)
        ensures
            r as u64 == bits_of(self.0 as u64, 12, 9),
    {
        get_bits_u8(self.0 as u64, 12, 9)
    }

    pub fn pm_csr_data_scale(&self) -> (r: u8)
        ensures
            r as u64 == bits_of(self.0 as u64, 14, 13),
    {
        get_bits_u8(self.0 as u64, 14, 13)
    }

    pub fn pm_csr_pme_status(&self) -> (r: bool)
        ensures
            r == bit_of(self.0 as u64, 15),
    {
        get_bit(self.0 as u64, 15)
    }
}

/// The MSI message-control register.
#[derive(Debug, Clone, Copy, PartialEq, Eq, Structural)]
pub struct MsiCap(pub u16);

impl MsiCap {
    pub fn msi_cap_enabled(&self) -> (r: bool)
        ensures
            r == bit_of(self.0 as u64, 0),
    {
        get_bit(self.0 as u64, 0)
    }

    pub fn msi_cap_multimsgcap(&self) -> (r: u8)
        ensures
            r as u64 == bits_of(self.0 as u64, 3, 1),
    {
        get_bits_u8(self.0 as u64, 3, 1)
    }

    pub fn msi_cap_multimsg_extension(&self) -> (r: u8)
        ensures
            r as u64 == bits_of(self.0 as u64, 6, 4),
    {
        get_bits_u8(self.0 as u64, 6, 4)
    }

    pub fn msi_cap_64_bit_addr_capable(&self) -> (r: bool)
        ensures
            r == bit_of(self.0 as u64, 7),
    {
        get_bit(self.0 as u64, 7)
    }

    pub fn msi_cap_per_vector_masking_capable(&self) -> (r: bool)
        ensures
            r == bit_of(self.0 as u64, 8),
    {
        get_bit(self.0 as u64, 8)
    }
}

/// The MSI-X message-control register.
#[derive(Debug, Clone, Copy, PartialEq, Eq, Structural)]
pub struct MsixCap(pub u16);

impl MsixCap {
    pub fn msix_cap_enabled(&self) -> (r: bool)
        ensures
            r == bit_of(self.0 as u64, 15),
    {
        get_bit(self.0 as u64, 15)
    }
}

/// The PCI Express capabilities register.
#[derive(Debug, Clone, Copy, PartialEq, Eq, Structural)]
pub struct PciCap(pub u16);

impl PciCap {
    pub fn pcie_cap_capability_version(&self) -> (r: u8)
        ensures
            r as u64 == bits_of(self.0 as u64, 3, 0),
    {
        get_bits_u8(self.0 as u64, 3, 0)
    }

    pub fn pcie_cap_device_port_type(&self) -> (r: u8)
        ensures
            r as u64 == bits_of(self.0 as u64, 7, 4),
    {
        get_bits_u8(self.0 as u64, 7, 4)
    }

    pub fn pcie_cap_slot_implemented(&self) -> (r: bool)
        ensures
            r == bit_of(self.0 as u64, 8),
    {
        get_bit(self.0 as u64, 8)
    }

    pub fn pcie_cap_interrupt_message_number(&self) -> (r: u8)
        ensures
            r as u64 == bits_of(self.0 as u64, 13, 9),
    {
        get_bits_u8(self.0 as u64, 13, 9)
    }
}

/// The PCI Express device-capabilities register.
#[derive(Debug, Clone, Copy, PartialEq, Eq, Structural)]
pub struct DevCap(pub u32);

impl DevCap {
    pub fn dev_cap_max_payload_supported(&self) -> (r: u8)
        ensures
            r as u64 == bits_of(self.0 as u64, 2, 0),
    {
        get_bits_u8(self.0 as u64, 2, 0)
    }

    pub fn dev_cap_phantom_functions_support(&self) -> (r: u8)
        ensures
            r as u64 == bits_of(self.0 as u64, 4, 3),
    {
        get_bits_u8(self.0 as u64, 4, 3)
    }

    pub fn dev_cap_ext_tag_supported(&self) -> (r: bool)
        ensures
            r == bit_of(self.0 as u64, 5),
    {
        get_bit(self.0 as u64, 5)
    }

    pub fn dev_cap_endpoint_l0s_latency(&self) -> (r: u8)
        ensures
            r as u64 == bits_of(self.0 as u64, 8, 6),
    {
        get_bits_u8(self.0 as u64, 8, 6)
    }

    pub fn dev_cap_endpoint_l1_latency(&self) -> (r: u8)
        ensures
            r as u64 == bits_of(self.0 as u64, 11, 9),
    {
        get_bits_u8(self.0 as u64, 11, 9)
    }

    pub fn dev_cap_role_based_error(&self) -> (r: bool)
        ensures
            r == bit_of(self.0 as u64, 15),
    {
        get_bit(self.0 as u64, 15)
    }

    pub fn dev_cap_enable_slot_pwr_limit_value(&self) -> (r: u8)
        ensures
            r as u64 == bits_of(self.0 as u64, 25, 18),
    {
        get_bits_u8(self.0 as u64, 25, 18)
    }

    pub fn dev_cap_enable_slot_pwr_limit_scale(&self) -> (r: u8)
        ensures
            r as u64 == bits_of(self.0 as u64, 27, 26),
    {
        get_bits_u8(self.0 as u64, 27, 26)
    }

    pub fn dev_cap_function_level_reset_capable(&self) -> (r: bool)
        ensures
            r == bit_of(self.0 as u64, 28),
    {
        get_bit(self.0 as u64, 28)
    }
}

/// The PCI Express device-capabilities-2 register.
#[derive(Debug, Clone, Copy, PartialEq, Eq, Structural)]
pub struct DevCap2(pub u32);

impl DevCap2 {
    pub fn cpl_timeout_ranges_supported(&self) -> (r: u8)
        ensures
            r as u64 == bits_of(self.0 as u64, 3, 0),
    {
        get_bits_u8(self.0 as u64, 3, 0)
    }

    pub fn cpl_timeout_disable_supported(&self) -> (r: bool)
        ensures
            r == bit_of(self.0 as u64, 4),
    {
        get_bit(self.0 as u64, 4)
    }
}

/// The PCI Express link-capabilities register.
#[derive(Debug, Clone, Copy, PartialEq, Eq, Structural)]
pub struct LinkCap(pub u32);

impl LinkCap {
    pub fn link_cap_max_link_speed(&self) -> (r: u8)
        ensures
            r as u64 == bits_of(self.0 as u64, 3, 0),
    {
        get_bits_u8(self.0 as u64, 3, 0)
    }

    pub fn link_cap_max_link_width(&self) -> (r: u8)
        ensures
            r as u64 == bits_of(self.0 as u64, 9, 4),
    {
        get_bits_u8(self.0 as u64, 9, 4)
    }

    pub fn link_cap_aspm_support(&self) -> (r: u8)
        ensures
            r as u64 == bits_of(self.0 as u64, 11, 10),
    {
        get_bits_u8(self.0 as u64, 11, 10)
    }

    pub fn link_cap_l0s_exit_latency(&self) -> (r: u8)
        ensures
            r as u64 == bits_of(self.0 as u64, 14, 12),
    {
        get_bits_u8(self.0 as u64, 14, 12)
    }

    pub fn link_cap_l1_exit_latency(&self) -> (r: u8)
        ensures
            r as u64 == bits_of(self.0 as u64, 17, 15),
    {
        get_bits_u8(self.0 as u64, 17, 15)
    }

    pub fn link_cap_clock_power_management(&self) -> (r: u8)
        ensures
            r as u64 == bits_of(self.0 as u64, 19, 18),
    {
        get_bits_u8(self.0 as u64, 19, 18)
    }

    pub fn link_cap_aspm_optionality(&self) -> (r: bool)
        ensures
            r == bit_of(self.0 as u64, 22),
    {
        get_bit(self.0 as u64, 22)
    }

    pub fn link_cap_rsvd_23(&self) -> (r: u8)
        ensures
            r as u64 == bits_of(self.0 as u64, 23, 19),
    {
        get_bits_u8(self.0 as u64, 23, 19)
    }
}

/// The PCI Express link-capabilities-2 register.
#[derive(Debug, Clone, Copy, PartialEq, Eq, Structural)]
pub struct LinkCap2(pub u32);

impl LinkCap2 {
    pub fn link_cap2_linkspeedssupported(&self) -> (r: u8)
        ensures
            r as u64 == bits_of(self.0 as u64, 3, 1),
    {
        get_bits_u8(self.0 as u64, 3, 1)
    }
}

/// The header command register.
#[derive(Debug, Clone, Copy, PartialEq, Eq, Structural)]
pub struct Command(pub u16);

impl Command {
    pub fn memory_space_enable(&self) -> (r: bool)
        ensures
            r == bit_of(self.0 as u64, 1),
    {
        get_bit(self.0 as u64, 1)
    }

    pub fn bus_master_enable(&self) -> (r: bool)
        ensures
            r == bit_of(self.0 as u64, 2),
    {
        get_bit(self.0 as u64, 2)
    }

    pub fn special_cycle_enable(&self) -> (r: bool)
        ensures
            r == bit_of(self.0 as u64, 3),
    {
        get_bit(self.0 as u64, 3)
    }

    pub fn memory_write(&self) -> (r: bool)
        ensures
            r == bit_of(self.0 as u64, 4),
    {
        get_bit(self.0 as u64, 4)
    }

    pub fn vga_enable(&self) -> (r: bool)
        ensures
            r == bit_of(self.0 as u64, 5),
    {
        get_bit(self.0 as u64, 5)
    }

    pub fn parity_err_enable(&self) -> (r: bool)
        ensures
            r == bit_of(self.0 as u64, 6),
    {
        get_bit(self.0 as u64, 6)
    }

    pub fn serr_enable(&self) -> (r: bool)
        ensures
            r == bit_of(self.0 as u64, 8),
    {
        get_bit(self.0 as u64, 8)
    }

    pub fn b2b_enable(&self) -> (r: bool)
        ensures
            r == bit_of(self.0 as u64, 9),
    {
        get_bit(self.0 as u64, 9)
    }

    pub fn interrupt_disable(&self) -> (r: bool)
        ensures
            r == bit_of(self.0 as u64, 10),
    {
        get_bit(self.0 as u64, 10)
    }
}

/// The header status register. Bit 4 gates the capability list.
#[derive(Debug, Clone, Copy, PartialEq, Eq, Structural)]
pub struct Status(pub u16);

impl Status {
    /// Whether the device implements the standard capability list (bit 4).
    pub open spec fn spec_capabilities_list(&self) -> bool {
        bit_of(self.0 as u64, 4)
    }

    pub fn parity_error(&self) -> (r: bool)
        ensures
            r == bit_of(self.0 as u64, 15),
    {
        get_bit(self.0 as u64, 15)
    }

    pub fn signaled_error(&self) -> (r: bool)
        ensures
            r == bit_of(self.0 as u64, 14),
    {
        get_bit(self.0 as u64, 14)
    }

    pub fn master_abort(&self) -> (r: bool)
        ensures
            r == bit_of(self.0 as u64, 13),
    {
        get_bit(self.0 as u64, 13)
    }

    pub fn target_abort(&self) -> (r: bool)
        ensures
            r == bit_of(self.0 as u64, 12),
    {
        get_bit(self.0 as u64, 12)
    }

    pub fn signaled_abort(&self) -> (r: bool)
        ensures
            r == bit_of(self.0 as u64, 11),
    {
        get_bit(self.0 as u64, 11)
    }

    pub fn devsel_timing(&self) -> (r: u16)
        ensures
            r as u64 == bits_of(self.0 as u64, 10, 9),
    {
        get_bits_u16(self.0 as u64, 10, 9)
    }

    pub fn master_parity_error(&self) -> (r: bool)
        ensures
            r == bit_of(self.0 as u64, 8),
    {
        get_bit(self.0 as u64, 8)
    }

    pub fn fast_b2b_capable(&self) -> (r: bool)
        ensures
            r == bit_of(self.0 as u64, 7),
    {
        get_bit(self.0 as u64, 7)
    }

    pub fn c66_capable(&self) -> (r: bool)
        ensures
            r == bit_of(self.0 as u64, 5),
    {
        get_bit(self.0 as u64, 5)
    }

    pub fn capabilities_list(&self) -> (r: bool)
        ensures
            r == self.spec_capabilities_list(),
    {
        get_bit(self.0 as u64, 4)
    }

    pub fn interrupt_status(&self) -> (r: bool)
        ensures
            r == bit_of(self.0 as u64, 3),
    {
        get_bit(self.0 as u64, 3)
    }
}

/// The header-type register: bit 7 multi-function flag, bits 6..0 layout type.
#[derive(Debug, Clone, Copy, PartialEq, Eq, Structural)]
pub struct HeaderType(pub u8);

impl HeaderType {
    /// The header layout type (bits 6..0): 0 device, 1 PCI-to-PCI bridge,
    /// 2 CardBus bridge.
    pub open spec fn spec_header_type(&self) -> u8 {
        bits_of(self.0 as u64, 6, 0) as u8
    }

    pub fn multifunc_device(&self) -> (r: bool)
        ensures
            r == bit_of(self.0 as u64, 7),
    {
        get_bit(self.0 as u64, 7)
    }

    pub fn header_type(&self) -> (r: u8)
        ensures
            r == self.spec_header_type(),
    {
        get_bits_u8(self.0 as u64, 6, 0)
    }
}

/// The PCI Express device-control register.
#[derive(Debug, Clone, Copy, PartialEq, Eq, Structural)]
pub struct DevControl(pub u16);

impl DevControl {
    pub fn dev_ctrl_corr_err_reporting(&self) -> (r: bool)
        ensures
            r == bit_of(self.0 as u64, 0),
    {
        get_bit(self.0 as u64, 0)
    }

    pub fn dev_ctrl_non_fatal_reporting(&self) -> (r: bool)
        ensures
            r == bit_of(self.0 as u64, 1),
    {
        get_bit(self.0 as u64, 1)
    }

    pub fn dev_ctrl_fatal_err_reporting(&self) -> (r: bool)
        ensures
            r == bit_of(self.0 as u64, 2),
    {
        get_bit(self.0 as u64, 2)
    }

    pub fn dev_ctrl_ur_reporting(&self) -> (r: bool)
        ensures
            r == bit_of(self.0 as u64, 3),
    {
        get_bit(self.0 as u64, 3)
    }

    pub fn dev_ctrl_relaxed_ordering(&self) -> (r: bool)
        ensures
            r == bit_of(self.0 as u64, 4),
    {
        get_bit(self.0 as u64, 4)
    }

    pub fn dev_ctrl_max_payload_size(&self) -> (r: u8)
        ensures
            r as u64 == bits_of(self.0 as u64, 7, 5),
    {
        get_bits_u8(self.0 as u64, 7, 5)
    }

    pub fn dev_ctrl_ext_tag_default(&self) -> (r: bool)
        ensures
            r == bit_of(self.0 as u64, 8),
    {
        get_bit(self.0 as u64, 8)
    }

    pub fn dev_ctrl_phantom_func_enable(&self) -> (r: bool)
        ensures
            r == bit_of(self.0 as u64, 9),
    {
        get_bit(self.0 as u64, 9)
    }

    pub fn dev_ctrl_aux_power_enable(&self) -> (r: bool)
        ensures
            r == bit_of(self.0 as u64, 10),
    {
        get_bit(self.0 as u64, 10)
    }

    pub fn dev_ctrl_enable_no_snoop(&self) -> (r: bool)
        ensures
            r == bit_of(self.0 as u64, 11),
    {
        get_bit(self.0 as u64, 11)
    }

    pub fn dev_ctrl_max_read_request_size(&self) -> (r: u8)
        ensures
            r as u64 == bits_of(self.0 as u64, 14, 12),
    {
        get_bits_u8(self.0 as u64, 14, 12)
    }

    pub fn dev_ctrl_cfg_retry_status_enable(&self) -> (r: bool)
        ensures
            r == bit_of(self.0 as u64, 15),
    {
        get_bit(self.0 as u64, 15)
    }
}

/// The PCI Express device-status register.
#[derive(Debug, Clone, Copy, PartialEq, Eq, Structural)]
pub struct DevStatus(pub u16);

impl DevStatus {
    pub fn correctable_error_detected(&self) -> (r: bool)
        ensures
            r == bit_of(self.0 as u64, 0),
    {
        get_bit(self.0 as u64, 0)
    }

    pub fn non_fatal_error_detected(&self) -> (r: bool)
        ensures
            r == bit_of(self.0 as u64, 1),
    {
        get_bit(self.0 as u64, 1)
    }

    pub fn fatal_error_detected(&self) -> (r: bool)
        ensures
            r == bit_of(self.0 as u64, 2),
    {
        get_bit(self.0 as u64, 2)
    }

    pub fn unsupported_request_detected(&self) -> (r: bool)
        ensures
            r == bit_of(self.0 as u64, 3),
    {
        get_bit(self.0 as u64, 3)
    }

    pub fn aux_power_detected(&self) -> (r: bool)
        ensures
            r == bit_of(self.0 as u64, 4),
    {
        get_bit(self.0 as u64, 4)
    }

    pub fn transactions_pending(&self) -> (r: bool)
        ensures
            r == bit_of(self.0 as u64, 5),
    {
        get_bit(self.0 as u64, 5)
    }
}

/// The PCI Express device-control-2 register.
#[derive(Debug, Clone, Copy, PartialEq, Eq, Structural)]
pub struct DevControl2(pub u16);

impl DevControl2 {
    pub fn obff_enable(&self) -> (r: bool)
        ensures
            r == bit_of(self.0 as u64, 0),
    {
        get_bit(self.0 as u64, 0)
    }

    pub fn latency_tolerance_reporting(&self) -> (r: bool)
        ensures
            r == bit_of(self.0 as u64, 1),
    {
        get_bit(self.0 as u64, 1)
    }

    pub fn completion_timeout_disable(&self) -> (r: bool)
        ensures
            r == bit_of(self.0 as u64, 2),
    {
        get_bit(self.0 as u64, 2)
    }

    pub fn completion_timeout_value(&self) -> (r: bool)
        ensures
            r == bit_of(self.0 as u64, 3),
    {
        get_bit(self.0 as u64, 3)
    }
}

/// The PCI Express device-status-2 register.
#[derive(Debug, Clone, Copy, PartialEq, Eq, Structural)]
pub struct DevStatus2(pub u16);

impl DevStatus2 {
    pub fn correctable_error_detected(&self) -> (r: bool)
        ensures
            r == bit_of(self.0 as u64, 0),
    {
        get_bit(self.0 as u64, 0)
    }

    pub fn non_fatal_error_detected(&self) -> (r: bool)
        ensures
            r == bit_of(self.0 as u64, 1),
    {
        get_bit(self.0 as u64, 1)
    }

    pub fn fatal_error_detected(&self) -> (r: bool)
        ensures
            r == bit_of(self.0 as u64, 2),
    {
        get_bit(self.0 as u64, 2)
    }

    pub fn unsupported_request_detected(&self) -> (r: bool)
        ensures
            r == bit_of(self.0 as u64, 3),
    {
        get_bit(self.0 as u64, 3)
    }

    pub fn aux_power_detected(&self) -> (r: bool)
        ensures
            r == bit_of(self.0 as u64, 4),
    {
        get_bit(self.0 as u64, 4)
    }

    pub fn transactions_pending(&self) -> (r: bool)
        ensures
            r == bit_of(self.0 as u64, 5),
    {
        get_bit(self.0 as u64, 5)
    }
}

/// The PCI Express link-status register.
#[derive(Debug, Clone, Copy, PartialEq, Eq, Structural)]
pub struct LinkStatus(pub u16);

impl LinkStatus {
    pub fn link_status_link_speed(&self) -> (r: u8)
        ensures
            r as u64 == bits_of(self.0 as u64, 3, 0),
    {
        get_bits_u8(self.0 as u64, 3, 0)
    }

    pub fn link_status_link_width(&self) -> (r: u8)
        ensures
            r as u64 == bits_of(self.0 as u64, 9, 4),
    {
        get_bits_u8(self.0 as u64, 9, 4)
    }

    pub fn link_status_slot_clock_config(&self) -> (r: bool)
        ensures
            r == bit_of(self.0 as u64, 12),
    {
        get_bit(self.0 as u64, 12)
    }
}

/// The PCI Express link-control register.
#[derive(Debug, Clone, Copy, PartialEq, Eq, Structural)]
pub struct LinkControl(pub u16);

impl LinkControl {
    pub fn link_aspmc(&self) -> (r: bool)
        ensures
            r == bit_of(self.0 as u64, 1),
    {
        get_bit(self.0 as u64, 1)
    }

    pub fn link_control_rcb(&self) -> (r: bool)
        ensures
            r == bit_of(self.0 as u64, 3),
    {
        get_bit(self.0 as u64, 3)
    }

    pub fn link_common_control_configuration(&self) -> (r: bool)
        ensures
            r == bit_of(self.0 as u64, 6),
    {
        get_bit(self.0 as u64, 6)
    }

    pub fn link_extended_synch(&self) -> (r: bool)
        ensures
            r == bit_of(self.0 as u64, 7),
    {
        get_bit(self.0 as u64, 7)
    }

    pub fn link_enable_clock_power_management(&self) -> (r: bool)
        ensures
            r == bit_of(self.0 as u64, 8),
    {
        get_bit(self.0 as u64, 8)
    }

    pub fn link_hardware_autonomous_width_disable(&self) -> (r: bool)
        ensures
            r == bit_of(self.0 as u64, 9),
    {
        get_bit(self.0 as u64, 9)
    }
}

/// The PCI Express link-control-2 register.
#[derive(Debug, Clone, Copy, PartialEq, Eq, Structural)]
pub struct LinkControl2(pub u16);

impl LinkControl2 {
    pub fn link_ctrl2_target_link_speed(&self) -> (r: u8)
        ensures
            r as u64 == bits_of(self.0 as u64, 3, 0),
    {
        get_bits_u8(self.0 as u64, 3, 0)
    }

    pub fn link_ctrl2_entercompliance(&self) -> (r: bool)
        ensures
            r == bit_of(self.0 as u64, 4),
    {
        get_bit(self.0 as u64, 4)
    }

    pub fn link_ctrl2_hw_autonomous_speed_disable(&self) -> (r: bool)
        ensures
            r == bit_of(self.0 as u64, 5),
    {
        get_bit(self.0 as u64, 5)
    }

    pub fn link_ctrl2_deemphasis(&self) -> (r: bool)
        ensures
            r == bit_of(self.0 as u64, 6),
    {
        get_bit(self.0 as u64, 6)
    }

    pub fn link_ctrl2_transmitmargin(&self) -> (r: bool)
        ensures
            r == bit_of(self.0 as u64, 7),
    {
        get_bit(self.0 as u64, 7)
    }

    pub fn link_ctrl2_entermodifiedcompliance(&self) -> (r: bool)
        ensures
            r == bit_of(self.0 as u64, 10),
    {
        get_bit(self.0 as u64, 10)
    }

    pub fn link_ctrl2_compliancesos(&self) -> (r: bool)
        ensures
            r == bit_of(self.0 as u64, 11),
    {
        get_bit(self.0 as u64, 11)
    }
}

/// The PCI Express link-status-2 register.
#[derive(Debug, Clone, Copy, PartialEq, Eq, Structural)]
pub struct LinkStatus2(pub u16);

impl LinkStatus2 {
    pub fn link_status2_deemphasislvl(&self) -> (r: bool)
        ensures
            r == bit_of(self.0 as u64, 0),
    {
        get_bit(self.0 as u64, 0)
    }
}

} // verus!
