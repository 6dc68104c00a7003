use pci_config::bits::{get_bit, get_bits};
use pci_config::fld::{
    CapExtHdr, CapHdr, Command, DevCap, DevCap2, DevControl, DevControl2, DevStatus, DevStatus2,
    HeaderType, LinkCap, LinkCap2, LinkControl, LinkControl2, LinkStatus, LinkStatus2, MsiCap,
    MsixCap, PciCap, PmCap, PmCsr, Status,
};

#[test]
fn get_bits_matches_shift_and_mask() {
    // get_bits(v, h, l) == (v >> l) & ((1 << (h - l + 1)) - 1)
    let v: u64 = 0x1234_5678_9ABC_DEF0;
    for low in 0..64u64 {
        for high in low..64u64.min(low + 20) {
            let width = high - low + 1;
            let mask = if width == 64 { u64::MAX } else { (1u64 << width) - 1 };
            assert_eq!(get_bits(v, high, low), (v >> low) & mask);
        }
    }
    assert_eq!(get_bits(0xABCD, 15, 8), 0xAB);
    assert_eq!(get_bits(0xABCD, 7, 0), 0xCD);
    assert_eq!(get_bits(0xFF00, 11, 4), 0xF0);
    assert_eq!(get_bits(u64::MAX, 63, 0), u64::MAX);
}

#[test]
fn get_bit_tests_single_bits() {
    let v: u64 = 0b1010_0001;
    assert!(get_bit(v, 0));
    assert!(!get_bit(v, 1));
    assert!(get_bit(v, 5));
    assert!(get_bit(v, 7));
    assert!(!get_bit(v, 63));
    assert!(get_bit(1u64 << 63, 63));
}

#[test]
fn cap_header_fields() {
    let h = CapHdr(0x5001);
    assert_eq!(h.cap_id(), 0x01);
    assert_eq!(h.cap_next_ptr(), 0x50);
    let h = CapHdr(0x0010);
    assert_eq!(h.cap_id(), 0x10);
    assert_eq!(h.cap_next_ptr(), 0x00);
}

#[test]
fn ext_cap_header_fields() {
    let h = CapExtHdr(0x1401_0003);
    assert_eq!(h.cap_id(), 0x03);
    assert_eq!(h.cap_next_ptr(), 0x140);
    let h = CapExtHdr(0xFFF0_0001);
    assert_eq!(h.cap_id(), 0x01);
    assert_eq!(h.cap_next_ptr(), 0xFFF);
}

#[test]
fn command_bits() {
    let c = Command(0x0506);
    assert!(c.memory_space_enable());
    assert!(c.bus_master_enable());
    assert!(!c.special_cycle_enable());
    assert!(!c.memory_write());
    assert!(!c.vga_enable());
    assert!(!c.parity_err_enable());
    assert!(c.serr_enable());
    assert!(!c.b2b_enable());
    assert!(c.interrupt_disable());
}

#[test]
fn status_bits() {
    let s = Status(0x0210);
    assert!(s.capabilities_list());
    assert_eq!(s.devsel_timing(), 1);
    assert!(!s.parity_error());
    assert!(!s.interrupt_status());
    let s = Status(0xF800);
    assert!(s.parity_error());
    assert!(s.signaled_error());
    assert!(s.master_abort());
    assert!(s.target_abort());
    assert!(s.signaled_abort());
    assert!(!s.capabilities_list());
    let s = Status(0x01A8);
    assert!(s.master_parity_error());
    assert!(s.fast_b2b_capable());
    assert!(s.c66_capable());
    assert!(s.interrupt_status());
}

#[test]
fn header_type_bits() {
    let h = HeaderType(0x81);
    assert!(h.multifunc_device());
    assert_eq!(h.header_type(), 1);
    let h = HeaderType(0x00);
    assert!(!h.multifunc_device());
    assert_eq!(h.header_type(), 0);
    let h = HeaderType(0xFF);
    assert_eq!(h.header_type(), 0x7F);
}

#[test]
fn power_management_register_bits() {
    let c = PmCap(0xC803);
    assert_eq!(c.pm_cap_version(), 3);
    assert!(!c.pm_cap_pme_clock());
    assert!(!c.pm_cap_dsi());
    assert_eq!(c.pm_cap_auxcurrent(), 0);
    assert!(!c.pm_cap_d1support());
    assert!(!c.pm_cap_d2support());
    assert_eq!(c.pm_cap_pmesupport(), 0b11001);
    let s = PmCsr(0x0108);
    assert_eq!(s.pm_csr_power_state(), 0);
    assert!(s.pm_csr_nosoftrst());
    assert!(!s.pm_csr_dynamic_data());
    assert!(s.pm_csr_pme_enabled());
    assert_eq!(s.pm_csr_data_select(), 0);
    assert_eq!(s.pm_csr_data_scale(), 0);
    assert!(!s.pm_csr_pme_status());
    let s = PmCsr(0xE603);
    assert_eq!(s.pm_csr_power_state(), 3);
    assert_eq!(s.pm_csr_data_select(), 3);
    assert_eq!(s.pm_csr_data_scale(), 3);
    assert!(s.pm_csr_pme_status());
}

#[test]
fn msi_and_msix_register_bits() {
    let m = MsiCap(0x0181);
    assert!(m.msi_cap_enabled());
    assert_eq!(m.msi_cap_multimsgcap(), 0);
    assert_eq!(m.msi_cap_multimsg_extension(), 0);
    assert!(m.msi_cap_64_bit_addr_capable());
    assert!(m.msi_cap_per_vector_masking_capable());
    let m = MsiCap(0x007E);
    assert!(!m.msi_cap_enabled());
    assert_eq!(m.msi_cap_multimsgcap(), 0b111);
    assert_eq!(m.msi_cap_multimsg_extension(), 0b111);
    let x = MsixCap(0x8000);
    assert!(x.msix_cap_enabled());
    let x = MsixCap(0x7FFF);
    assert!(!x.msix_cap_enabled());
}

#[test]
fn pcie_capability_register_bits() {
    let c = PciCap(0x0142);
    assert_eq!(c.pcie_cap_capability_version(), 2);
    assert_eq!(c.pcie_cap_device_port_type(), 4);
    assert!(c.pcie_cap_slot_implemented());
    assert_eq!(c.pcie_cap_interrupt_message_number(), 0);
}

#[test]
fn device_register_bits() {
    let c = DevCap(0x1000_0021);
    assert_eq!(c.dev_cap_max_payload_supported(), 1);
    assert_eq!(c.dev_cap_phantom_functions_support(), 0);
    assert!(c.dev_cap_ext_tag_supported());
    assert_eq!(c.dev_cap_endpoint_l0s_latency(), 0);
    assert_eq!(c.dev_cap_endpoint_l1_latency(), 0);
    assert!(!c.dev_cap_role_based_error());
    assert_eq!(c.dev_cap_enable_slot_pwr_limit_value(), 0);
    assert_eq!(c.dev_cap_enable_slot_pwr_limit_scale(), 0);
    assert!(c.dev_cap_function_level_reset_capable());
    let c = DevControl(0x2010);
    assert!(c.dev_ctrl_relaxed_ordering());
    assert_eq!(c.dev_ctrl_max_payload_size(), 0);
    assert_eq!(c.dev_ctrl_max_read_request_size(), 2);
    assert!(!c.dev_ctrl_cfg_retry_status_enable());
    let s = DevStatus(0x0011);
    assert!(s.correctable_error_detected());
    assert!(!s.non_fatal_error_detected());
    assert!(s.aux_power_detected());
    assert!(!s.transactions_pending());
    let c = DevCap2(0x001F);
    assert_eq!(c.cpl_timeout_ranges_supported(), 0xF);
    assert!(c.cpl_timeout_disable_supported());
    let c = DevControl2(0x0005);
    assert!(c.obff_enable());
    assert!(!c.latency_tolerance_reporting());
    assert!(c.completion_timeout_disable());
    assert!(!c.completion_timeout_value());
    let s = DevStatus2(0x0002);
    assert!(!s.correctable_error_detected());
    assert!(s.non_fatal_error_detected());
    assert!(!s.fatal_error_detected());
    assert!(!s.unsupported_request_detected());
}

#[test]
fn link_register_bits() {
    let c = LinkCap(0x0000_0442);
    assert_eq!(c.link_cap_max_link_speed(), 2);
    assert_eq!(c.link_cap_max_link_width(), 4);
    assert_eq!(c.link_cap_aspm_support(), 1);
    assert_eq!(c.link_cap_l0s_exit_latency(), 0);
    assert_eq!(c.link_cap_l1_exit_latency(), 0);
    assert_eq!(c.link_cap_clock_power_management(), 0);
    assert!(!c.link_cap_aspm_optionality());
    assert_eq!(c.link_cap_rsvd_23(), 0);
    let c = LinkControl(0x0002);
    assert!(c.link_aspmc());
    assert!(!c.link_control_rcb());
    assert!(!c.link_extended_synch());
    let s = LinkStatus(0x1012);
    assert_eq!(s.link_status_link_speed(), 2);
    assert_eq!(s.link_status_link_width(), 1);
    assert!(s.link_status_slot_clock_config());
    let c = LinkCap2(0x0000_000E);
    assert_eq!(c.link_cap2_linkspeedssupported(), 7);
    let c = LinkControl2(0x0013);
    assert_eq!(c.link_ctrl2_target_link_speed(), 3);
    assert!(c.link_ctrl2_entercompliance());
    assert!(!c.link_ctrl2_hw_autonomous_speed_disable());
    assert!(!c.link_ctrl2_compliancesos());
    let s = LinkStatus2(0x0001);
    assert!(s.link_status2_deemphasislvl());
}
