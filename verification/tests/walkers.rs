use pci_config::config::{Pci, PciError};

// A 4096-byte snapshot with status bit 4 set and the standard capability
// chain 0x40 (ID 0x01) -> 0x50 (ID 0x05) -> 0x60 (ID 0x10) -> end.
fn chained_device() -> Vec<u8> {
    let mut buf = vec![0u8; 4096];
    buf[0x06] = 0x10; // status: capabilities list present
    buf[0x34] = 0x40; // capability pointer
    buf[0x40] = 0x01;
    buf[0x41] = 0x50;
    buf[0x50] = 0x05;
    buf[0x51] = 0x60;
    buf[0x60] = 0x10;
    buf[0x61] = 0x00;
    buf
}

#[test]
fn standard_walk_finds_each_listed_id() {
    let p = Pci::new(&chained_device());
    assert_eq!(p.get_capability_by_id(0x01), Ok(0x40));
    assert_eq!(p.get_capability_by_id(0x05), Ok(0x50));
    assert_eq!(p.get_capability_by_id(0x10), Ok(0x60));
}

#[test]
fn standard_walk_reports_missing_id_as_absent() {
    let p = Pci::new(&chained_device());
    assert_eq!(p.get_capability_by_id(0x08), Ok(0));
    assert_eq!(p.get_capability_by_id(0xFF), Ok(0));
}

#[test]
fn standard_walk_absent_when_pointer_is_zero() {
    let mut buf = chained_device();
    buf[0x34] = 0x00;
    let p = Pci::new(&buf);
    assert_eq!(p.get_capability_by_id(0x01), Ok(0));
}

#[test]
fn standard_walk_gated_by_status_bit() {
    // Status bit 4 clear: the pointer byte is not consulted at all.
    let mut buf = chained_device();
    buf[0x06] = 0x00;
    let p = Pci::new(&buf);
    assert_eq!(p.capabilities_ptr(), Ok(0));
    assert_eq!(p.get_capability_by_id(0x01), Ok(0));
}

#[test]
fn standard_walk_stops_on_all_zero_header() {
    let mut buf = chained_device();
    buf[0x50] = 0x00;
    buf[0x51] = 0x00;
    let p = Pci::new(&buf);
    assert_eq!(p.get_capability_by_id(0x01), Ok(0x40));
    // The chain ends at the zero header before ID 0x10 is reached.
    assert_eq!(p.get_capability_by_id(0x10), Ok(0));
}

#[test]
fn standard_walk_out_of_bounds_node() {
    // The pointer leads one byte past the captured length.
    let mut buf = vec![0u8; 0x41];
    buf[0x06] = 0x10;
    buf[0x34] = 0x40;
    let p = Pci::new(&buf);
    assert_eq!(p.get_capability_by_id(0x01), Err(PciError::OutOfBounds));
    // With both node bytes inside the snapshot the walk succeeds.
    let mut buf = vec![0u8; 0x42];
    buf[0x06] = 0x10;
    buf[0x34] = 0x40;
    buf[0x40] = 0x01;
    let p = Pci::new(&buf);
    assert_eq!(p.get_capability_by_id(0x01), Ok(0x40));
}

#[test]
fn standard_walk_hop_bound_cuts_long_chain() {
    // 30 nodes at 0x40, 0x44, ...; only the 30th carries the queried ID.
    // The walk gives up (absent) after MAX_CAPABILITIES hops.
    let mut buf = vec![0u8; 4096];
    buf[0x06] = 0x10;
    buf[0x34] = 0x40;
    for k in 0..30usize {
        let off = 0x40 + 4 * k;
        buf[off] = 0x0F;
        buf[off + 1] = (off + 4) as u8;
    }
    let last = 0x40 + 4 * 29;
    buf[last] = 0x07;
    buf[last + 1] = 0x00;
    let p = Pci::new(&buf);
    assert_eq!(p.get_capability_by_id(0x07), Ok(0));
    // The first node is still found normally.
    assert_eq!(p.get_capability_by_id(0x0F), Ok(0x40));
}

#[test]
fn standard_walk_survives_self_loop() {
    // A node whose next-pointer loops back to itself: the hop bound ends the
    // walk and the queried ID is reported absent.
    let mut buf = vec![0u8; 4096];
    buf[0x06] = 0x10;
    buf[0x34] = 0x40;
    buf[0x40] = 0x01;
    buf[0x41] = 0x40;
    let p = Pci::new(&buf);
    assert_eq!(p.get_capability_by_id(0x02), Ok(0));
    assert_eq!(p.get_capability_by_id(0x01), Ok(0x40));
}

// A 4096-byte snapshot with the extended chain 0x100 (ID 0x03) -> 0x140
// (ID 0x10) -> end.
fn ext_device() -> Vec<u8> {
    let mut buf = vec![0u8; 4096];
    // 0x100: ID 0x03, version 1, next 0x140.
    buf[0x100] = 0x03;
    buf[0x102] = 0x01;
    buf[0x103] = 0x14;
    // 0x140: ID 0x10, version 1, next 0.
    buf[0x140] = 0x10;
    buf[0x142] = 0x01;
    buf
}

#[test]
fn extended_walk_finds_each_listed_id() {
    let p = Pci::new(&ext_device());
    assert_eq!(p.get_ext_capability_by_id(0x03), Ok(0x100));
    assert_eq!(p.get_ext_capability_by_id(0x10), Ok(0x140));
}

#[test]
fn extended_walk_reports_missing_id_as_absent() {
    let p = Pci::new(&ext_device());
    assert_eq!(p.get_ext_capability_by_id(0x05), Ok(0));
}

#[test]
fn extended_walk_stops_on_all_zero_header() {
    let buf = vec![0u8; 4096];
    let p = Pci::new(&buf);
    assert_eq!(p.get_ext_capability_by_id(0x03), Ok(0));
}

#[test]
fn extended_walk_terminates_on_cycle() {
    // 0x100 -> 0x140 -> 0x100: the two nodes point at each other. The walk
    // must terminate and report an ID on neither node as absent.
    let mut buf = vec![0u8; 4096];
    buf[0x100] = 0x01;
    buf[0x103] = 0x14; // next = 0x140
    buf[0x140] = 0x02;
    buf[0x143] = 0x10; // next = 0x100
    let p = Pci::new(&buf);
    assert_eq!(p.get_ext_capability_by_id(0x03), Ok(0));
    // The cycle's own IDs are still found at their offsets.
    assert_eq!(p.get_ext_capability_by_id(0x01), Ok(0x100));
    assert_eq!(p.get_ext_capability_by_id(0x02), Ok(0x140));
}

#[test]
fn extended_walk_on_legacy_snapshot_is_out_of_bounds() {
    // A 256-byte legacy snapshot does not reach the fixed 0x100 anchor.
    let mut buf = vec![0u8; 256];
    buf[0x06] = 0x10;
    let p = Pci::new(&buf);
    assert_eq!(p.get_ext_capability_by_id(0x03), Err(PciError::OutOfBounds));
}
