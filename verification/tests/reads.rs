use pci_config::config::{Pci, PciError};

#[test]
fn read_little_endian_reassembly() {
    let mut buf = vec![0u8; 16];
    buf[0] = 0x78;
    buf[1] = 0x56;
    buf[2] = 0x34;
    buf[3] = 0x12;
    buf[4] = 0xEF;
    buf[5] = 0xCD;
    buf[6] = 0xAB;
    buf[7] = 0x90;
    let p = Pci::new(&buf);
    assert_eq!(p.read8(0), Ok(0x78));
    assert_eq!(p.read8(3), Ok(0x12));
    assert_eq!(p.read16(0), Ok(0x5678));
    assert_eq!(p.read16(1), Ok(0x3456));
    assert_eq!(p.read32(0), Ok(0x12345678));
    assert_eq!(p.read64(0), Ok(0x90ABCDEF12345678));
    assert_eq!(p.read(0, 3), Ok(0x345678));
    assert_eq!(p.read(2, 5), Ok(0xABCDEF1234));
}

#[test]
fn read_at_exact_end_is_in_bounds() {
    let buf = vec![0xAAu8; 8];
    let p = Pci::new(&buf);
    assert_eq!(p.read64(0), Ok(0xAAAAAAAAAAAAAAAA));
    assert_eq!(p.read8(7), Ok(0xAA));
    assert_eq!(p.read16(6), Ok(0xAAAA));
}

#[test]
fn read_past_length_is_out_of_bounds() {
    let buf = vec![0xFFu8; 8];
    let p = Pci::new(&buf);
    assert_eq!(p.read8(8), Err(PciError::OutOfBounds));
    assert_eq!(p.read16(7), Err(PciError::OutOfBounds));
    assert_eq!(p.read32(5), Err(PciError::OutOfBounds));
    assert_eq!(p.read64(1), Err(PciError::OutOfBounds));
    assert_eq!(p.read(6, 3), Err(PciError::OutOfBounds));
    assert_eq!(p.read(100, 1), Err(PciError::OutOfBounds));
}

#[test]
fn read_beyond_length_never_sees_padding() {
    // The snapshot is padded with zero bytes internally, but a read past the
    // captured length must report the bound, not the padding.
    let buf = vec![0x11u8; 4];
    let p = Pci::new(&buf);
    assert_eq!(p.read32(0), Ok(0x11111111));
    assert_eq!(p.read64(0), Err(PciError::OutOfBounds));
    assert_eq!(p.read8(4), Err(PciError::OutOfBounds));
}

#[test]
fn empty_snapshot_reads_nothing() {
    let buf: Vec<u8> = Vec::new();
    let p = Pci::new(&buf);
    assert_eq!(p.read8(0), Err(PciError::OutOfBounds));
    assert_eq!(p.read64(0), Err(PciError::OutOfBounds));
}

#[test]
fn full_capacity_snapshot_reads_everywhere() {
    let mut buf = vec![0u8; 4096];
    buf[4092] = 0x0D;
    buf[4093] = 0x0C;
    buf[4094] = 0x0B;
    buf[4095] = 0x0A;
    let p = Pci::new(&buf);
    assert_eq!(p.read32(4092), Ok(0x0A0B0C0D));
    assert_eq!(p.read32(4093), Err(PciError::OutOfBounds));
}
