//! The configuration-space snapshot: bounded little-endian reads, the fixed
//! header fields, both capability-list walks and the typed capability
//! decoders.

use vstd::prelude::*;

use crate::bits::{bits_of, get_bits_u16, get_bits_u32};
use crate::cap::{DEV, DEV2, DSN, EmptyExtPcieCap, LINK, LINK2, MSI, MSIX, PCIE, PM};
use crate::fld::{
    CapExtHdr, CapHdr, Command, DevCap, DevCap2, DevControl, DevControl2, DevStatus, DevStatus2,
    HeaderType, LinkCap, LinkCap2, LinkControl, LinkControl2, LinkStatus, LinkStatus2, MsiCap,
    MsixCap, PciCap, PmCap, PmCsr, Status,
};

verus! {

/// The only hard failure: a field read that would run past the captured
/// snapshot length. An absent capability is not an error; it is reported as a
/// zero offset or a record with `cap_on == false`.
#[derive(Debug, Clone, Copy, PartialEq, Eq, Structural)]
pub enum PciError {
    OutOfBounds,
}

/// The value of the `size` bytes of `b` starting at `off`, assembled
/// little-endian: the byte at `off` is least significant.
pub open spec fn le_bytes_val(b: Seq<u8>, off: int, size: nat) -> nat
    decreases size,
{
    if size == 0 {
        0
    } else {
        b[off] as nat + 256 * le_bytes_val(b, off + 1, (size - 1) as nat)
    }
}

/// `256^n`, the number of values of an `n`-byte field.
pub open spec fn pow256(n: nat) -> nat
    decreases n,
{
    if n == 0 {
        1
    } else {
        256 * pow256((n - 1) as nat)
    }
}

/// A little-endian value of `size` bytes is below `256^size`.
pub proof fn lemma_le_bytes_val_bound(b: Seq<u8>, off: int, size: nat)
    ensures
        le_bytes_val(b, off, size) < pow256(size),
    decreases size,
{
    if size > 0 {
        lemma_le_bytes_val_bound(b, off + 1, (size - 1) as nat);
    }
}

/// `256^m <= 256^n` whenever `m <= n`.
pub proof fn lemma_pow256_increases(m: nat, n: nat)
    requires
        m <= n,
    ensures
        pow256(m) <= pow256(n),
    decreases n,
{
    if m < n {
        lemma_pow256_increases(m, (n - 1) as nat);
    }
}

/// The values of `256^n` for every field size in use.
pub proof fn lemma_pow256_values()
    ensures
        pow256(1) == 0x100,
        pow256(2) == 0x1_0000,
        pow256(3) == 0x100_0000,
        pow256(4) == 0x1_0000_0000,
        pow256(8) == 0x1_0000_0000_0000_0000,
{
    assert(pow256(0) == 1);
    assert(pow256(1) == 0x100);
    assert(pow256(2) == 0x1_0000);
    assert(pow256(3) == 0x100_0000);
    assert(pow256(4) == 0x1_0000_0000);
    assert(pow256(5) == 0x100_0000_0000);
    assert(pow256(6) == 0x1_0000_0000_0000);
    assert(pow256(7) == 0x100_0000_0000_0000);
    assert(pow256(8) == 0x1_0000_0000_0000_0000);
}

/// The result of a bounded read of `size` bytes at `off`: the little-endian
/// value when the whole field lies inside the snapshot, `OutOfBounds`
/// otherwise — never a partial or wrapped value.
pub open spec fn spec_read(b: Seq<u8>, off: int, size: nat) -> Result<u64, PciError> {
    if 0 <= off && off + size <= b.len() {
        Ok(le_bytes_val(b, off, size) as u64)
    } else {
        Err(PciError::OutOfBounds)
    }
}

/// A bounded 8-bit read.
pub open spec fn spec_read8(b: Seq<u8>, off: int) -> Result<u8, PciError> {
    match spec_read(b, off, 1) {
        Ok(v) => Ok(v as u8),
        Err(e) => Err(e),
    }
}

/// A bounded little-endian 16-bit read.
pub open spec fn spec_read16(b: Seq<u8>, off: int) -> Result<u16, PciError> {
    match spec_read(b, off, 2) {
        Ok(v) => Ok(v as u16),
        Err(e) => Err(e),
    }
}

/// A bounded little-endian 32-bit read.
pub open spec fn spec_read32(b: Seq<u8>, off: int) -> Result<u32, PciError> {
    match spec_read(b, off, 4) {
        Ok(v) => Ok(v as u32),
        Err(e) => Err(e),
    }
}

/// A bounded little-endian 64-bit read.
pub open spec fn spec_read64(b: Seq<u8>, off: int) -> Result<u64, PciError> {
    spec_read(b, off, 8)
}

/// The vendor ID, from offset 0x00.
pub open spec fn spec_vendor_id(b: Seq<u8>) -> Result<u16, PciError> {
    spec_read16(b, 0x00)
}

/// The device ID, from offset 0x02.
pub open spec fn spec_device_id(b: Seq<u8>) -> Result<u16, PciError> {
    spec_read16(b, 0x02)
}

/// The subsystem vendor ID, from offset 0x2C.
pub open spec fn spec_subsystem_vendor_id(b: Seq<u8>) -> Result<u16, PciError> {
    spec_read16(b, 0x2C)
}

/// The subsystem device ID, from offset 0x2E.
pub open spec fn spec_subsystem_device_id(b: Seq<u8>) -> Result<u16, PciError> {
    spec_read16(b, 0x2E)
}

/// The command register, from offset 0x04.
pub open spec fn spec_command(b: Seq<u8>) -> Result<Command, PciError> {
    match spec_read16(b, 0x04) {
        Ok(v) => Ok(Command(v)),
        Err(e) => Err(e),
    }
}

/// The status register, from offset 0x06.
pub open spec fn spec_status(b: Seq<u8>) -> Result<Status, PciError> {
    match spec_read16(b, 0x06) {
        Ok(v) => Ok(Status(v)),
        Err(e) => Err(e),
    }
}

/// The header-type register, from offset 0x0E.
pub open spec fn spec_header(b: Seq<u8>) -> Result<HeaderType, PciError> {
    match spec_read8(b, 0x0E) {
        Ok(v) => Ok(HeaderType(v)),
        Err(e) => Err(e),
    }
}

/// The revision ID, from offset 0x08.
pub open spec fn spec_revision_id(b: Seq<u8>) -> Result<u8, PciError> {
    spec_read8(b, 0x08)
}

/// The 24-bit class code, assembled little-endian from the three bytes at
/// offset 0x09: `(byte2 << 16) | (byte1 << 8) | byte0`.
pub open spec fn spec_class_code(b: Seq<u8>) -> Result<u32, PciError> {
    match spec_read(b, 0x09, 3) {
        Ok(v) => Ok(v as u32),
        Err(e) => Err(e),
    }
}

/// The interrupt line, from offset 0x3C.
pub open spec fn spec_interrupt_line(b: Seq<u8>) -> Result<u8, PciError> {
    spec_read8(b, 0x3C)
}

/// The interrupt pin, from offset 0x3D.
pub open spec fn spec_interrupt_pin(b: Seq<u8>) -> Result<u8, PciError> {
    spec_read8(b, 0x3D)
}

/// The standard capability list base pointer: the byte at offset 0x34, gated
/// by status bit 4. With the bit clear the pointer reads as 0 (absent)
/// whatever offset 0x34 holds, and offset 0x34 is not consulted at all.
pub open spec fn spec_capabilities_ptr(b: Seq<u8>) -> Result<u8, PciError> {
    match spec_status(b) {
        Err(e) => Err(e),
        Ok(st) => if !st.spec_capabilities_list() {
            Ok(0u8)
        } else {
            spec_read8(b, 0x34)
        },
    }
}

/// The bus number at offset 0x18, meaningful only for a PCI-to-PCI bridge
/// (header type 1); it reads as 0 for every other header type.
pub open spec fn spec_bus_number(b: Seq<u8>) -> Result<u8, PciError> {
    match spec_header(b) {
        Err(e) => Err(e),
        Ok(h) => if h.spec_header_type() != 1 {
            Ok(0u8)
        } else {
            spec_read8(b, 0x18)
        },
    }
}

/// The secondary bus number at offset 0x19, gated like `spec_bus_number`.
pub open spec fn spec_secondary_bus(b: Seq<u8>) -> Result<u8, PciError> {
    match spec_header(b) {
        Err(e) => Err(e),
        Ok(h) => if h.spec_header_type() != 1 {
            Ok(0u8)
        } else {
            spec_read8(b, 0x19)
        },
    }
}

/// The subordinate bus number at offset 0x1A, gated like `spec_bus_number`.
pub open spec fn spec_subordinate_bus(b: Seq<u8>) -> Result<u8, PciError> {
    match spec_header(b) {
        Err(e) => Err(e),
        Ok(h) => if h.spec_header_type() != 1 {
            Ok(0u8)
        } else {
            spec_read8(b, 0x1A)
        },
    }
}

/// One step of the standard capability list walk, with `fuel` hops left.
///
/// Each node is the 16-bit header at `off`: ID in bits 7..0, next-node offset
/// in bits 15..8. The walk stops, reporting absent as offset 0, on an all-zero
/// header, on a zero next-pointer, or when the hop bound runs out (a malformed
/// or cyclic chain); it stops with the node's offset when the ID matches, and
/// with `OutOfBounds` when a node header lies outside the snapshot.
pub open spec fn spec_walk_std(b: Seq<u8>, id: u8, off: u8, fuel: nat) -> Result<u8, PciError>
    decreases fuel,
{
    if fuel == 0 {
        Ok(0u8)
    } else {
        match spec_read16(b, off as int) {
            Err(e) => Err(e),
            Ok(hdr) => if hdr == 0 {
                Ok(0u8)
            } else if bits_of(hdr as u64, 7, 0) == id as u64 {
                Ok(off)
            } else if bits_of(hdr as u64, 15, 8) == 0 {
                Ok(0u8)
            } else {
                spec_walk_std(b, id, bits_of(hdr as u64, 15, 8) as u8, (fuel - 1) as nat)
            },
        }
    }
}

/// The standard capability list walk for `id`: anchored at the (status-gated)
/// capability pointer, absent (0) immediately when that pointer is 0.
pub open spec fn spec_get_capability_by_id(b: Seq<u8>, id: u8) -> Result<u8, PciError> {
    match spec_capabilities_ptr(b) {
        Err(e) => Err(e),
        Ok(p) => if p == 0 {
            Ok(0u8)
        } else {
            spec_walk_std(b, id, p, Pci::MAX_CAPABILITIES as nat)
        },
    }
}

/// One step of the extended capability list walk, with `fuel` hops left.
///
/// Each node is the 32-bit header at `off`: ID in bits 7..0, next-node offset
/// in bits 31..20. The stop rules match `spec_walk_std`; an all-zero header
/// also ends the walk, since ID 0 is not a valid extended capability ID and an
/// unimplemented region reads as zero.
pub open spec fn spec_walk_ext(b: Seq<u8>, id: u8, off: u16, fuel: nat) -> Result<u16, PciError>
    decreases fuel,
{
    if fuel == 0 {
        Ok(0u16)
    } else {
        match spec_read32(b, off as int) {
            Err(e) => Err(e),
            Ok(hdr) => if hdr == 0 {
                Ok(0u16)
            } else if bits_of(hdr as u64, 7, 0) == id as u64 {
                Ok(off)
            } else if bits_of(hdr as u64, 31, 20) == 0 {
                Ok(0u16)
            } else {
                spec_walk_ext(b, id, bits_of(hdr as u64, 31, 20) as u16, (fuel - 1) as nat)
            },
        }
    }
}

/// The extended capability list walk for `id`, anchored at fixed offset 0x100
/// whatever the header holds.
pub open spec fn spec_get_ext_capability_by_id(b: Seq<u8>, id: u8) -> Result<u16, PciError> {
    spec_walk_ext(b, id, 0x100u16, Pci::MAX_EXTENDED_CAPABILITIES as nat)
}

/// The decoded power-management capability (ID 0x01): absent record when the
/// walk reports 0, otherwise the 64-bit word at the capability split into
/// header, capabilities and control/status registers.
pub open spec fn spec_get_pm(b: Seq<u8>) -> Result<PM, PciError> {
    match spec_get_capability_by_id(b, 0x01) {
        Err(e) => Err(e),
        Ok(c) => if c == 0 {
            Ok(PM::absent())
        } else {
            match spec_read64(b, c as int) {
                Err(e) => Err(e),
                Ok(val) => Ok(
                    PM {
                        cap_on: val != 0,
                        base_ptr: c,
                        hdr: CapHdr(bits_of(val, 15, 0) as u16),
                        cap: PmCap(bits_of(val, 31, 16) as u16),
                        csr: PmCsr(bits_of(val, 47, 32) as u16),
                    },
                ),
            }
        },
    }
}

/// The decoded MSI capability (ID 0x05): absent record when the walk reports
/// 0, otherwise the 32-bit word at the capability split into header and
/// message control.
pub open spec fn spec_get_msi(b: Seq<u8>) -> Result<MSI, PciError> {
    match spec_get_capability_by_id(b, 0x05) {
        Err(e) => Err(e),
        Ok(c) => if c == 0 {
            Ok(MSI::absent())
        } else {
            match spec_read32(b, c as int) {
                Err(e) => Err(e),
                Ok(val) => Ok(
                    MSI {
                        cap_on: val != 0,
                        base_ptr: c,
                        hdr: CapHdr(bits_of(val as u64, 15, 0) as u16),
                        cap: MsiCap(bits_of(val as u64, 31, 16) as u16),
                    },
                ),
            }
        },
    }
}

/// The decoded MSI-X capability (ID 0x11): absent record when the walk
/// reports 0, otherwise the 32-bit word at the capability split into header
/// and message control.
pub open spec fn spec_get_msix(b: Seq<u8>) -> Result<MSIX, PciError> {
    match spec_get_capability_by_id(b, 0x11) {
        Err(e) => Err(e),
        Ok(c) => if c == 0 {
            Ok(MSIX::absent())
        } else {
            match spec_read32(b, c as int) {
                Err(e) => Err(e),
                Ok(val) => Ok(
                    MSIX {
                        cap_on: val != 0,
                        base_ptr: c,
                        hdr: CapHdr(bits_of(val as u64, 15, 0) as u16),
                        cap: MsixCap(bits_of(val as u64, 31, 16) as u16),
                    },
                ),
            }
        },
    }
}

/// The decoded PCI Express capability (ID 0x10): absent record when the walk
/// reports 0. A present capability needs the 0x34 bytes from its base for the
/// header word and the device/device-2/link/link-2 word groups; a snapshot
/// shorter than that is `OutOfBounds`.
pub open spec fn spec_get_pci(b: Seq<u8>) -> Result<PCIE, PciError> {
    match spec_get_capability_by_id(b, 0x10) {
        Err(e) => Err(e),
        Ok(c) => if c == 0 {
            Ok(PCIE::absent())
        } else if b.len() < c + 0x34 {
            Err(PciError::OutOfBounds)
        } else {
            let pci = le_bytes_val(b, c as int, 4) as u64;
            let dev = le_bytes_val(b, c as int + 0x04, 8) as u64;
            let dev2 = le_bytes_val(b, c as int + 0x24, 8) as u64;
            let link = le_bytes_val(b, c as int + 0x0C, 8) as u64;
            let link2 = le_bytes_val(b, c as int + 0x2C, 8) as u64;
            Ok(
                PCIE {
                    cap_on: pci != 0,
                    base_ptr: c,
                    hdr: CapHdr(bits_of(pci, 15, 0) as u16),
                    cap: PciCap(bits_of(pci, 31, 16) as u16),
                    dev: DEV {
                        cap: DevCap(bits_of(dev, 31, 0) as u32),
                        control: DevControl(bits_of(dev, 47, 32) as u16),
                        status: DevStatus(bits_of(dev, 63, 48) as u16),
                    },
                    dev2: DEV2 {
                        cap: DevCap2(bits_of(dev2, 31, 0) as u32),
                        control: DevControl2(bits_of(dev2, 47, 32) as u16),
                        status: DevStatus2(bits_of(dev2, 63, 48) as u16),
                    },
                    link: LINK {
                        cap: LinkCap(bits_of(link, 31, 0) as u32),
                        control: LinkControl(bits_of(link, 47, 32) as u16),
                        status: LinkStatus(bits_of(link, 63, 48) as u16),
                    },
                    link2: LINK2 {
                        cap: LinkCap2(bits_of(link2, 31, 0) as u32),
                        control: LinkControl2(bits_of(link2, 47, 32) as u16),
                        status: LinkStatus2(bits_of(link2, 63, 48) as u16),
                    },
                },
            )
        },
    }
}

/// The decoded device-serial-number extended capability (ID 0x03): absent
/// record when the walk reports 0, otherwise the header word and the 64-bit
/// serial number that follows it.
pub open spec fn spec_get_dsn(b: Seq<u8>) -> Result<DSN, PciError> {
    match spec_get_ext_capability_by_id(b, 0x03) {
        Err(e) => Err(e),
        Ok(c) => if c == 0 {
            Ok(DSN::absent())
        } else if b.len() < c + 12 {
            Err(PciError::OutOfBounds)
        } else {
            let hdr = le_bytes_val(b, c as int, 4) as u32;
            Ok(
                DSN {
                    cap_on: hdr != 0,
                    base_ptr: c,
                    hdr: CapExtHdr(hdr),
                    serial: le_bytes_val(b, c as int + 4, 8) as u64,
                },
            )
        },
    }
}

/// The generic decoding of the extended capability with the given ID: absent
/// record when the walk reports 0, otherwise just the header word.
pub open spec fn spec_get_empty_extended_cap(b: Seq<u8>, id: u8) -> Result<
    EmptyExtPcieCap,
    PciError,
> {
    match spec_get_ext_capability_by_id(b, id) {
        Err(e) => Err(e),
        Ok(c) => if c == 0 {
            Ok(EmptyExtPcieCap::absent())
        } else {
            match spec_read32(b, c as int) {
                Err(e) => Err(e),
                Ok(val) => Ok(EmptyExtPcieCap { cap_on: val != 0, base_ptr: c, hdr: CapExtHdr(val) }),
            }
        },
    }
}

/// The bounded extended-capability walk over a two-node cycle reports absent,
/// whatever fuel it starts with.
///
/// When the node at `a` and the node at `c` both decode (non-zero, matching
/// neither the queried ID nor the all-zero terminator) and their next-pointers
/// point at each other, the walk starting at `a` ends with offset 0: the hop
/// bound runs out instead of the walk revisiting the cycle forever.
pub proof fn lemma_walk_ext_two_cycle_absent(b: Seq<u8>, id: u8, a: u16, c: u16, fuel: nat)
    requires
        spec_read32(b, a as int) matches Ok(ha) && ha != 0 && bits_of(ha as u64, 7, 0)
            != id as u64 && bits_of(ha as u64, 31, 20) == c as u64,
        spec_read32(b, c as int) matches Ok(hc) && hc != 0 && bits_of(hc as u64, 7, 0)
            != id as u64 && bits_of(hc as u64, 31, 20) == a as u64,
    ensures
        spec_walk_ext(b, id, a, fuel) == Ok::<u16, PciError>(0u16),
    decreases fuel,
{
    if fuel > 0 {
        lemma_walk_ext_two_cycle_absent(b, id, c, a, (fuel - 1) as nat);
    }
}

/// An extended-capability chain whose first node (at 0x100) and a second node
/// point at each other makes the lookup of an ID carried by neither node
/// report absent — the cycle is cut by the hop bound, never followed forever.
pub proof fn lemma_ext_cycle_reports_absent(b: Seq<u8>, id: u8, c: u16)
    requires
        spec_read32(b, 0x100) matches Ok(ha) && ha != 0 && bits_of(ha as u64, 7, 0)
            != id as u64 && bits_of(ha as u64, 31, 20) == c as u64,
        spec_read32(b, c as int) matches Ok(hc) && hc != 0 && bits_of(hc as u64, 7, 0)
            != id as u64 && bits_of(hc as u64, 31, 20) == 0x100u64,
    ensures
        spec_get_ext_capability_by_id(b, id) == Ok::<u16, PciError>(0u16),
{
    lemma_walk_ext_two_cycle_absent(b, id, 0x100u16, c, Pci::MAX_EXTENDED_CAPABILITIES as nat);
}

/// An immutable configuration-space snapshot: a fixed-capacity copy of the
/// caller's bytes, zero-padded beyond the captured length. Its view is the
/// captured byte sequence; every read is bounds-checked against it.
pub struct Pci {
    cfg: Vec<u8>,
    len: usize,
}

impl View for Pci {
    type V = Seq<u8>;

    closed spec fn view(&self) -> Seq<u8> {
        self.cfg@.take(self.len as int)
    }
}

impl Pci {
    /// The fixed capacity of a snapshot: 4096 bytes.
    pub const CFG_CAPACITY: usize = 0x1000;

    /// The hop bound of the standard capability list walk.
    pub const MAX_CAPABILITIES: u8 = 0x16;

    /// The hop bound of the extended capability list walk.
    pub const MAX_EXTENDED_CAPABILITIES: u8 = 0x2F;

    #[verifier::type_invariant]
    spec fn wf(self) -> bool {
        &&& self.cfg@.len() == Pci::CFG_CAPACITY
        &&& self.len <= Pci::CFG_CAPACITY
        &&& forall|j: int| self.len <= j < self.cfg@.len() ==> self.cfg@[j] == 0u8
    }

    /// Captures a snapshot of `cfg` (at most 4096 bytes; a legacy device
    /// supplies 256). The bytes are copied once and never mutated.
    pub fn new(cfg: &[u8]) -> (r: Pci)
        requires
            cfg@.len() <= Pci::CFG_CAPACITY,
        ensures
            r@ == cfg@,
    {
        let n: usize = cfg.len();
        let mut buf: Vec<u8> = Vec::new();
        let mut i: usize = 0;
        while i < n
            invariant
                i <= n,
                n == cfg@.len(),
                buf@ == cfg@.take(i as int),
            decreases n - i,
        {
            buf.push(cfg[i]);
            proof {
                assert(cfg@.take(i + 1) =~= cfg@.take(i as int).push(cfg@[i as int]));
            }
            i = i + 1;
        }
        while buf.len() < Pci::CFG_CAPACITY
            invariant
                n <= buf@.len() <= Pci::CFG_CAPACITY,
                n == cfg@.len(),
                buf@.take(n as int) == cfg@,
                forall|j: int| n <= j < buf@.len() ==> buf@[j] == 0u8,
            decreases Pci::CFG_CAPACITY - buf@.len(),
        {
            let ghost prev = buf@;
            buf.push(0u8);
            proof {
                assert(buf@.take(n as int) =~= prev.take(n as int));
            }
        }
        let r = Pci { cfg: buf, len: n };
        proof {
            assert(r@ =~= cfg@);
        }
        r
    }

    /// Reads the `size`-byte (at most 8) little-endian value at `offset`;
    /// `OutOfBounds` whenever `offset + size` exceeds the captured length.
    pub fn read(&self, offset: usize, size: usize) -> (r: Result<u64, PciError>)
        requires
            size <= 8,
        ensures
            r == spec_read(self@, offset as int, size as nat),
    {
        proof {
            use_type_invariant(self);
        }
        if self.len < size || offset > self.len - size {
            return Err(PciError::OutOfBounds);
        }
        let mut acc: u64 = 0;
        let mut i: usize = size;
        while i > 0
            invariant
                i <= size,
                size <= 8,
                offset + size <= self.len,
                self.wf(),
                self@.len() == self.len,
                acc as nat == le_bytes_val(self@, offset + i, (size - i) as nat),
                (acc as nat) < pow256((size - i) as nat),
            decreases i,
        {
            proof {
                lemma_pow256_values();
                lemma_pow256_increases((size - i + 1) as nat, 8);
            }
            i = i - 1;
            let byte = self.cfg[offset + i];
            proof {
                assert(self@[offset + i] == self.cfg@[offset + i]);
                assert(le_bytes_val(self@, offset + i, (size - i) as nat) == self@[offset + i]
                    + 256 * le_bytes_val(self@, offset + i + 1, (size - i - 1) as nat));
                assert(pow256((size - i) as nat) == 256 * pow256((size - i - 1) as nat));
            }
            acc = acc * 256 + byte as u64;
        }
        Ok(acc)
    }

    /// Reads the byte at `offset`.
    pub fn read8(&self, offset: usize) -> (r: Result<u8, PciError>)
        ensures
            r == spec_read8(self@, offset as int),
    {
        match self.read(offset, 1) {
            Ok(v) => Ok(v as u8),
            Err(e) => Err(e),
        }
    }

    /// Reads the little-endian 16-bit value at `offset`.
    pub fn read16(&self, offset: usize) -> (r: Result<u16, PciError>)
        ensures
            r == spec_read16(self@, offset as int),
    {
        match self.read(offset, 2) {
            Ok(v) => Ok(v as u16),
            Err(e) => Err(e),
        }
    }

    /// Reads the little-endian 32-bit value at `offset`.
    pub fn read32(&self, offset: usize) -> (r: Result<u32, PciError>)
        ensures
            r == spec_read32(self@, offset as int),
    {
        match self.read(offset, 4) {
            Ok(v) => Ok(v as u32),
            Err(e) => Err(e),
        }
    }

    /// Reads the little-endian 64-bit value at `offset`.
    pub fn read64(&self, offset: usize) -> (r: Result<u64, PciError>)
        ensures
            r == spec_read64(self@, offset as int),
    {
        self.read(offset, 8)
    }

    /// The vendor ID at offset 0x00.
    pub fn vendor_id(&self) -> (r: Result<u16, PciError>)
        ensures
            r == spec_vendor_id(self@),
    {
        self.read16(0x00)
    }

    /// The device ID at offset 0x02.
    pub fn device_id(&self) -> (r: Result<u16, PciError>)
        ensures
            r == spec_device_id(self@),
    {
        self.read16(0x02)
    }

    /// The subsystem vendor ID at offset 0x2C.
    pub fn subsystem_vendor_id(&self) -> (r: Result<u16, PciError>)
        ensures
            r == spec_subsystem_vendor_id(self@),
    {
        self.read16(0x2C)
    }

    /// The subsystem device ID at offset 0x2E.
    pub fn subsystem_device_id(&self) -> (r: Result<u16, PciError>)
        ensures
            r == spec_subsystem_device_id(self@),
    {
        self.read16(0x2E)
    }

    /// The command register at offset 0x04.
    pub fn command(&self) -> (r: Result<Command, PciError>)
        ensures
            r == spec_command(self@),
    {
        match self.read16(0x04) {
            Ok(v) => Ok(Command(v)),
            Err(e) => Err(e),
        }
    }

    /// The status register at offset 0x06.
    pub fn status(&self) -> (r: Result<Status, PciError>)
        ensures
            r == spec_status(self@),
    {
        match self.read16(0x06) {
            Ok(v) => Ok(Status(v)),
            Err(e) => Err(e),
        }
    }

    /// The header-type register at offset 0x0E.
    pub fn header(&self) -> (r: Result<HeaderType, PciError>)
        ensures
            r == spec_header(self@),
    {
        match self.read8(0x0E) {
            Ok(v) => Ok(HeaderType(v)),
            Err(e) => Err(e),
        }
    }

    /// The bus number at offset 0x18; 0 for every header type but 1, whatever
    /// the underlying byte holds.
    pub fn bus_number(&self) -> (r: Result<u8, PciError>)
        ensures
            r == spec_bus_number(self@),
            (spec_header(self@) matches Ok(h) && h.spec_header_type() != 1 ==> r == Ok::<u8, PciError>(0u8)),
    {
        let h = match self.header() {
            Ok(h) => h,
            Err(e) => return Err(e),
        };
        if h.header_type() != 1 {
            return Ok(0);
        }
        self.read8(0x18)
    }

    /// The secondary bus number at offset 0x19; 0 for every header type but 1,
    /// whatever the underlying byte holds.
    pub fn secondary_bus(&self) -> (r: Result<u8, PciError>)
        ensures
            r == spec_secondary_bus(self@),
            (spec_header(self@) matches Ok(h) && h.spec_header_type() != 1 ==> r == Ok::<u8, PciError>(0u8)),
    {
        let h = match self.header() {
            Ok(h) => h,
            Err(e) => return Err(e),
        };
        if h.header_type() != 1 {
            return Ok(0);
        }
        self.read8(0x19)
    }

    /// The subordinate bus number at offset 0x1A; 0 for every header type but
    /// 1, whatever the underlying byte holds.
    pub fn subordinate_bus(&self) -> (r: Result<u8, PciError>)
        ensures
            r == spec_subordinate_bus(self@),
            (spec_header(self@) matches Ok(h) && h.spec_header_type() != 1 ==> r == Ok::<u8, PciError>(0u8)),
    {
        let h = match self.header() {
            Ok(h) => h,
            Err(e) => return Err(e),
        };
        if h.header_type() != 1 {
            return Ok(0);
        }
        self.read8(0x1A)
    }

    /// The revision ID at offset 0x08.
    pub fn revision_id(&self) -> (r: Result<u8, PciError>)
        ensures
            r == spec_revision_id(self@),
    {
        self.read8(0x08)
    }

    /// The 24-bit class code at offset 0x09, assembled little-endian.
    pub fn class_code(&self) -> (r: Result<u32, PciError>)
        ensures
            r == spec_class_code(self@),
    {
        match self.read(0x09, 3) {
            Ok(v) => Ok(v as u32),
            Err(e) => Err(e),
        }
    }

    /// The interrupt line at offset 0x3C.
    pub fn interrupt_line(&self) -> (r: Result<u8, PciError>)
        ensures
            r == spec_interrupt_line(self@),
    {
        self.read8(0x3C)
    }

    /// The interrupt pin at offset 0x3D.
    pub fn interrupt_pin(&self) -> (r: Result<u8, PciError>)
        ensures
            r == spec_interrupt_pin(self@),
    {
        self.read8(0x3D)
    }

    /// The standard capability list base pointer at offset 0x34. With status
    /// bit 4 clear it reads as 0 (absent) whatever the byte holds, and offset
    /// 0x34 is not consulted at all.
    pub fn capabilities_ptr(&self) -> (r: Result<u8, PciError>)
        ensures
            r == spec_capabilities_ptr(self@),
            (spec_status(self@) matches Ok(st) && !st.spec_capabilities_list() ==> r == Ok::<u8, PciError>(0u8)),
    {
        let st = match self.status() {
            Ok(st) => st,
            Err(e) => return Err(e),
        };
        if !st.capabilities_list() {
            return Ok(0);
        }
        self.read8(0x34)
    }

    /// Walks the standard capability list for `id`. Returns the byte offset
    /// of the first matching node, 0 when the list ends (or the hop bound runs
    /// out) without a match, and `OutOfBounds` when a node header lies outside
    /// the snapshot.
    pub fn get_capability_by_id(&self, id: u8) -> (r: Result<u8, PciError>)
        ensures
            r == spec_get_capability_by_id(self@, id),
    {
        let ptr = match self.capabilities_ptr() {
            Ok(p) => p,
            Err(e) => return Err(e),
        };
        if ptr == 0 {
            return Ok(0);
        }
        let mut off: u8 = ptr;
        let mut fuel: u8 = Pci::MAX_CAPABILITIES;
        while fuel > 0
            invariant
                spec_walk_std(self@, id, off, fuel as nat) == spec_get_capability_by_id(self@, id),
            decreases fuel,
        {
            let hdr = match self.read16(off as usize) {
                Ok(h) => h,
                Err(e) => return Err(e),
            };
            let cap = CapHdr(hdr);
            if cap.0 == 0 {
                return Ok(0);
            }
            if cap.cap_id() == id {
                return Ok(off);
            }
            let next = cap.cap_next_ptr();
            if next == 0 {
                return Ok(0);
            }
            off = next;
            fuel = fuel - 1;
        }
        Ok(0)
    }

    /// Walks the extended capability list (anchored at offset 0x100) for
    /// `id`, with the same result convention as `get_capability_by_id`.
    pub fn get_ext_capability_by_id(&self, id: u8) -> (r: Result<u16, PciError>)
        ensures
            r == spec_get_ext_capability_by_id(self@, id),
    {
        let mut off: u16 = 0x100;
        let mut fuel: u8 = Pci::MAX_EXTENDED_CAPABILITIES;
        while fuel > 0
            invariant
                spec_walk_ext(self@, id, off, fuel as nat) == spec_get_ext_capability_by_id(
                    self@,
                    id,
                ),
            decreases fuel,
        {
            let hdr = match self.read32(off as usize) {
                Ok(h) => h,
                Err(e) => return Err(e),
            };
            let cap = CapExtHdr(hdr);
            if cap.0 == 0 {
                return Ok(0);
            }
            if cap.cap_id() == id {
                return Ok(off);
            }
            let next = cap.cap_next_ptr();
            if next == 0 {
                return Ok(0);
            }
            off = next;
            fuel = fuel - 1;
        }
        Ok(0)
    }

    /// Decodes the power-management capability (ID 0x01).
    pub fn get_pm(&self) -> (r: Result<PM, PciError>)
        ensures
            r == spec_get_pm(self@),
    {
        let c = match self.get_capability_by_id(0x01) {
            Ok(c) => c,
            Err(e) => return Err(e),
        };
        if c == 0 {
            return Ok(PM::new());
        }
        let val = match self.read64(c as usize) {
            Ok(v) => v,
            Err(e) => return Err(e),
        };
        Ok(
            PM {
                cap_on: val != 0,
                base_ptr: c,
                hdr: CapHdr(get_bits_u16(val, 15, 0)),
                cap: PmCap(get_bits_u16(val, 31, 16)),
                csr: PmCsr(get_bits_u16(val, 47, 32)),
            },
        )
    }

    /// Decodes the MSI capability (ID 0x05).
    pub fn get_msi(&self) -> (r: Result<MSI, PciError>)
        ensures
            r == spec_get_msi(self@),
    {
        let c = match self.get_capability_by_id(0x05) {
            Ok(c) => c,
            Err(e) => return Err(e),
        };
        if c == 0 {
            return Ok(MSI::new());
        }
        let val = match self.read32(c as usize) {
            Ok(v) => v,
            Err(e) => return Err(e),
        };
        Ok(
            MSI {
                cap_on: val != 0,
                base_ptr: c,
                hdr: CapHdr(get_bits_u16(val as u64, 15, 0)),
                cap: MsiCap(get_bits_u16(val as u64, 31, 16)),
            },
        )
    }

    /// Decodes the MSI-X capability (ID 0x11).
    pub fn get_msix(&self) -> (r: Result<MSIX, PciError>)
        ensures
            r == spec_get_msix(self@),
    {
        let c = match self.get_capability_by_id(0x11) {
            Ok(c) => c,
            Err(e) => return Err(e),
        };
        if c == 0 {
            return Ok(MSIX::new());
        }
        let val = match self.read32(c as usize) {
            Ok(v) => v,
            Err(e) => return Err(e),
        };
        Ok(
            MSIX {
                cap_on: val != 0,
                base_ptr: c,
                hdr: CapHdr(get_bits_u16(val as u64, 15, 0)),
                cap: MsixCap(get_bits_u16(val as u64, 31, 16)),
            },
        )
    }

    /// Decodes the PCI Express capability (ID 0x10): the header word plus the
    /// device, device-2, link and link-2 word groups.
    pub fn get_pci(&self) -> (r: Result<PCIE, PciError>)
        ensures
            r == spec_get_pci(self@),
    {
        let c = match self.get_capability_by_id(0x10) {
            Ok(c) => c,
            Err(e) => return Err(e),
        };
        if c == 0 {
            return Ok(PCIE::new());
        }
        let pci = match self.read32(c as usize) {
            Ok(v) => v,
            Err(e) => return Err(e),
        };
        let dev = match self.read64(c as usize + 0x04) {
            Ok(v) => v,
            Err(e) => return Err(e),
        };
        let dev2 = match self.read64(c as usize + 0x24) {
            Ok(v) => v,
            Err(e) => return Err(e),
        };
        let link = match self.read64(c as usize + 0x0C) {
            Ok(v) => v,
            Err(e) => return Err(e),
        };
        let link2 = match self.read64(c as usize + 0x2C) {
            Ok(v) => v,
            Err(e) => return Err(e),
        };
        proof {
            lemma_pow256_values();
            lemma_le_bytes_val_bound(self@, c as int, 4);
        }
        Ok(
            PCIE {
                cap_on: pci != 0,
                base_ptr: c,
                hdr: CapHdr(get_bits_u16(pci as u64, 15, 0)),
                cap: PciCap(get_bits_u16(pci as u64, 31, 16)),
                dev: DEV {
                    cap: DevCap(get_bits_u32(dev, 31, 0)),
                    control: DevControl(get_bits_u16(dev, 47, 32)),
                    status: DevStatus(get_bits_u16(dev, 63, 48)),
                },
                dev2: DEV2 {
                    cap: DevCap2(get_bits_u32(dev2, 31, 0)),
                    control: DevControl2(get_bits_u16(dev2, 47, 32)),
                    status: DevStatus2(get_bits_u16(dev2, 63, 48)),
                },
                link: LINK {
                    cap: LinkCap(get_bits_u32(link, 31, 0)),
                    control: LinkControl(get_bits_u16(link, 47, 32)),
                    status: LinkStatus(get_bits_u16(link, 63, 48)),
                },
                link2: LINK2 {
                    cap: LinkCap2(get_bits_u32(link2, 31, 0)),
                    control: LinkControl2(get_bits_u16(link2, 47, 32)),
                    status: LinkStatus2(get_bits_u16(link2, 63, 48)),
                },
            },
        )
    }

    /// Decodes the device-serial-number extended capability (ID 0x03).
    pub fn get_dsn(&self) -> (r: Result<DSN, PciError>)
        ensures
            r == spec_get_dsn(self@),
    {
        let c = match self.get_ext_capability_by_id(0x03) {
            Ok(c) => c,
            Err(e) => return Err(e),
        };
        if c == 0 {
            return Ok(DSN::new());
        }
        let hdr = match self.read32(c as usize) {
            Ok(v) => v,
            Err(e) => return Err(e),
        };
        let serial = match self.read64(c as usize + 4) {
            Ok(v) => v,
            Err(e) => return Err(e),
        };
        proof {
            lemma_pow256_values();
            lemma_le_bytes_val_bound(self@, c as int, 4);
        }
        Ok(DSN { cap_on: hdr != 0, base_ptr: c, hdr: CapExtHdr(hdr), serial })
    }

    /// Decodes an extended capability with no typed decoder: only the header.
    pub fn get_empty_extended_cap(&self, id: u8) -> (r: Result<EmptyExtPcieCap, PciError>)
        ensures
            r == spec_get_empty_extended_cap(self@, id),
    {
        let c = match self.get_ext_capability_by_id(id) {
            Ok(c) => c,
            Err(e) => return Err(e),
        };
        if c == 0 {
            return Ok(EmptyExtPcieCap::new());
        }
        let val = match self.read32(c as usize) {
            Ok(v) => v,
            Err(e) => return Err(e),
        };
        Ok(EmptyExtPcieCap { cap_on: val != 0, base_ptr: c, hdr: CapExtHdr(val) })
    }
}

} // verus!

