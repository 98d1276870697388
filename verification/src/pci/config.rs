//! The configuration header of an emulated function and the accesses to it.

use vstd::prelude::*;
use vstd::array::spec_array_update;
use crate::bits::{cleared16, lemma_cleared16, lemma_masked16, lemma_masked32, mask_bits_u32,
    masked16, masked32};
use crate::endian::{byte16, byte32, byte_of16, byte_of32, lemma_round_trip, read_at, read_le};
use crate::mem::Mmio;
use crate::pci::cap::PciCapList;
use crate::pci::flags::{Command, Status};
use crate::pci::{Bdf, PciBar};

verus! {

/// The size of the header of a device function, in bytes.
pub const SIZE_HEADER: usize = 0x40;

/// The size of the configuration space of a function, in bytes.
pub const SIZE_CONFIG: usize = 4096;

/// The offset of the Command register.
pub const OFFSET_COMMAND: usize = 0x04;

/// The offset of the Status register.
pub const OFFSET_STATUS: usize = 0x06;

/// The offset of the first base address register.
pub const OFFSET_BAR0: usize = 0x10;

/// The offset of the last base address register.
pub const OFFSET_BAR5: usize = 0x24;

/// The window of the base address register may be prefetched.
pub const BAR_PREFETCHABLE: u32 = 0b1000;

/// The base address register holds the low half of a 64-bit memory address.
pub const BAR_MEM64: u32 = 0b0100;

/// The base address register holds a 32-bit memory address.
pub const BAR_MEM32: u32 = 0b0000;

/// The base address register holds an I/O port address.
pub const BAR_IO: u32 = 0b01;

/// The layout that the header follows after its common part.
#[derive(Clone, Copy, Debug, PartialEq, Eq, Structural)]
pub enum HeaderType {
    /// The header of a device.
    Device,
    /// The header of a bridge between two buses.
    Bridge,
}

impl HeaderType {
    /// The number that stands for the layout in the header type register.
    pub open spec fn code_spec(self) -> u8 {
        match self {
            HeaderType::Device => 0,
            HeaderType::Bridge => 1,
        }
    }

    /// The number that stands for the layout in the header type register.
    pub fn code(self) -> (r: u8)
        ensures
            r == self.code_spec(),
    {
        match self {
            HeaderType::Device => 0,
            HeaderType::Bridge => 1,
        }
    }
}

/// The first 16 bytes of the header, which every function has.
#[derive(Clone, Copy, Debug, PartialEq, Eq, Structural)]
pub struct CommonHeader {
    pub vendor: u16,
    pub device: u16,
    pub command: Command,
    pub status: Status,
    pub revision: u8,
    pub prog_if: u8,
    pub subclass: u8,
    pub class: u8,
    pub cache_line_size: u8,
    pub latency_timer: u8,
    pub header_type: u8,
    pub bist: u8,
}

impl CommonHeader {
    /// The byte at offset `i` of the common header, for `i` below 16.
    pub open spec fn byte(&self, i: int) -> u8 {
        if i < 0x02 {
            byte_of16(self.vendor, i)
        } else if i < 0x04 {
            byte_of16(self.device, i - 0x02)
        } else if i < 0x06 {
            byte_of16(self.command@, i - 0x04)
        } else if i < 0x08 {
            byte_of16(self.status@, i - 0x06)
        } else if i == 0x08 {
            self.revision
        } else if i == 0x09 {
            self.prog_if
        } else if i == 0x0a {
            self.subclass
        } else if i == 0x0b {
            self.class
        } else if i == 0x0c {
            self.cache_line_size
        } else if i == 0x0d {
            self.latency_timer
        } else if i == 0x0e {
            self.header_type
        } else {
            self.bist
        }
    }

    /// The byte at offset `i` of the common header.
    fn byte_at(&self, i: usize) -> (r: u8)
        requires
            i < 0x10,
        ensures
            r == self.byte(i as int),
    {
        if i < 0x02 {
            byte16(self.vendor, i)
        } else if i < 0x04 {
            byte16(self.device, i - 0x02)
        } else if i < 0x06 {
            byte16(self.command.bits(), i - 0x04)
        } else if i < 0x08 {
            byte16(self.status.bits(), i - 0x06)
        } else if i == 0x08 {
            self.revision
        } else if i == 0x09 {
            self.prog_if
        } else if i == 0x0a {
            self.subclass
        } else if i == 0x0b {
            self.class
        } else if i == 0x0c {
            self.cache_line_size
        } else if i == 0x0d {
            self.latency_timer
        } else if i == 0x0e {
            self.header_type
        } else {
            self.bist
        }
    }
}

impl CommonHeader {
    /// The common header in which every register is zero.
    pub open spec fn zeroed() -> CommonHeader {
        CommonHeader {
            vendor: 0,
            device: 0,
            command: Command { bits: 0 },
            status: Status { bits: 0 },
            revision: 0,
            prog_if: 0,
            subclass: 0,
            class: 0,
            cache_line_size: 0,
            latency_timer: 0,
            header_type: 0,
            bist: 0,
        }
    }
}

impl Default for CommonHeader {
    fn default() -> (r: CommonHeader)
        ensures
            r == CommonHeader::zeroed(),
            forall|i: int| 0 <= i < 0x10 ==> r.byte(i) == 0,
    {
        let r = CommonHeader {
            vendor: 0,
            device: 0,
            command: Command::empty(),
            status: Status::empty(),
            revision: 0,
            prog_if: 0,
            subclass: 0,
            class: 0,
            cache_line_size: 0,
            latency_timer: 0,
            header_type: 0,
            bist: 0,
        };
        assert(byte_of16(0, 0) == 0 && byte_of16(0, 1) == 0) by (bit_vector);
        r
    }
}

/// The header of a device function: 64 bytes.
#[derive(Clone, Copy, Debug, PartialEq, Eq)]
pub struct DeviceHeader {
    pub common: CommonHeader,
    pub bars: [u32; 6],
    pub cardbus_cis_pointer: u32,
    pub subsystem_vendor: u16,
    pub subsystem: u16,
    pub expansion_rom: u32,
    pub capability_pointer: u8,
    pub reserved: [u8; 7],
    pub intx_line: u8,
    pub intx_pin: u8,
    pub min_gnt: u8,
    pub max_lat: u8,
}

impl DeviceHeader {
    /// The byte at offset `i` of the header, for `i` below 64.
    pub open spec fn byte(&self, i: int) -> u8 {
        if i < 0x10 {
            self.common.byte(i)
        } else if i < 0x28 {
            byte_of32(self.bars[(i - 0x10) / 4], (i - 0x10) % 4)
        } else if i < 0x2c {
            byte_of32(self.cardbus_cis_pointer, i - 0x28)
        } else if i < 0x2e {
            byte_of16(self.subsystem_vendor, i - 0x2c)
        } else if i < 0x30 {
            byte_of16(self.subsystem, i - 0x2e)
        } else if i < 0x34 {
            byte_of32(self.expansion_rom, i - 0x30)
        } else if i == 0x34 {
            self.capability_pointer
        } else if i < 0x3c {
            self.reserved[i - 0x35]
        } else if i == 0x3c {
            self.intx_line
        } else if i == 0x3d {
            self.intx_pin
        } else if i == 0x3e {
            self.min_gnt
        } else {
            self.max_lat
        }
    }

    /// The header as the guest sees it: a flat buffer of 64 bytes.
    pub open spec fn bytes(&self) -> Seq<u8> {
        Seq::new(SIZE_HEADER as nat, |i: int| self.byte(i))
    }

    /// The byte at offset `i` of the header.
    fn byte_at(&self, i: usize) -> (r: u8)
        requires
            i < SIZE_HEADER,
        ensures
            r == self.byte(i as int),
    {
        if i < 0x10 {
            self.common.byte_at(i)
        } else if i < 0x28 {
            byte32(self.bars[(i - 0x10) / 4], (i - 0x10) % 4)
        } else if i < 0x2c {
            byte32(self.cardbus_cis_pointer, i - 0x28)
        } else if i < 0x2e {
            byte16(self.subsystem_vendor, i - 0x2c)
        } else if i < 0x30 {
            byte16(self.subsystem, i - 0x2e)
        } else if i < 0x34 {
            byte32(self.expansion_rom, i - 0x30)
        } else if i == 0x34 {
            self.capability_pointer
        } else if i < 0x3c {
            self.reserved[i - 0x35]
        } else if i == 0x3c {
            self.intx_line
        } else if i == 0x3d {
            self.intx_pin
        } else if i == 0x3e {
            self.min_gnt
        } else {
            self.max_lat
        }
    }

    /// The header that announces a capability list: the capability pointer
    /// holds the offset of the first byte after the header, and the Status
    /// register has its capability flag set.
    pub open spec fn with_capabilities(self) -> DeviceHeader {
        DeviceHeader {
            common: CommonHeader {
                status: Status { bits: self.common.status@ | Status::CAP },
                ..self.common
            },
            capability_pointer: SIZE_HEADER as u8,
            ..self
        }
    }

    /// Whether the header announces a capability list.
    pub open spec fn has_capabilities(&self) -> bool {
        self.capability_pointer == SIZE_HEADER && self.common.status@ & Status::CAP == Status::CAP
    }

    /// Makes the header announce a capability list that starts right after
    /// it.
    pub fn set_capabilities(&mut self)
        ensures
            *final(self) == old(self).with_capabilities(),
            final(self).has_capabilities(),
    {
        let status = self.common.status.bits();
        assert((status | Status::CAP) & Status::CAP == Status::CAP) by (bit_vector);
        self.common.status = self.common.status.union(Status::from_bits_retain(Status::CAP));
        self.capability_pointer = 0x40;
    }

    /// The header as a flat buffer of bytes.
    pub fn to_bytes(&self) -> (r: [u8; 64])
        ensures
            r@ == self.bytes(),
    {
        let mut buf: [u8; 64] = [0u8; 64];
        let mut i: usize = 0;
        while i < SIZE_HEADER
            invariant
                i <= SIZE_HEADER,
                forall|j: int| 0 <= j < i ==> buf@[j] == self.byte(j),
            decreases SIZE_HEADER - i,
        {
            buf[i] = self.byte_at(i);
            i += 1;
        }
        assert(buf@ =~= self.bytes());
        buf
    }
}

impl Default for DeviceHeader {
    fn default() -> (r: DeviceHeader)
        ensures
            r.common == CommonHeader::zeroed(),
            forall|i: int| 0 <= i < 6 ==> r.bars[i] == 0,
            r.cardbus_cis_pointer == 0,
            r.subsystem_vendor == 0,
            r.subsystem == 0,
            r.expansion_rom == 0,
            r.capability_pointer == 0,
            forall|i: int| 0 <= i < 7 ==> r.reserved[i] == 0,
            r.intx_line == 0,
            r.intx_pin == 0,
            r.min_gnt == 0,
            r.max_lat == 0,
            forall|i: int| 0 <= i < SIZE_HEADER ==> r.byte(i) == 0,
    {
        let r = DeviceHeader {
            common: CommonHeader::default(),
            bars: [0u32; 6],
            cardbus_cis_pointer: 0,
            subsystem_vendor: 0,
            subsystem: 0,
            expansion_rom: 0,
            capability_pointer: 0,
            reserved: [0u8; 7],
            intx_line: 0,
            intx_pin: 0,
            min_gnt: 0,
            max_lat: 0,
        };
        assert(byte_of16(0, 0) == 0 && byte_of16(0, 1) == 0 && byte_of32(0, 0) == 0 && byte_of32(
            0,
            1,
        ) == 0 && byte_of32(0, 2) == 0 && byte_of32(0, 3) == 0) by (bit_vector);
        r
    }
}

/// The register that a guest write to the header addresses.
#[derive(Clone, Copy, Debug, PartialEq, Eq, Structural)]
pub enum WriteTarget {
    /// The Command register.
    Command,
    /// The Status register.
    Status,
    /// The base address register with this index.
    Bar { index: usize },
    /// No register that can be written: the write is ignored.
    Ignored,
}

impl WriteTarget {
    /// The register that a write of `size` bytes at `offset` addresses: the
    /// Command or the Status register for a write of two bytes at its
    /// offset, a base address register for a write of four bytes at its
    /// offset, and none for any other write.
    pub open spec fn of(offset: usize, size: u8) -> WriteTarget {
        if offset == OFFSET_COMMAND && size == 2 {
            WriteTarget::Command
        } else if offset == OFFSET_STATUS && size == 2 {
            WriteTarget::Status
        } else if OFFSET_BAR0 <= offset <= OFFSET_BAR5 && offset % 4 == 0 && size == 4 {
            WriteTarget::Bar { index: ((offset - OFFSET_BAR0) / 4) as usize }
        } else {
            WriteTarget::Ignored
        }
    }

    /// Finds the register that a write of `size` bytes at `offset`
    /// addresses.
    pub fn decode(offset: usize, size: u8) -> (r: WriteTarget)
        ensures
            r == Self::of(offset, size),
            r matches WriteTarget::Bar { index } ==> index < 6 && offset == OFFSET_BAR0 + 4 * index,
    {
        if offset == OFFSET_COMMAND && size == 2 {
            WriteTarget::Command
        } else if offset == OFFSET_STATUS && size == 2 {
            WriteTarget::Status
        } else if OFFSET_BAR0 <= offset && offset <= OFFSET_BAR5 && offset % 4 == 0 && size == 4 {
            WriteTarget::Bar { index: (offset - OFFSET_BAR0) / 4 }
        } else {
            WriteTarget::Ignored
        }
    }
}

/// The header of a function, by its layout.
#[derive(Clone, Copy, Debug, PartialEq, Eq)]
pub enum ConfigHeader {
    /// The header of a device.
    Device(DeviceHeader),
}

/// The state of the header of one emulated function: its registers, the mask
/// of each base address register, and the address of the function.
///
/// A bit of a base address register can be written where its mask has a one;
/// the other bits are fixed.
#[derive(Clone, Copy, Debug, PartialEq, Eq)]
pub struct HeaderData {
    pub header: ConfigHeader,
    pub bar_masks: [u32; 6],
    pub bdf: Bdf,
}

impl HeaderData {
    /// The registers of the header.
    pub open spec fn device(&self) -> DeviceHeader {
        match self.header {
            ConfigHeader::Device(header) => header,
        }
    }

    /// The header as the guest sees it: a flat buffer of bytes.
    pub open spec fn bytes(&self) -> Seq<u8> {
        self.device().bytes()
    }

    /// The state in which the registers are `header`.
    pub open spec fn with_device(self, header: DeviceHeader) -> HeaderData {
        HeaderData { header: ConfigHeader::Device(header), ..self }
    }

    /// The state after `val` is written to base address register `index`
    /// through its mask.
    pub open spec fn with_bar(self, index: int, val: u32) -> HeaderData {
        let header = self.device();
        let bar = masked32(header.bars[index], val, self.bar_masks[index]);
        self.with_device(DeviceHeader { bars: spec_array_update(header.bars, index, bar), ..header })
    }

    /// The state in which the Command register is `command`.
    pub open spec fn with_command(self, command: Command) -> HeaderData {
        let header = self.device();
        self.with_device(
            DeviceHeader { common: CommonHeader { command, ..header.common }, ..header },
        )
    }

    /// The state in which the Status register is `status`.
    pub open spec fn with_status(self, status: Status) -> HeaderData {
        let header = self.device();
        self.with_device(
            DeviceHeader { common: CommonHeader { status, ..header.common }, ..header },
        )
    }

    /// The state after the guest writes the low `size` bytes of `val` at
    /// `offset`.
    ///
    /// A write to the Command register changes its writable bits. A write
    /// to the Status register clears the sticky error bits that are written
    /// as one. A write to a base address register changes the bits in its
    /// mask. Every other write changes nothing.
    pub open spec fn written(self, offset: usize, size: u8, val: u64) -> HeaderData {
        let header = self.device();
        match WriteTarget::of(offset, size) {
            WriteTarget::Command => self.with_command(
                Command { bits: masked16(header.common.command@, val as u16, Command::WRITABLE_BITS) },
            ),
            WriteTarget::Status => self.with_status(
                Status { bits: cleared16(header.common.status@, val as u16, Status::RW1C_BITS) },
            ),
            WriteTarget::Bar { index } => self.with_bar(index as int, val as u32),
            WriteTarget::Ignored => self,
        }
    }

    /// Writes `val` to base address register `index` through its mask, and
    /// returns the register's value before and after the write.
    pub fn set_bar(&mut self, index: usize, val: u32) -> (r: (u32, u32))
        requires
            index < 6,
        ensures
            r.0 == old(self).device().bars[index as int],
            r.1 == masked32(r.0, val, old(self).bar_masks[index as int]),
            *final(self) == old(self).with_bar(index as int, val),
            final(self).device().bars@ == old(self).device().bars@.update(index as int, r.1),
            final(self).bar_masks == old(self).bar_masks,
            final(self).bdf == old(self).bdf,
    {
        let mask = self.bar_masks[index];
        match &mut self.header {
            ConfigHeader::Device(header) => {
                let old_val = header.bars[index];
                let masked_val = mask_bits_u32(old_val, val, mask);
                header.bars[index] = masked_val;
                (old_val, masked_val)
            },
        }
    }

    /// Stores `command` in the Command register as it is. This is the
    /// device's own access to its register, not a write of the guest, and
    /// no mask applies to it.
    pub fn set_command(&mut self, command: Command)
        ensures
            *final(self) == old(self).with_command(command),
    {
        match &mut self.header {
            ConfigHeader::Device(header) => {
                header.common.command = command;
            },
        }
    }

    /// Performs a guest write of the low `size` bytes of `val` at `offset`.
    ///
    /// The Command register takes the written value in its writable bits.
    /// The Status register loses the sticky error bits that are written as
    /// one. A base address register, written as a whole, takes the written
    /// value in the bits of its mask. Every other write is ignored.
    pub fn write_header(&mut self, offset: usize, size: u8, val: u64)
        ensures
            *final(self) == old(self).written(offset, size, val),
            final(self).bar_masks == old(self).bar_masks,
            final(self).bdf == old(self).bdf,
            final(self).device().capability_pointer == old(self).device().capability_pointer,
            final(self).device().common.status@ & Status::CAP == old(
                self,
            ).device().common.status@ & Status::CAP,
    {
        proof {
            old(self).lemma_write_keeps_capabilities(offset, size, val);
        }
        match WriteTarget::decode(offset, size) {
            WriteTarget::Command => {
                let val = Command::from_bits_retain(
                    #[verifier::truncate]
                    (val as u16),
                );
                match &mut self.header {
                    ConfigHeader::Device(header) => {
                        header.common.command = header.common.command.guest_write(val);
                    },
                }
            },
            WriteTarget::Status => {
                let val = Status::from_bits_retain(
                    #[verifier::truncate]
                    (val as u16),
                );
                match &mut self.header {
                    ConfigHeader::Device(header) => {
                        header.common.status = header.common.status.guest_write(val);
                    },
                }
            },
            WriteTarget::Bar { index } => {
                self.set_bar(
                    index,
                    #[verifier::truncate]
                    (val as u32),
                );
            },
            WriteTarget::Ignored => {},
        }
    }

    /// Reads `size` bytes at `offset` of the header. The registers are read
    /// least significant byte first. A read of another size than 1, 2, 4 or
    /// 8 bytes, or one that runs past the end of the header, gives zero.
    pub fn read_header(&self, offset: usize, size: u8) -> (r: u64)
        ensures
            r == read_le(self.bytes(), offset as int, size),
            offset + size > SIZE_HEADER ==> r == 0,
    {
        let buf = match &self.header {
            ConfigHeader::Device(header) => header.to_bytes(),
        };
        read_at(buf.as_slice(), offset, size)
    }

    /// A write leaves the capability pointer and the capability flag of the
    /// Status register as they are, as well as the masks and the address.
    pub proof fn lemma_write_keeps_capabilities(self, offset: usize, size: u8, val: u64)
        ensures
            self.written(offset, size, val).bar_masks == self.bar_masks,
            self.written(offset, size, val).bdf == self.bdf,
            self.written(offset, size, val).device().capability_pointer
                == self.device().capability_pointer,
            self.written(offset, size, val).device().common.status@ & Status::CAP
                == self.device().common.status@ & Status::CAP,
    {
        let old_status = self.device().common.status@;
        let written = val as u16;
        assert(cleared16(old_status, written, Status::RW1C_BITS) & Status::CAP == old_status
            & Status::CAP) by (bit_vector);
    }

    /// A write to the Command register keeps the bits outside the writable
    /// mask and takes the bits inside it from the written value. Nothing
    /// else changes.
    pub proof fn lemma_write_command(self, val: u64)
        ensures
            ({
                let after = self.written(OFFSET_COMMAND, 2, val);
                let command = after.device().common.command;
                &&& command@ & !Command::WRITABLE_BITS == self.device().common.command@
                    & !Command::WRITABLE_BITS
                &&& command@ & Command::WRITABLE_BITS == (val as u16) & Command::WRITABLE_BITS
                &&& after == self.with_command(command)
            }),
    {
        lemma_masked16(self.device().common.command@, val as u16, Command::WRITABLE_BITS);
    }

    /// A write to the Status register clears the sticky error bits that are
    /// written as one, and only those: a sticky bit written as zero and every
    /// bit that is not sticky keep their value. Nothing else changes.
    pub proof fn lemma_write_status(self, val: u64)
        ensures
            ({
                let after = self.written(OFFSET_STATUS, 2, val);
                let status = after.device().common.status;
                let before = self.device().common.status;
                &&& status@ & Status::RW1C_BITS & (val as u16) == 0
                &&& status@ & Status::RW1C_BITS & !(val as u16) == before@ & Status::RW1C_BITS & !(val as u16)
                &&& status@ & !Status::RW1C_BITS == before@ & !Status::RW1C_BITS
                &&& after == self.with_status(status)
            }),
    {
        lemma_cleared16(self.device().common.status@, val as u16, Status::RW1C_BITS);
    }

    /// A write of four bytes to base address register `index` leaves in it
    /// `(old & !mask) | (new & mask)`: the written value under a mask of all
    /// ones, the old value under a mask of zero. The other base address
    /// registers keep their value.
    pub proof fn lemma_write_bar(self, index: usize, val: u64)
        requires
            index < 6,
        ensures
            ({
                let after = self.written((OFFSET_BAR0 + 4 * index) as usize, 4, val);
                let before = self.device().bars[index as int];
                let mask = self.bar_masks[index as int];
                let bar = after.device().bars[index as int];
                &&& bar == (before & !mask) | ((val as u32) & mask)
                &&& mask == 0xffff_ffffu32 ==> bar == val as u32
                &&& mask == 0 ==> bar == before
                &&& forall|j: int| 0 <= j < 6 && j != index ==> after.device().bars[j] == self.device().bars[j]
                &&& after == self.with_bar(index as int, val as u32)
            }),
    {
        lemma_masked32(self.device().bars[index as int], val as u32, self.bar_masks[index as int]);
    }

    /// A write changes no byte of the header outside the bytes it addresses.
    pub proof fn lemma_write_is_local(self, offset: usize, size: u8, val: u64, i: int)
        requires
            0 <= i < SIZE_HEADER,
            i < offset || i >= offset + size,
        ensures
            self.written(offset, size, val).device().byte(i) == self.device().byte(i),
    {
    }
}

/// The registers are read back from the bytes of the header.
pub proof fn lemma_read_registers(header: DeviceHeader, index: int)
    requires
        0 <= index < 6,
    ensures
        read_le(header.bytes(), 0x00, 2) == header.common.vendor,
        read_le(header.bytes(), 0x02, 2) == header.common.device,
        read_le(header.bytes(), OFFSET_COMMAND as int, 2) == header.common.command@,
        read_le(header.bytes(), OFFSET_STATUS as int, 2) == header.common.status@,
        read_le(header.bytes(), OFFSET_BAR0 + 4 * index, 4) == header.bars[index],
        read_le(header.bytes(), 0x34, 1) == header.capability_pointer,
{
    lemma_round_trip(header.common.vendor, header.bars[index]);
    lemma_round_trip(header.common.device, 0);
    lemma_round_trip(header.common.command@, 0);
    lemma_round_trip(header.common.status@, 0);
}

impl HeaderData {
    /// The state after the guest makes the writes of `writes` in order, each
    /// given by its offset, its size and its value.
    pub open spec fn written_all(self, writes: Seq<(usize, u8, u64)>) -> HeaderData
        decreases writes.len(),
    {
        if writes.len() == 0 {
            self
        } else {
            let last = writes.last();
            self.written_all(writes.drop_last()).written(last.0, last.1, last.2)
        }
    }

    /// No number of writes changes the capability pointer, the capability
    /// flag of the Status register, the masks or the address.
    pub proof fn lemma_writes_keep_capabilities(self, writes: Seq<(usize, u8, u64)>)
        ensures
            self.written_all(writes).bar_masks == self.bar_masks,
            self.written_all(writes).bdf == self.bdf,
            self.written_all(writes).device().capability_pointer
                == self.device().capability_pointer,
            self.written_all(writes).device().common.status@ & Status::CAP
                == self.device().common.status@ & Status::CAP,
            self.written_all(writes).device().has_capabilities()
                == self.device().has_capabilities(),
        decreases writes.len(),
    {
        if writes.len() > 0 {
            let last = writes.last();
            self.lemma_writes_keep_capabilities(writes.drop_last());
            self.written_all(writes.drop_last()).lemma_write_keeps_capabilities(
                last.0,
                last.1,
                last.2,
            );
        }
    }
}

/// The header of an emulated function as a block of registers, with what
/// stands behind each of its base address registers.
#[derive(Clone, Copy, Debug, PartialEq, Eq)]
pub struct EmulatedHeader {
    pub data: HeaderData,
    pub bars: [PciBar; 6],
}

impl EmulatedHeader {
    /// The header of a new device function, which announces a capability
    /// list if `has_caps` holds and is `header` as given otherwise.
    pub open spec fn new_spec(
        header: DeviceHeader,
        bar_masks: [u32; 6],
        bars: [PciBar; 6],
        has_caps: bool,
    ) -> EmulatedHeader {
        EmulatedHeader {
            data: HeaderData {
                header: ConfigHeader::Device(
                    if has_caps {
                        header.with_capabilities()
                    } else {
                        header
                    },
                ),
                bar_masks,
                bdf: Bdf(0),
            },
            bars,
        }
    }

    /// Makes the header of a new device function from a template. If the
    /// function has capabilities, the header announces their list; if not,
    /// the capability pointer and the capability flag stay as the template
    /// has them.
    pub fn new(header: DeviceHeader, bar_masks: [u32; 6], bars: [PciBar; 6], has_caps: bool) -> (r:
        EmulatedHeader)
        ensures
            r == Self::new_spec(header, bar_masks, bars, has_caps),
            has_caps ==> r.data.device().has_capabilities(),
            !has_caps ==> r.data.device() == header,
    {
        let mut header = header;
        if has_caps {
            header.set_capabilities();
        }
        EmulatedHeader {
            data: HeaderData { header: ConfigHeader::Device(header), bar_masks, bdf: Bdf(0) },
            bars,
        }
    }

    /// Sets the address of the function.
    pub fn set_bdf(&mut self, bdf: Bdf)
        ensures
            final(self).data.bdf == bdf,
            final(self).data.header == old(self).data.header,
            final(self).data.bar_masks == old(self).data.bar_masks,
            final(self).bars == old(self).bars,
    {
        self.data.bdf = bdf;
    }

    /// Stores `command` in the Command register as it is, without a mask.
    pub fn set_command(&mut self, command: Command)
        ensures
            final(self).data == old(self).data.with_command(command),
            final(self).bars == old(self).bars,
    {
        self.data.set_command(command);
    }
}

impl Mmio for EmulatedHeader {
    fn size(&self) -> (r: usize)
        ensures
            r == SIZE_HEADER,
    {
        0x40
    }

    fn read(&self, offset: usize, size: u8) -> (r: u64)
        ensures
            r == read_le(self.data.bytes(), offset as int, size),
            offset + size > SIZE_HEADER ==> r == 0,
    {
        self.data.read_header(offset, size)
    }

    fn write(&mut self, offset: usize, size: u8, val: u64)
        ensures
            final(self).data == old(self).data.written(offset, size, val),
            final(self).bars == old(self).bars,
    {
        self.data.write_header(offset, size, val);
    }
}

/// A function whose configuration space starts with an emulated header.
pub trait PciConfig: Mmio {
    /// The header of the function.
    fn get_header(&self) -> &EmulatedHeader;
}

/// The configuration space of an emulated function: the header, and after
/// it the capability list up to the end of the 4096 bytes.
#[derive(Debug)]
pub struct EmulatedConfig<C> {
    pub header: EmulatedHeader,
    pub caps: C,
}

impl<C: PciCapList> Mmio for EmulatedConfig<C> {
    fn size(&self) -> (r: usize)
        ensures
            r == SIZE_CONFIG,
    {
        4096
    }

    /// Reads from the header if `offset` lies in it, and from the capability
    /// list otherwise.
    fn read(&self, offset: usize, size: u8) -> (r: u64)
        ensures
            offset < SIZE_HEADER ==> r == read_le(self.header.data.bytes(), offset as int, size),
    {
        if offset < SIZE_HEADER {
            self.header.read(offset, size)
        } else {
            self.caps.read(offset, size)
        }
    }

    /// Writes to the header if `offset` lies in it, and to the capability
    /// list otherwise; never to both.
    fn write(&mut self, offset: usize, size: u8, val: u64)
        ensures
            final(self).header.bars == old(self).header.bars,
            offset < SIZE_HEADER ==> final(self).caps == old(self).caps && final(self).header.data
                == old(self).header.data.written(offset, size, val),
            offset >= SIZE_HEADER ==> final(self).header == old(self).header,
    {
        if offset < SIZE_HEADER {
            self.header.write(offset, size, val)
        } else {
            self.caps.write(offset, size, val)
        }
    }
}

impl<C: PciCapList> EmulatedConfig<C> {
    /// Makes the configuration space of a device function from a header
    /// template and a capability list. Asks the list whether it is empty:
    /// the header is the one that `EmulatedHeader::new` makes for the answer.
    pub fn new_device(header: DeviceHeader, bar_masks: [u32; 6], bars: [PciBar; 6], caps: C) -> (r:
        EmulatedConfig<C>)
        ensures
            r.caps == caps,
            r.header == EmulatedHeader::new_spec(header, bar_masks, bars, true) || r.header
                == EmulatedHeader::new_spec(header, bar_masks, bars, false),
    {
        let has_caps = !caps.is_empty();
        let header = EmulatedHeader::new(header, bar_masks, bars, has_caps);
        EmulatedConfig { header, caps }
    }
}

impl<C: PciCapList> PciConfig for EmulatedConfig<C> {
    fn get_header(&self) -> (r: &EmulatedHeader)
        ensures
            *r == self.header,
    {
        &self.header
    }
}

/// A header announces a capability list after construction exactly if the
/// function has capabilities. The one exception is left out: a template
/// that announces a list already, for a function without capabilities,
/// stays as it is.
pub proof fn lemma_new_device_capabilities(
    header: DeviceHeader,
    bar_masks: [u32; 6],
    bars: [PciBar; 6],
    has_caps: bool,
)
    requires
        header.has_capabilities() ==> has_caps,
    ensures
        EmulatedHeader::new_spec(header, bar_masks, bars, has_caps).data.device().has_capabilities()
            <==> has_caps,
{
    let status = header.common.status@;
    assert((status | Status::CAP) & Status::CAP == Status::CAP) by (bit_vector);
}

} // verus!
