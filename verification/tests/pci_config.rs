use alioth::mem::Mmio;
use alioth::pci::cap::PciCapList;
use alioth::pci::config::{
    CommonHeader, ConfigHeader, DeviceHeader, EmulatedConfig, EmulatedHeader, HeaderData,
    HeaderType, PciConfig, BAR_IO, BAR_MEM32, BAR_MEM64, BAR_PREFETCHABLE, OFFSET_BAR0,
    OFFSET_BAR5, OFFSET_COMMAND, OFFSET_STATUS, SIZE_CONFIG, SIZE_HEADER,
};
use alioth::pci::flags::{Command, Status};
use alioth::pci::{Bdf, PciBar};

/// A capability list that records the accesses it gets.
#[derive(Debug, Default, PartialEq)]
struct RecordingCaps {
    count: usize,
    reads: std::cell::RefCell<Vec<(usize, u8)>>,
    writes: Vec<(usize, u8, u64)>,
}

impl RecordingCaps {
    fn with(count: usize) -> RecordingCaps {
        RecordingCaps { count, reads: std::cell::RefCell::new(Vec::new()), writes: Vec::new() }
    }
}

impl Mmio for RecordingCaps {
    fn size(&self) -> usize {
        4096
    }

    fn read(&self, offset: usize, size: u8) -> u64 {
        self.reads.borrow_mut().push((offset, size));
        0xc0ffee
    }

    fn write(&mut self, offset: usize, size: u8, val: u64) {
        self.writes.push((offset, size, val));
    }
}

impl PciCapList for RecordingCaps {
    fn is_empty(&self) -> bool {
        self.count == 0
    }
}

fn sample_header() -> DeviceHeader {
    DeviceHeader {
        common: CommonHeader {
            vendor: 0x1af4,
            device: 0x1041,
            command: Command::from_bits_retain(0x0006),
            status: Status::from_bits_retain(0xf900),
            revision: 0x01,
            prog_if: 0x02,
            subclass: 0x03,
            class: 0x04,
            cache_line_size: 0x05,
            latency_timer: 0x06,
            header_type: HeaderType::Device.code(),
            bist: 0x07,
        },
        bars: [0x1000_0000, 0x2000_0004, 0x0000_0001, 0x3000_000c, 0xdead_beef, 0x0000_c001],
        cardbus_cis_pointer: 0x0a0b_0c0d,
        subsystem_vendor: 0x1af4,
        subsystem: 0x0001,
        expansion_rom: 0x4000_0000,
        capability_pointer: 0x00,
        reserved: [0x11, 0x22, 0x33, 0x44, 0x55, 0x66, 0x77],
        intx_line: 0x0b,
        intx_pin: 0x01,
        min_gnt: 0x08,
        max_lat: 0x09,
    }
}

fn sample_masks() -> [u32; 6] {
    [0xffff_f000, 0xffff_ffff, 0x0000_0000, 0xffff_0000, 0xffff_fff0, 0x0000_fffc]
}

fn sample_data() -> HeaderData {
    HeaderData {
        header: ConfigHeader::Device(sample_header()),
        bar_masks: sample_masks(),
        bdf: Bdf(0x0008),
    }
}

fn device(data: &HeaderData) -> DeviceHeader {
    match data.header {
        ConfigHeader::Device(header) => header,
    }
}

#[test]
fn layout_constants() {
    assert_eq!(SIZE_HEADER, 64);
    assert_eq!(SIZE_CONFIG, 4096);
    assert_eq!(OFFSET_COMMAND, 4);
    assert_eq!(OFFSET_STATUS, 6);
    assert_eq!(OFFSET_BAR0, 0x10);
    assert_eq!(OFFSET_BAR5, 0x24);
    assert_eq!(BAR_PREFETCHABLE, 8);
    assert_eq!(BAR_MEM64, 4);
    assert_eq!(BAR_MEM32, 0);
    assert_eq!(BAR_IO, 1);
}

#[test]
fn header_type_codes() {
    assert_eq!(HeaderType::Device.code(), 0);
    assert_eq!(HeaderType::Bridge.code(), 1);
}

#[test]
fn default_header_is_all_zero() {
    let header = DeviceHeader::default();
    assert_eq!(header.to_bytes(), [0u8; 64]);
    assert_eq!(header.common, CommonHeader::default());
    assert_eq!(header.common.vendor, 0);
    assert_eq!(header.common.command.bits(), 0);
    assert_eq!(header.common.status.bits(), 0);
    assert_eq!(header.bars, [0u32; 6]);
    assert_eq!(header.capability_pointer, 0);
    assert_eq!(header.reserved, [0u8; 7]);
}

#[test]
fn header_bytes_follow_the_layout() {
    let expected: [u8; 64] = [
        0xf4, 0x1a, 0x41, 0x10, 0x06, 0x00, 0x00, 0xf9, // vendor, device, command, status
        0x01, 0x02, 0x03, 0x04, 0x05, 0x06, 0x00, 0x07, // revision .. bist
        0x00, 0x00, 0x00, 0x10, 0x04, 0x00, 0x00, 0x20, // bar 0, bar 1
        0x01, 0x00, 0x00, 0x00, 0x0c, 0x00, 0x00, 0x30, // bar 2, bar 3
        0xef, 0xbe, 0xad, 0xde, 0x01, 0xc0, 0x00, 0x00, // bar 4, bar 5
        0x0d, 0x0c, 0x0b, 0x0a, 0xf4, 0x1a, 0x01, 0x00, // cardbus, subsystem vendor, subsystem
        0x00, 0x00, 0x00, 0x40, 0x00, 0x11, 0x22, 0x33, // expansion rom, capability pointer
        0x44, 0x55, 0x66, 0x77, 0x0b, 0x01, 0x08, 0x09, // reserved, intx, min_gnt, max_lat
    ];
    let header = sample_header();
    assert_eq!(header.to_bytes(), expected);
    let data = sample_data();
    for i in 0..64 {
        assert_eq!(data.read_header(i, 1), expected[i] as u64);
    }
}

#[test]
fn read_registers_little_endian() {
    let data = sample_data();
    assert_eq!(data.read_header(0x00, 2), 0x1af4);
    assert_eq!(data.read_header(0x02, 2), 0x1041);
    assert_eq!(data.read_header(0x00, 4), 0x1041_1af4);
    assert_eq!(data.read_header(0x00, 8), 0xf900_0006_1041_1af4);
    assert_eq!(data.read_header(0x04, 2), 0x0006);
    assert_eq!(data.read_header(0x06, 2), 0xf900);
    assert_eq!(data.read_header(0x07, 1), 0xf9);
    assert_eq!(data.read_header(0x08, 1), 0x01);
    assert_eq!(data.read_header(0x0b, 1), 0x04);
    assert_eq!(data.read_header(0x10, 4), 0x1000_0000);
    assert_eq!(data.read_header(0x14, 4), 0x2000_0004);
    assert_eq!(data.read_header(0x20, 4), 0xdead_beef);
    assert_eq!(data.read_header(0x20, 2), 0xbeef);
    assert_eq!(data.read_header(0x22, 2), 0xdead);
    assert_eq!(data.read_header(0x21, 1), 0xbe);
    assert_eq!(data.read_header(0x24, 4), 0x0000_c001);
    assert_eq!(data.read_header(0x20, 8), 0x0000_c001_dead_beef);
    assert_eq!(data.read_header(0x28, 4), 0x0a0b_0c0d);
    assert_eq!(data.read_header(0x2c, 2), 0x1af4);
    assert_eq!(data.read_header(0x2e, 2), 0x0001);
    assert_eq!(data.read_header(0x30, 4), 0x4000_0000);
    assert_eq!(data.read_header(0x34, 1), 0x00);
    assert_eq!(data.read_header(0x35, 1), 0x11);
    assert_eq!(data.read_header(0x3c, 4), 0x0908_010b);
    assert_eq!(data.read_header(0x38, 8), 0x0908_010b_7766_5544);
    assert_eq!(data.read_header(0x3f, 1), 0x09);
}

#[test]
fn read_at_an_odd_offset() {
    let data = sample_data();
    assert_eq!(data.read_header(0x01, 2), 0x411a);
    assert_eq!(data.read_header(0x01, 4), 0x0610_411a);
    assert_eq!(data.read_header(0x03, 8), 0x0302_01f9_0000_0610);
}

#[test]
fn read_past_the_header_is_zero() {
    let data = sample_data();
    assert_eq!(data.read_header(0x40, 1), 0);
    assert_eq!(data.read_header(0x3f, 2), 0);
    assert_eq!(data.read_header(0x3d, 4), 0);
    assert_eq!(data.read_header(0x39, 8), 0);
    assert_eq!(data.read_header(0x40, 4), 0);
    assert_eq!(data.read_header(0x41, 2), 0);
    assert_eq!(data.read_header(0x1000, 4), 0);
    assert_eq!(data.read_header(usize::MAX, 8), 0);
}

#[test]
fn read_of_an_unsupported_size_is_zero() {
    let data = sample_data();
    for size in [0u8, 3, 5, 6, 7, 9, 16, 255] {
        assert_eq!(data.read_header(0x00, size), 0);
        assert_eq!(data.read_header(0x20, size), 0);
    }
}

#[test]
fn read_never_fails_in_configuration_space() {
    let mut config = EmulatedConfig::new_device(
        sample_header(),
        sample_masks(),
        [PciBar::Empty; 6],
        RecordingCaps::with(1),
    );
    for offset in 0..SIZE_CONFIG + 8 {
        for size in 0..=9u8 {
            let val = config.read(offset, size);
            if offset < SIZE_HEADER && offset + size as usize > SIZE_HEADER {
                assert_eq!(val, 0);
            }
            let header = &config.header;
            assert_eq!(header.read(offset, size), header.data.read_header(offset, size));
            if offset + size as usize > SIZE_HEADER {
                assert_eq!(header.read(offset, size), 0);
            }
        }
    }
    config.write(0, 4, 0);
}

#[test]
fn write_command_through_writable_mask() {
    let mut data = sample_data();
    let before = data;
    data.write_header(OFFSET_COMMAND, 2, 0xffff);
    assert_eq!(device(&data).common.command.bits(), 0x0547);
    assert_eq!(data.read_header(0x04, 2), 0x0547);
    assert_eq!(data, {
        let mut expect = before;
        expect.set_command(Command::from_bits_retain(0x0547));
        expect
    });

    data.write_header(OFFSET_COMMAND, 2, 0x0000);
    assert_eq!(device(&data).common.command.bits(), 0x0000);

    data.set_command(Command::from_bits_retain(0xf000));
    data.write_header(OFFSET_COMMAND, 2, 0x0403);
    assert_eq!(device(&data).common.command.bits(), 0xf403);
}

#[test]
fn write_command_uses_the_low_16_bits() {
    let mut data = sample_data();
    data.write_header(OFFSET_COMMAND, 2, 0xffff_ffff_ffff_0001);
    assert_eq!(device(&data).common.command.bits(), 0x0001);
}

#[test]
fn write_status_clears_written_ones() {
    let mut data = sample_data();
    data.write_header(OFFSET_STATUS, 2, 0x8000);
    assert_eq!(device(&data).common.status.bits(), 0x7900);
    data.write_header(OFFSET_STATUS, 2, 0x0100);
    assert_eq!(device(&data).common.status.bits(), 0x7800);
    data.write_header(OFFSET_STATUS, 2, 0x0000);
    assert_eq!(device(&data).common.status.bits(), 0x7800);
    data.write_header(OFFSET_STATUS, 2, 0xffff);
    assert_eq!(device(&data).common.status.bits(), 0x0000);
    data.write_header(OFFSET_STATUS, 2, 0xffff);
    assert_eq!(device(&data).common.status.bits(), 0x0000);
}

#[test]
fn write_status_leaves_other_bits() {
    let mut header = sample_header();
    header.common.status = Status::from_bits_retain(0x06ff);
    let mut data =
        HeaderData { header: ConfigHeader::Device(header), bar_masks: sample_masks(), bdf: Bdf(0) };
    data.write_header(OFFSET_STATUS, 2, 0xffff);
    assert_eq!(device(&data).common.status.bits(), 0x06ff);
    data.write_header(OFFSET_STATUS, 2, 0x0000);
    assert_eq!(device(&data).common.status.bits(), 0x06ff);
}

#[test]
fn set_bar_returns_old_and_new() {
    let mut data = sample_data();
    assert_eq!(data.set_bar(0, 0xabcd_efff), (0x1000_0000, 0xabcd_e000));
    assert_eq!(data.set_bar(0, 0x0000_0000), (0xabcd_e000, 0x0000_0000));
    assert_eq!(data.set_bar(3, 0x1234_5678), (0x3000_000c, 0x1234_000c));
    assert_eq!(data.set_bar(5, 0xffff_ffff), (0x0000_c001, 0x0000_fffd));
    assert_eq!(device(&data).bars, [0, 0x2000_0004, 1, 0x1234_000c, 0xdead_beef, 0x0000_fffd]);
    assert_eq!(data.bar_masks, sample_masks());
    assert_eq!(data.bdf, Bdf(0x0008));
}

#[test]
fn set_bar_with_a_mask_of_ones_overwrites() {
    let mut data = sample_data();
    assert_eq!(data.set_bar(1, 0x8765_4321), (0x2000_0004, 0x8765_4321));
    assert_eq!(device(&data).bars[1], 0x8765_4321);
}

#[test]
fn set_bar_with_a_mask_of_zero_changes_nothing() {
    let mut data = sample_data();
    let before = data;
    assert_eq!(data.set_bar(2, 0xffff_ffff), (0x0000_0001, 0x0000_0001));
    assert_eq!(data, before);
}

#[test]
fn write_bar_through_its_mask() {
    let mut data = sample_data();
    data.write_header(0x10, 4, 0xffff_ffff);
    assert_eq!(data.read_header(0x10, 4), 0xffff_f000);
    data.write_header(0x14, 4, 0x1234_5678);
    assert_eq!(data.read_header(0x14, 4), 0x1234_5678);
    data.write_header(0x18, 4, 0xffff_ffff);
    assert_eq!(data.read_header(0x18, 4), 0x0000_0001);
    data.write_header(0x1c, 4, 0x0000_0000);
    assert_eq!(data.read_header(0x1c, 4), 0x0000_000c);
    data.write_header(0x20, 4, 0x0123_4567);
    assert_eq!(data.read_header(0x20, 4), 0x0123_456f);
    data.write_header(0x24, 4, 0xffff_ffff);
    assert_eq!(data.read_header(0x24, 4), 0x0000_fffd);
}

#[test]
fn write_bar_law_for_every_mask() {
    let masks = [0x0000_0000u32, 0xffff_ffff, 0xffff_fff0, 0x0000_fffc, 0x8000_0001, 0x5555_5555];
    let olds = [0x0000_0000u32, 0xffff_ffff, 0x1234_5678, 0x000c_0001];
    let news = [0x0000_0000u64, 0xffff_ffff, 0xabcd_ef01, 0x1_0000_0000, 0xffff_ffff_0000_0010];
    for index in 0..6usize {
        for mask in masks {
            for old in olds {
                for new in news {
                    let mut header = sample_header();
                    header.bars[index] = old;
                    let mut bar_masks = sample_masks();
                    bar_masks[index] = mask;
                    let mut data = HeaderData {
                        header: ConfigHeader::Device(header),
                        bar_masks,
                        bdf: Bdf(0),
                    };
                    data.write_header(OFFSET_BAR0 + 4 * index, 4, new);
                    let expect = (old & !mask) | ((new as u32) & mask);
                    let mut bars = header.bars;
                    bars[index] = expect;
                    assert_eq!(device(&data).bars, bars);
                    if mask == 0xffff_ffff {
                        assert_eq!(device(&data).bars[index], new as u32);
                    }
                    if mask == 0 {
                        assert_eq!(device(&data).bars[index], old);
                    }
                }
            }
        }
    }
}

#[test]
fn write_to_a_bar_at_an_unaligned_offset_is_ignored() {
    let mut data = sample_data();
    let before = data;
    for offset in [0x11, 0x12, 0x13, 0x15, 0x22, 0x23, 0x25, 0x26, 0x27] {
        data.write_header(offset, 4, 0xffff_ffff);
        assert_eq!(data, before);
    }
}

#[test]
fn write_to_a_bar_of_another_size_is_ignored() {
    let mut data = sample_data();
    let before = data;
    for size in [0u8, 1, 2, 3, 8] {
        data.write_header(0x14, size, 0xffff_ffff_ffff_ffff);
        assert_eq!(data, before);
    }
}

#[test]
fn write_elsewhere_is_ignored() {
    let mut data = sample_data();
    let before = data;
    for offset in 0..0x48usize {
        for size in [1u8, 2, 4, 8] {
            let handled = (offset == 4 && size == 2)
                || (offset == 6 && size == 2)
                || (0x10..=0x24).contains(&offset) && offset % 4 == 0 && size == 4;
            if !handled {
                data.write_header(offset, size, 0xa5a5_a5a5_a5a5_a5a5);
                assert_eq!(data, before);
            }
        }
    }
    data.write_header(0x0c, 4, 0);
    data.write_header(0x28, 4, 0);
    data.write_header(0x34, 1, 0xff);
    data.write_header(0x04, 4, 0xffff_ffff);
    data.write_header(0x04, 1, 0xff);
    data.write_header(0x1000, 4, 0);
    data.write_header(usize::MAX, 2, 0);
    assert_eq!(data, before);
}

#[test]
fn write_changes_no_other_byte() {
    let mut data = sample_data();
    let before = device(&data).to_bytes();
    data.write_header(0x18 + 4, 4, 0x5a5a_5a5a);
    let after = device(&data).to_bytes();
    for i in 0..64 {
        if !(0x1c..0x20).contains(&i) {
            assert_eq!(after[i], before[i]);
        }
    }
    assert_eq!(data.read_header(0x1c, 4), 0x5a5a_000c);
}

#[test]
fn set_command_stores_the_value_as_it_is() {
    let mut data = sample_data();
    data.set_command(Command::from_bits_retain(0xffff));
    assert_eq!(device(&data).common.command.bits(), 0xffff);
    assert_eq!(data.read_header(0x04, 2), 0xffff);
    let mut expect = sample_header();
    expect.common.command = Command::from_bits_retain(0xffff);
    assert_eq!(device(&data), expect);
}

#[test]
fn emulated_header_new_without_capabilities() {
    let bars = [PciBar::Mem32 { size: 0x1000 }, PciBar::Empty, PciBar::Io { size: 4 },
        PciBar::Mem64 { size: 0x1_0000 }, PciBar::Empty, PciBar::Empty];
    let header = EmulatedHeader::new(sample_header(), sample_masks(), bars, false);
    assert_eq!(header.data.header, ConfigHeader::Device(sample_header()));
    assert_eq!(header.data.bar_masks, sample_masks());
    assert_eq!(header.data.bdf, Bdf(0));
    assert_eq!(header.bars, bars);
    assert_eq!(header.read(0x34, 1), 0);
    assert_eq!(header.read(0x06, 2) & 0x0010, 0);
}

#[test]
fn emulated_header_new_with_capabilities() {
    let header = EmulatedHeader::new(sample_header(), sample_masks(), [PciBar::Empty; 6], true);
    let mut expect = sample_header();
    expect.capability_pointer = 0x40;
    expect.common.status = Status::from_bits_retain(0xf910);
    assert_eq!(header.data.header, ConfigHeader::Device(expect));
    assert_eq!(header.read(0x34, 1), 0x40);
    assert_eq!(header.read(0x06, 2), 0xf910);
}

#[test]
fn set_capabilities_sets_pointer_and_flag() {
    let mut header = DeviceHeader::default();
    header.set_capabilities();
    assert_eq!(header.capability_pointer, 0x40);
    assert_eq!(header.common.status.bits(), 0x0010);
    let mut expect = DeviceHeader::default();
    expect.capability_pointer = 0x40;
    expect.common.status = Status::from_bits_retain(Status::CAP);
    assert_eq!(header, expect);
}

#[test]
fn emulated_header_is_a_block_of_64_bytes() {
    let mut header = EmulatedHeader::new(sample_header(), sample_masks(), [PciBar::Empty; 6], false);
    assert_eq!(header.size(), 0x40);
    assert_eq!(header.read(0x00, 4), 0x1041_1af4);
    header.write(0x10, 4, 0xffff_ffff);
    assert_eq!(header.read(0x10, 4), 0xffff_f000);
    header.write(0x04, 2, 0x0007);
    assert_eq!(header.read(0x04, 2), 0x0007);
    header.write(0x06, 2, 0xf000);
    assert_eq!(header.read(0x06, 2), 0x0900);
}

#[test]
fn emulated_header_setters() {
    let mut header = EmulatedHeader::new(sample_header(), sample_masks(), [PciBar::Empty; 6], false);
    header.set_bdf(Bdf(0x0123));
    assert_eq!(header.data.bdf, Bdf(0x0123));
    assert_eq!(header.data.header, ConfigHeader::Device(sample_header()));
    header.set_command(Command::from_bits_retain(0x8000));
    assert_eq!(header.read(0x04, 2), 0x8000);
    assert_eq!(header.data.bdf, Bdf(0x0123));
    assert_eq!(header.data.bar_masks, sample_masks());
}

#[test]
fn new_device_with_an_empty_capability_list() {
    let config = EmulatedConfig::new_device(
        sample_header(),
        sample_masks(),
        [PciBar::Empty; 6],
        RecordingCaps::with(0),
    );
    assert_eq!(config.header.data.header, ConfigHeader::Device(sample_header()));
    assert_eq!(config.read(0x34, 1), 0x00);
    assert_eq!(config.read(0x06, 2) & Status::CAP as u64, 0);
    assert_eq!(config.caps, RecordingCaps::with(0));
    assert_eq!(config.header.data.bdf, Bdf(0));
}

#[test]
fn new_device_with_capabilities() {
    let config = EmulatedConfig::new_device(
        sample_header(),
        sample_masks(),
        [PciBar::Empty; 6],
        RecordingCaps::with(2),
    );
    assert_eq!(config.read(0x34, 1), 0x40);
    assert_eq!(config.read(0x06, 2) & Status::CAP as u64, Status::CAP as u64);
    assert_eq!(config.header.data.bar_masks, sample_masks());
    assert_eq!(config.get_header().data, config.header.data);
}

#[test]
fn capability_registers_survive_reads_and_writes() {
    for count in [0usize, 3] {
        let mut config = EmulatedConfig::new_device(
            DeviceHeader::default(),
            sample_masks(),
            [PciBar::Empty; 6],
            RecordingCaps::with(count),
        );
        let pointer = config.read(0x34, 1);
        let flag = config.read(0x06, 2) & Status::CAP as u64;
        assert_eq!(pointer, if count == 0 { 0 } else { 0x40 });
        assert_eq!(flag, if count == 0 { 0 } else { 0x10 });
        for offset in 0..0x50usize {
            for size in [1u8, 2, 4, 8] {
                for val in [0u64, u64::MAX, 0x0010_0010_0010_0010, 0xffef_ffef_ffef_ffef] {
                    config.write(offset, size, val);
                    config.read(offset, size);
                    assert_eq!(config.read(0x34, 1), pointer);
                    assert_eq!(config.read(0x06, 2) & Status::CAP as u64, flag);
                }
            }
        }
    }
}

#[test]
fn config_is_4096_bytes() {
    let config = EmulatedConfig::new_device(
        sample_header(),
        sample_masks(),
        [PciBar::Empty; 6],
        RecordingCaps::with(1),
    );
    assert_eq!(config.size(), 4096);
}

#[test]
fn config_routes_by_offset() {
    let mut config = EmulatedConfig::new_device(
        sample_header(),
        sample_masks(),
        [PciBar::Empty; 6],
        RecordingCaps::with(1),
    );
    assert_eq!(config.read(0x3f, 1), 0x09);
    assert_eq!(config.read(0x3c, 8), 0);
    assert!(config.caps.reads.borrow().is_empty());
    assert_eq!(config.read(0x40, 4), 0xc0ffee);
    assert_eq!(config.read(0xffc, 4), 0xc0ffee);
    assert_eq!(*config.caps.reads.borrow(), vec![(0x40, 4), (0xffc, 4)]);

    let header = config.header;
    config.write(0x40, 4, 0x1234);
    config.write(0x44, 2, 0x5678);
    assert_eq!(config.caps.writes, vec![(0x40, 4, 0x1234), (0x44, 2, 0x5678)]);
    assert_eq!(config.header, header);

    config.write(0x10, 4, 0xffff_ffff);
    config.write(0x3c, 1, 0xff);
    assert_eq!(config.caps.writes.len(), 2);
    assert_eq!(config.read(0x10, 4), 0xffff_f000);
}
