//! Exact byte encodings of the command set, and the column-address
//! round trip.

use ssd1306::command::{decode_column_address, AddrMode, Command, VcomhLevel};
use ssd1306::interface::RecordingInterface;

#[test]
fn encode_display_on_and_off() {
    assert_eq!(Command::DisplayOn(true).encode(), vec![0xAF]);
    assert_eq!(Command::DisplayOn(false).encode(), vec![0xAE]);
}

#[test]
fn encode_clock_and_analogue_settings() {
    assert_eq!(Command::DisplayClockDiv(0x8, 0x0).encode(), vec![0xD5, 0x80]);
    assert_eq!(Command::Multiplex(63).encode(), vec![0xA8, 63]);
    assert_eq!(Command::DisplayOffset(0).encode(), vec![0xD3, 0x00]);
    assert_eq!(Command::StartLine(0).encode(), vec![0x40]);
    assert_eq!(Command::ChargePump(true).encode(), vec![0x8D, 0x14]);
    assert_eq!(Command::ChargePump(false).encode(), vec![0x8D, 0x10]);
    assert_eq!(Command::Contrast(0x8F).encode(), vec![0x81, 0x8F]);
    assert_eq!(Command::PreChargePeriod(0x1, 0xF).encode(), vec![0xD9, 0xF1]);
    assert_eq!(
        Command::VcomhDeselect(VcomhLevel::Auto).encode(),
        vec![0xDB, 0x40]
    );
    assert_eq!(
        Command::VcomhDeselect(VcomhLevel::V0p77).encode(),
        vec![0xDB, 0x20]
    );
}

#[test]
fn encode_mode_and_orientation() {
    assert_eq!(
        Command::AddressMode(AddrMode::Horizontal).encode(),
        vec![0x20, 0x00]
    );
    assert_eq!(
        Command::AddressMode(AddrMode::Page).encode(),
        vec![0x20, 0x02]
    );
    assert_eq!(Command::SegmentRemap(true).encode(), vec![0xA1]);
    assert_eq!(Command::SegmentRemap(false).encode(), vec![0xA0]);
    assert_eq!(Command::ReverseComDir(true).encode(), vec![0xC8]);
    assert_eq!(Command::ReverseComDir(false).encode(), vec![0xC0]);
    assert_eq!(Command::ComPinConfig(true, false).encode(), vec![0xDA, 0x12]);
    assert_eq!(Command::ComPinConfig(false, false).encode(), vec![0xDA, 0x02]);
    assert_eq!(Command::AllOn(false).encode(), vec![0xA4]);
    assert_eq!(Command::Invert(false).encode(), vec![0xA6]);
    assert_eq!(Command::EnableScroll(false).encode(), vec![0x2E]);
    assert_eq!(Command::EnableScroll(true).encode(), vec![0x2F]);
}

#[test]
fn encode_addressing_windows_and_pointers() {
    assert_eq!(Command::ColumnAddress(0, 127).encode(), vec![0x21, 0, 127]);
    assert_eq!(Command::PageAddress(0, 7).encode(), vec![0x22, 0, 7]);
    assert_eq!(Command::ColStart(0).encode(), vec![0x00, 0x10]);
    assert_eq!(Command::ColStart(0x47).encode(), vec![0x07, 0x14]);
    assert_eq!(Command::PageStart(0).encode(), vec![0xB0]);
    assert_eq!(Command::PageStart(3).encode(), vec![0xB3]);
}

#[test]
fn column_address_round_trip_128x64() {
    let bytes = Command::ColumnAddress(0, 127).encode();
    assert_eq!(decode_column_address(&bytes), Some((0, 127)));
}

#[test]
fn column_address_round_trip_128x32() {
    let bytes = Command::ColumnAddress(0, 127).encode();
    assert_eq!(decode_column_address(&bytes), Some((0, 127)));
}

#[test]
fn column_address_round_trip_96x16() {
    let bytes = Command::ColumnAddress(0, 95).encode();
    assert_eq!(decode_column_address(&bytes), Some((0, 95)));
}

#[test]
fn column_address_round_trip_arbitrary_pair() {
    let bytes = Command::ColumnAddress(17, 93).encode();
    assert_eq!(decode_column_address(&bytes), Some((17, 93)));
}

#[test]
fn decode_rejects_other_commands() {
    assert_eq!(decode_column_address(&[0x22, 0, 7]), None);
    assert_eq!(decode_column_address(&[0x21, 5]), None);
    assert_eq!(decode_column_address(&[]), None);
    assert_eq!(decode_column_address(&[0x21, 0, 127, 0]), None);
}

#[test]
fn send_puts_bytes_on_command_channel() {
    let mut iface = RecordingInterface::new();
    Command::Contrast(0x8F).send(&mut iface).unwrap();
    Command::DisplayOn(true).send(&mut iface).unwrap();
    assert_eq!(iface.recorded_commands().as_slice(), &[0x81, 0x8F, 0xAF]);
    assert_eq!(iface.recorded_data().len(), 0);
}
