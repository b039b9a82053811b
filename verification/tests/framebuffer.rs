//! The raw-buffer driver: pixel set/get, clearing, flushing and bring-up.

use ssd1306::displaysize::DisplaySize;
use ssd1306::error::Error;
use ssd1306::interface::{FailingInterface, RecordingInterface};
use ssd1306::SSD1306;

#[test]
fn set_then_get_pixel_round_trip() {
    let mut disp = SSD1306::new(RecordingInterface::new(), DisplaySize::Display128x64);
    assert_eq!(disp.get_pixel(5, 10), Ok(0));
    disp.set_pixel(5, 10, 1).unwrap();
    assert_eq!(disp.get_pixel(5, 10), Ok(1));
    disp.set_pixel(5, 10, 0).unwrap();
    assert_eq!(disp.get_pixel(5, 10), Ok(0));
}

#[test]
fn set_pixel_does_not_disturb_neighbours() {
    let mut disp = SSD1306::new(RecordingInterface::new(), DisplaySize::Display128x64);
    disp.set_pixel(4, 10, 1).unwrap();
    disp.set_pixel(5, 11, 1).unwrap();
    disp.set_pixel(5, 10, 1).unwrap();
    disp.set_pixel(5, 10, 0).unwrap();
    // clearing (5, 10) leaves its byte-sharing and column-sharing
    // neighbours lit
    assert_eq!(disp.get_pixel(4, 10), Ok(1));
    assert_eq!(disp.get_pixel(5, 11), Ok(1));
    assert_eq!(disp.get_pixel(6, 10), Ok(0));
    assert_eq!(disp.get_pixel(5, 9), Ok(0));
}

#[test]
fn clear_resets_every_pixel() {
    let mut disp = SSD1306::new(RecordingInterface::new(), DisplaySize::Display128x64);
    disp.set_pixel(0, 0, 1).unwrap();
    disp.set_pixel(127, 63, 1).unwrap();
    disp.set_pixel(64, 32, 1).unwrap();
    disp.clear();
    for x in 0..128 {
        for y in 0..64 {
            assert_eq!(disp.get_pixel(x, y), Ok(0));
        }
    }
}

#[test]
fn byte_layout_of_set_pixel() {
    // for 128x64, pixel (5, 10) lives in byte (10 / 8) * 128 + 5 = 133,
    // bit 10 % 8 = 2
    let mut disp = SSD1306::new(RecordingInterface::new(), DisplaySize::Display128x64);
    disp.set_pixel(5, 10, 1).unwrap();
    disp.flush().unwrap();
    let data = disp.interface().recorded_data();
    assert_eq!(data.len(), 1024);
    assert_eq!(data[133], 0b0000_0100);
    for (i, byte) in data.iter().enumerate() {
        if i != 133 {
            assert_eq!(*byte, 0);
        }
    }
}

#[test]
fn out_of_range_pixels_are_rejected() {
    let mut disp = SSD1306::new(RecordingInterface::new(), DisplaySize::Display128x32);
    assert_eq!(disp.set_pixel(128, 0, 1), Err(Error::InvalidCoordinate));
    assert_eq!(disp.set_pixel(0, 32, 1), Err(Error::InvalidCoordinate));
    assert_eq!(disp.get_pixel(128, 0), Err(Error::InvalidCoordinate));
    assert_eq!(disp.get_pixel(0, 32), Err(Error::InvalidCoordinate));
    // nothing was drawn or sent
    assert_eq!(disp.get_pixel(127, 31), Ok(0));
    assert_eq!(disp.interface().recorded_data().len(), 0);
    assert_eq!(disp.interface().recorded_commands().len(), 0);
}

#[test]
fn flush_sets_full_windows_and_sends_active_prefix() {
    let mut disp = SSD1306::new(RecordingInterface::new(), DisplaySize::Display128x64);
    disp.flush().unwrap();
    assert_eq!(
        disp.interface().recorded_commands().as_slice(),
        &[0x21, 0, 127, 0x22, 0, 7]
    );
    assert_eq!(disp.interface().recorded_data().len(), 1024);
}

#[test]
fn flush_sends_half_buffer_for_128x32() {
    let mut disp = SSD1306::new(RecordingInterface::new(), DisplaySize::Display128x32);
    disp.flush().unwrap();
    assert_eq!(
        disp.interface().recorded_commands().as_slice(),
        &[0x21, 0, 127, 0x22, 0, 3]
    );
    assert_eq!(disp.interface().recorded_data().len(), 512);
}

#[test]
fn flush_sends_short_prefix_for_96x16() {
    let mut disp = SSD1306::new(RecordingInterface::new(), DisplaySize::Display96x16);
    disp.flush().unwrap();
    assert_eq!(
        disp.interface().recorded_commands().as_slice(),
        &[0x21, 0, 95, 0x22, 0, 1]
    );
    assert_eq!(disp.interface().recorded_data().len(), 192);
}

#[test]
fn init_sends_bring_up_sequence() {
    let mut disp = SSD1306::new(RecordingInterface::new(), DisplaySize::Display128x64);
    disp.init().unwrap();
    let expected: Vec<u8> = vec![
        0xAE, // display off
        0xD5, 0x80, // clock divide
        0xA8, 63, // multiplex
        0xD3, 0x00, // display offset
        0x40, // start line
        0x8D, 0x14, // charge pump on
        0x20, 0x00, // horizontal addressing
        0xA1, // segment remap
        0xC8, // reverse COM direction
        0xDA, 0x12, // COM pin configuration
        0x81, 0x8F, // contrast
        0xD9, 0xF1, // pre-charge period
        0xDB, 0x40, // VCOMH deselect
        0xA4, // follow RAM contents
        0xA6, // normal (non-inverted) display
        0x2E, // scrolling off
        0xAF, // display on
    ];
    assert_eq!(disp.interface().recorded_commands(), &expected);
    assert_eq!(disp.interface().recorded_data().len(), 0);
}

#[test]
fn init_uses_geometry_for_multiplex_and_com_pins() {
    let mut disp = SSD1306::new(RecordingInterface::new(), DisplaySize::Display128x32);
    disp.init().unwrap();
    let cmds = disp.interface().recorded_commands();
    assert_eq!(cmds[4], 31); // multiplex ratio of a 32-row panel
    assert_eq!(cmds[15], 0x02); // sequential COM pin configuration
}

#[test]
fn transport_failure_is_reported() {
    let mut disp = SSD1306::new(FailingInterface::new(), DisplaySize::Display128x64);
    assert_eq!(disp.flush(), Err(Error::TransportFailure));
    assert_eq!(disp.init(), Err(Error::TransportFailure));
    // in-memory drawing still works without a transport
    disp.set_pixel(1, 1, 1).unwrap();
    assert_eq!(disp.get_pixel(1, 1), Ok(1));
}
