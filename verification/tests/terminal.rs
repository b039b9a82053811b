//! The terminal cursor automaton: wrapping, repositioning and padding.

use ssd1306::command::AddrMode;
use ssd1306::displayrotation::DisplayRotation;
use ssd1306::displaysize::DisplaySize;
use ssd1306::error::Error;
use ssd1306::interface::{FailingInterface, RecordingInterface};
use ssd1306::mode::terminal::{Cursor, TerminalMode};
use ssd1306::properties::DisplayProperties;

#[test]
fn cursor_starts_at_origin_with_cell_grid() {
    let cursor = Cursor::new(128, 64);
    assert_eq!(cursor.get_position(), (0, 0));
    assert_eq!(cursor.get_dimensions(), (16, 8));
    assert_eq!(cursor.get_remaining_columns_in_line(), 16);
}

#[test]
fn cursor_advance_steps_within_line() {
    let mut cursor = Cursor::new(128, 64);
    assert!(cursor.advance().is_none());
    assert_eq!(cursor.get_position(), (1, 0));
    assert_eq!(cursor.get_remaining_columns_in_line(), 15);
}

#[test]
fn cursor_wraps_to_next_line() {
    // width 16 cells: from column 15, row 0, one advance lands on
    // column 0, row 1 and reports the new row
    let mut cursor = Cursor::new(128, 64);
    cursor.set_position(15, 0);
    match cursor.advance() {
        Some(ev) => assert_eq!(ev.0, 1),
        None => panic!("expected a wrap event"),
    }
    assert_eq!(cursor.get_position(), (0, 1));
}

#[test]
fn cursor_wraps_past_last_row_to_top() {
    // grid height 8: advancing from the last cell returns to row 0
    let mut cursor = Cursor::new(128, 64);
    cursor.set_position(15, 7);
    match cursor.advance() {
        Some(ev) => assert_eq!(ev.0, 0),
        None => panic!("expected a wrap event"),
    }
    assert_eq!(cursor.get_position(), (0, 0));
}

#[test]
fn cursor_set_position_caps_at_last_cell() {
    let mut cursor = Cursor::new(96, 16);
    cursor.set_position(100, 100);
    assert_eq!(cursor.get_position(), (11, 1));
}

#[test]
fn uninitialized_terminal_rejects_cursor_operations() {
    let props = DisplayProperties::new(
        RecordingInterface::new(),
        DisplaySize::Display128x64,
        DisplayRotation::Rotate0,
    );
    let mut term = TerminalMode::new(props);
    assert_eq!(term.get_position(), Err(Error::CursorNotInitialized));
    assert_eq!(term.set_position(0, 0), Err(Error::CursorNotInitialized));
    assert_eq!(term.print_char('a'), Err(Error::CursorNotInitialized));
    let props = term.release();
    assert_eq!(props.interface().recorded_commands().len(), 0);
    assert_eq!(props.interface().recorded_data().len(), 0);
}

#[test]
fn init_enters_page_mode_and_homes_cursor() {
    let props = DisplayProperties::new(
        RecordingInterface::new(),
        DisplaySize::Display128x64,
        DisplayRotation::Rotate0,
    );
    let mut term = TerminalMode::new(props);
    term.init().unwrap();
    assert_eq!(term.get_position(), Ok((0, 0)));
    let props = term.release();
    let cmds = props.interface().recorded_commands();
    let expected: Vec<u8> = vec![
        0xAE, 0xD5, 0x80, 0xA8, 63, 0xD3, 0x00, 0x40, 0x8D, 0x14, //
        0x20, 0x02, // page addressing
        0xA1, 0xC8, 0xDA, 0x12, 0x81, 0x8F, 0xD9, 0xF1, 0xDB, 0x40, 0xA4, 0xA6, 0x2E,
        0xAF, //
        0x00, 0x10, // column pointer 0
        0xB0, // page pointer 0
    ];
    assert_eq!(cmds, &expected);
}

#[test]
fn set_position_rejects_out_of_range_cells() {
    // grid 16x8: (16, 0) and (0, 8) are rejected, the cursor stays put
    let props = DisplayProperties::new(
        RecordingInterface::new(),
        DisplaySize::Display128x64,
        DisplayRotation::Rotate0,
    );
    let mut term = TerminalMode::new(props);
    term.init().unwrap();
    term.set_position(3, 2).unwrap();
    assert_eq!(term.set_position(16, 0), Err(Error::InvalidCoordinate));
    assert_eq!(term.set_position(0, 8), Err(Error::InvalidCoordinate));
    assert_eq!(term.get_position(), Ok((3, 2)));
}

#[test]
fn set_position_points_device_at_cell() {
    let props = DisplayProperties::new(
        RecordingInterface::new(),
        DisplaySize::Display128x64,
        DisplayRotation::Rotate0,
    );
    let mut term = TerminalMode::new(props);
    term.init().unwrap();
    term.set_position(3, 2).unwrap();
    assert_eq!(term.get_position(), Ok((3, 2)));
    let props = term.release();
    let cmds = props.interface().recorded_commands();
    // column 3 * 8 = 24 as two nibble commands, then page 2
    assert_eq!(&cmds[cmds.len() - 3..], &[0x08, 0x11, 0xB2]);
}

#[test]
fn printing_glyphs_advances_cursor_and_sends_cells() {
    let props = DisplayProperties::new(
        RecordingInterface::new(),
        DisplaySize::Display128x64,
        DisplayRotation::Rotate0,
    );
    let mut term = TerminalMode::new(props);
    term.init().unwrap();
    term.print_char('a').unwrap();
    term.print_char('b').unwrap();
    assert_eq!(term.get_position(), Ok((2, 0)));
    let props = term.release();
    let data = props.interface().recorded_data();
    assert_eq!(data.len(), 16);
    assert_eq!(&data[0..8], &[0x20, 0x54, 0x54, 0x54, 0x78, 0x00, 0x00, 0x00]);
}

#[test]
fn printing_sends_the_exact_glyph_bytes() {
    let props = DisplayProperties::new(
        RecordingInterface::new(),
        DisplaySize::Display128x64,
        DisplayRotation::Rotate0,
    );
    let mut term = TerminalMode::new(props);
    term.init().unwrap();
    term.print_char('!').unwrap();
    let props = term.release();
    let data = props.interface().recorded_data();
    assert_eq!(
        data.as_slice(),
        &[0x00, 0x00, 0x5F, 0x00, 0x00, 0x00, 0x00, 0x00]
    );
}

#[test]
fn printing_past_line_end_updates_row_pointer() {
    let props = DisplayProperties::new(
        RecordingInterface::new(),
        DisplaySize::Display128x64,
        DisplayRotation::Rotate0,
    );
    let mut term = TerminalMode::new(props);
    term.init().unwrap();
    term.set_position(15, 0).unwrap();
    term.print_char('x').unwrap();
    assert_eq!(term.get_position(), Ok((0, 1)));
    let props = term.release();
    let cmds = props.interface().recorded_commands();
    // the wrap reissues the page pointer for row 1
    assert_eq!(cmds[cmds.len() - 1], 0xB1);
}

#[test]
fn newline_pads_line_with_blank_cells() {
    // at column c of a width-16 grid, a newline writes 16 - c blank cells
    // and lands on column 0 of the next row
    let props = DisplayProperties::new(
        RecordingInterface::new(),
        DisplaySize::Display128x64,
        DisplayRotation::Rotate0,
    );
    let mut term = TerminalMode::new(props);
    term.init().unwrap();
    term.print_char('a').unwrap();
    term.print_char('b').unwrap();
    term.print_char('c').unwrap();
    term.print_char('\n').unwrap();
    assert_eq!(term.get_position(), Ok((0, 1)));
    let props = term.release();
    let data = props.interface().recorded_data();
    // 3 glyphs plus 13 blank cells fill the 16-cell line exactly
    assert_eq!(data.len(), 128);
    for byte in &data[24..] {
        assert_eq!(*byte, 0);
    }
}

#[test]
fn newline_on_last_row_wraps_to_top() {
    let props = DisplayProperties::new(
        RecordingInterface::new(),
        DisplaySize::Display96x16,
        DisplayRotation::Rotate0,
    );
    let mut term = TerminalMode::new(props);
    term.init().unwrap();
    term.set_position(5, 1).unwrap();
    term.print_char('\n').unwrap();
    assert_eq!(term.get_position(), Ok((0, 0)));
    let props = term.release();
    // 12 - 5 = 7 blank cells pad the rest of the line
    assert_eq!(props.interface().recorded_data().len(), 56);
}

#[test]
fn carriage_return_rewinds_column_only() {
    let props = DisplayProperties::new(
        RecordingInterface::new(),
        DisplaySize::Display128x64,
        DisplayRotation::Rotate0,
    );
    let mut term = TerminalMode::new(props);
    term.init().unwrap();
    term.set_position(4, 2).unwrap();
    term.print_char('\r').unwrap();
    assert_eq!(term.get_position(), Ok((0, 2)));
    let props = term.release();
    let cmds = props.interface().recorded_commands();
    // only the column pointer command went out
    assert_eq!(&cmds[cmds.len() - 2..], &[0x00, 0x10]);
    assert_eq!(props.interface().recorded_data().len(), 0);
}

#[test]
fn clear_blanks_grid_and_resets_cursor() {
    let props = DisplayProperties::new(
        RecordingInterface::new(),
        DisplaySize::Display128x64,
        DisplayRotation::Rotate0,
    );
    let mut term = TerminalMode::new(props);
    term.init().unwrap();
    term.print_char('z').unwrap();
    term.clear().unwrap();
    assert_eq!(term.get_position(), Ok((0, 0)));
    let props = term.release();
    let data = props.interface().recorded_data();
    // one glyph, then 128 blank cells for the whole 16x8 grid
    assert_eq!(data.len(), 8 + 1024);
    for byte in &data[8..] {
        assert_eq!(*byte, 0);
    }
    let cmds = props.interface().recorded_commands();
    // horizontal mode, full windows, page mode, then pointers home
    let tail: Vec<u8> = vec![
        0x20, 0x00, 0x21, 0, 127, 0x22, 0, 7, 0x20, 0x02, 0x00, 0x10, 0xB0,
    ];
    assert_eq!(&cmds[cmds.len() - tail.len()..], tail.as_slice());
}

#[test]
fn clear_blanks_small_grid() {
    let props = DisplayProperties::new(
        RecordingInterface::new(),
        DisplaySize::Display96x16,
        DisplayRotation::Rotate0,
    );
    let mut term = TerminalMode::new(props);
    term.init().unwrap();
    term.clear().unwrap();
    let props = term.release();
    // 24 cells of 8 zero bytes each
    assert_eq!(props.interface().recorded_data().len(), 192);
}

#[test]
fn write_str_prints_characters_in_order() {
    let props = DisplayProperties::new(
        RecordingInterface::new(),
        DisplaySize::Display128x64,
        DisplayRotation::Rotate0,
    );
    let mut term = TerminalMode::new(props);
    term.init().unwrap();
    term.write_str("ab").unwrap();
    assert_eq!(term.get_position(), Ok((2, 0)));
    let props = term.release();
    assert_eq!(props.interface().recorded_data().len(), 16);
}

#[test]
fn write_str_propagates_the_first_failure() {
    let props = DisplayProperties::new(
        FailingInterface::new(),
        DisplaySize::Display128x64,
        DisplayRotation::Rotate0,
    );
    let mut term = TerminalMode::new(props);
    // without a cursor the first character already fails, and the error
    // reaches the caller
    assert_eq!(term.write_str("ab"), Err(Error::CursorNotInitialized));
    // an empty string prints no character, so nothing can fail
    assert_eq!(term.write_str(""), Ok(()));
}

#[test]
fn write_str_matches_printing_each_character() {
    let props_a = DisplayProperties::new(
        RecordingInterface::new(),
        DisplaySize::Display128x64,
        DisplayRotation::Rotate0,
    );
    let mut whole = TerminalMode::new(props_a);
    whole.init().unwrap();
    whole.write_str("hi\nok").unwrap();
    let pos_whole = whole.get_position().unwrap();

    let props_b = DisplayProperties::new(
        RecordingInterface::new(),
        DisplaySize::Display128x64,
        DisplayRotation::Rotate0,
    );
    let mut by_char = TerminalMode::new(props_b);
    by_char.init().unwrap();
    for c in "hi\nok".chars() {
        by_char.print_char(c).unwrap();
    }
    assert_eq!(by_char.get_position().unwrap(), pos_whole);

    let props_a = whole.release();
    let props_b = by_char.release();
    assert_eq!(
        props_a.interface().recorded_data(),
        props_b.interface().recorded_data()
    );
    assert_eq!(
        props_a.interface().recorded_commands(),
        props_b.interface().recorded_commands()
    );
}

#[test]
fn set_rotation_sends_orientation_commands() {
    let props = DisplayProperties::new(
        RecordingInterface::new(),
        DisplaySize::Display128x64,
        DisplayRotation::Rotate0,
    );
    let mut term = TerminalMode::new(props);
    term.set_rotation(DisplayRotation::Rotate180).unwrap();
    let props = term.release();
    assert_eq!(
        props.interface().recorded_commands().as_slice(),
        &[0xA0, 0xC0]
    );
}

#[test]
fn transport_failure_aborts_terminal_operations() {
    let props = DisplayProperties::new(
        FailingInterface::new(),
        DisplaySize::Display128x64,
        DisplayRotation::Rotate0,
    );
    let mut term = TerminalMode::new(props);
    assert_eq!(term.init(), Err(Error::TransportFailure));
    assert_eq!(term.clear(), Err(Error::TransportFailure));
    // the failed bring-up left no cursor behind
    assert_eq!(term.get_position(), Err(Error::CursorNotInitialized));
}

#[test]
fn flush_is_a_noop_in_terminal_mode() {
    let props = DisplayProperties::new(
        RecordingInterface::new(),
        DisplaySize::Display128x64,
        DisplayRotation::Rotate0,
    );
    let mut term = TerminalMode::new(props);
    assert_eq!(term.flush(), Ok(()));
    let props = term.release();
    assert_eq!(props.interface().recorded_commands().len(), 0);
    assert_eq!(props.interface().recorded_data().len(), 0);
}

#[test]
fn change_mode_is_tracked_on_properties() {
    let mut props = DisplayProperties::new(
        RecordingInterface::new(),
        DisplaySize::Display128x64,
        DisplayRotation::Rotate0,
    );
    props.change_mode(AddrMode::Horizontal).unwrap();
    assert_eq!(props.interface().recorded_commands().as_slice(), &[0x20, 0x00]);
}
