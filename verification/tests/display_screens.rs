//! Tests of the screen buffer, the display module's text rows, the OLED
//! frame buffer and the UI line helpers.

use isochron::display::screen::Screen;
use isochron::display::sh1106::{command_frame, init_commands, page_address_commands, Sh1106};
use isochron::display::terminal::{handle_controller_command, ControllerCommand, DisplayState};
use isochron::traits::display::{field_line, menu_line, DisplayDriver, DisplayError, DisplayExt, InputEvent};

#[test]
fn screen_lines_and_highlights() {
    let mut s = Screen::new();
    assert!(s.is_dirty());
    s.mark_clean();
    s.set_line(1, "Program: Quick clean!");
    assert!(s.is_dirty());
    assert_eq!(s.get_line(1), Some("Program: Quick clean"));
    assert_eq!(s.get_line(0), Some(""));
    assert_eq!(s.get_line(4), None);
    s.set_line(9, "ignored");
    assert_eq!(s.selection(), None);
    s.set_highlight(2, 0, 5);
    s.set_highlight(3, 1, 2);
    assert_eq!(s.get_highlight(2), Some((0, 5)));
    assert_eq!(s.selection(), Some((2, 0, 5)));
    s.clear_highlight(2);
    assert_eq!(s.selection(), Some((3, 1, 2)));
    s.clear_all_highlights();
    assert_eq!(s.selection(), None);
    let copy = s.clone();
    assert_eq!(copy.lines(), vec!["", "Program: Quick clean", "", ""]);
    s.clear();
    assert_eq!(s.get_line(1), Some(""));
    assert_eq!((s.rows(), s.cols(), s.rows_u8()), (4, 20, 4));
}

#[test]
fn screen_keeps_whole_characters() {
    let mut s = Screen::default();
    // 18 ASCII bytes, a 2-byte character, then more: cut after 20 bytes.
    s.set_line(0, "aaaaaaaaaaaaaaaaaa\u{e9}xy");
    assert_eq!(s.get_line(0), Some("aaaaaaaaaaaaaaaaaa\u{e9}"));
}

#[test]
fn terminal_text_placement() {
    let mut d = DisplayState::new();
    d.dirty = false;
    assert!(handle_controller_command(&mut d, ControllerCommand::Text { row: 2, col: 3, text: "Hi".to_string() }));
    assert_eq!(d.lines[2].as_str(), "   Hi");
    assert!(d.dirty);
    d.set_text(2, 1, "ey");
    assert_eq!(d.lines[2].as_str(), " ey");
    d.set_text(2, 10, "0123456789ABCDEF");
    assert_eq!(d.lines[2].as_str(), " ey       0123456789A");
    d.set_text(9, 0, "ignored");
    assert!(!handle_controller_command(&mut d, ControllerCommand::Ping));
    assert!(handle_controller_command(&mut d, ControllerCommand::Invert { row: 1, start_col: 2, end_col: 5 }));
    assert_eq!(d.invert, Some((1, 2, 5)));
    assert!(handle_controller_command(&mut d, ControllerCommand::ClearScreen));
    assert_eq!(d.lines[2].as_str(), "");
    assert_eq!(d.invert, None);
    d.set_text(0, 0, "x");
    assert!(handle_controller_command(&mut d, ControllerCommand::Reset));
    assert_eq!(d.lines[0].as_str(), "");
}

#[test]
fn terminal_skips_characters_that_do_not_fit() {
    let mut d = DisplayState::new();
    d.set_text(0, 19, "\u{e9}\u{20ac}ab");
    // 19 spaces, the 2-byte character, then no room for more.
    assert_eq!(d.lines[0].len(), 21);
    d.set_text(1, 18, "\u{20ac}\u{20ac}z");
    // The first 3-byte character fills the row.
    assert_eq!(d.lines[1].len(), 21);
    d.set_text(3, 19, "\u{20ac}z");
    // The 3-byte character does not fit at 19; 'z' does.
    assert!(d.lines[3].as_str().ends_with('z'));
    assert_eq!(d.lines[3].len(), 20);
}

#[test]
fn frame_buffer_inversion() {
    let mut oled = Sh1106::new(());
    assert!(oled.page(0).iter().all(|&b| b == 0));
    oled.invert_region(1, 0, 2);
    let p = oled.page(1);
    assert_eq!(p[1], 0);
    assert!(p[2..14].iter().all(|&b| b == 0xFF));
    assert_eq!(p[14], 0);
    oled.invert_region(1, 0, 2);
    assert!(oled.page(1).iter().all(|&b| b == 0));
    oled.invert_region(0, 20, 30);
    assert!(oled.page(0)[122..].iter().all(|&b| b == 0xFF));
    oled.invert_region(8, 0, 5);
    oled.clear();
    assert!(oled.page(0).iter().all(|&b| b == 0));
    assert_eq!(init_commands()[0], 0xAE);
    assert_eq!(init_commands()[21], 0xAF);
    assert_eq!(command_frame(0x81), [0x00, 0x81]);
    assert_eq!(page_address_commands(3), [0xB3, 0x02, 0x10]);
}

#[test]
fn ui_lines() {
    assert_eq!(menu_line(b"Clean", true), b"\x01 Clean".to_vec());
    assert_eq!(menu_line(b"Rinse", false), b"  Rinse".to_vec());
    assert_eq!(menu_line(b"0123456789012345678901", false).len(), 21);
    assert_eq!(&field_line(b"Speed", b"120rpm"), b"Speed:         120rpm");
    assert_eq!(&field_line(b"Temperature", b"0123456789"), b"Temperatur: 012345678");
}

struct Recorder {
    texts: Vec<(u8, u8, String)>,
    inverts: Vec<(u8, u8, u8)>,
}

impl DisplayDriver for Recorder {
    fn clear(&mut self) -> Result<(), DisplayError> {
        Ok(())
    }
    fn text(&mut self, row: u8, col: u8, text: &str) -> Result<(), DisplayError> {
        self.texts.push((row, col, text.to_string()));
        Ok(())
    }
    fn invert(&mut self, row: u8, start_col: u8, end_col: u8) -> Result<(), DisplayError> {
        self.inverts.push((row, start_col, end_col));
        Ok(())
    }
    fn hline(&mut self, _row: u8, _start_col: u8, _end_col: u8) -> Result<(), DisplayError> {
        Ok(())
    }
    fn pong(&mut self) -> Result<(), DisplayError> {
        Ok(())
    }
    fn reset(&mut self) -> Result<(), DisplayError> {
        Ok(())
    }
    fn poll_input(&mut self) -> Result<Option<InputEvent>, DisplayError> {
        Ok(None)
    }
    fn is_link_healthy(&self) -> bool {
        true
    }
    fn missed_heartbeats(&self) -> u8 {
        0
    }
}

#[test]
fn menu_items_and_fields_are_drawn() {
    let mut d = Recorder { texts: Vec::new(), inverts: Vec::new() };
    d.draw_menu_item(2, "Dry", true).unwrap();
    assert_eq!(d.texts[0], (2, 0, " ".repeat(21)));
    assert_eq!(d.texts[1], (2, 0, "\u{1} Dry".to_string()));
    assert_eq!(d.inverts, vec![(2, 0, 20)]);
    d.draw_field(3, "Time", "3:00").unwrap();
    assert_eq!(d.texts[2], (3, 0, "Time:            3:00".to_string()));
}
