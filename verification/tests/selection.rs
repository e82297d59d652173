//! The selection screen's list and state.

use nes_emulator::menu::font::glyph;
use nes_emulator::menu::order::{has_rom_extension, name_order};
use nes_emulator::menu::{visible_rows, MenuChoice, MenuEvent, MenuState};
use nes_emulator::render::frame::Frame;
use nes_emulator::render::palette::color;

#[test]
fn games_are_listed_alphabetically() {
    let names: Vec<String> = ["zelda.nes", "Mario.nes", "mario 2.nes", "Aa.NES"]
        .iter()
        .map(|name| name.to_string())
        .collect();
    assert_eq!(name_order(&names), vec![3, 2, 1, 0]);
    assert!(has_rom_extension("NeS"));
    assert!(!has_rom_extension("nesx"));
}

#[test]
fn up_and_down_wrap_around() {
    let mut menu = MenuState::new();
    assert_eq!(menu.handle(MenuEvent::Up, 3), None);
    assert_eq!(menu.selected, 2);
    assert_eq!(menu.handle(MenuEvent::Down, 3), None);
    assert_eq!(menu.selected, 0);
    assert_eq!(menu.handle(MenuEvent::Down, 3), None);
    assert_eq!(menu.handle(MenuEvent::Confirm, 3), Some(MenuChoice::Play(1)));
}

#[test]
fn an_empty_list_has_nothing_to_play() {
    let mut menu = MenuState::new();
    assert_eq!(menu.handle(MenuEvent::Up, 0), None);
    assert_eq!(menu.handle(MenuEvent::Confirm, 0), None);
    assert_eq!(menu.handle(MenuEvent::Escape, 0), Some(MenuChoice::Quit));
    assert_eq!(menu.handle(MenuEvent::Quit, 0), Some(MenuChoice::Quit));
}

#[test]
fn the_screen_is_drawn_when_it_has_changed() {
    let labels: Vec<String> = (0..visible_rows() + 3).map(|n| format!("GAME {n}")).collect();
    let mut menu = MenuState::new();
    let mut frame = Frame::new();
    assert!(menu.refresh(&mut frame, &labels));
    let first = frame.data.clone();
    assert!(!menu.refresh(&mut frame, &labels));
    menu.handle(MenuEvent::Other, labels.len());
    assert!(!menu.refresh(&mut frame, &labels));
    menu.handle(MenuEvent::Window, labels.len());
    assert!(menu.refresh(&mut frame, &labels));
    assert_eq!(frame.data, first);
    // The last game is brought into view.
    menu.handle(MenuEvent::Up, labels.len());
    assert!(menu.refresh(&mut frame, &labels));
    assert_eq!(menu.scroll, 3);
    assert_ne!(frame.data, first);
}

#[test]
fn glyphs_and_colours_have_known_values() {
    assert_eq!(glyph('a'), Some([0x0e, 0x11, 0x11, 0x1f, 0x11, 0x11, 0x11]));
    assert_eq!(glyph('A'), glyph('a'));
    assert_eq!(glyph('~'), None);
    assert_eq!(color(0), (0x80, 0x80, 0x80));
    assert_eq!(color(0x20), (0xff, 0xff, 0xff));
}

#[test]
fn the_list_does_not_depend_on_the_directory() {
    let listed = |names: [&str; 4]| -> Vec<String> {
        let names: Vec<String> = names.iter().map(|name| name.to_string()).collect();
        name_order(&names).iter().map(|&i| names[i].clone()).collect()
    };
    let expected = vec!["a.nes", "B.nes", "c.nes", "D.nes"];
    assert_eq!(listed(["D.nes", "c.nes", "B.nes", "a.nes"]), expected);
    assert_eq!(listed(["B.nes", "D.nes", "a.nes", "c.nes"]), expected);
}
