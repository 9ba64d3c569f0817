use doombox::doom_engine::next_frame_count;
use doombox::keyboard::{
    completed_event, handle_scancode, key_decoder_new, key_output, DecodedKeyPlain, KeyOutput,
};
use pc_keyboard::{KeyCode, KeyEvent, KeyState};

fn is_char(out: KeyOutput, c: char) -> bool {
    matches!(out, KeyOutput::Char(x) if x == c)
}

#[test]
fn key_press_types_its_letter() {
    let mut d = key_decoder_new();
    assert!(is_char(handle_scancode(&mut d, 0x1E), 'a'));
}

#[test]
fn key_release_shows_nothing() {
    let mut d = key_decoder_new();
    assert!(is_char(handle_scancode(&mut d, 0x1E), 'a'));
    assert!(matches!(handle_scancode(&mut d, 0x9E), KeyOutput::Nothing));
}

#[test]
fn shift_shows_its_name_and_capitalises() {
    let mut d = key_decoder_new();
    assert!(matches!(handle_scancode(&mut d, 0x2A), KeyOutput::Raw(KeyCode::LShift)));
    assert!(is_char(handle_scancode(&mut d, 0x1E), 'A'));
    assert!(matches!(handle_scancode(&mut d, 0xAA), KeyOutput::Nothing));
    assert!(is_char(handle_scancode(&mut d, 0x1E), 'a'));
}

#[test]
fn extended_prefix_waits_for_the_next_byte() {
    let mut d = key_decoder_new();
    assert!(matches!(handle_scancode(&mut d, 0xE0), KeyOutput::Nothing));
    // E0 48: arrow up
    assert!(matches!(handle_scancode(&mut d, 0x48), KeyOutput::Raw(KeyCode::ArrowUp)));
}

#[test]
fn completed_event_passes_only_complete_events() {
    let ev = KeyEvent::new(KeyCode::A, KeyState::Down);
    assert_eq!(completed_event(Ok(Some(ev.clone()))), Some(ev));
    assert_eq!(completed_event(Ok(None)), None);
    assert_eq!(completed_event(Err(pc_keyboard::Error::UnknownKeyCode)), None);
}

#[test]
fn key_output_maps_each_kind_of_key() {
    assert!(is_char(key_output(Some(DecodedKeyPlain::Unicode('z'))), 'z'));
    assert!(matches!(
        key_output(Some(DecodedKeyPlain::RawKey(KeyCode::Escape))),
        KeyOutput::Raw(KeyCode::Escape)
    ));
    assert!(matches!(key_output(None), KeyOutput::Nothing));
}

#[test]
fn frame_counter_goes_up_by_one() {
    assert_eq!(next_frame_count(0), 1);
    assert_eq!(next_frame_count(41), 42);
    assert_eq!(next_frame_count(u32::MAX - 1), u32::MAX);
}
