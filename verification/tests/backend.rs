use term_backend::color::{BaseColor, Color, ColorData, ColorPair, ColorTag, ResolvedColor, TermColor};
use term_backend::effect::{apply_update, disable_update, enable_update, AttrOp, AttrState, Effect};
use term_backend::event::{EventKind, NativeEvent, NativeKey, NativeKeyEvent, ALT_BIT, CONTROL_BIT, SHIFT_BIT};
use term_backend::geometry::{window_size, Vec2};
use term_backend::key::{decode_scalar, encode_scalar, Key, KeyModifiers, KeyType};
use term_backend::session::{Instruction, Session};

fn no_mods() -> KeyModifiers {
    KeyModifiers { shift: false, control: false, alt: false }
}

fn effect_none() -> Effect {
    Effect {
        highlight: false,
        underline: false,
        reverse: false,
        blink: false,
        dim: false,
        bold: false,
        italic: false,
    }
}

fn state_none() -> AttrState {
    AttrState { reverse: false, underline: false, blink: false, dim: false, bold: false, italic: false }
}

fn press(code: NativeKey, modifiers: u8) -> NativeEvent {
    NativeEvent::Key(NativeKeyEvent { code, modifiers, kind: EventKind::Press })
}

#[test]
fn default_key_is_the_none_sentinel() {
    let k = Key::default();
    assert_eq!(k.key_type, KeyType::NoKey);
    assert_eq!(k.code, [0u8, 0, 0, 0]);
    assert_eq!(k.modifiers, no_mods());
    assert_eq!(KeyType::default(), KeyType::NoKey);
    assert_eq!(KeyModifiers::default(), no_mods());
}

#[test]
fn char_key_carries_native_endian_scalar() {
    let k = Key::from_press(NativeKey::Char('A'), 0);
    assert_eq!(k.key_type, KeyType::Char);
    assert_eq!(k.code, u32::to_ne_bytes('A' as u32));

    let k = Key::from_press(NativeKey::Char('\u{e9}'), 0);
    assert_eq!(k.code, u32::to_ne_bytes(0xe9));

    let k = Key::from_press(NativeKey::Char('\u{1f980}'), 0);
    assert_eq!(k.code, u32::to_ne_bytes(0x0001_f980));
}

#[test]
fn char_code_round_trips() {
    for c in ['\0', 'a', 'Z', '\u{7f}', '\u{e9}', '\u{d7ff}', '\u{e000}', '\u{1f980}', char::MAX] {
        let bytes = encode_scalar(c as u32);
        assert_eq!(bytes, u32::to_ne_bytes(c as u32));
        let back = decode_scalar(&bytes);
        assert_eq!(char::from_u32(back), Some(c));
    }
}

#[test]
fn plain_keys_map_to_their_tags_with_zero_code() {
    let cases = [
        (NativeKey::Backspace, KeyType::Backspace),
        (NativeKey::Enter, KeyType::Enter),
        (NativeKey::Left, KeyType::Left),
        (NativeKey::Right, KeyType::Right),
        (NativeKey::Up, KeyType::Up),
        (NativeKey::Down, KeyType::Down),
        (NativeKey::Home, KeyType::Home),
        (NativeKey::End, KeyType::End),
        (NativeKey::PageUp, KeyType::PageUp),
        (NativeKey::PageDown, KeyType::PageDown),
        (NativeKey::Tab, KeyType::Tab),
        (NativeKey::Delete, KeyType::Delete),
        (NativeKey::Insert, KeyType::Insert),
        (NativeKey::Escape, KeyType::Escape),
    ];
    for (code, expected) in cases {
        let k = Key::from_press(code, 0);
        assert_eq!(k.key_type, expected);
        assert_eq!(k.code, [0u8, 0, 0, 0]);
        assert_eq!(k.modifiers, no_mods());
    }
}

#[test]
fn modifier_bits_are_extracted_independently() {
    for bits in 0u8..8 {
        let k = Key::from_press(NativeKey::Enter, bits);
        assert_eq!(k.modifiers.shift, bits & SHIFT_BIT != 0);
        assert_eq!(k.modifiers.control, bits & CONTROL_BIT != 0);
        assert_eq!(k.modifiers.alt, bits & ALT_BIT != 0);
    }
}

#[test]
fn back_tab_forces_shift_regardless_of_reported_bits() {
    for bits in [0u8, SHIFT_BIT, CONTROL_BIT | ALT_BIT, 0xff] {
        let k = Key::from_press(NativeKey::BackTab, bits);
        assert_eq!(k.key_type, KeyType::Tab);
        assert!(k.modifiers.shift);
        assert!(!k.modifiers.control);
        assert!(!k.modifiers.alt);
        assert_eq!(k.code, [0u8, 0, 0, 0]);
    }
}

#[test]
fn function_keys_map_to_their_tags() {
    let expected = [
        KeyType::F0,
        KeyType::F1,
        KeyType::F2,
        KeyType::F3,
        KeyType::F4,
        KeyType::F5,
        KeyType::F6,
        KeyType::F7,
        KeyType::F8,
        KeyType::F9,
        KeyType::F10,
        KeyType::F11,
        KeyType::F12,
    ];
    for (n, want) in expected.iter().enumerate() {
        let k = Key::from_press(NativeKey::Function(n as u8), 0);
        assert_eq!(k.key_type, *want);
    }
    let k = Key::from_press(NativeKey::Function(13), 0);
    assert_eq!(k.key_type, KeyType::NoKey);
    assert_eq!(k.modifiers, no_mods());
}

#[test]
fn null_and_unmapped_codes_yield_the_default_key() {
    for code in [NativeKey::Null, NativeKey::Other] {
        let k = Key::from_press(code, SHIFT_BIT | CONTROL_BIT);
        assert_eq!(k.key_type, KeyType::NoKey);
        assert_eq!(k.code, [0u8, 0, 0, 0]);
        assert_eq!(k.modifiers, no_mods());
    }
}

#[test]
fn poll_with_no_event_returns_default_and_queues_nothing() {
    let (mut s, _) = Session::init();
    let k = s.poll_event(None);
    assert_eq!(k.key_type, KeyType::NoKey);
    assert_eq!(k.code, [0u8, 0, 0, 0]);
    assert_eq!(k.modifiers, no_mods());
    assert_eq!(s.pending_len(), 0);
}

#[test]
fn release_and_repeat_events_yield_the_default_key() {
    let (mut s, _) = Session::init();
    for kind in [EventKind::Release, EventKind::Repeat] {
        let ev = NativeEvent::Key(NativeKeyEvent { code: NativeKey::Enter, modifiers: 0, kind });
        let k = s.poll_event(Some(ev));
        assert_eq!(k.key_type, KeyType::NoKey);
    }
    assert_eq!(s.pending_len(), 0);
}

#[test]
fn key_press_events_are_translated() {
    let (mut s, _) = Session::init();
    let k = s.poll_event(Some(press(NativeKey::Char('x'), SHIFT_BIT)));
    assert_eq!(k.key_type, KeyType::Char);
    assert_eq!(k.code, u32::to_ne_bytes('x' as u32));
    assert!(k.modifiers.shift);
    assert_eq!(s.pending_len(), 0);
}

#[test]
fn resize_yields_resize_key_and_queues_a_clear() {
    let (mut s, _) = Session::init();
    s.print_at(Vec2 { x: 2, y: 3 }, b"old".to_vec());
    let k = s.poll_event(Some(NativeEvent::Resize(80, 24)));
    assert_eq!(k.key_type, KeyType::Resize);
    assert_eq!(k.code, [0u8, 0, 0, 0]);
    assert_eq!(k.modifiers, no_mods());
    s.print_at(Vec2 { x: 0, y: 0 }, b"new".to_vec());
    let out = s.refresh();
    assert_eq!(
        out,
        vec![
            Instruction::MoveTo(Vec2 { x: 2, y: 3 }),
            Instruction::Print(b"old".to_vec()),
            Instruction::ClearAll,
            Instruction::MoveTo(Vec2 { x: 0, y: 0 }),
            Instruction::Print(b"new".to_vec()),
        ],
    );
    assert_eq!(s.pending_len(), 0);
}

#[test]
fn other_events_are_ignored() {
    let (mut s, _) = Session::init();
    let k = s.poll_event(Some(NativeEvent::Other));
    assert_eq!(k.key_type, KeyType::NoKey);
    assert_eq!(s.pending_len(), 0);
}

#[test]
fn window_size_falls_back_to_one_by_one() {
    assert_eq!(window_size(None), Vec2 { x: 1, y: 1 });
    assert_eq!(window_size(Some(Vec2 { x: 80, y: 24 })), Vec2 { x: 80, y: 24 });
}

#[test]
fn dark_palette_maps_to_canonical_colors() {
    let cases = [
        (BaseColor::Black, TermColor::Black),
        (BaseColor::Red, TermColor::DarkRed),
        (BaseColor::Green, TermColor::DarkGreen),
        (BaseColor::Yellow, TermColor::DarkYellow),
        (BaseColor::Blue, TermColor::DarkBlue),
        (BaseColor::Magenta, TermColor::DarkMagenta),
        (BaseColor::Cyan, TermColor::DarkCyan),
        (BaseColor::White, TermColor::Grey),
    ];
    for (base, want) in cases {
        assert_eq!(Color::dark(base).resolve(), ResolvedColor::Named(want));
    }
}

#[test]
fn bright_palette_maps_to_bright_variants() {
    let cases = [
        (BaseColor::Black, TermColor::DarkGrey),
        (BaseColor::Red, TermColor::Red),
        (BaseColor::Green, TermColor::Green),
        (BaseColor::Yellow, TermColor::Yellow),
        (BaseColor::Blue, TermColor::Blue),
        (BaseColor::Magenta, TermColor::Magenta),
        (BaseColor::Cyan, TermColor::Cyan),
        (BaseColor::White, TermColor::White),
    ];
    for (base, want) in cases {
        assert_eq!(Color::bright(base).resolve(), ResolvedColor::Named(want));
    }
}

#[test]
fn ansi_values_pass_through_unchanged() {
    for v in [0u8, 1, 16, 231, 255] {
        let c = Color::ansi(v);
        assert_eq!(c.tag, ColorTag::Ansi);
        assert_eq!(c.data, ColorData::Ansi(v));
        assert_eq!(c.resolve(), ResolvedColor::Ansi(v));
    }
}

#[test]
fn enable_bold_does_not_touch_other_attributes() {
    let e = Effect { bold: true, ..effect_none() };
    let u = enable_update(e);
    assert_eq!(u.bold, AttrOp::On);
    assert_eq!(u.underline, AttrOp::Keep);
    assert_eq!(u.reverse, AttrOp::Keep);
    assert_eq!(u.blink, AttrOp::Keep);
    assert_eq!(u.dim, AttrOp::Keep);
    assert_eq!(u.italic, AttrOp::Keep);

    let before = AttrState { underline: true, ..state_none() };
    let after = apply_update(before, u);
    assert!(after.underline);
    assert!(after.bold);
}

#[test]
fn effect_enable_then_disable_restores_prior_state() {
    let e = Effect { underline: true, bold: true, blink: true, ..effect_none() };
    let before = AttrState { italic: true, ..state_none() };
    let mid = apply_update(before, enable_update(e));
    assert!(mid.underline && mid.bold && mid.blink && mid.italic);
    let after = apply_update(mid, disable_update(e));
    assert_eq!(after, before);
}

#[test]
fn highlight_and_reverse_alias_the_same_attribute() {
    let via_highlight = Effect { highlight: true, ..effect_none() };
    let via_reverse = Effect { reverse: true, ..effect_none() };
    let on = apply_update(state_none(), enable_update(via_highlight));
    assert!(on.reverse);
    let off = apply_update(on, disable_update(via_reverse));
    assert!(!off.reverse);
}

#[test]
fn print_then_color_then_refresh_flushes_exactly_that() {
    let (mut s, _) = Session::init();
    s.print_at(Vec2 { x: 0, y: 0 }, b"Hi".to_vec());
    let pair = ColorPair {
        fg: Color::bright(BaseColor::Green),
        bg: Color::dark(BaseColor::Black),
    };
    s.use_color(pair);
    let out = s.refresh();
    assert_eq!(
        out,
        vec![
            Instruction::MoveTo(Vec2 { x: 0, y: 0 }),
            Instruction::Print(b"Hi".to_vec()),
            Instruction::SetColors(
                ResolvedColor::Named(TermColor::Green),
                ResolvedColor::Named(TermColor::Black),
            ),
        ],
    );
    assert_eq!(s.pending_len(), 0);
    assert_eq!(s.refresh(), vec![]);
}

#[test]
fn effects_queue_one_combined_update_each() {
    let (mut s, _) = Session::init();
    let e = Effect { dim: true, ..effect_none() };
    s.enable_effect(e);
    s.disable_effect(e);
    let out = s.refresh();
    assert_eq!(out.len(), 2);
    assert_eq!(out[0], Instruction::SetAttributes(enable_update(e)));
    assert_eq!(out[1], Instruction::SetAttributes(disable_update(e)));
}

#[test]
fn init_then_deinit_restores_the_terminal() {
    let (mut s, setup) = Session::init();
    assert!(s.active());
    assert_eq!(s.pending_len(), 0);
    assert_eq!(
        setup,
        vec![
            Instruction::EnableRawMode,
            Instruction::EnterAlternateScreen,
            Instruction::HideCursor,
        ],
    );
    let teardown = s.deinit();
    assert!(!s.active());
    assert_eq!(s.pending_len(), 0);
    assert_eq!(
        teardown,
        vec![
            Instruction::ResetColors,
            Instruction::LeaveAlternateScreen,
            Instruction::ShowCursor,
            Instruction::MoveTo(Vec2 { x: 0, y: 0 }),
            Instruction::ClearAll,
            Instruction::DisableRawMode,
        ],
    );
}

#[test]
fn deinit_flushes_what_was_still_queued_before_teardown() {
    let (mut s, _) = Session::init();
    s.print_at(Vec2 { x: 1, y: 1 }, b"bye".to_vec());
    let teardown = s.deinit();
    assert_eq!(teardown[0], Instruction::MoveTo(Vec2 { x: 1, y: 1 }));
    assert_eq!(teardown[1], Instruction::Print(b"bye".to_vec()));
    assert_eq!(teardown[2], Instruction::ResetColors);
    assert_eq!(teardown.last(), Some(&Instruction::DisableRawMode));
}
