use wattson::input::{
    accepts_entry_char, edit_entry, handle_key, prompt_label, Action, EditResult, InputKind, Key,
    KeyPress,
};
use wattson::ui::{centered_rect, current_reading_slot, ReadingSlot, Rect};

fn key(c: char) -> KeyPress {
    KeyPress {
        code: Key::Char(c),
        ctrl: false,
    }
}

#[test]
fn key_bindings() {
    assert_eq!(handle_key(key('q')), Action::Quit);
    assert_eq!(
        handle_key(KeyPress {
            code: Key::Char('c'),
            ctrl: true
        }),
        Action::Quit
    );
    assert_eq!(handle_key(key('c')), Action::Nothing);
    assert_eq!(handle_key(key(' ')), Action::TogglePause);
    assert_eq!(handle_key(key('l')), Action::ToggleLogging);
    assert_eq!(handle_key(key('r')), Action::ResetStats);
    assert_eq!(handle_key(key('s')), Action::CycleSamplingRate);
    assert_eq!(handle_key(key('a')), Action::ToggleAutoScale);
    assert_eq!(handle_key(key('+')), Action::ZoomIn);
    assert_eq!(handle_key(key('=')), Action::ZoomIn);
    assert_eq!(handle_key(key('-')), Action::ZoomOut);
    assert_eq!(handle_key(key('?')), Action::ToggleHelp);
    assert_eq!(handle_key(key('f')), Action::StartFrequencyInput);
    assert_eq!(handle_key(key('o')), Action::StartOffsetInput);
    assert_eq!(handle_key(key('x')), Action::Nothing);
    assert_eq!(
        handle_key(KeyPress {
            code: Key::Enter,
            ctrl: false
        }),
        Action::Nothing
    );
}

#[test]
fn numeric_entry_takes_digits_point_and_minus() {
    for c in "0123456789.-".chars() {
        assert!(accepts_entry_char(c));
    }
    for c in "aZ +e,".chars() {
        assert!(!accepts_entry_char(c));
    }
}

#[test]
fn popups_are_centered_and_clipped() {
    let outer = Rect {
        x: 0,
        y: 0,
        width: 80,
        height: 24,
    };
    assert_eq!(
        centered_rect(50, 5, outer),
        Rect {
            x: 20,
            y: 9,
            width: 40,
            height: 5
        }
    );
    let small = Rect {
        x: 3,
        y: 2,
        width: 10,
        height: 3,
    };
    assert_eq!(
        centered_rect(40, 5, small),
        Rect {
            x: 6,
            y: 2,
            width: 4,
            height: 3
        }
    );
}

#[test]
fn current_reading_slot_shows_over_range_only_when_connected() {
    assert_eq!(current_reading_slot(true, false, false), ReadingSlot::Placeholder);
    assert_eq!(current_reading_slot(true, true, false), ReadingSlot::OverRange);
    assert_eq!(current_reading_slot(false, true, false), ReadingSlot::Placeholder);
    assert_eq!(current_reading_slot(true, true, true), ReadingSlot::Value);
    assert_eq!(current_reading_slot(false, true, true), ReadingSlot::Value);
}

#[test]
fn text_entry_editing() {
    let mut buf = String::new();
    for c in "12x.5".chars() {
        assert_eq!(edit_entry(&mut buf, key(c)), EditResult::Continue);
    }
    assert_eq!(buf, "12.5");
    let backspace = KeyPress {
        code: Key::Backspace,
        ctrl: false,
    };
    assert_eq!(edit_entry(&mut buf, backspace), EditResult::Continue);
    assert_eq!(buf, "12.");
    let enter = KeyPress {
        code: Key::Enter,
        ctrl: false,
    };
    assert_eq!(edit_entry(&mut buf, enter), EditResult::Submit);
    assert_eq!(buf, "12.");
    let esc = KeyPress {
        code: Key::Esc,
        ctrl: false,
    };
    assert_eq!(edit_entry(&mut buf, esc), EditResult::Cancel);
    let mut empty = String::new();
    assert_eq!(edit_entry(&mut empty, backspace), EditResult::Continue);
    assert_eq!(empty, "");
    assert_eq!(prompt_label(InputKind::Frequency), "Freq (MHz): ");
    assert_eq!(prompt_label(InputKind::Offset), "Offset (dB): ");
}
