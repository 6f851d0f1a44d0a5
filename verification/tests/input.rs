use wayclip_core::error::WayclipError;
use wayclip_core::models::input::controller::{WayclipControllerButton, WayclipControllerCombo};
use wayclip_core::models::input::hotkey::HotkeyCode;
use wayclip_core::models::input::keyboard::{WayclipKeyCode, WayclipKeyCombo, WayclipKeyModifiers};

#[test]
fn key_codes_read_and_display() {
    assert_eq!(WayclipKeyCode::from_str("c").unwrap(), WayclipKeyCode::Char('c'));
    assert_eq!(WayclipKeyCode::from_str("f5").unwrap(), WayclipKeyCode::F(5));
    assert_eq!(WayclipKeyCode::from_str("PgUp").unwrap(), WayclipKeyCode::PageUp);
    assert_eq!(WayclipKeyCode::from_str("Escape").unwrap(), WayclipKeyCode::Esc);
    assert!(matches!(WayclipKeyCode::from_str("f300"), Err(WayclipError::ParseInt(_))));
    assert!(matches!(WayclipKeyCode::from_str("fx"), Err(WayclipError::ParseInt(_))));
    assert!(matches!(WayclipKeyCode::from_str("banana"), Err(WayclipError::Validation(_))));
    assert_eq!(WayclipKeyCode::F(12).to_string(), "F12");
    assert_eq!(WayclipKeyCode::Enter.to_string(), "Return");
    assert_eq!(WayclipKeyCode::PageDown.to_string(), "Page_Down");
    assert_eq!(WayclipKeyCode::Null.to_string(), "");
}

#[test]
fn modifier_sets() {
    let m = WayclipKeyModifiers::ctrl().union(&WayclipKeyModifiers::meta());
    assert_eq!(m.to_string(), "CTRL+LOGO");
    assert_eq!(WayclipKeyModifiers::empty().to_string(), "null");
    assert_eq!(m.bits(), 0b1010);
    assert_eq!(WayclipKeyModifiers::from_bits_truncate(m.bits()), m);
    assert_eq!(WayclipKeyModifiers::from_bits_truncate(0xF5), WayclipKeyModifiers::from_bits_truncate(5));
    assert!(m.contains(&WayclipKeyModifiers::ctrl()));
    assert!(!m.contains(&WayclipKeyModifiers::alt()));
    let mut n = WayclipKeyModifiers::empty();
    n.insert(&WayclipKeyModifiers::shift());
    assert_eq!(n, WayclipKeyModifiers::shift());
    assert!(WayclipKeyModifiers::empty().is_empty());
}

#[test]
fn key_combos() {
    let c = WayclipKeyCombo::from_str("ctrl + Super + C").unwrap();
    assert_eq!(c.key_code, WayclipKeyCode::Char('c'));
    assert_eq!(c.key_modifiers, WayclipKeyModifiers::ctrl().union(&WayclipKeyModifiers::meta()));
    assert_eq!(c.to_string(), "CTRL+LOGO+c");
    assert_eq!(c.build_trigger(), "CTRL+LOGO+c");
    assert!(matches!(WayclipKeyCombo::from_str("c"), Err(WayclipError::Validation(_))));
    assert!(matches!(WayclipKeyCombo::from_str("hyper+c"), Err(WayclipError::Validation(_))));
    assert!(matches!(WayclipKeyCombo::from_str("alt+nothing"), Err(WayclipError::Validation(_))));
    let plain = WayclipKeyCombo::new(WayclipKeyCode::Tab, WayclipKeyModifiers::empty());
    assert_eq!(plain.to_string(), "Tab");
}

#[test]
fn key_combo_display_reads_back() {
    let combos = [
        WayclipKeyCombo::new(WayclipKeyCode::Char('c'), WayclipKeyModifiers::alt()),
        WayclipKeyCombo::new(WayclipKeyCode::F(11), WayclipKeyModifiers::shift()),
        WayclipKeyCombo::new(
            WayclipKeyCode::PrintScreen,
            WayclipKeyModifiers::ctrl().union(&WayclipKeyModifiers::alt()),
        ),
        WayclipKeyCombo::new(WayclipKeyCode::Char('9'), WayclipKeyModifiers::meta()),
    ];
    for c in combos {
        assert_eq!(WayclipKeyCombo::from_str(&c.to_string()).unwrap(), c);
    }
    // `Enter` is displayed as `Return`, which is not a key name
    let enter = WayclipKeyCombo::new(WayclipKeyCode::Enter, WayclipKeyModifiers::alt());
    assert!(WayclipKeyCombo::from_str(&enter.to_string()).is_err());
}

#[test]
fn hotkey_codes() {
    assert_eq!(WayclipKeyCode::Char('C').hotkey_code(), HotkeyCode::KeyC);
    assert_eq!(WayclipKeyCode::Char('7').hotkey_code(), HotkeyCode::Digit7);
    assert_eq!(WayclipKeyCode::Char('/').hotkey_code(), HotkeyCode::Slash);
    assert_eq!(WayclipKeyCode::Char('é').hotkey_code(), HotkeyCode::Unidentified);
    assert_eq!(WayclipKeyCode::F(24).hotkey_code(), HotkeyCode::F24);
    assert_eq!(WayclipKeyCode::F(25).hotkey_code(), HotkeyCode::Unidentified);
    assert_eq!(WayclipKeyCode::Up.hotkey_code(), HotkeyCode::ArrowUp);
    assert_eq!(WayclipKeyCode::Esc.hotkey_code(), HotkeyCode::Escape);
    assert_eq!(WayclipKeyCode::Null.hotkey_code(), HotkeyCode::Unidentified);
}

#[test]
fn controller_buttons_and_combos() {
    assert_eq!(WayclipControllerButton::from_str("Cross").unwrap(), WayclipControllerButton::South);
    assert_eq!(WayclipControllerButton::from_str("l2").unwrap(), WayclipControllerButton::LeftTrigger2);
    assert_eq!(WayclipControllerButton::from_str("HOME").unwrap(), WayclipControllerButton::Mode);
    assert!(matches!(WayclipControllerButton::from_str("z"), Err(WayclipError::Validation(_))));
    let c = WayclipControllerCombo::from_str("lb + rb + a").unwrap();
    assert_eq!(
        c.buttons,
        vec![
            WayclipControllerButton::LeftTrigger,
            WayclipControllerButton::RightTrigger,
            WayclipControllerButton::South
        ]
    );
    assert_eq!(c.to_string(), "LeftTrigger+RightTrigger+South");
    assert!(WayclipControllerCombo::from_str("lb++a").is_err());
    let back = WayclipControllerCombo::from_str(&c.to_string()).unwrap();
    assert_eq!(back.buttons, c.buttons);
}

#[test]
fn controller_combo_satisfaction() {
    let c = WayclipControllerCombo {
        buttons: vec![WayclipControllerButton::Select, WayclipControllerButton::Start],
    };
    let held = vec![
        WayclipControllerButton::Start,
        WayclipControllerButton::South,
        WayclipControllerButton::Select,
    ];
    assert!(c.is_satisfied(&held));
    assert!(!c.is_satisfied(&vec![WayclipControllerButton::Start]));
    let empty = WayclipControllerCombo { buttons: vec![] };
    assert!(!empty.is_satisfied(&held));
}
