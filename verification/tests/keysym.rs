//! Conversions between key symbols, their textual names and printable
//! characters.

use xlookup::KeySym;

#[test]
fn str_to_keysym() {
    assert_eq!(KeySym::from_str("a"), Ok(KeySym::KEY_a));
    assert_eq!(KeySym::from_str("asciitilde"), Ok(KeySym::KEY_TILDE));
}

#[test]
fn char_to_keysym() {
    assert_eq!(KeySym::from_char('a'), Ok(KeySym::KEY_a));
    assert_eq!(KeySym::from_char('~'), Ok(KeySym::KEY_TILDE));
}

#[test]
fn keysym_to_char() {
    assert_eq!(KeySym::KEY_a.to_char(), Ok('a'));
    assert_eq!(KeySym::KEY_TILDE.to_char(), Ok('~'));
}

#[test]
fn str_to_keysym_names() {
    assert_eq!(KeySym::from_str("Return"), Ok(KeySym::KEY_RETURN));
    assert_eq!(KeySym::from_str("BackSpace"), Ok(KeySym::KEY_BACKSPACE));
    assert_eq!(KeySym::from_str("NoSymbol"), Ok(KeySym::KEY_NONE));
    assert_eq!(KeySym::from_str("F12"), Ok(KeySym::KEY_F12));
    assert_eq!(KeySym::from_str("quotedbl"), Ok(KeySym::KEY_DOUBLEQUOTE));
    assert_eq!(KeySym::from_str("7"), Ok(KeySym::KEY_7));
}

#[test]
fn str_to_keysym_unknown() {
    assert_eq!(KeySym::from_str(""), Err(()));
    assert_eq!(KeySym::from_str("keycode"), Err(()));
    assert_eq!(KeySym::from_str("aa"), Err(()));
}

#[test]
fn char_round_trip() {
    for c in ('a'..='z').chain('A'..='Z').chain('0'..='9') {
        let sym = KeySym::from_char(c).unwrap();
        assert_eq!(sym.to_char(), Ok(c));
    }
    for c in [' ', '!', '@', '#', '$', '%', '&', '*', '(', ')', '-', '+', '=', '{', '}', ';',
        ':', '\'', '"', '|', ',', '<', '.', '>', '/', '?', '~']
    {
        let sym = KeySym::from_char(c).unwrap();
        assert_eq!(sym.to_char(), Ok(c));
    }
}

#[test]
fn char_conversion_fails_outside_subset() {
    assert_eq!(KeySym::from_char('\n'), Err(()));
    assert_eq!(KeySym::from_char('\u{e9}'), Err(()));
    assert_eq!(KeySym::KEY_RETURN.to_char(), Err(()));
    assert_eq!(KeySym::KEY_F1.to_char(), Err(()));
    assert_eq!(KeySym::KEY_NONE.to_char(), Err(()));
}

#[test]
fn control_keys_to_char() {
    assert_eq!(KeySym::KEY_BACKSPACE.to_char(), Ok('\u{8}'));
    assert_eq!(KeySym::KEY_TAB.to_char(), Ok('\t'));
    assert_eq!(KeySym::KEY_ESCAPE.to_char(), Ok('\u{1b}'));
}

#[test]
fn round_trip_gap_characters() {
    // These characters have a symbol, but their symbol has no printable
    // counterpart in the reverse table.
    for c in ['^', '_', '[', ']', '\\', '`'] {
        let sym = KeySym::from_char(c).unwrap();
        assert_eq!(sym.to_char(), Err(()));
    }
}
