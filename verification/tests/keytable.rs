//! Building and querying the key translation table.

use xlookup::Error;
use xlookup::KeySym;
use xlookup::KeyTable;
use xlookup::Modifier;

#[test]
fn build_and_get() {
    let table = KeyTable::new("keycode 38 = a A").unwrap();
    assert_eq!(table.get_keysym(Modifier::Key, 38), Ok(KeySym::KEY_a));
    assert_eq!(table.get_keysym(Modifier::ShiftKey, 38), Ok(KeySym::KEY_A));
    assert_eq!(table.get_key(KeySym::KEY_a), Ok((Modifier::Key, 38)));
}

#[test]
fn shift_reverse_records_unmodified_key() {
    let table = KeyTable::new("keycode 38 = a A").unwrap();
    assert_eq!(table.get_key(KeySym::KEY_A), Ok((Modifier::Key, 38)));
}

#[test]
fn get_misses() {
    let table = KeyTable::new("keycode 38 = a A").unwrap();
    assert_eq!(table.get_keysym(Modifier::Key, 39), Err(Error::NonExistentKeyCode));
    assert_eq!(
        table.get_keysym(Modifier::ModeSwitchKey, 38),
        Err(Error::NonExistentKeyCode)
    );
    assert_eq!(table.get_key(KeySym::KEY_b), Err(Error::NonExistentKeySym));
}

#[test]
fn missing_keycode_field_aborts_build() {
    assert!(matches!(
        KeyTable::new("keycode = a A"),
        Err(Error::InvalidFormat)
    ));
    assert!(matches!(
        KeyTable::new("keycode 38 = a A\nkeycode\nkeycode 39 = b B"),
        Err(Error::InvalidFormat)
    ));
}

#[test]
fn missing_separator_aborts_build() {
    assert!(matches!(
        KeyTable::new("keycode 38 a A"),
        Err(Error::InvalidFormat)
    ));
}

#[test]
fn keycode_out_of_range_aborts_build() {
    assert!(matches!(
        KeyTable::new("keycode 300 = a A"),
        Err(Error::InvalidFormat)
    ));
    assert!(matches!(
        KeyTable::new("keycode 12a = a A"),
        Err(Error::InvalidFormat)
    ));
}

#[test]
fn leading_zeros_in_keycode() {
    let table = KeyTable::new("keycode 038 = a A").unwrap();
    assert_eq!(table.get_keysym(Modifier::Key, 38), Ok(KeySym::KEY_a));
}

#[test]
fn unrecognized_or_missing_symbols_become_sentinel() {
    let table = KeyTable::new("keycode 8 = foobar\nkeycode 9 =").unwrap();
    assert_eq!(table.get_keysym(Modifier::Key, 8), Ok(KeySym::KEY_NONE));
    assert_eq!(table.get_keysym(Modifier::ShiftKey, 8), Ok(KeySym::KEY_NONE));
    assert_eq!(table.get_keysym(Modifier::Key, 9), Ok(KeySym::KEY_NONE));
    assert_eq!(table.get_keysym(Modifier::ShiftKey, 9), Ok(KeySym::KEY_NONE));
}

#[test]
fn reverse_is_last_write_wins() {
    let table = KeyTable::new("keycode 10 = a\nkeycode 20 = a").unwrap();
    assert_eq!(table.get_key(KeySym::KEY_a), Ok((Modifier::Key, 20)));
    assert_eq!(table.get_keysym(Modifier::Key, 10), Ok(KeySym::KEY_a));
    assert_eq!(table.get_keysym(Modifier::Key, 20), Ok(KeySym::KEY_a));
}

#[test]
fn extra_columns_are_ignored() {
    let table = KeyTable::new("keycode 24 = q Q q Q adiaeresis Adiaeresis").unwrap();
    assert_eq!(table.get_keysym(Modifier::Key, 24), Ok(KeySym::KEY_q));
    assert_eq!(table.get_keysym(Modifier::ShiftKey, 24), Ok(KeySym::KEY_Q));
    assert_eq!(
        table.get_keysym(Modifier::ModeSwitchKey, 24),
        Err(Error::NonExistentKeyCode)
    );
}

#[test]
fn empty_input_builds_empty_table() {
    let table = KeyTable::new("").unwrap();
    assert_eq!(table.get_keysym(Modifier::Key, 0), Err(Error::NonExistentKeyCode));
    assert_eq!(table.get_key(KeySym::KEY_NONE), Err(Error::NonExistentKeySym));
}

#[test]
fn carriage_returns_are_stripped() {
    let table = KeyTable::new("keycode 38 = a A\r\nkeycode 39 = s S\r\n").unwrap();
    assert_eq!(table.get_keysym(Modifier::Key, 38), Ok(KeySym::KEY_a));
    assert_eq!(table.get_keysym(Modifier::Key, 39), Ok(KeySym::KEY_s));
}

#[test]
fn error_messages() {
    assert_eq!(Error::InvalidFormat.message(), "invalid xmodmap format");
    assert_eq!(
        Error::XmodmapRunError.message(),
        "could not run xmodmap command, do you have it installed?"
    );
    assert_eq!(Error::NonExistentKeyCode.message(), "non-existent keycode");
    assert_eq!(Error::NonExistentKeySym.message(), "non-existent keysym");
}
