//! Building and querying the resource store.

use xlookup::Xrdb;
use xlookup::XrdbError;

#[test]
fn insert_and_query() {
    let mut xrdb = Xrdb::new();
    xrdb.insert("dwm", "color1", "#ea6962");
    assert_eq!(xrdb.query("dwm", "color1"), Some(String::from("#ea6962")));
}

#[test]
fn universal_answers_every_program() {
    let mut xrdb = Xrdb::new();
    xrdb.insert_universal("color1", "#ea6962");
    assert_eq!(xrdb.query("dwm", "color1"), Some(String::from("#ea6962")));
    assert_eq!(xrdb.query("st", "color1"), Some(String::from("#ea6962")));
    assert_eq!(xrdb.query("dmenu", "color1"), Some(String::from("#ea6962")));
}

#[test]
fn specific_overrides_universal() {
    let mut xrdb = Xrdb::new();
    xrdb.insert_universal("color1", "#ea6962");
    xrdb.insert("dwm", "color1", "#ffffff");
    assert_eq!(xrdb.query("dwm", "color1"), Some(String::from("#ffffff")));
    assert_eq!(xrdb.query("st", "color1"), Some(String::from("#ea6962")));
}

#[test]
fn universal_after_specific_does_not_clobber() {
    let mut xrdb = Xrdb::new();
    xrdb.insert("dwm", "color1", "#ffffff");
    xrdb.insert_universal("color1", "#ea6962");
    assert_eq!(xrdb.query("dwm", "color1"), Some(String::from("#ffffff")));
    assert_eq!(xrdb.query("st", "color1"), Some(String::from("#ea6962")));
}

#[test]
fn insert_replaces_prior_value() {
    let mut xrdb = Xrdb::new();
    xrdb.insert("dwm", "color1", "#000000");
    xrdb.insert("dwm", "color1", "#111111");
    assert_eq!(xrdb.query("dwm", "color1"), Some(String::from("#111111")));
    xrdb.insert_universal("font", "monospace");
    xrdb.insert_universal("font", "sans");
    assert_eq!(xrdb.query("st", "font"), Some(String::from("sans")));
}

#[test]
fn query_misses_are_not_found() {
    let mut xrdb = Xrdb::new();
    assert_eq!(xrdb.query("dwm", "color1"), None);
    xrdb.insert("dwm", "color1", "#fff");
    assert_eq!(xrdb.query("dwm", "color2"), None);
    assert_eq!(xrdb.query("st", "color1"), None);
}

#[test]
fn read_wildcard_and_override() {
    let mut xrdb = Xrdb::new();
    xrdb.read("*.color1:#fff\ndwm.color1:#000");
    assert_eq!(xrdb.query("dwm", "color1"), Some(String::from("#000")));
    assert_eq!(xrdb.query("st", "color1"), Some(String::from("#fff")));
}

#[test]
fn read_trims_every_field() {
    let mut xrdb = Xrdb::new();
    xrdb.read("  dwm . color1 :  #ff0000  \n\t*\t.\tfont\t:\tmonospace\t");
    assert_eq!(xrdb.query("dwm", "color1"), Some(String::from("#ff0000")));
    assert_eq!(xrdb.query("st", "font"), Some(String::from("monospace")));
}

#[test]
fn read_skips_malformed_lines() {
    let mut xrdb = Xrdb::new();
    xrdb.read("dwm.color1\nst.color2:#abc\njunk line\n.x:y");
    assert_eq!(xrdb.query("dwm", "color1"), None);
    assert_eq!(xrdb.query("st", "color2"), Some(String::from("#abc")));
    assert_eq!(xrdb.query("", "x"), Some(String::from("y")));
}

#[test]
fn read_keeps_existing_entries() {
    let mut xrdb = Xrdb::new();
    xrdb.insert("dwm", "color9", "#123");
    xrdb.read("st.color1:#abc");
    assert_eq!(xrdb.query("dwm", "color9"), Some(String::from("#123")));
    assert_eq!(xrdb.query("st", "color1"), Some(String::from("#abc")));
}

#[test]
fn read_splits_on_first_separators_only() {
    let mut xrdb = Xrdb::new();
    xrdb.read("dwm.bar.height:12\n*.exec:cmd -a:b");
    assert_eq!(xrdb.query("dwm", "bar.height"), Some(String::from("12")));
    assert_eq!(xrdb.query("st", "exec"), Some(String::from("cmd -a:b")));
}

#[test]
fn xrdb_error_messages() {
    assert_eq!(
        XrdbError::Missing.message(),
        "xrdb binary not found, are you sure you have it installed?"
    );
    assert_eq!(
        XrdbError::Errored(String::from("no display")).message(),
        "xrdb exited with error: no display"
    );
    assert_eq!(XrdbError::Invalid.message(), "failed to parse line");
    assert_eq!(
        XrdbError::OutputMalformed.message(),
        "could not parse xrdb output to string"
    );
}
