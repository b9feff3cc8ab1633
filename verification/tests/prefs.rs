use yinyang::error::AppError;
use yinyang::prefs::{encode_preference, parse_preference, SettingsStore};

#[test]
fn round_trip_true() {
    let mut store = SettingsStore::new_missing();
    store.write_preference(true);
    assert_eq!(store.read_preference(), Ok(true));
}

#[test]
fn round_trip_false() {
    let mut store = SettingsStore::from_contents(b"true".to_vec());
    store.write_preference(false);
    assert_eq!(store.read_preference(), Ok(false));
}

#[test]
fn default_on_missing_creates_false() {
    let mut store = SettingsStore::new_missing();
    assert_eq!(store.read_preference(), Ok(false));
    assert_eq!(store.file, Some(b"false".to_vec()));
    // a second read sees the created file and still returns the default
    assert_eq!(store.read_preference(), Ok(false));
}

#[test]
fn read_existing_file_is_untouched() {
    let mut store = SettingsStore::from_contents(b"true".to_vec());
    assert_eq!(store.read_preference(), Ok(true));
    assert_eq!(store.file, Some(b"true".to_vec()));
}

#[test]
fn parse_trims_surrounding_whitespace() {
    assert_eq!(parse_preference(b"  true\r\n"), Ok(true));
    assert_eq!(parse_preference(b"\tfalse \n"), Ok(false));
    assert_eq!(parse_preference(b"true"), Ok(true));
    assert_eq!(parse_preference(b"false"), Ok(false));
}

#[test]
fn parse_is_case_sensitive() {
    assert_eq!(parse_preference(b"TRUE"), Err(AppError::ConfigParse));
    assert_eq!(parse_preference(b"True"), Err(AppError::ConfigParse));
    assert_eq!(parse_preference(b"False"), Err(AppError::ConfigParse));
}

#[test]
fn parse_rejects_empty_and_blank() {
    assert_eq!(parse_preference(b""), Err(AppError::ConfigParse));
    assert_eq!(parse_preference(b"   \n"), Err(AppError::ConfigParse));
}

#[test]
fn parse_rejects_other_text() {
    assert_eq!(parse_preference(b"truex"), Err(AppError::ConfigParse));
    assert_eq!(parse_preference(b"true false"), Err(AppError::ConfigParse));
    assert_eq!(parse_preference(b"1"), Err(AppError::ConfigParse));
    assert_eq!(parse_preference(b"fals"), Err(AppError::ConfigParse));
}

#[test]
fn encode_writes_exact_literals() {
    assert_eq!(encode_preference(true), b"true".to_vec());
    assert_eq!(encode_preference(false), b"false".to_vec());
}

#[test]
fn write_overwrites_unconditionally() {
    let mut store = SettingsStore::from_contents(b"not a boolean".to_vec());
    store.write_preference(true);
    assert_eq!(store.file, Some(b"true".to_vec()));
    assert_eq!(store.read_preference(), Ok(true));
}

#[test]
fn unparseable_file_is_a_parse_error_and_kept() {
    let mut store = SettingsStore::from_contents(b"maybe".to_vec());
    assert_eq!(store.read_preference(), Err(AppError::ConfigParse));
    assert_eq!(store.file, Some(b"maybe".to_vec()));
}
