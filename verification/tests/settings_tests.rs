use uefi_ui::editor_settings::EditorSettings;
use uefi_ui::settings::SettingsBlob;

#[test]
fn roundtrip_full() {
    let s = EditorSettings {
        font_size: 16,
        theme_index: 2,
        last_file: String::from("notes.txt"),
        last_dir: String::from("docs/letters"),
    };
    let raw = s.encode();
    let s2 = EditorSettings::decode(&raw).unwrap();
    assert_eq!(s, s2);
}

#[test]
fn roundtrip_defaults() {
    let s = EditorSettings::default();
    let raw = s.encode();
    let s2 = EditorSettings::decode(&raw).unwrap();
    assert_eq!(s, s2);
}

#[test]
fn corrupt_data_returns_none() {
    assert!(EditorSettings::decode(b"garbage").is_none());
    assert!(EditorSettings::decode(b"").is_none());
}

#[test]
fn last_dir_path_roundtrip() {
    let mut s = EditorSettings::default();
    let path = vec![String::from("docs"), String::from("letters")];
    s.set_last_dir_path(&path);
    assert_eq!(s.last_dir_path(), path);
}

#[test]
fn empty_last_dir_path_is_empty_vec() {
    let s = EditorSettings::default();
    assert_eq!(s.last_dir_path(), vec![] as Vec<String>);
}

#[test]
fn roundtrip() {
    let s = SettingsBlob {
        version: 1,
        pairs: vec![(b"theme".to_vec(), b"dark".to_vec())],
    };
    let b = s.encode();
    assert_eq!(SettingsBlob::decode(&b), Some(s));
}

#[test]
fn settings_blob_exact_bytes() {
    let s = SettingsBlob { version: 1, pairs: vec![(b"k".to_vec(), b"vv".to_vec())] };
    let b = s.encode();
    assert_eq!(b.len(), 4 + 2 + 2 + 2 + 1 + 2 + 2);
    assert_eq!(&b[0..4], &[0x49, 0x46, 0x45, 0x55]);
    assert_eq!(&b[4..8], &[1, 0, 1, 0]);
    assert!(SettingsBlob::decode(&b[..b.len() - 1]).is_none());
}

#[test]
fn editor_settings_default_values() {
    let s = EditorSettings::default();
    assert_eq!(s.font_size, 14);
    assert_eq!(s.theme_index, 0);
    assert!(s.last_file.is_empty());
    assert!(s.last_dir.is_empty());
}
