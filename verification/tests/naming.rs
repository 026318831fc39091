use superapp_openmls::hex::{hex_id, hex_of_bytes};
use superapp_openmls::layout::{
    database_file_name, database_path, device_dir, devices_root, identity_file_name, identity_path,
};
use superapp_openmls::text::{join, join3, join4};

#[test]
fn hex_id_of_ascii_identifier() {
    assert_eq!(hex_id("alice"), "616c696365");
    assert_eq!(hex_id("bob"), "626f62");
}

#[test]
fn hex_id_of_empty_identifier() {
    assert_eq!(hex_id(""), "");
}

#[test]
fn hex_id_uses_utf8_bytes_and_lowercase_digits() {
    assert_eq!(hex_id("é"), "c3a9");
    assert_eq!(hex_of_bytes(&[0x00, 0x0f, 0xf0, 0xff, 0xab]), "000ff0ffab");
}

#[test]
fn distinct_identifiers_get_distinct_names() {
    assert_ne!(hex_id("ab"), hex_id("a b"));
    assert_ne!(hex_id("a"), hex_id("A"));
    assert_ne!(device_dir("alice"), device_dir("alicf"));
}

#[test]
fn device_files_live_in_the_device_directory() {
    assert_eq!(devices_root(), vec!["devices".to_string()]);
    assert_eq!(device_dir("alice"), vec!["devices".to_string(), "616c696365".to_string()]);
    assert_eq!(
        database_path("alice"),
        vec!["devices".to_string(), "616c696365".to_string(), "openmls.sqlite".to_string()]
    );
    assert_eq!(
        identity_path("alice"),
        vec!["devices".to_string(), "616c696365".to_string(), "identity.json".to_string()]
    );
    assert_eq!(database_file_name(), "openmls.sqlite");
    assert_eq!(identity_file_name(), "identity.json");
}

#[test]
fn device_directory_name_holds_no_separator() {
    let dir = device_dir("../etc/passwd");
    assert_eq!(dir.len(), 2);
    assert!(dir[1].chars().all(|c| c.is_ascii_hexdigit() && !c.is_ascii_uppercase()));
    assert!(!dir[1].contains('/'));
    assert!(!dir[1].contains('.'));
}

#[test]
fn strings_are_joined_in_order() {
    assert_eq!(join("load group: ", "x"), "load group: x");
    assert_eq!(join3("group ", "g", " not found"), "group g not found");
    assert_eq!(join4("group ", "g", " not found for device ", "d"), "group g not found for device d");
}
