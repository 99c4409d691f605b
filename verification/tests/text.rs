use deviceservice::credential::{password_file_name, username_file_name};
use deviceservice::text::{has_prefix, occurs_in, replace_chars, same_text};

#[test]
fn same_text_compares_characters() {
    assert!(same_text("", ""));
    assert!(same_text("onvif", "onvif"));
    assert!(!same_text("onvif", "Onvif"));
    assert!(!same_text("onvif", "onvi"));
    assert!(!same_text("", " "));
}

#[test]
fn has_prefix_matches_the_beginning() {
    assert!(has_prefix("provision-good-1", "provision-good"));
    assert!(has_prefix("provision-good", "provision-good"));
    assert!(has_prefix("anything", ""));
    assert!(has_prefix("", ""));
    assert!(!has_prefix("provision-goo", "provision-good"));
    assert!(!has_prefix("", "p"));
    assert!(!has_prefix("a-provision-good", "provision-good"));
    assert!(!has_prefix("Provision-good-1", "provision-good"));
}

#[test]
fn has_prefix_counts_characters_not_bytes() {
    assert!(has_prefix("\u{e9}t\u{e9}", "\u{e9}t"));
    assert!(!has_prefix("\u{e9}t\u{e9}", "et"));
}

#[test]
fn occurs_in_finds_a_character() {
    assert!(occurs_in(':', ":/_"));
    assert!(occurs_in('_', ":/_"));
    assert!(!occurs_in('-', ":/_"));
    assert!(!occurs_in('a', ""));
}

#[test]
fn replace_chars_replaces_each_occurrence() {
    assert_eq!(replace_chars("a-b-c", "-", "_"), "a_b_c");
    assert_eq!(replace_chars("--", "-", "_"), "__");
    assert_eq!(replace_chars("abc", "-", "_"), "abc");
    assert_eq!(replace_chars("", "-", "_"), "");
    assert_eq!(replace_chars("a:b/c_d", ":/_", "-"), "a-b-c-d");
    assert_eq!(replace_chars("a-b", "-", ""), "ab");
    assert_eq!(replace_chars("a-b", "-", "<>"), "a<>b");
    assert_eq!(replace_chars("\u{e9}-\u{e9}", "-", "_"), "\u{e9}_\u{e9}");
}

#[test]
fn credential_files_are_named_by_the_identifier_with_underscores() {
    assert_eq!(username_file_name("6821dc67-8438-5588-1547-4d1349048438"),
        "6821dc67_8438_5588_1547_4d1349048438_username");
    assert_eq!(password_file_name("6821dc67-8438-5588-1547-4d1349048438"),
        "6821dc67_8438_5588_1547_4d1349048438_password");
    assert_eq!(username_file_name("cam"), "cam_username");
    assert_eq!(password_file_name(""), "_password");
    assert_eq!(username_file_name("a_b-c"), "a_b_c_username");
}
