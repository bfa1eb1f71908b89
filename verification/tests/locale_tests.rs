use portablesource_core::locale::locale_tag;
use portablesource_core::text::contains_true_ignore_case;

#[test]
fn russian_locale_names_map_to_ru() {
    assert_eq!(locale_tag(Some("ru-RU".to_string()), None), "ru");
    assert_eq!(locale_tag(Some("RU-ru".to_string()), None), "ru");
    assert_eq!(locale_tag(Some("ru".to_string()), None), "ru");
}

#[test]
fn other_locale_names_map_to_en() {
    assert_eq!(locale_tag(Some("en-US".to_string()), None), "en");
    assert_eq!(locale_tag(Some("de-DE".to_string()), None), "en");
    assert_eq!(locale_tag(Some("r".to_string()), None), "en");
}

#[test]
fn the_name_wins_over_the_code() {
    assert_eq!(
        locale_tag(Some("en-US".to_string()), Some("00000419".to_string())),
        "en"
    );
}

#[test]
fn the_code_is_the_fallback() {
    assert_eq!(locale_tag(None, Some("00000419".to_string())), "ru");
    assert_eq!(locale_tag(None, Some("0419".to_string())), "ru");
    assert_eq!(locale_tag(None, Some("0409".to_string())), "en");
    assert_eq!(locale_tag(None, None), "en");
}

#[test]
fn privilege_probe_output_is_scanned_case_insensitively() {
    assert!(contains_true_ignore_case("True\n"));
    assert!(contains_true_ignore_case("the answer is TRUE today"));
    assert!(contains_true_ignore_case("true"));
    assert!(!contains_true_ignore_case("False\n"));
    assert!(!contains_true_ignore_case("tru"));
    assert!(!contains_true_ignore_case(""));
    assert!(!contains_true_ignore_case("t r u e"));
}
