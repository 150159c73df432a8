use app_lifecycle::languages::{
    default_language, get_available_languages, get_supported_languages, language_of,
};

fn names(list: &[&str]) -> Vec<String> {
    list.iter().map(|name| name.to_string()).collect()
}

#[test]
fn test_get_supported_languages() {
    let languages = get_supported_languages(&Vec::new());
    assert!(!languages.is_empty());
    assert!(languages.contains(&default_language()));
}

#[test]
fn default_language_is_simplified_chinese() {
    assert_eq!(default_language(), "zh-CN");
}

#[test]
fn supported_languages_are_the_stems_of_the_json_files() {
    let found = get_supported_languages(&names(&["zh-CN.json", "en.json", "ja.json"]));
    assert_eq!(found, names(&["zh-CN", "en", "ja"]));
}

#[test]
fn files_that_are_no_translation_files_are_passed_over() {
    let found = get_supported_languages(&names(&["README.md", "en.json", "en.json.bak", "fr"]));
    assert_eq!(found, names(&["en"]));
}

#[test]
fn no_translation_file_leaves_the_default_language() {
    let found = get_supported_languages(&names(&["notes.txt", "json", "x.jso"]));
    assert_eq!(found, names(&["zh-CN"]));
}

#[test]
fn the_default_language_is_not_added_beside_others() {
    let found = get_supported_languages(&names(&["en.json"]));
    assert_eq!(found, names(&["en"]));
    assert!(!found.contains(&default_language()));
}

#[test]
fn language_of_strips_the_suffix_only_at_the_end() {
    assert_eq!(language_of("en.json"), Some("en".to_string()));
    assert_eq!(language_of("zh-CN.json"), Some("zh-CN".to_string()));
    assert_eq!(language_of("a.json.json"), Some("a.json".to_string()));
    assert_eq!(language_of(".json"), Some(String::new()));
    assert_eq!(language_of("en.JSON"), None);
    assert_eq!(language_of("json"), None);
    assert_eq!(language_of(""), None);
    assert_eq!(language_of("en.json "), None);
}

#[test]
fn language_of_counts_characters_not_bytes() {
    assert_eq!(language_of("中文.json"), Some("中文".to_string()));
    assert_eq!(language_of("é.jso"), None);
}

#[test]
fn available_languages_are_the_supported_ones() {
    let files = names(&["en.json", "de.json", "skip.txt"]);
    assert_eq!(get_available_languages(&files), get_supported_languages(&files));
    assert_eq!(get_available_languages(&Vec::new()), names(&["zh-CN"]));
}
