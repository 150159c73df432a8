use app_lifecycle::locale::{
    get_system_language, get_system_locale, is_supported, match_language, resolve_language,
    short_code,
};

fn names(list: &[&str]) -> Vec<String> {
    list.iter().map(|name| name.to_string()).collect()
}

#[test]
fn test_get_system_language() {
    let lang = get_system_language(&Vec::new());
    assert!(!lang.is_empty());
    println!("Detected system language: {}", lang);
}

#[test]
fn system_language_is_the_default_or_a_supported_one() {
    let files = names(&["en.json", "zh-CN.json", "fr.json"]);
    let lang = get_system_language(&files);
    assert!(lang == "zh-CN" || ["en", "zh-CN", "fr"].contains(&lang.as_str()));
    let shown = get_system_locale(&files);
    assert!(shown == "zh-CN" || ["en", "zh-CN", "fr"].contains(&shown.as_str()));
}

#[test]
fn no_locale_gives_the_default_language() {
    assert_eq!(resolve_language(None, &names(&["en", "fr"])), "zh-CN");
}

#[test]
fn lower_case_locale_does_not_reach_a_mixed_case_language() {
    // "zh_cn": not supported as it stands, its short code "zh" is not
    // supported, and the expansion gives "zh-ZH": the default is what is left.
    let supported = names(&["zh-CN", "en"]);
    assert_eq!(resolve_language(Some("zh_cn"), &supported), "zh-CN");
    assert_eq!(match_language("zh_cn", "ZH", &supported), None);
}

#[test]
fn mixed_case_language_is_not_matched_with_another_default_in_sight() {
    let supported = names(&["zh-CN", "en", "fr"]);
    assert_eq!(match_language("zh-cn", "ZH", &supported), None);
    assert_eq!(match_language("fr-fr", "FR", &supported), Some("fr".to_string()));
}

#[test]
fn the_whole_locale_is_tried_first() {
    let supported = names(&["en", "en-us", "en-EN"]);
    assert_eq!(resolve_language(Some("en-US"), &supported), "en-us");
}

#[test]
fn the_short_code_is_tried_second() {
    let supported = names(&["en-EN", "en"]);
    assert_eq!(resolve_language(Some("en_US"), &supported), "en");
    assert_eq!(resolve_language(Some("EN_us.UTF-8"), &supported), "en");
}

#[test]
fn the_short_code_with_itself_as_region_is_tried_third() {
    let supported = names(&["zh-ZH", "ja-JA"]);
    assert_eq!(resolve_language(Some("zh_CN"), &supported), "zh-ZH");
    assert_eq!(resolve_language(Some("ja"), &supported), "ja-JA");
    assert_eq!(resolve_language(Some("ko"), &supported), "zh-CN");
}

#[test]
fn locale_is_put_in_lower_case_before_matching() {
    assert_eq!(resolve_language(Some("EN"), &names(&["en"])), "en");
    assert_eq!(resolve_language(Some("EN"), &names(&["EN"])), "zh-CN");
}

#[test]
fn short_code_ends_at_the_first_separator() {
    assert_eq!(short_code("zh_cn"), "zh");
    assert_eq!(short_code("en-us"), "en");
    assert_eq!(short_code("sr-latn_rs"), "sr");
    assert_eq!(short_code("de"), "de");
    assert_eq!(short_code(""), "");
    assert_eq!(short_code("-x"), "");
    assert_eq!(short_code("_"), "");
    assert_eq!(short_code("pt.br"), "pt.br");
}

#[test]
fn match_language_goes_through_the_three_forms_in_order() {
    assert_eq!(match_language("de-at", "DE", &names(&["de-DE", "de", "de-at"])), Some("de-at".to_string()));
    assert_eq!(match_language("de-at", "DE", &names(&["de-DE", "de"])), Some("de".to_string()));
    assert_eq!(match_language("de-at", "DE", &names(&["de-DE"])), Some("de-DE".to_string()));
    assert_eq!(match_language("de-at", "DE", &names(&["de-AT"])), None);
    assert_eq!(match_language("de-at", "XY", &names(&["de-XY"])), Some("de-XY".to_string()));
    assert_eq!(match_language("", "", &names(&["-"])), Some("-".to_string()));
    assert_eq!(match_language("", "", &names(&[""])), Some(String::new()));
}

#[test]
fn is_supported_compares_whole_codes() {
    let supported = names(&["en", "zh-CN"]);
    assert!(is_supported(&supported, &"en".to_string()));
    assert!(is_supported(&supported, &"zh-CN".to_string()));
    assert!(!is_supported(&supported, &"zh".to_string()));
    assert!(!is_supported(&supported, &"EN".to_string()));
    assert!(!is_supported(&Vec::new(), &"en".to_string()));
}
