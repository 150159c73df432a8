use app_lifecycle::store::load_lang_file;
use app_lifecycle::translate::{t, t_with_lang, Lookup, Request, Stage, TranslationCache};

const ZH: &str = "{\"app.title\": \"标题\", \"menu.quit\": \"退出\", \"only.zh\": \"仅中文\"}";
const EN: &str = "{\"app.title\": \"Title\", \"menu.quit\": \"Quit\"}";
const MIXED: &str = "{\"app.title\": \"Title\", \"count\": 3}";
const NESTED: &str = "{\"app\": {\"title\": \"Title\"}}";

/// A store of translation files that counts how often it is read.
struct Files {
    contents: Vec<(String, String)>,
    reads: usize,
}

impl Files {
    fn holding(contents: &[(&str, &str)]) -> Files {
        Files {
            contents: contents.iter().map(|(l, c)| (l.to_string(), c.to_string())).collect(),
            reads: 0,
        }
    }

    fn read(&mut self, language: &str) -> Option<String> {
        self.reads += 1;
        self.contents.iter().find(|(l, _)| l == language).map(|(_, c)| c.clone())
    }

    fn names(&self) -> Vec<String> {
        self.contents.iter().map(|(l, _)| format!("{}.json", l)).collect()
    }
}

/// Carries a lookup out against the cache and the files.
fn finish(mut lookup: Lookup, cache: &mut TranslationCache, files: &mut Files) -> String {
    loop {
        lookup = match lookup.request() {
            Request::ListLocales => lookup.locales(&files.names()),
            Request::ConsultCache => lookup.consult(Some(&*cache)),
            Request::Read { language } => {
                let content = files.read(&language);
                match load_lang_file(content.as_deref()) {
                    Some(document) => lookup.loaded(cache, document),
                    None => lookup.unavailable(),
                }
            }
            Request::Finished { text } => return text,
        };
    }
}

fn empty_cache(language: &str) -> TranslationCache {
    TranslationCache::new(language.to_string(), None)
}

#[test]
fn test_translation_fallback() {
    let mut cache = empty_cache("zh-CN");
    let mut files = Files::holding(&[]);
    let result = finish(t("nonexistent.key"), &mut cache, &mut files);
    assert_eq!(result, "nonexistent.key");
}

#[test]
fn absent_key_comes_back_unchanged() {
    let mut cache = empty_cache("zh-CN");
    let mut files = Files::holding(&[("zh-CN", ZH), ("en", EN)]);
    assert_eq!(finish(t_with_lang("no.such.key", Some("en")), &mut cache, &mut files), "no.such.key");
    assert_eq!(finish(t_with_lang("no.such.key", Some("zh-CN")), &mut cache, &mut files), "no.such.key");
    assert_eq!(finish(t_with_lang("", Some("fr")), &mut cache, &mut files), "");
}

#[test]
fn text_comes_from_the_target_language() {
    let mut cache = empty_cache("zh-CN");
    let mut files = Files::holding(&[("zh-CN", ZH), ("en", EN)]);
    assert_eq!(finish(t_with_lang("app.title", Some("en")), &mut cache, &mut files), "Title");
    assert_eq!(files.reads, 1);
    assert_eq!(cache.language(), "en");
    assert!(cache.is_loaded());
}

#[test]
fn loaded_language_is_served_without_a_second_read() {
    let mut cache = empty_cache("zh-CN");
    let mut files = Files::holding(&[("zh-CN", ZH), ("en", EN)]);
    assert_eq!(finish(t_with_lang("app.title", Some("en")), &mut cache, &mut files), "Title");
    assert_eq!(files.reads, 1);
    assert_eq!(finish(t_with_lang("menu.quit", Some("en")), &mut cache, &mut files), "Quit");
    assert_eq!(finish(t_with_lang("app.title", Some("en")), &mut cache, &mut files), "Title");
    assert_eq!(files.reads, 1);
}

#[test]
fn missing_target_falls_back_to_the_default_language() {
    let mut cache = empty_cache("en");
    let mut files = Files::holding(&[("zh-CN", ZH)]);
    assert_eq!(finish(t_with_lang("app.title", Some("fr")), &mut cache, &mut files), "标题");
    assert_eq!(files.reads, 2);
    assert_eq!(cache.language(), "zh-CN");
}

#[test]
fn corrupt_target_falls_back_to_the_default_language() {
    let mut cache = empty_cache("en");
    let mut files = Files::holding(&[("zh-CN", ZH), ("fr", "{ \"app.title\": ")]);
    assert_eq!(finish(t_with_lang("app.title", Some("fr")), &mut cache, &mut files), "标题");
    assert_eq!(cache.language(), "zh-CN");
}

#[test]
fn key_missing_in_target_falls_back_to_the_default_language() {
    let mut cache = empty_cache("zh-CN");
    let mut files = Files::holding(&[("zh-CN", ZH), ("en", EN)]);
    assert_eq!(finish(t_with_lang("only.zh", Some("en")), &mut cache, &mut files), "仅中文");
    assert_eq!(files.reads, 2);
    assert_eq!(cache.language(), "zh-CN");
}

#[test]
fn file_that_is_not_flat_is_a_failed_load() {
    let mut cache = empty_cache("ja");
    let mut files = Files::holding(&[("zh-CN", ZH), ("en", MIXED), ("fr", NESTED)]);
    assert_eq!(finish(t_with_lang("app.title", Some("en")), &mut cache, &mut files), "标题");
    assert_eq!(files.reads, 2);
    assert_eq!(cache.language(), "zh-CN");
    assert_eq!(finish(t_with_lang("only.zh", Some("fr")), &mut cache, &mut files), "仅中文");
    assert_eq!(cache.language(), "zh-CN");
}

#[test]
fn failed_load_leaves_the_cache_alone() {
    let mut cache = TranslationCache::new("en".to_string(), load_lang_file(Some(EN)));
    let mut files = Files::holding(&[("fr", MIXED), ("zh-CN", NESTED)]);
    assert_eq!(finish(t_with_lang("count", Some("fr")), &mut cache, &mut files), "count");
    assert_eq!(files.reads, 2);
    assert_eq!(cache.language(), "en");
    assert_eq!(cache.get("en", "app.title"), Some("Title".to_string()));
    let mut none = Files::holding(&[]);
    assert_eq!(finish(t_with_lang("app.title", Some("en")), &mut cache, &mut none), "Title");
    assert_eq!(none.reads, 0);
}

#[test]
fn default_language_is_not_read_twice() {
    let mut cache = empty_cache("en");
    let mut files = Files::holding(&[("zh-CN", ZH)]);
    assert_eq!(finish(t_with_lang("absent", Some("zh-CN")), &mut cache, &mut files), "absent");
    assert_eq!(files.reads, 1);
    let mut none = Files::holding(&[]);
    assert_eq!(finish(t_with_lang("absent", Some("zh-CN")), &mut cache, &mut none), "absent");
    assert_eq!(none.reads, 1);
}

#[test]
fn cache_holds_one_language_at_a_time() {
    let mut cache = empty_cache("zh-CN");
    let mut files = Files::holding(&[("zh-CN", ZH), ("en", EN)]);
    assert_eq!(finish(t_with_lang("app.title", Some("en")), &mut cache, &mut files), "Title");
    assert_eq!(finish(t_with_lang("app.title", Some("zh-CN")), &mut cache, &mut files), "标题");
    assert_eq!(finish(t_with_lang("app.title", Some("en")), &mut cache, &mut files), "Title");
    assert_eq!(files.reads, 3);
    assert_eq!(cache.language(), "en");
}

#[test]
fn cached_key_missing_leads_to_a_reload() {
    let mut cache = empty_cache("zh-CN");
    let mut files = Files::holding(&[("en", EN)]);
    assert_eq!(finish(t_with_lang("app.title", Some("en")), &mut cache, &mut files), "Title");
    assert_eq!(files.reads, 1);
    assert_eq!(finish(t_with_lang("absent", Some("en")), &mut cache, &mut files), "absent");
    assert_eq!(files.reads, 3);
}

#[test]
fn cache_serves_only_its_own_language() {
    let document = load_lang_file(Some(EN)).expect("a flat JSON object");
    let cache = TranslationCache::new("en".to_string(), Some(document));
    assert_eq!(cache.get("en", "app.title"), Some("Title".to_string()));
    assert_eq!(cache.get("en", "absent"), None);
    assert_eq!(cache.get("zh-CN", "app.title"), None);
    assert_eq!(cache.get("EN", "app.title"), None);
    assert_eq!(empty_cache("en").get("en", "app.title"), None);
    assert!(!empty_cache("en").is_loaded());
}

#[test]
fn cache_is_replaced_as_a_whole() {
    let mut cache = TranslationCache::new("en".to_string(), load_lang_file(Some(EN)));
    cache.replace("zh-CN".to_string(), load_lang_file(Some(ZH)).expect("a flat JSON object"));
    assert_eq!(cache.language(), "zh-CN");
    assert_eq!(cache.get("zh-CN", "only.zh"), Some("仅中文".to_string()));
    assert_eq!(cache.get("en", "app.title"), None);
}

#[test]
fn lookup_with_a_language_starts_at_the_cache() {
    let lookup = t_with_lang("k", Some("en"));
    assert_eq!(lookup.key, "k");
    assert_eq!(lookup.stage, Stage::AwaitCache { target: "en".to_string() });
    assert_eq!(lookup.request(), Request::ConsultCache);
    assert_eq!(lookup.text(), None);
}

#[test]
fn lookup_without_a_language_asks_for_the_locales() {
    let lookup = t("k");
    assert_eq!(lookup, t_with_lang("k", None));
    assert_eq!(lookup.stage, Stage::AwaitLocales);
    assert_eq!(lookup.request(), Request::ListLocales);
    let detected = lookup.clone().detected("en".to_string());
    assert_eq!(detected, t_with_lang("k", Some("en")));
    let listed = lookup.locales(&vec!["en.json".to_string()]);
    assert!(
        listed == t_with_lang("k", Some("en")) || listed == t_with_lang("k", Some("zh-CN")),
        "the language of the system is a supported one or the default, not {:?}",
        listed
    );
}

#[test]
fn unreadable_cache_leads_to_the_file() {
    let lookup = t_with_lang("app.title", Some("en")).consult(None);
    assert_eq!(lookup.stage, Stage::AwaitTarget { target: "en".to_string() });
    assert_eq!(lookup.request(), Request::Read { language: "en".to_string() });
}

#[test]
fn cache_hit_ends_the_lookup() {
    let cache = TranslationCache::new("en".to_string(), load_lang_file(Some(EN)));
    let lookup = t_with_lang("menu.quit", Some("en")).consult(Some(&cache));
    assert_eq!(lookup.stage, Stage::Finished { text: "Quit".to_string() });
    assert_eq!(lookup.request(), Request::Finished { text: "Quit".to_string() });
    assert_eq!(lookup.text(), Some("Quit".to_string()));
}

#[test]
fn unavailable_file_moves_on_in_order() {
    let target = t_with_lang("k", Some("en")).consult(None);
    let fallback = target.unavailable();
    assert_eq!(fallback.stage, Stage::AwaitDefault);
    assert_eq!(fallback.request(), Request::Read { language: "zh-CN".to_string() });
    let end = fallback.unavailable();
    assert_eq!(end.stage, Stage::Finished { text: "k".to_string() });
    let default = t_with_lang("k", Some("zh-CN")).consult(None).unavailable();
    assert_eq!(default.stage, Stage::Finished { text: "k".to_string() });
}

#[test]
fn answers_that_were_not_asked_for_change_nothing() {
    let zh = || load_lang_file(Some(ZH)).expect("a flat JSON object");
    let mut cache = TranslationCache::new("en".to_string(), load_lang_file(Some(EN)));
    let start = t_with_lang("app.title", Some("zh-CN"));
    assert_eq!(start.clone().loaded(&mut cache, zh()), start);
    assert_eq!(cache.language(), "en");
    assert_eq!(start.clone().unavailable(), start);
    assert_eq!(start.clone().detected("fr".to_string()), start);
    assert_eq!(start.clone().locales(&Vec::new()), start);
    let done = start.consult(None).loaded(&mut cache, zh());
    assert_eq!(done.text(), Some("标题".to_string()));
    assert_eq!(done.clone().consult(Some(&cache)), done);
    assert_eq!(done.clone().unavailable(), done);
    assert_eq!(done.clone().loaded(&mut cache, zh()), done);
    assert_eq!(t("k").consult(Some(&cache)), t("k"));
}
