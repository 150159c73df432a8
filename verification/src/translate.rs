//! The translation resolver and its cache.
//!
//! A lookup goes, in this order, through the cache, the file of the target
//! language, the file of the default language, and ends with the key itself.
//! Reading a file is the caller's work, so a lookup is a state machine: it
//! asks for one thing at a time and is told the answer.

use crate::languages::{default_language, default_language_code, supported_languages};
use crate::locale::{get_system_language, resolved_language};
use crate::store::{lookup, mapping_view, text_at, Document};
use crate::text::{codes, text_view};
use vstd::prelude::*;
use vstd::string::*;

verus! {

/// The cache slot: a language and the document that was loaded for it.
/// Both are replaced together, so the document is always that of the
/// language beside it.
#[derive(Debug)]
pub struct TranslationCache {
    language: String,
    document: Option<Document>,
}

/// What a cache holds.
pub struct CacheView {
    pub language: Seq<char>,
    pub document: Option<Map<Seq<char>, Seq<char>>>,
}

/// Where a lookup stands.
#[derive(Clone, Debug, PartialEq, Eq)]
pub enum Stage {
    /// Waiting for the names of the translation files, to find the language
    /// of the system.
    AwaitLocales,
    /// Waiting for a look into the cache.
    AwaitCache { target: String },
    /// Waiting for the file of the target language.
    AwaitTarget { target: String },
    /// Waiting for the file of the default language.
    AwaitDefault,
    /// The lookup is over.
    Finished { text: String },
}

/// What a stage holds.
pub enum StageView {
    AwaitLocales,
    AwaitCache { target: Seq<char> },
    AwaitTarget { target: Seq<char> },
    AwaitDefault,
    Finished { text: Seq<char> },
}

/// One lookup: the key that is looked up and how far the lookup has come.
#[derive(Clone, Debug, PartialEq, Eq)]
pub struct Lookup {
    pub key: String,
    pub stage: Stage,
}

/// What a lookup holds.
pub struct LookupView {
    pub key: Seq<char>,
    pub stage: StageView,
}

/// What a lookup asks its caller for.
#[derive(Clone, Debug, PartialEq, Eq)]
pub enum Request {
    /// The names of the files in the directory of translations.
    ListLocales,
    /// The cache, if it can be read.
    ConsultCache,
    /// The content of the translation file of this language.
    Read { language: String },
    /// Nothing more: this is the text.
    Finished { text: String },
}

/// What a request holds.
pub enum RequestView {
    ListLocales,
    ConsultCache,
    Read { language: Seq<char> },
    Finished { text: Seq<char> },
}

impl View for TranslationCache {
    type V = CacheView;

    closed spec fn view(&self) -> CacheView {
        CacheView { language: self.language@, document: mapping_view(self.document) }
    }
}

impl View for Stage {
    type V = StageView;

    open spec fn view(&self) -> StageView {
        match *self {
            Stage::AwaitLocales => StageView::AwaitLocales,
            Stage::AwaitCache { target } => StageView::AwaitCache { target: target@ },
            Stage::AwaitTarget { target } => StageView::AwaitTarget { target: target@ },
            Stage::AwaitDefault => StageView::AwaitDefault,
            Stage::Finished { text } => StageView::Finished { text: text@ },
        }
    }
}

impl View for Lookup {
    type V = LookupView;

    open spec fn view(&self) -> LookupView {
        LookupView { key: self.key@, stage: self.stage@ }
    }
}

impl View for Request {
    type V = RequestView;

    open spec fn view(&self) -> RequestView {
        match *self {
            Request::ListLocales => RequestView::ListLocales,
            Request::ConsultCache => RequestView::ConsultCache,
            Request::Read { language } => RequestView::Read { language: language@ },
            Request::Finished { text } => RequestView::Finished { text: text@ },
        }
    }
}

/// What an optional cache holds.
pub open spec fn cache_view(cache: Option<&TranslationCache>) -> Option<CacheView> {
    match cache {
        Some(c) => Some(c@),
        None => None,
    }
}

/// The text that the cache serves for `key` in `language`: the cached
/// document's text, if the cache holds that language.
pub open spec fn cached_text(cache: CacheView, language: Seq<char>, key: Seq<char>) -> Option<
    Seq<char>,
> {
    if cache.language == language {
        match cache.document {
            Some(document) => text_at(document, key),
            None => None,
        }
    } else {
        None
    }
}

/// A lookup of `key` at its start: with an explicit language it goes to the
/// cache, without one it first needs the language of the system.
pub open spec fn started(key: Seq<char>, language: Option<Seq<char>>) -> LookupView {
    LookupView {
        key,
        stage: match language {
            Some(target) => StageView::AwaitCache { target },
            None => StageView::AwaitLocales,
        },
    }
}

/// What a lookup asks for.
pub open spec fn pending_request(lookup: LookupView) -> RequestView {
    match lookup.stage {
        StageView::AwaitLocales => RequestView::ListLocales,
        StageView::AwaitCache { .. } => RequestView::ConsultCache,
        StageView::AwaitTarget { target } => RequestView::Read { language: target },
        StageView::AwaitDefault => RequestView::Read { language: default_language_code() },
        StageView::Finished { text } => RequestView::Finished { text },
    }
}

/// The lookup after the language of the system was found.
pub open spec fn after_detection(lookup: LookupView, language: Seq<char>) -> LookupView {
    match lookup.stage {
        StageView::AwaitLocales => LookupView {
            key: lookup.key,
            stage: StageView::AwaitCache { target: language },
        },
        _ => lookup,
    }
}

/// The lookup after a look into the cache (`None`: it could not be read).
/// A hit ends the lookup; otherwise the file of the target language is next.
pub open spec fn after_cache(lookup: LookupView, cache: Option<CacheView>) -> LookupView {
    match lookup.stage {
        StageView::AwaitCache { target } => {
            let hit = match cache {
                Some(c) => cached_text(c, target, lookup.key),
                None => None,
            };
            LookupView {
                key: lookup.key,
                stage: match hit {
                    Some(text) => StageView::Finished { text },
                    None => StageView::AwaitTarget { target },
                },
            }
        },
        _ => lookup,
    }
}

/// The stage that follows when the file that was asked for gave no text for
/// the key: from the target language to the default language, unless the
/// target is the default language; at the end, the key itself.
pub open spec fn after_miss(lookup: LookupView) -> LookupView {
    match lookup.stage {
        StageView::AwaitTarget { target } => LookupView {
            key: lookup.key,
            stage: if target != default_language_code() {
                StageView::AwaitDefault
            } else {
                StageView::Finished { text: lookup.key }
            },
        },
        StageView::AwaitDefault => LookupView {
            key: lookup.key,
            stage: StageView::Finished { text: lookup.key },
        },
        _ => lookup,
    }
}

/// The language whose file the lookup is waiting for, if it waits for one.
pub open spec fn awaited_language(lookup: LookupView) -> Option<Seq<char>> {
    match lookup.stage {
        StageView::AwaitTarget { target } => Some(target),
        StageView::AwaitDefault => Some(default_language_code()),
        _ => None,
    }
}

/// The cache after the awaited file gave `document`: the slot is overwritten
/// as a whole with the awaited language and its document. A lookup that
/// waits for no file leaves the cache alone.
pub open spec fn cache_after_load(cache: CacheView, lookup: LookupView, document: Map<Seq<char>, Seq<char>>) -> CacheView {
    match awaited_language(lookup) {
        Some(language) => CacheView { language, document: Some(document) },
        None => cache,
    }
}

/// The lookup after the awaited file gave `document`: finished with the
/// document's text for the key, or on as after a miss.
pub open spec fn after_load(lookup: LookupView, document: Map<Seq<char>, Seq<char>>) -> LookupView {
    match awaited_language(lookup) {
        Some(_) => match text_at(document, lookup.key) {
            Some(text) => LookupView { key: lookup.key, stage: StageView::Finished { text } },
            None => after_miss(lookup),
        },
        None => lookup,
    }
}

impl TranslationCache {
    /// A cache that holds `document` for `language`; `None` where the
    /// language's file gave no document, so that nothing is served from it.
    pub fn new(language: String, document: Option<Document>) -> (cache: TranslationCache)
        ensures
            cache@ == (CacheView { language: language@, document: mapping_view(document) }),
    {
        TranslationCache { language, document }
    }

    /// The language that the cache holds.
    pub fn language(&self) -> (language: &String)
        ensures
            language@ == self@.language,
    {
        &self.language
    }

    /// Whether the cache holds a document.
    pub fn is_loaded(&self) -> (loaded: bool)
        ensures
            loaded == (self@.document is Some),
    {
        self.document.is_some()
    }

    /// The text that the cache serves for `key` in `language`.
    pub fn get(&self, language: &str, key: &str) -> (text: Option<String>)
        ensures
            text_view(text) == cached_text(self@, language@, key@),
    {
        let wanted: String = language.to_owned();
        if self.language == wanted {
            match &self.document {
                Some(document) => lookup(document, key),
                None => None,
            }
        } else {
            None
        }
    }

    /// Overwrites the slot with `language` and its `document`.
    pub fn replace(&mut self, language: String, document: Document)
        ensures
            final(self)@ == (CacheView { language: language@, document: Some(document@) }),
    {
        self.language = language;
        self.document = Some(document);
    }
}

/// Starts the lookup of `key` in the language of the system.
pub fn t(key: &str) -> (lookup: Lookup)
    ensures
        lookup@ == started(key@, None),
{
    t_with_lang(key, None)
}

/// Starts the lookup of `key` in `lang`, or in the language of the system
/// where `lang` is `None`.
pub fn t_with_lang(key: &str, lang: Option<&str>) -> (lookup: Lookup)
    ensures
        lookup@ == started(
            key@,
            match lang {
                Some(language) => Some(language@),
                None => None,
            },
        ),
{
    match lang {
        Some(language) => Lookup {
            key: key.to_owned(),
            stage: Stage::AwaitCache { target: language.to_owned() },
        },
        None => Lookup { key: key.to_owned(), stage: Stage::AwaitLocales },
    }
}

impl Lookup {
    /// What the caller has to supply next.
    pub fn request(&self) -> (request: Request)
        ensures
            request@ == pending_request(self@),
    {
        match &self.stage {
            Stage::AwaitLocales => Request::ListLocales,
            Stage::AwaitCache { .. } => Request::ConsultCache,
            Stage::AwaitTarget { target } => Request::Read { language: target.clone() },
            Stage::AwaitDefault => Request::Read { language: default_language() },
            Stage::Finished { text } => Request::Finished { text: text.clone() },
        }
    }

    /// The text, once the lookup is over.
    pub fn text(&self) -> (text: Option<String>)
        ensures
            text_view(text) == match self@.stage {
                StageView::Finished { text } => Some(text),
                _ => None,
            },
    {
        match &self.stage {
            Stage::Finished { text } => Some(text.clone()),
            _ => None,
        }
    }

    /// The lookup after `language` was found to be the language of the
    /// system.
    pub fn detected(self, language: String) -> (next: Lookup)
        ensures
            next@ == after_detection(self@, language@),
    {
        match self.stage {
            Stage::AwaitLocales => Lookup {
                key: self.key,
                stage: Stage::AwaitCache { target: language },
            },
            other => Lookup { key: self.key, stage: other },
        }
    }

    /// The lookup after the directory of translations was listed: the
    /// language of the system is found from the system's locale and the
    /// files. A lookup that does not wait for the listing stays as it is,
    /// and the system is not asked.
    pub fn locales(self, file_names: &Vec<String>) -> (next: Lookup)
        ensures
            !(self@.stage is AwaitLocales) ==> next@ == self@,
            self@.stage is AwaitLocales ==> exists|raw: Option<Seq<char>>|
                next@ == after_detection(
                    self@,
                    #[trigger] resolved_language(raw, supported_languages(codes(file_names@))),
                ),
    {
        match self.stage {
            Stage::AwaitLocales => {
                let language: String = get_system_language(file_names);
                Lookup { key: self.key, stage: Stage::AwaitCache { target: language } }
            },
            other => Lookup { key: self.key, stage: other },
        }
    }

    /// The lookup after a look into the cache; `None` where the cache could
    /// not be read.
    pub fn consult(self, cache: Option<&TranslationCache>) -> (next: Lookup)
        ensures
            next@ == after_cache(self@, cache_view(cache)),
    {
        match self.stage {
            Stage::AwaitCache { target } => {
                let hit: Option<String> = match cache {
                    Some(slot) => slot.get(target.as_str(), self.key.as_str()),
                    None => None,
                };
                match hit {
                    Some(text) => Lookup { key: self.key, stage: Stage::Finished { text } },
                    None => Lookup { key: self.key, stage: Stage::AwaitTarget { target } },
                }
            },
            other => Lookup { key: self.key, stage: other },
        }
    }

    /// The lookup after the awaited file could not be loaded, or the cache
    /// could not be written.
    pub fn unavailable(self) -> (next: Lookup)
        ensures
            next@ == after_miss(self@),
    {
        match self.stage {
            Stage::AwaitTarget { target } => {
                if target == default_language() {
                    let text: String = self.key.clone();
                    Lookup { key: self.key, stage: Stage::Finished { text } }
                } else {
                    Lookup { key: self.key, stage: Stage::AwaitDefault }
                }
            },
            Stage::AwaitDefault => {
                let text: String = self.key.clone();
                Lookup { key: self.key, stage: Stage::Finished { text } }
            },
            other => Lookup { key: self.key, stage: other },
        }
    }

    /// The lookup after the awaited file was loaded as `document`: the cache
    /// slot is overwritten with the awaited language and the document, and
    /// the document is asked for the key.
    pub fn loaded(self, cache: &mut TranslationCache, document: Document) -> (next: Lookup)
        ensures
            final(cache)@ == cache_after_load(old(cache)@, self@, document@),
            next@ == after_load(self@, document@),
    {
        let language: String = match &self.stage {
            Stage::AwaitTarget { target } => target.clone(),
            Stage::AwaitDefault => default_language(),
            _ => {
                return self;
            },
        };
        cache.replace(language, document);
        let found: Option<String> = match &cache.document {
            Some(held) => lookup(held, self.key.as_str()),
            None => None,
        };
        match found {
            Some(text) => Lookup { key: self.key, stage: Stage::Finished { text } },
            None => self.unavailable(),
        }
    }
}

/// The cache and the lookup after the awaited file was read: `document` is
/// what it gave, `None` where it was missing, unreadable or did not parse.
pub open spec fn supplied(cache: CacheView, lookup: LookupView, document: Option<Map<Seq<char>, Seq<char>>>) -> (
    CacheView,
    LookupView,
) {
    match document {
        Some(d) => (cache_after_load(cache, lookup, d), after_load(lookup, d)),
        None => (cache, after_miss(lookup)),
    }
}

/// A whole lookup of `key` in the language `target`, carried out against a
/// cache that can be read and written: the cache and the lookup at the end.
/// `target_document` and `default_document` are what the files of the target
/// and of the default language give if they are read.
pub open spec fn run(
    cache: CacheView,
    key: Seq<char>,
    target: Seq<char>,
    target_document: Option<Map<Seq<char>, Seq<char>>>,
    default_document: Option<Map<Seq<char>, Seq<char>>>,
) -> (CacheView, LookupView) {
    let consulted = after_cache(started(key, Some(target)), Some(cache));
    let first = if consulted.stage is AwaitTarget {
        supplied(cache, consulted, target_document)
    } else {
        (cache, consulted)
    };
    if first.1.stage is AwaitDefault {
        supplied(first.0, first.1, default_document)
    } else {
        first
    }
}

/// The text that `document` gives for `key`, where there is a document.
pub open spec fn text_in(document: Option<Map<Seq<char>, Seq<char>>>, key: Seq<char>) -> Option<Seq<char>> {
    match document {
        Some(d) => text_at(d, key),
        None => None,
    }
}

/// The translation of `key` in `target`: the first text found in the cache,
/// in the target language's document, in the default language's document
/// (only for a target other than the default language); the key itself if
/// none has one.
pub open spec fn translation(
    cache: CacheView,
    key: Seq<char>,
    target: Seq<char>,
    target_document: Option<Map<Seq<char>, Seq<char>>>,
    default_document: Option<Map<Seq<char>, Seq<char>>>,
) -> Seq<char> {
    if cached_text(cache, target, key) is Some {
        cached_text(cache, target, key).unwrap()
    } else if text_in(target_document, key) is Some {
        text_in(target_document, key).unwrap()
    } else if target != default_language_code() && text_in(default_document, key) is Some {
        text_in(default_document, key).unwrap()
    } else {
        key
    }
}

/// What the cache holds after that lookup: untouched on a hit; else the last
/// document that was loaded on the way, with the language it was loaded for.
pub open spec fn cache_after(
    cache: CacheView,
    key: Seq<char>,
    target: Seq<char>,
    target_document: Option<Map<Seq<char>, Seq<char>>>,
    default_document: Option<Map<Seq<char>, Seq<char>>>,
) -> CacheView {
    if cached_text(cache, target, key) is Some {
        cache
    } else {
        let first = match target_document {
            Some(d) => CacheView { language: target, document: Some(d) },
            None => cache,
        };
        if text_in(target_document, key) is Some || target == default_language_code() {
            first
        } else {
            match default_document {
                Some(d) => CacheView { language: default_language_code(), document: Some(d) },
                None => first,
            }
        }
    }
}

/// Whether the cache holds, for its language, the document that `store`
/// gives for that language.
pub open spec fn consistent_with(cache: CacheView, store: spec_fn(Seq<char>) -> Option<Map<Seq<char>, Seq<char>>>) -> bool {
    cache.document is Some ==> cache.document == store(cache.language)
}

/// A load that fails (a file that is missing, unreadable, or no flat
/// document) leaves the cache slot as it is.
pub proof fn failed_load_leaves_the_cache(cache: CacheView, lookup: LookupView)
    ensures
        supplied(cache, lookup, None).0 == cache,
        supplied(cache, lookup, None).1 == after_miss(lookup),
{
}

/// A lookup always ends, after at most two files, with the translation that
/// the fallback order gives, and leaves the cache as `cache_after` says.
pub proof fn lookup_follows_the_fallback_order(
    cache: CacheView,
    key: Seq<char>,
    target: Seq<char>,
    target_document: Option<Map<Seq<char>, Seq<char>>>,
    default_document: Option<Map<Seq<char>, Seq<char>>>,
)
    ensures
        run(cache, key, target, target_document, default_document).1 == (LookupView {
            key,
            stage: StageView::Finished {
                text: translation(cache, key, target, target_document, default_document),
            },
        }),
        run(cache, key, target, target_document, default_document).0 == cache_after(
            cache,
            key,
            target,
            target_document,
            default_document,
        ),
{
}

/// A key that no mapping holds comes back unchanged: the cached document,
/// the target language's and the default language's all lack it.
pub proof fn absent_key_is_echoed(
    cache: CacheView,
    key: Seq<char>,
    target: Seq<char>,
    target_document: Option<Map<Seq<char>, Seq<char>>>,
    default_document: Option<Map<Seq<char>, Seq<char>>>,
)
    requires
        text_in(cache.document, key) is None,
        text_in(target_document, key) is None,
        text_in(default_document, key) is None,
    ensures
        translation(cache, key, target, target_document, default_document) == key,
        run(cache, key, target, target_document, default_document).1.stage == (
        StageView::Finished { text: key }),
{
}

/// After a file was loaded for a language, a lookup in that language of a
/// key that the document holds is served from the cache: it ends at the
/// look into the cache, with the document's text, and asks for no file.
pub proof fn loaded_language_is_served_from_cache(
    cache: CacheView,
    loading: LookupView,
    document: Map<Seq<char>, Seq<char>>,
    key: Seq<char>,
)
    requires
        awaited_language(loading) is Some,
        text_at(document, key) is Some,
    ensures
        after_cache(
            started(key, awaited_language(loading)),
            Some(cache_after_load(cache, loading, document)),
        ).stage == (StageView::Finished { text: text_at(document, key).unwrap() }),
        pending_request(
            after_cache(
                started(key, awaited_language(loading)),
                Some(cache_after_load(cache, loading, document)),
            ),
        ) == (RequestView::Finished { text: text_at(document, key).unwrap() }),
{
}

/// A lookup that had to load the target language and found the key there
/// leaves that language in the cache: any later lookup in the same language,
/// of a key that the document holds, ends at the cache with the document's
/// text, whatever the files hold by then, and leaves the cache as it is.
pub proof fn found_language_stays_cached(
    cache: CacheView,
    key: Seq<char>,
    target: Seq<char>,
    document: Map<Seq<char>, Seq<char>>,
    default_document: Option<Map<Seq<char>, Seq<char>>>,
    later_key: Seq<char>,
    later_target_document: Option<Map<Seq<char>, Seq<char>>>,
    later_default_document: Option<Map<Seq<char>, Seq<char>>>,
)
    requires
        cached_text(cache, target, key) is None,
        text_at(document, key) is Some,
        text_at(document, later_key) is Some,
    ensures
        run(cache, key, target, Some(document), default_document).0 == (CacheView {
            language: target,
            document: Some(document),
        }),
        after_cache(
            started(later_key, Some(target)),
            Some(run(cache, key, target, Some(document), default_document).0),
        ).stage == (StageView::Finished { text: text_at(document, later_key).unwrap() }),
        run(
            run(cache, key, target, Some(document), default_document).0,
            later_key,
            target,
            later_target_document,
            later_default_document,
        ) == (
            run(cache, key, target, Some(document), default_document).0,
            LookupView {
                key: later_key,
                stage: StageView::Finished { text: text_at(document, later_key).unwrap() },
            },
        ),
{
}

/// Where the target language's file gives no document and the cache does
/// not serve the key, the text comes from the default language's document,
/// if that holds the key, and not the key itself.
pub proof fn missing_target_falls_back_to_default(
    cache: CacheView,
    key: Seq<char>,
    target: Seq<char>,
    default_document: Map<Seq<char>, Seq<char>>,
)
    requires
        target != default_language_code(),
        cached_text(cache, target, key) is None,
        text_at(default_document, key) is Some,
    ensures
        run(cache, key, target, None, Some(default_document)).1.stage == (StageView::Finished {
            text: text_at(default_document, key).unwrap(),
        }),
        run(cache, key, target, None, Some(default_document)).0 == (CacheView {
            language: default_language_code(),
            document: Some(default_document),
        }),
{
}

/// The cache stays consistent: if it holds its language's document before a
/// lookup, and the files give what `store` says, it does so afterwards.
pub proof fn cache_stays_consistent(
    cache: CacheView,
    key: Seq<char>,
    target: Seq<char>,
    store: spec_fn(Seq<char>) -> Option<Map<Seq<char>, Seq<char>>>,
)
    requires
        consistent_with(cache, store),
    ensures
        consistent_with(
            run(cache, key, target, store(target), store(default_language_code())).0,
            store,
        ),
{
}

/// A lookup in the language of the system goes on, once that language is
/// found, as a lookup with that language given.
pub proof fn detected_language_is_the_target(key: Seq<char>, language: Seq<char>)
    ensures
        after_detection(started(key, None), language) == started(key, Some(language)),
{
}

} // verus!
