//! The locale resolver: from the locale string that the system reports and
//! the supported languages to the one language that is used.
//!
//! The steps, in order: the whole locale in lower case; its short code (what
//! stands before the first `_` or `-`); the short code, a `-`, and the short
//! code in upper case; the default language. The third step repeats the
//! short code as the region (`zh` gives `zh-ZH`): it looks up no real region.

use crate::languages::{
    default_language, default_language_code, get_supported_languages, supported_languages,
};
use crate::text::{codes, text_view};
use vstd::prelude::*;
use vstd::string::*;

verus! {

/// The string that `str::to_lowercase` gives for `text`.
pub uninterp spec fn lowercase(text: Seq<char>) -> Seq<char>;

/// The string that `str::to_uppercase` gives for `text`.
pub uninterp spec fn uppercase(text: Seq<char>) -> Seq<char>;

/// The characters that part a locale string.
pub open spec fn is_separator(c: char) -> bool {
    c == '_' || c == '-'
}

/// The position of the first separator of `text` at or after `from`, or the
/// length of `text` if there is none.
pub open spec fn first_separator(text: Seq<char>, from: int) -> int
    decreases text.len() - from,
{
    if from >= text.len() {
        text.len() as int
    } else if is_separator(text[from]) {
        from
    } else {
        first_separator(text, from + 1)
    }
}

/// The short code of a locale: what stands before its first separator.
pub open spec fn short_code_of(locale: Seq<char>) -> Seq<char> {
    locale.take(first_separator(locale, 0))
}

/// A short code with a region: the code, a `-`, and the region.
pub open spec fn with_region(short: Seq<char>, region: Seq<char>) -> Seq<char> {
    short + seq!['-'] + region
}

/// The supported language that a normalised locale selects, if any;
/// `shouted` is the short code of the locale in upper case.
pub open spec fn matched_language(
    locale: Seq<char>,
    shouted: Seq<char>,
    supported: Seq<Seq<char>>,
) -> Option<Seq<char>> {
    let short = short_code_of(locale);
    if supported.contains(locale) {
        Some(locale)
    } else if supported.contains(short) {
        Some(short)
    } else if supported.contains(with_region(short, shouted)) {
        Some(with_region(short, shouted))
    } else {
        None
    }
}

/// The language that is used when the system reports the locale `raw`
/// (`None`: it reports nothing) and `supported` are the supported languages.
pub open spec fn resolved_language(raw: Option<Seq<char>>, supported: Seq<Seq<char>>) -> Seq<char> {
    match raw {
        None => default_language_code(),
        Some(text) => {
            let locale = lowercase(text);
            match matched_language(locale, uppercase(short_code_of(locale)), supported) {
                Some(language) => language,
                None => default_language_code(),
            }
        },
    }
}

/// Calls `str::to_lowercase`.
#[verifier::external_body]
fn to_lower(text: &str) -> (lowered: String)
    ensures
        lowered@ == lowercase(text@),
{
    text.to_lowercase()
}

/// Calls `str::to_uppercase`.
#[verifier::external_body]
fn to_upper(text: &str) -> (raised: String)
    ensures
        raised@ == uppercase(text@),
{
    text.to_uppercase()
}

/// Calls `sys_locale::get_locale`, which asks the operating system for the
/// preferred locale. The answer depends on the machine and its environment,
/// so nothing is claimed of it.
#[verifier::external_body]
fn system_locale() -> (raw: Option<String>) {
    sys_locale::get_locale()
}

/// Whether `code` is among `supported`.
pub fn is_supported(supported: &Vec<String>, code: &String) -> (found: bool)
    ensures
        found == codes(supported@).contains(code@),
{
    let mut i: usize = 0;
    while i < supported.len()
        invariant
            i <= supported.len(),
            forall|j: int| 0 <= j < i ==> codes(supported@)[j] != code@,
        decreases supported.len() - i,
    {
        if supported[i] == *code {
            assert(codes(supported@)[i as int] == code@);
            return true;
        }
        i += 1;
    }
    false
}

/// The short code of `locale`: what stands before its first `_` or `-`, or
/// all of it if it has neither.
pub fn short_code(locale: &str) -> (short: String)
    ensures
        short@ == short_code_of(locale@),
{
    let n: usize = locale.unicode_len();
    let mut i: usize = 0;
    while i < n
        invariant
            i <= n,
            n == locale@.len(),
            first_separator(locale@, 0) == first_separator(locale@, i as int),
        ensures
            i <= n,
            i == first_separator(locale@, 0),
        decreases n - i,
    {
        let c: char = locale.get_char(i);
        if c == '_' || c == '-' {
            break ;
        }
        i += 1;
    }
    locale.substring_char(0, i).to_owned()
}

/// The supported language that the normalised `locale` selects: the locale
/// itself, else its short code, else the short code with `shouted` as its
/// region; `None` if none of the three is supported.
pub fn match_language(locale: &str, shouted: &str, supported: &Vec<String>) -> (language: Option<
    String,
>)
    ensures
        language is Some <==> matched_language(
            locale@,
            shouted@,
            codes(supported@),
        ) is Some,
        language matches Some(l) ==> matched_language(locale@, shouted@, codes(supported@))
            == Some(l@),
{
    let whole: String = locale.to_owned();
    if is_supported(supported, &whole) {
        return Some(whole);
    }
    let short: String = short_code(locale);
    if is_supported(supported, &short) {
        return Some(short);
    }
    proof {
        reveal_strlit("-");
        assert("-"@ =~= seq!['-']);
    }
    let regional: String = short.concat("-").concat(shouted);
    if is_supported(supported, &regional) {
        return Some(regional);
    }
    None
}

/// The language that is used for the locale `raw` among `supported`; the
/// default language where `raw` is `None` or selects nothing.
pub fn resolve_language(raw: Option<&str>, supported: &Vec<String>) -> (language: String)
    ensures
        language@ == resolved_language(
            match raw {
                Some(text) => Some(text@),
                None => None,
            },
            codes(supported@),
        ),
{
    match raw {
        None => default_language(),
        Some(text) => {
            let locale: String = to_lower(text);
            let short: String = short_code(locale.as_str());
            let shouted: String = to_upper(short.as_str());
            match match_language(locale.as_str(), shouted.as_str(), supported) {
                Some(language) => language,
                None => default_language(),
            }
        },
    }
}

/// The language of the system, given the names of the files in the directory
/// of translations. The system's locale is asked for here; whatever it is,
/// the result is what `resolved_language` gives for it, and so either the
/// default language or a supported one.
pub fn get_system_language(file_names: &Vec<String>) -> (language: String)
    ensures
        exists|raw: Option<Seq<char>>|
            language@ == #[trigger] resolved_language(
                raw,
                supported_languages(codes(file_names@)),
            ),
        language@ == default_language_code() || supported_languages(
            codes(file_names@),
        ).contains(language@),
{
    let supported: Vec<String> = get_supported_languages(file_names);
    let raw: Option<String> = system_locale();
    let ghost seen: Option<Seq<char>> = text_view(raw);
    let language = match &raw {
        Some(text) => resolve_language(Some(text.as_str()), &supported),
        None => resolve_language(None, &supported),
    };
    proof {
        assert(language@ == resolved_language(seen, supported_languages(codes(file_names@))));
        resolved_language_is_default_or_supported(seen, supported_languages(codes(file_names@)));
    }
    language
}

/// The language of the system, as the interface reports it.
pub fn get_system_locale(file_names: &Vec<String>) -> (language: String)
    ensures
        exists|raw: Option<Seq<char>>|
            language@ == #[trigger] resolved_language(
                raw,
                supported_languages(codes(file_names@)),
            ),
        language@ == default_language_code() || supported_languages(
            codes(file_names@),
        ).contains(language@),
{
    get_system_language(file_names)
}

/// The resolver never invents a language: it gives the default language or
/// one of the supported ones.
pub proof fn resolved_language_is_default_or_supported(
    raw: Option<Seq<char>>,
    supported: Seq<Seq<char>>,
)
    ensures
        resolved_language(raw, supported) == default_language_code() || supported.contains(
            resolved_language(raw, supported),
        ),
{
}

/// The short code of a locale is its first segment: it starts the locale,
/// holds no separator, and ends at a separator or at the end of the locale.
pub proof fn short_code_is_first_segment(locale: Seq<char>)
    ensures
        short_code_of(locale).len() <= locale.len(),
        short_code_of(locale) == locale.take(short_code_of(locale).len() as int),
        forall|i: int| 0 <= i < short_code_of(locale).len() ==> !is_separator(locale[i]),
        short_code_of(locale).len() < locale.len() ==> is_separator(
            locale[short_code_of(locale).len() as int],
        ),
{
    first_separator_is_first(locale, 0);
}

/// From `from` on, no separator stands before `first_separator`, and one
/// stands there unless it is the end of the text.
proof fn first_separator_is_first(text: Seq<char>, from: int)
    requires
        0 <= from <= text.len(),
    ensures
        from <= first_separator(text, from) <= text.len(),
        forall|i: int| from <= i < first_separator(text, from) ==> !is_separator(text[i]),
        first_separator(text, from) < text.len() ==> is_separator(
            text[first_separator(text, from)],
        ),
    decreases text.len() - from,
{
    if from < text.len() && !is_separator(text[from]) {
        first_separator_is_first(text, from + 1);
    }
}

} // verus!
