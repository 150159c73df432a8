//! Language codes: the default language and the set of supported languages,
//! derived from the names of the translation files that are present.

use crate::text::{codes, ends_with};
use vstd::prelude::*;
use vstd::string::*;

verus! {

/// The language used when nothing better can be determined.
pub open spec fn default_language_code() -> Seq<char> {
    "zh-CN"@
}

/// The extension that marks a file as a translation file.
pub open spec fn locale_suffix() -> Seq<char> {
    ".json"@
}

/// Whether `name` is the name of a translation file.
pub open spec fn is_locale_file(name: Seq<char>) -> bool {
    locale_suffix().is_suffix_of(name)
}

/// The language code that the translation file `name` stands for.
pub open spec fn language_of_file(name: Seq<char>) -> Seq<char>
    recommends
        is_locale_file(name),
{
    name.subrange(0, name.len() - locale_suffix().len())
}

/// The language codes of the translation files among `names`, in order.
pub open spec fn languages_in(names: Seq<Seq<char>>) -> Seq<Seq<char>>
    decreases names.len(),
{
    if names.len() == 0 {
        Seq::empty()
    } else if is_locale_file(names.last()) {
        languages_in(names.drop_last()).push(language_of_file(names.last()))
    } else {
        languages_in(names.drop_last())
    }
}

/// The supported languages for a directory that holds the files `names`:
/// one per translation file, or the default language alone if there is none.
pub open spec fn supported_languages(names: Seq<Seq<char>>) -> Seq<Seq<char>> {
    if languages_in(names).len() == 0 {
        seq![default_language_code()]
    } else {
        languages_in(names)
    }
}

/// The default language code.
pub fn default_language() -> (code: String)
    ensures
        code@ == default_language_code(),
{
    "zh-CN".to_owned()
}

/// The language code of `name` if it names a translation file.
pub fn language_of(name: &str) -> (code: Option<String>)
    ensures
        code is Some <==> is_locale_file(name@),
        code matches Some(c) ==> c@ == language_of_file(name@),
{
    let suffix: &str = ".json";
    if ends_with(name, suffix) {
        let stem: usize = name.unicode_len() - suffix.unicode_len();
        Some(name.substring_char(0, stem).to_owned())
    } else {
        None
    }
}

/// The supported languages, given the names of the files in the directory
/// of translations (an unreadable or missing directory has no files).
pub fn get_supported_languages(file_names: &Vec<String>) -> (languages: Vec<String>)
    ensures
        codes(languages@) == supported_languages(codes(file_names@)),
        languages@.len() > 0,
        languages_in(codes(file_names@)).len() == 0 ==> codes(languages@) == seq![
            default_language_code(),
        ],
{
    let mut languages: Vec<String> = Vec::new();
    let mut i: usize = 0;
    while i < file_names.len()
        invariant
            i <= file_names.len(),
            codes(languages@) == languages_in(codes(file_names@).take(i as int)),
        decreases file_names.len() - i,
    {
        let ghost before = codes(languages@);
        let ghost names = codes(file_names@);
        proof {
            assert(names.take(i + 1).drop_last() =~= names.take(i as int));
            assert(names.take(i + 1).last() == file_names@[i as int]@);
        }
        match language_of(file_names[i].as_str()) {
            Some(code) => {
                languages.push(code);
                assert(codes(languages@) =~= before.push(code@));
            },
            None => {},
        }
        i += 1;
    }
    proof {
        assert(codes(file_names@).take(i as int) =~= codes(file_names@));
    }
    if languages.len() == 0 {
        languages.push(default_language());
        assert(codes(languages@) =~= seq![default_language_code()]);
    }
    languages
}

/// The supported languages, as the interface reports them.
pub fn get_available_languages(file_names: &Vec<String>) -> (languages: Vec<String>)
    ensures
        codes(languages@) == supported_languages(codes(file_names@)),
        languages@.len() > 0,
        languages_in(codes(file_names@)).len() == 0 ==> codes(languages@) == seq![
            default_language_code(),
        ],
{
    get_supported_languages(file_names)
}

/// The supported languages are never empty, and where no translation file
/// is found they are the default language alone.
pub proof fn supported_languages_are_never_empty(names: Seq<Seq<char>>)
    ensures
        supported_languages(names).len() > 0,
        languages_in(names).len() == 0 ==> supported_languages(names) == seq![
            default_language_code(),
        ] && supported_languages(names).contains(default_language_code()),
{
    if languages_in(names).len() == 0 {
        assert(supported_languages(names)[0] == default_language_code());
    }
}

/// Every supported language other than the stand-in default comes from a
/// translation file, and every translation file gives one.
pub proof fn languages_come_from_files(names: Seq<Seq<char>>, code: Seq<char>)
    ensures
        languages_in(names).contains(code) <==> exists|i: int|
            0 <= i < names.len() && is_locale_file(#[trigger] names[i]) && language_of_file(
                names[i],
            ) == code,
    decreases names.len(),
{
    if names.len() > 0 {
        let rest = names.drop_last();
        languages_come_from_files(rest, code);
        let found = languages_in(rest);
        if languages_in(names).contains(code) {
            if is_locale_file(names.last()) && language_of_file(names.last()) == code {
                assert(names[names.len() - 1] == names.last());
            } else {
                if is_locale_file(names.last()) {
                    let k = choose|k: int|
                        0 <= k < languages_in(names).len() && languages_in(names)[k] == code;
                    assert(k < found.len());
                    assert(found[k] == code);
                }
                assert(found.contains(code));
                let i = choose|i: int|
                    0 <= i < rest.len() && is_locale_file(#[trigger] rest[i]) && language_of_file(
                        rest[i],
                    ) == code;
                assert(names[i] == rest[i]);
            }
        }
        if exists|i: int|
            0 <= i < names.len() && is_locale_file(#[trigger] names[i]) && language_of_file(
                names[i],
            ) == code {
            let i = choose|i: int|
                0 <= i < names.len() && is_locale_file(#[trigger] names[i]) && language_of_file(
                    names[i],
                ) == code;
            if i == names.len() - 1 {
                assert(languages_in(names).last() == code);
            } else {
                assert(rest[i] == names[i]);
                assert(found.contains(code));
                let k = choose|k: int| 0 <= k < found.len() && found[k] == code;
                if is_locale_file(names.last()) {
                    assert(languages_in(names)[k] == code);
                }
            }
        }
    }
}

} // verus!
