//! The translation store: where the file of a language lies, what a loaded
//! document is, and which text it holds for a key.
//!
//! A translation file is JSON, parsed and queried by `serde_json`. Only a
//! flat document is accepted: an object whose members are all strings. What
//! a parsed value holds is named by the spec functions below; a [`Document`]
//! is a value that was found to be flat, seen as a map from keys to texts.

use crate::languages::{is_locale_file, language_of_file, locale_suffix};
use crate::text::{codes, text_view};
use serde_json::Value;
use std::path::PathBuf;
use vstd::prelude::*;
use vstd::string::*;

verus! {

#[verifier::external_type_specification]
#[verifier::external_body]
pub struct ExJsonValue(serde_json::Value);

#[verifier::external_type_specification]
#[verifier::external_body]
pub struct ExJsonError(serde_json::Error);

#[verifier::external_type_specification]
#[verifier::external_body]
pub struct ExPathBuf(std::path::PathBuf);

/// The value that `serde_json::from_str` gives for `text`, or `None` where
/// it reports an error.
pub uninterp spec fn json_parse(text: Seq<char>) -> Option<serde_json::Value>;

/// The members of a JSON object, by name; empty for every other value.
pub uninterp spec fn json_members(value: serde_json::Value) -> Map<Seq<char>, serde_json::Value>;

/// The characters of a JSON string; `None` for every other value.
pub uninterp spec fn json_string(value: serde_json::Value) -> Option<Seq<char>>;

/// Whether a JSON value is an object.
pub uninterp spec fn json_is_object(value: serde_json::Value) -> bool;

/// The path that `Path::join` gives for `child` under `base`.
pub uninterp spec fn path_join(base: std::path::PathBuf, child: Seq<char>) -> std::path::PathBuf;

/// The name of the directory of translations inside the resources.
pub open spec fn locales_dir_name() -> Seq<char> {
    "locales"@
}

/// The name of the translation file of a language.
pub open spec fn language_file_name(language: Seq<char>) -> Seq<char> {
    language + locale_suffix()
}

/// Whether a JSON value is a flat document: an object all of whose members
/// are strings.
pub open spec fn is_flat(value: Value) -> bool {
    json_is_object(value) && forall|name: Seq<char>|
        json_members(value).dom().contains(name) ==> json_string(
            #[trigger] json_members(value)[name],
        ) is Some
}

/// The texts of a JSON value by key: its members that are strings.
pub open spec fn mapping_of(value: Value) -> Map<Seq<char>, Seq<char>> {
    Map::new(
        |name: Seq<char>|
            json_members(value).dom().contains(name) && json_string(json_members(value)[name])
                is Some,
        |name: Seq<char>| json_string(json_members(value)[name]).unwrap(),
    )
}

/// The document that a file content stands for: the value that it parses
/// to, if it parses and the value is flat. `None` stands for a file that
/// could not be read.
pub open spec fn accepted_json(content: Option<Seq<char>>) -> Option<Value> {
    match content {
        Some(text) => match json_parse(text) {
            Some(value) => if is_flat(value) {
                Some(value)
            } else {
                None
            },
            None => None,
        },
        None => None,
    }
}

/// The text that a mapping holds for `key`.
pub open spec fn text_at(mapping: Map<Seq<char>, Seq<char>>, key: Seq<char>) -> Option<Seq<char>> {
    if mapping.dom().contains(key) {
        Some(mapping[key])
    } else {
        None
    }
}

/// A loaded translation document: a flat JSON object. Its view is the
/// mapping from keys to texts.
#[derive(Debug, PartialEq)]
pub struct Document {
    value: Value,
}

impl Document {
    /// Every document is flat.
    #[verifier::type_invariant]
    closed spec fn flat(self) -> bool {
        is_flat(self.value)
    }

    /// The JSON value that the document is made of.
    pub closed spec fn json(self) -> Value {
        self.value
    }
}

impl View for Document {
    type V = Map<Seq<char>, Seq<char>>;

    open spec fn view(&self) -> Map<Seq<char>, Seq<char>> {
        mapping_of(self.json())
    }
}

/// The JSON value of an optional document.
pub open spec fn json_view(document: Option<Document>) -> Option<Value> {
    match document {
        Some(d) => Some(d.json()),
        None => None,
    }
}

/// The mapping of an optional document.
pub open spec fn mapping_view(document: Option<Document>) -> Option<Map<Seq<char>, Seq<char>>> {
    match document {
        Some(d) => Some(d@),
        None => None,
    }
}

/// Calls `serde_json::from_str` for a `Value`. The outcome is a function of
/// the text alone: `Ok` with the value named by `json_parse`, or an error
/// where `json_parse` is `None`.
#[verifier::external_body]
fn parse_json(text: &str) -> (parsed: Result<Value, serde_json::Error>)
    ensures
        parsed matches Ok(value) ==> json_parse(text@) == Some(value),
        parsed is Err ==> json_parse(text@) is None,
{
    serde_json::from_str::<Value>(text)
}

/// Calls `Value::get` with a string index: the member of that name if the
/// value is an object that has one, `None` otherwise.
#[verifier::external_body]
fn member<'a>(value: &'a Value, name: &str) -> (found: Option<&'a Value>)
    ensures
        json_members(*value).dom().contains(name@) ==> found == Some(
            &json_members(*value)[name@],
        ),
        !json_members(*value).dom().contains(name@) ==> found is None,
{
    value.get(name)
}

/// Calls `Value::as_str`: the string if the value is one, `None` otherwise.
#[verifier::external_body]
fn string_of<'a>(value: &'a Value) -> (text: Option<&'a str>)
    ensures
        text is Some <==> json_string(*value) is Some,
        text matches Some(t) ==> json_string(*value) == Some(t@),
{
    value.as_str()
}

/// Calls `Value::is_object`.
#[verifier::external_body]
fn is_object(value: &Value) -> (object: bool)
    ensures
        object == json_is_object(*value),
{
    value.is_object()
}

/// Hands out the names of the members of a value: for an object, what
/// `serde_json::Map::keys` walks through, which is every name of the map;
/// for any other value, which has no members, nothing.
#[verifier::external_body]
fn member_names(value: &Value) -> (names: Vec<String>)
    ensures
        forall|name: Seq<char>|
            #![trigger json_members(*value).dom().contains(name)]
            #![trigger codes(names@).contains(name)]
            json_members(*value).dom().contains(name) <==> codes(names@).contains(name),
{
    match value {
        Value::Object(map) => map.keys().cloned().collect(),
        _ => Vec::new(),
    }
}

/// Calls `Path::join`.
#[verifier::external_body]
fn join(base: &PathBuf, child: &str) -> (joined: PathBuf)
    ensures
        joined == path_join(*base, child@),
{
    base.join(child)
}

/// The directory of translations: `locales` under the directory of
/// resources, where that directory is known.
pub fn get_locales_dir(resources_dir: Option<PathBuf>) -> (locales_dir: Option<PathBuf>)
    ensures
        locales_dir == match resources_dir {
            Some(dir) => Some(path_join(dir, locales_dir_name())),
            None => None,
        },
{
    match resources_dir {
        Some(dir) => Some(join(&dir, "locales")),
        None => None,
    }
}

/// The name of the file that holds the translations of `language`.
pub fn lang_file_name(language: &str) -> (name: String)
    ensures
        name@ == language_file_name(language@),
{
    let stem: String = language.to_owned();
    stem.concat(".json")
}

/// The path of the file that holds the translations of `language`.
pub fn lang_file_path(locales_dir: &PathBuf, language: &str) -> (path: PathBuf)
    ensures
        path == path_join(*locales_dir, language_file_name(language@)),
{
    let name: String = lang_file_name(language);
    join(locales_dir, name.as_str())
}

/// Whether `value` is a flat document: an object all of whose members are
/// strings.
pub fn is_flat_json(value: &Value) -> (flat: bool)
    ensures
        flat == is_flat(*value),
{
    if !is_object(value) {
        return false;
    }
    let names: Vec<String> = member_names(value);
    let mut i: usize = 0;
    while i < names.len()
        invariant
            i <= names.len(),
            json_is_object(*value),
            forall|name: Seq<char>|
                #![trigger json_members(*value).dom().contains(name)]
                #![trigger codes(names@).contains(name)]
                json_members(*value).dom().contains(name) <==> codes(names@).contains(name),
            forall|j: int|
                0 <= j < i ==> json_string(
                    json_members(*value)[#[trigger] codes(names@)[j]],
                ) is Some,
        decreases names.len() - i,
    {
        proof {
            assert(codes(names@)[i as int] == names@[i as int]@);
            assert(codes(names@).contains(names@[i as int]@));
        }
        let text: Option<&str> = match member(value, names[i].as_str()) {
            Some(found) => string_of(found),
            None => None,
        };
        if text.is_none() {
            return false;
        }
        i += 1;
    }
    proof {
        assert forall|name: Seq<char>| json_members(*value).dom().contains(name) implies json_string(
            #[trigger] json_members(*value)[name],
        ) is Some by {
            assert(codes(names@).contains(name));
            let j = choose|j: int| 0 <= j < codes(names@).len() && codes(names@)[j] == name;
            assert(json_string(json_members(*value)[codes(names@)[j]]) is Some);
        }
    }
    true
}

impl Document {
    /// The document that `value` is, if it is flat.
    pub fn from_json(value: Value) -> (document: Option<Document>)
        ensures
            json_view(document) == (if is_flat(value) {
                Some(value)
            } else {
                None
            }),
    {
        if is_flat_json(&value) {
            Some(Document { value })
        } else {
            None
        }
    }

    /// The text that the document holds for `key`.
    pub fn get(&self, key: &str) -> (text: Option<String>)
        ensures
            text_view(text) == text_at(self@, key@),
    {
        match member(&self.value, key) {
            Some(found) => match string_of(found) {
                Some(t) => Some(t.to_owned()),
                None => None,
            },
            None => None,
        }
    }
}

/// Loads a document from the content of a translation file; `content` is
/// `None` where the file could not be read. A content that does not parse,
/// or that parses to anything but a flat document, gives no document at
/// all.
pub fn load_lang_file(content: Option<&str>) -> (document: Option<Document>)
    ensures
        json_view(document) == accepted_json(
            match content {
                Some(text) => Some(text@),
                None => None,
            },
        ),
{
    match content {
        Some(text) => match parse_json(text) {
            Ok(value) => Document::from_json(value),
            Err(_) => None,
        },
        None => None,
    }
}

/// The text that `document` holds for `key`.
pub fn lookup(document: &Document, key: &str) -> (text: Option<String>)
    ensures
        text_view(text) == text_at(document@, key@),
{
    document.get(key)
}

/// In a flat document every member is a text: the mapping has an entry for
/// each member of the object.
pub proof fn flat_document_maps_every_member(value: Value)
    requires
        is_flat(value),
    ensures
        mapping_of(value).dom() == json_members(value).dom(),
{
    assert(mapping_of(value).dom() =~= json_members(value).dom());
}

/// A language's file is recognised as a translation file, and as that of
/// the same language.
pub proof fn file_name_names_its_language(language: Seq<char>)
    ensures
        is_locale_file(language_file_name(language)),
        language_of_file(language_file_name(language)) == language,
{
    let name = language_file_name(language);
    assert(name.subrange(name.len() - locale_suffix().len(), name.len() as int) =~= locale_suffix());
    assert(name.subrange(0, name.len() - locale_suffix().len()) =~= language);
}

} // verus!
