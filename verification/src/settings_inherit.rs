use vstd::prelude::*;

use crate::json::{
    Json, JsonValue, jsons_of, lemma_jsons_of_index, lemma_merge_objects_lookup, lookup, merge,
    merge_json_value_into, merged_lookup, unique_keys,
};

verus! {

/// The characters that Unicode gives the White_Space property; `str::trim`
/// removes exactly these.
pub open spec fn is_white_space(c: char) -> bool {
    ||| '\u{9}' <= c <= '\u{d}'
    ||| c == ' '
    ||| c == '\u{85}'
    ||| c == '\u{a0}'
    ||| c == '\u{1680}'
    ||| '\u{2000}' <= c <= '\u{200a}'
    ||| c == '\u{2028}'
    ||| c == '\u{2029}'
    ||| c == '\u{202f}'
    ||| c == '\u{205f}'
    ||| c == '\u{3000}'
}

/// The text is empty once trimmed: every character is white space.
pub open spec fn is_blank_text(s: Seq<char>) -> bool {
    forall|i: int| 0 <= i < s.len() ==> is_white_space(#[trigger] s[i])
}

fn white_space(c: char) -> (r: bool)
    ensures
        r == is_white_space(c),
{
    ('\u{9}' <= c && c <= '\u{d}') || c == ' ' || c == '\u{85}' || c == '\u{a0}' || c == '\u{1680}'
        || ('\u{2000}' <= c && c <= '\u{200a}') || c == '\u{2028}' || c == '\u{2029}' || c
        == '\u{202f}' || c == '\u{205f}' || c == '\u{3000}'
}

/// Whether `s.trim()` is empty.
pub fn is_blank(s: &str) -> (r: bool)
    ensures
        r == is_blank_text(s@),
{
    broadcast use vstd::string::group_string_axioms;

    for c in it: s.chars()
        invariant
            it.seq() == s@,
            forall|j: int| 0 <= j < it.index() ==> is_white_space(#[trigger] s@[j]),
    {
        if !white_space(c) {
            return false;
        }
    }
    true
}


/// Why an official and a custom configuration could not be combined.
#[derive(Debug, Clone, Copy, PartialEq, Eq)]
pub enum InheritError {
    /// The official keymap is not a JSON array.
    OfficialKeymapNotArray,
    /// The custom keymap is not a JSON array.
    CustomKeymapNotArray,
}

pub open spec fn inherit_error_text(e: InheritError) -> Seq<char> {
    match e {
        InheritError::OfficialKeymapNotArray => "Official keymap must be an array"@,
        InheritError::CustomKeymapNotArray => "Custom keymap must be an array"@,
    }
}

impl InheritError {
    /// The error's message.
    pub fn message(&self) -> (r: String)
        ensures
            r@ == inherit_error_text(*self),
    {
        match self {
            InheritError::OfficialKeymapNotArray => "Official keymap must be an array".to_owned(),
            InheritError::CustomKeymapNotArray => "Custom keymap must be an array".to_owned(),
        }
    }
}

/// Combines an official and a custom configuration without parsing them,
/// when one of them is blank: a blank official text gives the custom text, a
/// blank custom text gives the official one. `None` means both must be parsed
/// and merged.
pub fn inherit_config_text(base: &str, own: &str) -> (r: Option<String>)
    ensures
        is_blank_text(base@) ==> r is Some && r->0@ == own@,
        !is_blank_text(base@) && is_blank_text(own@) ==> r is Some && r->0@ == base@,
        !is_blank_text(base@) && !is_blank_text(own@) ==> r is None,
{
    if is_blank(base) {
        return Some(own.to_owned());
    }
    if is_blank(own) {
        return Some(base.to_owned());
    }
    None
}

/// The inherited configuration as a value: a keymap is the official bindings
/// followed by the custom ones; any other file is the official value with
/// the custom value merged into it.
pub open spec fn inherited(base: Json, own: Json, keymap: bool) -> Result<Json, InheritError> {
    if keymap {
        match base {
            Json::Array(b) => match own {
                Json::Array(o) => Ok(Json::Array(b + o)),
                _ => Err(InheritError::CustomKeymapNotArray),
            },
            _ => Err(InheritError::OfficialKeymapNotArray),
        }
    } else {
        Ok(merge(own, base))
    }
}

/// A keymap keeps every official binding and adds the custom ones after
/// them: the inherited array holds the official array's elements, in order,
/// followed by the custom array's elements, in order, whatever either holds
/// (an empty custom keymap leaves the official one as it is).
pub proof fn lemma_keymap_keeps_official_bindings_first(official: Seq<Json>, custom: Seq<Json>)
    ensures
        inherited(Json::Array(official), Json::Array(custom), true) matches Ok(Json::Array(m))
            && m.len() == official.len() + custom.len()
            && (forall|i: int| 0 <= i < official.len() ==> m[i] == official[i])
            && (forall|j: int| 0 <= j < custom.len() ==> m[official.len() + j] == custom[j]),
{
}

/// A keymap side that is not an array is refused, the official side first.
pub proof fn lemma_keymap_sides_must_be_arrays(official: Json, custom: Json)
    ensures
        !(official is Array) ==> inherited(official, custom, true) == Err::<Json, InheritError>(
            InheritError::OfficialKeymapNotArray,
        ),
        official is Array && !(custom is Array) ==> inherited(official, custom, true) == Err::<
            Json,
            InheritError,
        >(InheritError::CustomKeymapNotArray),
{
}

/// Combines the parsed official (`base`) and custom (`own`) configurations.
pub fn inherit_values(base: JsonValue, own: JsonValue, keymap: bool) -> (r: Result<
    JsonValue,
    InheritError,
>)
    ensures
        match (r, inherited(base@, own@, keymap)) {
            (Ok(v), Ok(m)) => v@ == m,
            (Err(e), Err(f)) => e == f,
            _ => false,
        },
{
    if keymap {
        match base {
            JsonValue::Array(mut b) => match own {
                JsonValue::Array(mut o) => {
                    let ghost b0 = b@;
                    let ghost o0 = o@;
                    b.append(&mut o);
                    proof {
                        lemma_jsons_of_index(b0);
                        lemma_jsons_of_index(o0);
                        lemma_jsons_of_index(b@);
                        assert(jsons_of(b@) =~= jsons_of(b0) + jsons_of(o0));
                    }
                    Ok(JsonValue::Array(b))
                },
                _ => Err(InheritError::CustomKeymapNotArray),
            },
            _ => Err(InheritError::OfficialKeymapNotArray),
        }
    } else {
        let mut merged = base;
        merge_json_value_into(own, &mut merged);
        Ok(merged)
    }
}

/// serde's JSON value, carried through opaquely while it is converted.
#[verifier::external_type_specification]
#[verifier::external_body]
pub struct ExSerdeJsonValue(serde_json::Value);

/// The error `serde_json_lenient` reports for text it does not parse.
#[verifier::external_type_specification]
#[verifier::external_body]
pub struct ExJsoncError(serde_json_lenient::Error);

/// The error `serde_json` reports for a value it does not accept.
#[verifier::external_type_specification]
#[verifier::external_body]
pub struct ExJsonError(serde_json::Error);

/// Whether `serde_json_lenient` parses the text as a JSON value (comments and
/// trailing commas allowed).
pub uninterp spec fn jsonc_parses(text: Seq<char>) -> bool;

/// The value `serde_json_lenient` parses from the text.
pub uninterp spec fn jsonc_value(text: Seq<char>) -> Json;

/// Whether `serde_json` accepts every number text of the value.
pub uninterp spec fn json_printable(v: Json) -> bool;

/// The compact text `serde_json::to_string` prints for the value.
pub uninterp spec fn json_text(v: Json) -> Seq<char>;

/// An object value names each key once (a value that is not an object has
/// nothing to check).
pub open spec fn keys_unique(v: Json) -> bool {
    v is Object ==> unique_keys(v->Object_0)
}

/// Converts serde's value into the library's, variant for variant: a number
/// keeps the text serde prints for it, an object its entries in order.
/// Nothing is claimed here; `parse_jsonc` names the outcome.
#[verifier::external_body]
fn from_serde(value: serde_json::Value) -> JsonValue {
    match value {
        serde_json::Value::Null => JsonValue::Null,
        serde_json::Value::Bool(b) => JsonValue::Bool(b),
        serde_json::Value::Number(n) => JsonValue::Number(n.to_string()),
        serde_json::Value::String(s) => JsonValue::Str(s),
        serde_json::Value::Array(items) => JsonValue::Array(items.into_iter().map(from_serde).collect()),
        serde_json::Value::Object(entries) => {
            JsonValue::Object(entries.into_iter().map(|(k, v)| (k, from_serde(v))).collect())
        },
    }
}

/// Converts the library's value into serde's, variant for variant; the
/// error of `serde_json::Number::from_str` when serde does not accept a
/// number text. Nothing is claimed here; `print_json` names the outcome.
#[verifier::external_body]
fn to_serde(value: JsonValue) -> Result<serde_json::Value, serde_json::Error> {
    Ok(match value {
        JsonValue::Null => serde_json::Value::Null,
        JsonValue::Bool(b) => serde_json::Value::Bool(b),
        JsonValue::Number(n) => serde_json::Value::Number(n.parse()?),
        JsonValue::Str(s) => serde_json::Value::String(s),
        JsonValue::Array(items) => serde_json::Value::Array(items.into_iter().map(to_serde).collect::<Result<_, _>>()?),
        JsonValue::Object(entries) => serde_json::Value::Object(
            entries.into_iter().map(|(k, v)| Ok((k, to_serde(v)?))).collect::<Result<_, _>>()?,
        ),
    })
}

/// Calls `serde_json_lenient::from_str::<serde_json::Value>` and converts
/// the value it parses. The contract names whether it parses `jsonc_parses`
/// and the value `jsonc_value`, both of the text alone; an object that it
/// parses names each key once, since serde's map keeps one entry per key
/// (a repeated key replaces the earlier value in place).
#[verifier::external_body]
fn parse_jsonc(text: &str) -> (r: Result<JsonValue, serde_json_lenient::Error>)
    ensures
        r is Ok == jsonc_parses(text@),
        r matches Ok(v) ==> v@ == jsonc_value(text@),
        r matches Ok(v) ==> keys_unique(v@),
{
    serde_json_lenient::from_str::<serde_json::Value>(text).map(from_serde)
}

/// The message of a `serde_json_lenient` parse error, as its `Display`
/// writes it (what went wrong, then the line and column). The text is not
/// stated: it is serde's own wording.
#[verifier::external_body]
fn describe_jsonc_error(error: &serde_json_lenient::Error) -> String {
    format!("{error}")
}

/// Converts the value to serde's and calls `serde_json::to_string`. The
/// contract names whether that succeeds `json_printable` and the text
/// `json_text`, both of the value's model alone.
#[verifier::external_body]
fn print_json(value: JsonValue) -> (r: Result<String, serde_json::Error>)
    ensures
        r is Ok == json_printable(value@),
        r matches Ok(s) ==> s@ == json_text(value@),
{
    serde_json::to_string(&to_serde(value)?)
}

/// The message of a `serde_json` error, as its `Display` writes it. The text
/// is not stated: it is serde's own wording.
#[verifier::external_body]
fn describe_json_error(error: &serde_json::Error) -> String {
    format!("{error}")
}

/// Why an official and a custom configuration text could not be combined.
/// A parse or print failure carries the JSON library's message.
#[derive(Debug, Clone, PartialEq, Eq)]
pub enum InheritFailure {
    /// The official text is not JSON (with comments).
    OfficialInvalid(String),
    /// The custom text is not JSON (with comments).
    CustomInvalid(String),
    /// The parsed values could not be combined.
    Inherit(InheritError),
    /// The combined value could not be printed.
    Unprintable(String),
}

/// Which of the failures happened, without its message.
#[derive(Debug, Clone, Copy, PartialEq, Eq)]
pub enum InheritFailureKind {
    OfficialInvalid,
    CustomInvalid,
    Inherit(InheritError),
    Unprintable,
}

pub open spec fn failure_kind(f: InheritFailure) -> InheritFailureKind {
    match f {
        InheritFailure::OfficialInvalid(_) => InheritFailureKind::OfficialInvalid,
        InheritFailure::CustomInvalid(_) => InheritFailureKind::CustomInvalid,
        InheritFailure::Inherit(e) => InheritFailureKind::Inherit(e),
        InheritFailure::Unprintable(_) => InheritFailureKind::Unprintable,
    }
}

pub open spec fn inherit_failure_text(f: InheritFailure) -> Seq<char> {
    match f {
        InheritFailure::OfficialInvalid(m) => m@,
        InheritFailure::CustomInvalid(m) => m@,
        InheritFailure::Inherit(e) => inherit_error_text(e),
        InheritFailure::Unprintable(m) => m@,
    }
}

impl InheritFailure {
    /// Which failure this is.
    pub fn kind(&self) -> (r: InheritFailureKind)
        ensures
            r == failure_kind(*self),
    {
        match self {
            InheritFailure::OfficialInvalid(_) => InheritFailureKind::OfficialInvalid,
            InheritFailure::CustomInvalid(_) => InheritFailureKind::CustomInvalid,
            InheritFailure::Inherit(e) => InheritFailureKind::Inherit(*e),
            InheritFailure::Unprintable(_) => InheritFailureKind::Unprintable,
        }
    }

    /// The failure's message: the JSON library's own for a parse or print
    /// failure.
    pub fn message(&self) -> (r: String)
        ensures
            r@ == inherit_failure_text(*self),
    {
        match self {
            InheritFailure::OfficialInvalid(m) => m.clone(),
            InheritFailure::CustomInvalid(m) => m.clone(),
            InheritFailure::Inherit(e) => e.message(),
            InheritFailure::Unprintable(m) => m.clone(),
        }
    }
}

/// What inheriting two texts that are both non-blank gives: the official
/// text is parsed first, then the custom one; the inherited value is
/// printed compactly.
pub open spec fn inherit_outcome(base: Seq<char>, own: Seq<char>, keymap: bool) -> Result<
    Seq<char>,
    InheritFailureKind,
> {
    if !jsonc_parses(base) {
        Err(InheritFailureKind::OfficialInvalid)
    } else if !jsonc_parses(own) {
        Err(InheritFailureKind::CustomInvalid)
    } else {
        match inherited(jsonc_value(base), jsonc_value(own), keymap) {
            Err(e) => Err(InheritFailureKind::Inherit(e)),
            Ok(m) => if json_printable(m) {
                Ok(json_text(m))
            } else {
                Err(InheritFailureKind::Unprintable)
            },
        }
    }
}

/// The text an inheritance gives when it succeeds; `None` when it fails.
pub open spec fn inherited_text(base: Seq<char>, own: Seq<char>, keymap: bool) -> Option<
    Seq<char>,
> {
    if is_blank_text(base) {
        Some(own)
    } else if is_blank_text(own) {
        Some(base)
    } else {
        match inherit_outcome(base, own, keymap) {
            Ok(t) => Some(t),
            Err(_) => None,
        }
    }
}

/// The official configuration text (`base`) with the custom one (`own`)
/// layered over it: a blank side gives the other side's text as it stands;
/// otherwise settings merge with custom values taking precedence, and a
/// keymap lists the official bindings first and the custom ones last.
/// Parsed custom objects name each key once, so the precedence law
/// `lemma_inherited_setting_lookup` applies to them.
pub fn inherit_config(base: &str, own: &str, keymap: bool) -> (r: Result<String, InheritFailure>)
    ensures
        is_blank_text(base@) ==> r is Ok && r->Ok_0@ == own@,
        !is_blank_text(base@) && is_blank_text(own@) ==> r is Ok && r->Ok_0@ == base@,
        !is_blank_text(base@) && !is_blank_text(own@) ==> match (r, inherit_outcome(base@, own@, keymap)) {
            (Ok(s), Ok(t)) => s@ == t,
            (Err(e), Err(f)) => failure_kind(e) == f,
            _ => false,
        },
        match (r, inherited_text(base@, own@, keymap)) {
            (Ok(s), Some(t)) => s@ == t,
            (Err(_), None) => true,
            _ => false,
        },
        !is_blank_text(base@) && !is_blank_text(own@) && jsonc_parses(base@) && jsonc_parses(own@)
            ==> keys_unique(jsonc_value(own@)),
{
    if let Some(text) = inherit_config_text(base, own) {
        return Ok(text);
    }
    let base_value = match parse_jsonc(base) {
        Ok(v) => v,
        Err(e) => return Err(InheritFailure::OfficialInvalid(describe_jsonc_error(&e))),
    };
    let own_value = match parse_jsonc(own) {
        Ok(v) => v,
        Err(e) => return Err(InheritFailure::CustomInvalid(describe_jsonc_error(&e))),
    };
    let value = match inherit_values(base_value, own_value, keymap) {
        Ok(v) => v,
        Err(e) => return Err(InheritFailure::Inherit(e)),
    };
    match print_json(value) {
        Ok(text) => Ok(text),
        Err(e) => Err(InheritFailure::Unprintable(describe_json_error(&e))),
    }
}

/// Inherited settings keep every key of either side: where the custom object
/// has a key, its value takes precedence (merged into the official value, so
/// nested objects merge too); a key only the official object has keeps the
/// official value.
pub proof fn lemma_inherited_setting_lookup(base: Seq<char>, own: Seq<char>, k: Seq<char>)
    requires
        jsonc_value(base) is Object,
        jsonc_value(own) is Object,
        keys_unique(jsonc_value(own)),
    ensures
        inherited(jsonc_value(base), jsonc_value(own), false) matches Ok(Json::Object(m))
            && lookup(m, k) == merged_lookup(
            lookup(jsonc_value(own)->Object_0, k),
            lookup(jsonc_value(base)->Object_0, k),
        ),
{
    lemma_merge_objects_lookup(jsonc_value(own)->Object_0, jsonc_value(base)->Object_0, k);
}

/// The text handed on when inheritance fails, so that the usual parser
/// reports the error and keeps its last good settings: the custom text when
/// it is not blank and does not parse, the official text otherwise.
pub open spec fn fallback_text(base: Seq<char>, own: Seq<char>) -> Seq<char> {
    if !jsonc_parses(own) && !is_blank_text(own) {
        own
    } else {
        base
    }
}

/// The text handed on when inheritance fails (see `fallback_text`).
pub fn fallback_config(base: &str, own: &str) -> (r: String)
    ensures
        r@ == fallback_text(base@, own@),
{
    if parse_jsonc(own).is_err() && !is_blank(own) {
        own.to_owned()
    } else {
        base.to_owned()
    }
}

} // verus!
