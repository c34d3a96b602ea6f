//! JSON values as the library sees them.
//!
//! Settings, browser replies and script literals are JSON, which `serde_json` reads and writes.
//! The items at the top of this file say what its functions do; everything below them is proved
//! from that.

use serde_json::Value;
use vstd::prelude::*;

verus! {

/// What a JSON value holds.
pub enum Json {
    Null,
    Flag(bool),
    /// A number, by the text that it is displayed as.
    Number(Seq<char>),
    Text(Seq<char>),
    List(Seq<Json>),
    Object(Map<Seq<char>, Json>),
}

/// `serde_json::Value`, carried as an opaque value.
#[verifier::external_type_specification]
#[verifier::external_body]
pub struct ExternalValue(serde_json::Value);

/// `serde_json::Map`, carried as an opaque collection.
#[verifier::external_type_specification]
#[verifier::external_body]
#[verifier::reject_recursive_types(K)]
#[verifier::reject_recursive_types(V)]
pub struct ExternalMap<K, V>(serde_json::Map<K, V>);

/// What a `serde_json::Value` holds.
pub uninterp spec fn json(value: serde_json::Value) -> Json;

/// What a `serde_json::Map` holds.
pub uninterp spec fn entries(map: serde_json::Map<String, serde_json::Value>) -> Map<
    Seq<char>,
    Json,
>;

/// What `serde_json::from_str` makes of a text: the value, or the message of its error.
pub uninterp spec fn parsed_json(source: Seq<char>) -> Result<Json, Seq<char>>;

/// The text that a JSON value is displayed as.
pub uninterp spec fn json_display(value: Json) -> Seq<char>;

/// The text of a number, given by its own text, once it is held as a 64-bit floating point number.
pub uninterp spec fn float_text(number: Seq<char>) -> Seq<char>;

/// The bytes that `serde_json::to_vec_pretty` writes for an object.
pub uninterp spec fn pretty_json(object: Map<Seq<char>, Json>) -> Seq<u8>;

/// `serde_json::from_str` reads one JSON value, or says what is wrong with the text. Both depend
/// on the text alone.
#[verifier::external_body]
pub(crate) fn parse_json(source: &str) -> (parsed: Result<Value, String>)
    ensures
        match parsed {
            Ok(value) => parsed_json(source@) == Ok::<Json, Seq<char>>(json(value)),
            Err(error) => parsed_json(source@) == Err::<Json, Seq<char>>(error@),
        },
{
    serde_json::from_str::<Value>(source).map_err(|error| error.to_string())
}

/// `serde_json::Value::as_bool` gives the flag of a boolean and nothing for another value.
pub assume_specification[ serde_json::Value::as_bool ](value: &serde_json::Value) -> (flag: Option<
    bool,
>)
    ensures
        flag == (match json(*value) {
            Json::Flag(flag) => Some(flag),
            _ => None,
        }),
;

/// `serde_json::Value::as_str` gives the characters of a string and nothing for another value.
pub assume_specification[ serde_json::Value::as_str ](value: &serde_json::Value) -> (characters:
    Option<&str>)
    ensures
        match characters {
            Some(characters) => json(*value) == Json::Text(characters@),
            None => json(*value) !is Text,
        },
;

/// `serde_json::Value::as_u64` gives a number that is written with digits alone; such a number
/// always fits.
pub assume_specification[ serde_json::Value::as_u64 ](value: &serde_json::Value) -> (number: Option<
    u64,
>)
    ensures
        match number {
            Some(number) => json(*value) == Json::Number(crate::text::decimal(number as nat)),
            None => forall|whole: u64|
                json(*value) != Json::Number(#[trigger] crate::text::decimal(whole as nat)),
        },
;

/// `serde_json::Value::is_number` tells whether the value is a number.
pub assume_specification[ serde_json::Value::is_number ](value: &serde_json::Value) -> (number:
    bool)
    ensures
        number == (json(*value) is Number),
;

/// `serde_json::Value::as_object` gives the map of an object and nothing for another value.
pub assume_specification[ serde_json::Value::as_object ](value: &serde_json::Value) -> (object:
    Option<&serde_json::Map<String, serde_json::Value>>)
    ensures
        match object {
            Some(object) => json(*value) == Json::Object(entries(*object)),
            None => json(*value) !is Object,
        },
;

/// `serde_json::Value::as_array` gives the elements of an array and nothing for another value.
pub assume_specification[ serde_json::Value::as_array ](value: &serde_json::Value) -> (list: Option<
    &Vec<serde_json::Value>,
>)
    ensures
        match list {
            Some(list) => json(*value) == Json::List(
                Seq::new(list@.len(), |i: int| json(list@[i])),
            ),
            None => json(*value) !is List,
        },
;

/// `serde_json::Value::get` with a string finds the value of a key of an object, and nothing in
/// another value.
#[verifier::external_body]
pub(crate) fn field<'a>(value: &'a Value, key: &str) -> (found: Option<&'a Value>)
    ensures
        match found {
            Some(found) => json(*value) matches Json::Object(object) && object.contains_key(key@)
                && json(*found) == object[key@],
            None => !(json(*value) matches Json::Object(object) && object.contains_key(key@)),
        },
{
    value.get(key)
}

/// Cloning a `serde_json::Value` keeps what it holds.
#[verifier::external_body]
pub(crate) fn copy_value(value: &Value) -> (copy: Value)
    ensures
        json(copy) == json(*value),
{
    value.clone()
}

/// The `Display` impl of `serde_json::Value` writes a text that depends on what the value holds
/// alone; for a number it is the text that the number is known by.
#[verifier::external_body]
pub(crate) fn display_value(value: &Value) -> (shown: String)
    ensures
        shown@ == json_display(json(*value)),
        json(*value) matches Json::Number(number) ==> shown@ == number,
{
    value.to_string()
}

/// A number and the text of its floating point form: one with a decimal point has that form
/// already, and a whole number that fits into 32 bits gets a point and a zero.
pub open spec fn floats_to(number: Seq<char>, float: Seq<char>) -> bool {
    &&& number.contains('.') ==> float == number
    &&& forall|whole: u32|
        number == #[trigger] crate::text::decimal(whole as nat) ==> float == number + seq!['.', '0']
}

/// `serde_json::Value::as_f64` reads a number as a 64-bit floating point number, and nothing from
/// another value; `serde_json::Value::from` makes a JSON number of it again. The text of that
/// number depends on the text of the first alone.
#[verifier::external_body]
pub(crate) fn float_value(value: &Value) -> (float: Option<Value>)
    ensures
        match float {
            Some(float) => json(*value) matches Json::Number(number) && json(float) == Json::Number(
                float_text(number),
            ) && floats_to(number, float_text(number)),
            None => json(*value) !is Number,
        },
{
    value.as_f64().map(Value::from)
}

/// The variant `serde_json::Value::Null` holds null.
#[verifier::external_body]
pub(crate) fn null_value() -> (value: Value)
    ensures
        json(value) == Json::Null,
{
    Value::Null
}

/// A hexadecimal digit, small letters above nine.
pub open spec fn hex_digit(value: nat) -> char {
    if value < 10 {
        (0x30 + value) as char
    } else {
        (0x57 + value) as char
    }
}

/// How a character is written inside a JSON string.
pub open spec fn escaped(character: char) -> Seq<char> {
    let code = character as u32;
    if character == '"' || character == '\\' {
        seq!['\\', character]
    } else if code == 0x08 {
        seq!['\\', 'b']
    } else if code == 0x09 {
        seq!['\\', 't']
    } else if code == 0x0a {
        seq!['\\', 'n']
    } else if code == 0x0c {
        seq!['\\', 'f']
    } else if code == 0x0d {
        seq!['\\', 'r']
    } else if code < 0x20 {
        seq!['\\', 'u', '0', '0', hex_digit(code as nat / 16), hex_digit(code as nat % 16)]
    } else {
        seq![character]
    }
}

/// How a text is written inside a JSON string.
pub open spec fn escaped_text(source: Seq<char>) -> Seq<char>
    decreases source.len(),
{
    if source.len() == 0 {
        Seq::empty()
    } else {
        escaped_text(source.drop_last()) + escaped(source.last())
    }
}

/// A text as a JSON string.
pub open spec fn literal(source: Seq<char>) -> Seq<char> {
    seq!['"'] + escaped_text(source) + seq!['"']
}

/// `serde_json::to_string` writes a string in quotes, with quotes, backslashes and control
/// characters escaped.
#[verifier::external_body]
pub(crate) fn json_literal(source: &str) -> (written: String)
    ensures
        written@ == literal(source@),
{
    serde_json::to_string(source).unwrap_or_default()
}

/// An object without entries.
pub open spec fn no_entries() -> Map<Seq<char>, Json> {
    Map::empty()
}

/// `serde_json::Map::new` makes an empty map.
#[verifier::external_body]
pub(crate) fn empty_map() -> (created: serde_json::Map<String, Value>)
    ensures
        entries(created) == no_entries(),
{
    serde_json::Map::new()
}

/// `serde_json::Map::get` finds the value of a key.
#[verifier::external_body]
pub(crate) fn entry<'a>(map: &'a serde_json::Map<String, Value>, key: &str) -> (found: Option<
    &'a Value,
>)
    ensures
        match found {
            Some(found) => entries(*map).contains_key(key@) && json(*found) == entries(*map)[key@],
            None => !entries(*map).contains_key(key@),
        },
{
    map.get(key)
}

/// `serde_json::Map::insert` sets the value of a key, here to a string.
#[verifier::external_body]
pub(crate) fn insert_text(map: &mut serde_json::Map<String, Value>, key: &str, value: String)
    ensures
        entries(*final(map)) == entries(*old(map)).insert(key@, Json::Text(value@)),
{
    map.insert(key.to_owned(), Value::String(value));
}

/// The `Extend` impl of `serde_json::Map` sets the values of all keys of another map.
#[verifier::external_body]
pub(crate) fn extend_map(
    map: &mut serde_json::Map<String, Value>,
    more: serde_json::Map<String, Value>,
)
    ensures
        entries(*final(map)) == entries(*old(map)).union_prefer_right(entries(more)),
{
    map.extend(more);
}

/// Cloning a `serde_json::Map` keeps what it holds.
#[verifier::external_body]
pub(crate) fn copy_map(map: &serde_json::Map<String, Value>) -> (copy: serde_json::Map<
    String,
    Value,
>)
    ensures
        entries(copy) == entries(*map),
{
    map.clone()
}

/// A number that is written with digits alone and fits into 64 bits.
pub open spec fn whole_number(value: Json) -> bool {
    exists|whole: u64| value == Json::Number(#[trigger] crate::text::decimal(whole as nat))
}

/// A value without parts that reads back as it is written. Of a number with a fraction this is not
/// said: reading one may round it.
pub open spec fn plain(value: Json) -> bool {
    value is Null || value is Flag || value is Text || whole_number(value)
}

/// Every value of an object is plain.
pub open spec fn flat(object: Map<Seq<char>, Json>) -> bool {
    forall|key: Seq<char>| #[trigger] object.contains_key(key) ==> plain(object[key])
}

/// Bytes and a newline, read as one text, are the object.
pub open spec fn reads_back(bytes: Seq<u8>, object: Map<Seq<char>, Json>) -> bool {
    forall|contents: Seq<char>| #[trigger]
        vstd::utf8::encode_utf8(contents) == bytes.push(0x0au8) ==> parsed_json(contents) == Ok::<
            Json,
            Seq<char>,
        >(Json::Object(object))
}

/// `serde_json::to_vec_pretty` writes an object as bytes that depend on what the map holds alone;
/// writing into a vector does not fail. Read as text again, with the newline behind them that a
/// text file ends with, the bytes of an object of strings, flags, nulls and whole numbers give the
/// same object.
#[verifier::external_body]
pub(crate) fn pretty_bytes(map: &serde_json::Map<String, Value>) -> (bytes: Vec<u8>)
    ensures
        bytes@ == pretty_json(entries(*map)),
        flat(entries(*map)) ==> reads_back(bytes@, entries(*map)),
{
    serde_json::to_vec_pretty(map).unwrap_or_default()
}

/// A value is an array with at least one element.
pub fn is_nonempty_list(value: &Value) -> (result: bool)
    ensures
        result == (json(*value) matches Json::List(list) && list.len() > 0),
{
    match value.as_array() {
        Some(list) => list.len() > 0,
        None => false,
    }
}

/// The number that an object holds for a key, as it is written.
pub open spec fn number_of(value: Json, key: Seq<char>) -> Option<Seq<char>> {
    match value {
        Json::Object(object) => if object.contains_key(key) {
            match object[key] {
                Json::Number(number) => Some(number),
                _ => None,
            }
        } else {
            None
        },
        _ => None,
    }
}

/// Reads the number that an object holds for a key and writes it as a floating point number.
pub fn read_float(value: &Value, key: &str) -> (float: Option<String>)
    ensures
        match (number_of(json(*value), key@), float) {
            (Some(number), Some(float)) => float@ == float_text(number) && floats_to(number, float@),
            (None, None) => true,
            _ => false,
        },
{
    match field(value, key) {
        Some(found) => match float_value(found) {
            Some(float) => Some(display_value(&float)),
            None => None,
        },
        None => None,
    }
}

} // verus!
