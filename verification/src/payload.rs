//! JSON payloads.
//!
//! Requests and responses are values of the `json` crate. This module
//! declares that crate's value type, gives what such a value holds a
//! mathematical model ([`JsonModel`]), and states for each operation of the
//! crate that the library calls what it does in terms of that model. These
//! statements are taken on trust: nothing in this crate proves them.
//!
//! A text is read through [`read_json`], which is verified: it first looks
//! for a fraction with more digits than the parser can count, and hands the
//! parser only a text without one.

use crate::decimal::Decimal;
use vstd::prelude::*;
use vstd::string::StringSliceAdditionalSpecFns;

verus! {

/// The `json` crate's value type.
#[verifier::external_type_specification]
#[verifier::external_body]
pub struct ExJsonValue(json::JsonValue);

/// The `json` crate's error type.
#[verifier::external_type_specification]
#[verifier::external_body]
pub struct ExJsonError(json::Error);

/// What a JSON value holds.
///
/// The two string representations of the `json` crate are one case here, and
/// the entries of an object stand in the order in which the object yields
/// them, which is the order in which their keys were first inserted.
pub enum JsonModel {
    Null,
    Boolean(bool),
    /// A number. Its parts are those that the `json` crate stores, which need
    /// not be reduced: `150 · 10^-2` and `15 · 10^-1` are different models.
    Number(Decimal),
    /// The number that is none: what the `json` crate keeps for a float that
    /// is infinite or not a number.
    NotANumber,
    Text(Seq<char>),
    Array(Seq<JsonModel>),
    Object(Seq<(Seq<char>, JsonModel)>),
}

/// Whether some entry has the key.
pub open spec fn has_key(entries: Seq<(Seq<char>, JsonModel)>, key: Seq<char>) -> bool {
    exists|i: int| 0 <= i < entries.len() && (#[trigger] entries[i]).0 == key
}

/// Whether `index` is the place of the first entry with the key.
pub open spec fn is_first_with_key(
    entries: Seq<(Seq<char>, JsonModel)>,
    key: Seq<char>,
    index: int,
) -> bool {
    &&& 0 <= index < entries.len()
    &&& entries[index].0 == key
    &&& forall|j: int| 0 <= j < index ==> (#[trigger] entries[j]).0 != key
}

/// The place of the first entry with the key, where there is one.
pub open spec fn key_index(entries: Seq<(Seq<char>, JsonModel)>, key: Seq<char>) -> int {
    choose|index: int| is_first_with_key(entries, key, index)
}

/// The entries after the key has been given the value: the entry that had
/// the key holds the new value in its old place, or a new entry stands last.
pub open spec fn put(
    entries: Seq<(Seq<char>, JsonModel)>,
    key: Seq<char>,
    value: JsonModel,
) -> Seq<(Seq<char>, JsonModel)> {
    if has_key(entries, key) {
        entries.update(key_index(entries, key), (key, value))
    } else {
        entries.push((key, value))
    }
}

impl JsonModel {
    /// The value under `key`: that of the first entry with the key where the
    /// value is an object that has one, null everywhere else.
    pub open spec fn member(self, key: Seq<char>) -> JsonModel {
        match self {
            JsonModel::Object(entries) => if has_key(entries, key) {
                entries[key_index(entries, key)].1
            } else {
                JsonModel::Null
            },
            _ => JsonModel::Null,
        }
    }

    /// The value at `index`: the item there where the value is an array that
    /// is long enough, null everywhere else.
    pub open spec fn element(self, index: int) -> JsonModel {
        match self {
            JsonModel::Array(items) => if 0 <= index < items.len() {
                items[index]
            } else {
                JsonModel::Null
            },
            _ => JsonModel::Null,
        }
    }

    /// Whether the value counts as empty: null, `false`, a number with a
    /// zero mantissa or none at all, and a text, array or object without
    /// content.
    pub open spec fn is_empty(self) -> bool {
        match self {
            JsonModel::Null => true,
            JsonModel::Boolean(flag) => !flag,
            JsonModel::Number(number) => number.mantissa == 0,
            JsonModel::NotANumber => true,
            JsonModel::Text(text) => text.len() == 0,
            JsonModel::Array(items) => items.len() == 0,
            JsonModel::Object(entries) => entries.len() == 0,
        }
    }

    /// The parts of the value where it is a number. The number that is none
    /// reads as a negative zero.
    pub open spec fn number_parts(self) -> Option<Decimal> {
        match self {
            JsonModel::Number(number) => Some(number),
            JsonModel::NotANumber => Some(Decimal { positive: false, mantissa: 0, exponent: 0 }),
            _ => None,
        }
    }
}

/// The number of digits of a fraction that the parser can count.
pub const FRACTION_DIGITS: usize = 32768;

/// The mantissa from which on the parser takes a further digit only if the
/// mantissa with that digit still fits in 64 bits.
pub const MAX_PRECISION: u64 = 576460752303423500;

/// Where a scan stands with regard to numbers.
#[derive(Debug, Clone, Copy, PartialEq, Eq, Structural)]
pub enum NumberPhase {
    /// Not in a number that begins with a digit.
    Idle,
    /// After a single `0` that begins a number.
    Zero,
    /// In any other part of a number.
    Digits,
    /// In the fraction of a number whose integer part is `0`.
    Fraction,
}

/// How far a scan of the bytes of a text has come.
#[derive(Debug, Clone, Copy, PartialEq, Eq, Structural)]
pub struct Scan {
    /// Whether the scan is inside a string literal.
    pub in_string: bool,
    /// Whether the last byte was a backslash that escapes the next one.
    pub escaped: bool,
    /// Where the scan stands with regard to numbers.
    pub phase: NumberPhase,
    /// In a fraction: the mantissa that the parser has read so far.
    pub mantissa: u64,
    /// In a fraction: the digits that the parser has counted so far.
    pub counted: usize,
    /// Whether some fraction had more digits to count than the parser can.
    pub overflowed: bool,
}

/// Whether the byte is an ASCII digit.
pub open spec fn is_digit(byte: u8) -> bool {
    0x30 <= byte <= 0x39
}

/// Whether the parser takes a digit of a fraction into the mantissa, and
/// counts it: always below [`MAX_PRECISION`], and above it as long as the
/// mantissa with the digit fits in 64 bits.
pub open spec fn takes_digit(mantissa: u64, digit: int) -> bool {
    mantissa < MAX_PRECISION || mantissa * 10 + digit <= u64::MAX
}

/// The scan before the first byte.
pub open spec fn scan_start() -> Scan {
    Scan {
        in_string: false,
        escaped: false,
        phase: NumberPhase::Idle,
        mantissa: 0,
        counted: 0,
        overflowed: false,
    }
}

/// The scan after one more byte.
///
/// Inside a string literal only the quote that ends it and the backslash
/// that escapes the next byte matter. Outside, a quote begins a string; a
/// `0` that follows no digit begins a number with the integer part `0`, and
/// a point after it begins the fraction that is counted. There each digit
/// that the parser takes is counted, and one more than
/// [`FRACTION_DIGITS`] is too many.
pub open spec fn scan_step(state: Scan, byte: u8) -> Scan {
    if state.in_string {
        if state.escaped {
            Scan { escaped: false, ..state }
        } else if byte == 0x5c {
            Scan { escaped: true, ..state }
        } else if byte == 0x22 {
            Scan { in_string: false, ..state }
        } else {
            state
        }
    } else if byte == 0x22 {
        Scan { in_string: true, phase: NumberPhase::Idle, ..state }
    } else if byte == 0x2e {
        if state.phase == NumberPhase::Zero {
            Scan { phase: NumberPhase::Fraction, mantissa: 0, counted: 0, ..state }
        } else {
            Scan { phase: NumberPhase::Digits, ..state }
        }
    } else if is_digit(byte) {
        match state.phase {
            NumberPhase::Idle => if byte == 0x30 {
                Scan { phase: NumberPhase::Zero, ..state }
            } else {
                Scan { phase: NumberPhase::Digits, ..state }
            },
            NumberPhase::Zero => Scan { phase: NumberPhase::Digits, ..state },
            NumberPhase::Digits => state,
            NumberPhase::Fraction => if !takes_digit(state.mantissa, byte - 0x30) {
                state
            } else if state.counted >= FRACTION_DIGITS {
                Scan { overflowed: true, ..state }
            } else {
                Scan {
                    mantissa: (state.mantissa * 10 + (byte - 0x30)) as u64,
                    counted: (state.counted + 1) as usize,
                    ..state
                }
            },
        }
    } else {
        Scan { phase: NumberPhase::Idle, ..state }
    }
}

/// The scan after all the bytes.
pub open spec fn scan(bytes: Seq<u8>) -> Scan
    decreases bytes.len(),
{
    if bytes.len() == 0 {
        scan_start()
    } else {
        scan_step(scan(bytes.drop_last()), bytes.last())
    }
}

/// Whether the bytes hold a fraction with more digits to count than the
/// parser can.
pub open spec fn fraction_overflows(bytes: Seq<u8>) -> bool {
    scan(bytes).overflowed
}

/// The message for a text with such a fraction.
pub open spec fn too_many_digits() -> Seq<char> {
    "Too many digits in a fraction"@
}

/// What reading a text as JSON gives: the model of the value that the text
/// denotes, or the message that says why it denotes none. A text whose UTF-8
/// bytes hold a fraction with more digits to count than the parser can is
/// not read.
pub open spec fn read_result(text: Seq<char>) -> Result<JsonModel, Seq<char>> {
    if fraction_overflows(vstd::utf8::encode_utf8(text)) {
        Err(too_many_digits())
    } else {
        json_parse(text)
    }
}

/// The models of a sequence of values, item by item.
pub open spec fn json_trees(values: Seq<json::JsonValue>) -> Seq<JsonModel> {
    Seq::new(values.len(), |i: int| json_tree(values[i]))
}

/// What the value holds.
pub uninterp spec fn json_tree(value: json::JsonValue) -> JsonModel;

/// What `json::parse` makes of a text: the model of the value, or the
/// message of the error.
pub uninterp spec fn json_parse(text: Seq<char>) -> Result<JsonModel, Seq<char>>;

/// The message that the error displays.
pub uninterp spec fn json_error_text(error: json::Error) -> Seq<char>;

/// The compact JSON text of a value with this model.
pub uninterp spec fn json_dump(tree: JsonModel) -> Seq<char>;

/// What a value with this model displays.
pub uninterp spec fn json_display(tree: JsonModel) -> Seq<char>;

/// `json::parse`: the value that the text denotes, or the error. Which of
/// the two, and what the value holds, depends on the text alone.
///
/// The parser counts down in 16 bits for each digit of a fraction that it
/// takes into the mantissa, and a count that leaves that range stops it.
/// Only a mantissa that stays zero takes digits without end, so only a
/// number with the integer part `0` can get there: a mantissa that is not
/// zero grows tenfold with each digit and takes twenty at most. Texts with a
/// fraction that has more such digits than the count can hold are left out.
#[verifier::external_body]
pub(crate) fn parse(text: &str) -> (r: Result<json::JsonValue, json::Error>)
    requires
        !fraction_overflows(text.spec_bytes()),
    ensures
        match r {
            Ok(value) => json_parse(text@) == Ok::<JsonModel, Seq<char>>(json_tree(value)),
            Err(error) => json_parse(text@) == Err::<JsonModel, Seq<char>>(
                json_error_text(error),
            ),
        },
{
    json::parse(text)
}

/// `json::Error`'s `Display`: the message of the error.
#[verifier::external_body]
pub(crate) fn error_text(error: &json::Error) -> (r: String)
    ensures
        r@ == json_error_text(*error),
{
    error.to_string()
}

/// `JsonValue::dump`: the compact JSON text of the value, which depends on
/// what the value holds alone.
#[verifier::external_body]
pub(crate) fn dump(value: &json::JsonValue) -> (r: String)
    ensures
        r@ == json_dump(json_tree(*value)),
{
    value.dump()
}

/// `JsonValue`'s `Display`: a text displays as its own characters, every
/// other value as a text that depends on what the value holds alone.
#[verifier::external_body]
pub(crate) fn display(value: &json::JsonValue) -> (r: String)
    ensures
        r@ == json_display(json_tree(*value)),
        json_tree(*value) matches JsonModel::Text(text) ==> r@ == text,
{
    value.to_string()
}

/// `JsonValue`'s index by `&str`: the value under the key in an object that
/// has it, a null everywhere else.
#[verifier::external_body]
pub(crate) fn member<'a>(value: &'a json::JsonValue, key: &str) -> (r: &'a json::JsonValue)
    ensures
        json_tree(*r) == json_tree(*value).member(key@),
{
    &value[key]
}

/// `JsonValue`'s index by `usize`: the item at the index in an array that is
/// long enough, a null everywhere else.
#[verifier::external_body]
pub(crate) fn element(value: &json::JsonValue, index: usize) -> (r: &json::JsonValue)
    ensures
        json_tree(*r) == json_tree(*value).element(index as int),
{
    &value[index]
}

/// `JsonValue::is_null`.
#[verifier::external_body]
pub(crate) fn is_null(value: &json::JsonValue) -> (r: bool)
    ensures
        r == (json_tree(*value) is Null),
{
    value.is_null()
}

/// `JsonValue::is_empty`.
#[verifier::external_body]
pub(crate) fn is_empty(value: &json::JsonValue) -> (r: bool)
    ensures
        r == json_tree(*value).is_empty(),
{
    value.is_empty()
}

/// `JsonValue::as_number` and `Number::as_parts`: the stored parts of a
/// number, nothing for any other value.
#[verifier::external_body]
pub(crate) fn number_parts(value: &json::JsonValue) -> (r: Option<Decimal>)
    ensures
        r == json_tree(*value).number_parts(),
{
    value.as_number().map(|number| number.as_parts()).map(
        |(positive, mantissa, exponent)| Decimal { positive, mantissa, exponent },
    )
}

/// `JsonValue::Null`.
#[verifier::external_body]
pub(crate) fn null() -> (r: json::JsonValue)
    ensures
        json_tree(r) == JsonModel::Null,
{
    json::JsonValue::Null
}

/// `JsonValue::from` for `bool`.
#[verifier::external_body]
pub(crate) fn boolean(flag: bool) -> (r: json::JsonValue)
    ensures
        json_tree(r) == JsonModel::Boolean(flag),
{
    json::JsonValue::from(flag)
}

/// `JsonValue::from` for `String`.
#[verifier::external_body]
pub(crate) fn text(content: String) -> (r: json::JsonValue)
    ensures
        json_tree(r) == JsonModel::Text(content@),
{
    json::JsonValue::from(content)
}

/// `Number::from_parts`, as a value: the number with the parts reduced, that
/// is with the trailing zeros of the mantissa taken into a negative
/// exponent until that is zero or the last digit is not.
#[verifier::external_body]
pub(crate) fn number(parts: Decimal) -> (r: json::JsonValue)
    ensures
        json_tree(r) == JsonModel::Number(parts.reduced()),
{
    json::JsonValue::from(
        json::number::Number::from_parts(parts.positive, parts.mantissa, parts.exponent),
    )
}

/// `JsonValue::Array`: the array of the items, in their order.
#[verifier::external_body]
pub(crate) fn array(items: Vec<json::JsonValue>) -> (r: json::JsonValue)
    ensures
        json_tree(r) == JsonModel::Array(json_trees(items@)),
{
    json::JsonValue::Array(items)
}

/// `JsonValue::new_object`: an object without entries.
#[verifier::external_body]
pub(crate) fn new_object() -> (r: json::JsonValue)
    ensures
        json_tree(r) == JsonModel::Object(Seq::empty()),
{
    json::JsonValue::new_object()
}

/// `JsonValue::insert`, on an object: the key holds the value afterwards, in
/// the place of the entry that had the key, or in a new last entry.
#[verifier::external_body]
pub(crate) fn insert(object: &mut json::JsonValue, key: &str, value: json::JsonValue)
    requires
        json_tree(*old(object)) is Object,
    ensures
        json_tree(*final(object)) == JsonModel::Object(
            put(json_tree(*old(object))->Object_0, key@, json_tree(value)),
        ),
{
    let _ = object.insert(key, value);
}

/// The scan after one more byte.
fn step(state: Scan, byte: u8) -> (next: Scan)
    ensures
        next == scan_step(state, byte),
{
    let mut next = state;
    if state.in_string {
        if state.escaped {
            next.escaped = false;
        } else if byte == 0x5c {
            next.escaped = true;
        } else if byte == 0x22 {
            next.in_string = false;
        }
    } else if byte == 0x22 {
        next.in_string = true;
        next.phase = NumberPhase::Idle;
    } else if byte == 0x2e {
        match state.phase {
            NumberPhase::Zero => {
                next.phase = NumberPhase::Fraction;
                next.mantissa = 0;
                next.counted = 0;
            },
            _ => {
                next.phase = NumberPhase::Digits;
            },
        }
    } else if 0x30 <= byte && byte <= 0x39 {
        match state.phase {
            NumberPhase::Idle => {
                next.phase = if byte == 0x30 {
                    NumberPhase::Zero
                } else {
                    NumberPhase::Digits
                };
            },
            NumberPhase::Zero => {
                next.phase = NumberPhase::Digits;
            },
            NumberPhase::Digits => {},
            NumberPhase::Fraction => {
                let digit: u8 = byte - 0x30;
                let wide: u128 = state.mantissa as u128 * 10 + digit as u128;
                if state.mantissa < MAX_PRECISION || wide <= u64::MAX as u128 {
                    if state.counted >= FRACTION_DIGITS {
                        next.overflowed = true;
                    } else {
                        next.mantissa = wide as u64;
                        next.counted = state.counted + 1;
                    }
                }
            },
        }
    } else {
        next.phase = NumberPhase::Idle;
    }
    next
}

/// Whether the text holds a fraction with more digits to count than the
/// parser can.
pub fn has_long_fraction(text: &str) -> (found: bool)
    ensures
        found == fraction_overflows(text.spec_bytes()),
{
    let bytes = text.as_bytes();
    let mut state = Scan {
        in_string: false,
        escaped: false,
        phase: NumberPhase::Idle,
        mantissa: 0,
        counted: 0,
        overflowed: false,
    };
    let mut at: usize = 0;
    while at < bytes.len()
        invariant
            bytes@ == text.spec_bytes(),
            at <= bytes.len(),
            state == scan(bytes@.take(at as int)),
        decreases bytes.len() - at,
    {
        proof {
            let longer = bytes@.take(at + 1);
            assert(longer.drop_last() =~= bytes@.take(at as int));
            assert(longer.last() == bytes@[at as int]);
        }
        state = step(state, bytes[at]);
        at = at + 1;
    }
    assert(bytes@.take(at as int) =~= bytes@);
    state.overflowed
}

/// Reads a text as JSON: the value that the text denotes, or the message
/// that says why it denotes none. A text with a fraction that has more
/// digits to count than the parser can is not handed to the parser.
pub fn read_json(text: &str) -> (r: Result<json::JsonValue, String>)
    ensures
        match r {
            Ok(value) => read_result(text@) == Ok::<JsonModel, Seq<char>>(json_tree(value)),
            Err(reason) => read_result(text@) == Err::<JsonModel, Seq<char>>(reason@),
        },
{
    if has_long_fraction(text) {
        Err(String::from_str("Too many digits in a fraction"))
    } else {
        match parse(text) {
            Ok(value) => Ok(value),
            Err(error) => Err(error_text(&error)),
        }
    }
}

} // verus!
