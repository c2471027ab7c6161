use crate::audit::JsonValue;
use crate::text::{joined, text_eq, texts};
use vstd::prelude::*;
use vstd::utf8::{encode_utf8, is_ascii_chars, is_ascii_chars_encode_utf8};

verus! {

/// The stored form of a count or a time: the value itself, or the greatest `i64` beyond it.
pub open spec fn stored_i64(value: u64) -> i64 {
    if value <= i64::MAX {
        value as i64
    } else {
        i64::MAX
    }
}

/// The stored form of a count or a time: the value itself, or the greatest `i64` beyond it.
pub fn to_i64_lossless(value: u64) -> (stored: i64)
    ensures
        stored == stored_i64(value),
{
    if value <= i64::MAX as u64 {
        value as i64
    } else {
        i64::MAX
    }
}

/// A time as it reads back from the store.
pub open spec fn stored_time(value: u64) -> u64 {
    stored_i64(value) as u64
}

/// A time as it reads back from the store.
pub fn through_store(value: u64) -> (time: u64)
    ensures
        time == stored_time(value),
{
    to_i64_lossless(value) as u64
}

/// The stored form of an optional time.
pub open spec fn opt_stored_i64(value: Option<u64>) -> Option<i64> {
    match value {
        Some(inner) => Some(stored_i64(inner)),
        None => None,
    }
}

/// The stored form of an optional time.
pub fn optional_i64(value: Option<u64>) -> (stored: Option<i64>)
    ensures
        stored == opt_stored_i64(value),
{
    match value {
        Some(inner) => Some(to_i64_lossless(inner)),
        None => None,
    }
}

/// Why a stored time is refused.
pub open spec fn negative_time() -> Seq<char> {
    "database timestamp is negative"@
}

/// Reads a stored time.
pub fn from_i64(value: i64) -> (result: Result<u64, String>)
    ensures
        result is Ok <==> value >= 0,
        result is Ok ==> result->Ok_0 == value,
        result is Err ==> result->Err_0@ == negative_time(),
{
    if value >= 0 {
        Ok(value as u64)
    } else {
        Err("database timestamp is negative".to_owned())
    }
}

/// Whether an optional stored time can be read.
pub open spec fn opt_time_valid(value: Option<i64>) -> bool {
    value is None || value->0 >= 0
}

/// The time that an optional stored time stands for.
pub open spec fn opt_time(value: Option<i64>) -> Option<u64> {
    match value {
        Some(inner) => Some(inner as u64),
        None => None,
    }
}

/// Reads an optional stored time.
pub fn optional_u64(value: Option<i64>) -> (result: Result<Option<u64>, String>)
    ensures
        result is Ok <==> opt_time_valid(value),
        result is Ok ==> result->Ok_0 == opt_time(value),
        result is Err ==> result->Err_0@ == negative_time(),
{
    match value {
        Some(inner) => match from_i64(inner) {
            Ok(time) => Ok(Some(time)),
            Err(reason) => Err(reason),
        },
        None => Ok(None),
    }
}

/// A time that fits the stored form reads back unchanged; any later time reads as the latest one.
pub proof fn times_round_trip(value: u64)
    ensures
        stored_i64(value) >= 0,
        value <= i64::MAX ==> stored_time(value) == value,
        value > i64::MAX ==> stored_time(value) == i64::MAX as u64,
{
}

/// The time of the clock in milliseconds since the epoch, given what the clock reads: a clock set
/// before the epoch reads as the epoch itself, and a time past the range as its end.
pub fn now_epoch_millis(since_epoch_millis: Option<u128>) -> (now: u64)
    ensures
        since_epoch_millis is None ==> now == 0,
        since_epoch_millis is Some ==> now == if since_epoch_millis->0 <= u64::MAX {
            since_epoch_millis->0 as u64
        } else {
            u64::MAX
        },
{
    match since_epoch_millis {
        Some(millis) => if millis <= u64::MAX as u128 {
            millis as u64
        } else {
            u64::MAX
        },
        None => 0,
    }
}

/// The array that holds a byte string of its length.
pub open spec fn array_of<const N: usize>(bytes: Seq<u8>) -> [u8; N] {
    choose|array: [u8; N]| array@ == bytes
}

/// Copies a byte string of the array's length.
fn to_array<const N: usize>(bytes: &Vec<u8>) -> (array: [u8; N])
    requires
        bytes@.len() == N,
    ensures
        array@ == bytes@,
        array == array_of::<N>(bytes@),
{
    let mut array: [u8; N] = [0u8; N];
    let mut i: usize = 0;
    while i < N
        invariant
            i <= N,
            bytes@.len() == N,
            forall|k: int| 0 <= k < i ==> array@[k] == bytes@[k],
        decreases N - i,
    {
        array[i] = bytes[i];
        i = i + 1;
    }
    assert(array@ =~= bytes@);
    proof {
        let chosen = array_of::<N>(bytes@);
        assert(chosen@ == bytes@);
        assert(chosen =~= array);
    }
    array
}

/// Why a stored digest of the wrong length is refused.
pub open spec fn not_32_bytes(field: Seq<char>) -> Seq<char> {
    field + " is not 32 bytes"@
}

/// Reads a stored digest or key, which has exactly 32 bytes.
pub fn fixed_32(value: Vec<u8>, field: &str) -> (result: Result<[u8; 32], String>)
    ensures
        result is Ok <==> value@.len() == 32,
        result is Ok ==> result->Ok_0@ == value@,
        result is Ok ==> result->Ok_0 == array_of::<32>(value@),
        result is Err ==> result->Err_0@ == not_32_bytes(field@),
{
    if value.len() == 32 {
        Ok(to_array::<32>(&value))
    } else {
        Err(joined(field, " is not 32 bytes"))
    }
}

/// Reads a stored nonce, which has exactly 12 bytes.
pub fn fixed_12(value: Vec<u8>) -> (nonce: Option<[u8; 12]>)
    ensures
        nonce is Some <==> value@.len() == 12,
        nonce is Some ==> nonce->0@ == value@,
        nonce is Some ==> nonce->0 == array_of::<12>(value@),
{
    if value.len() == 12 {
        Some(to_array::<12>(&value))
    } else {
        None
    }
}

/// The texts of a list of literals, in order.
pub open spec fn literals(values: Seq<&str>) -> Seq<Seq<char>> {
    values.map_values(|text: &str| text@)
}

/// Why a value outside a closed list is refused.
pub open spec fn unsupported_value(field: Seq<char>, value: Seq<char>) -> Seq<char> {
    field + " contains unsupported value "@ + value
}

/// Refuses a value that a closed list does not hold.
pub fn validate_fixed_enum(value: &str, field: &str, allowed: &[&str]) -> (result: Result<
    (),
    String,
>)
    ensures
        result is Ok <==> literals(allowed@).contains(value@),
        result is Err ==> result->Err_0@ == unsupported_value(field@, value@),
{
    let mut i: usize = 0;
    while i < allowed.len()
        invariant
            i <= allowed.len(),
            forall|k: int| 0 <= k < i ==> literals(allowed@)[k] != value@,
        decreases allowed.len() - i,
    {
        if text_eq(allowed[i], value) {
            assert(literals(allowed@)[i as int] == value@);
            return Ok(());
        }
        i = i + 1;
    }
    Err(joined(joined(field, " contains unsupported value ").as_str(), value))
}

/// A required method as the stored list holds it: a text, or something else.
pub open spec fn method_text(value: JsonValue) -> Option<Seq<char>> {
    match value {
        JsonValue::Text(text) => Some(text@),
        _ => None,
    }
}

/// What is wrong with a stored list of methods, from a position on: the first element that is no
/// text.
pub open spec fn methods_problem(values: Seq<JsonValue>, from: int) -> Option<Seq<char>>
    decreases values.len() - from,
{
    if from < 0 || from >= values.len() {
        None
    } else if method_text(values[from]) is None {
        Some(
            "account_risk_challenges.required_methods["@ + decimal(from as nat)
                + "] is not a string"@,
        )
    } else {
        methods_problem(values, from + 1)
    }
}

/// What is wrong with the stored methods of a challenge.
pub open spec fn required_methods_problem(value: Option<Vec<JsonValue>>) -> Option<Seq<char>> {
    match value {
        Some(values) => methods_problem(values@, 0),
        None => Some("account_risk_challenges.required_methods is not an array"@),
    }
}

/// The methods that a stored list holds.
pub open spec fn stored_methods(value: Option<Vec<JsonValue>>) -> Seq<Seq<char>> {
    value->0@.map_values(|method: JsonValue| method_text(method)->0)
}

/// The decimal digits of a number.
pub open spec fn decimal(value: nat) -> Seq<char>
    decreases value,
{
    if value < 10 {
        seq![(('0' as u32) + value as u32) as char]
    } else {
        decimal(value / 10).push((('0' as u32) + (value % 10) as u32) as char)
    }
}

/// The text of a single decimal digit.
fn digit_text(digit: u8) -> (text: &'static str)
    requires
        digit < 10,
    ensures
        text@ == decimal(digit as nat),
{
    proof {
        reveal_strlit("0");
        reveal_strlit("1");
        reveal_strlit("2");
        reveal_strlit("3");
        reveal_strlit("4");
        reveal_strlit("5");
        reveal_strlit("6");
        reveal_strlit("7");
        reveal_strlit("8");
        reveal_strlit("9");
    }
    let text = match digit {
        0 => "0",
        1 => "1",
        2 => "2",
        3 => "3",
        4 => "4",
        5 => "5",
        6 => "6",
        7 => "7",
        8 => "8",
        _ => "9",
    };
    assert(text@ =~= decimal(digit as nat));
    text
}

/// The decimal digits of a number.
pub fn decimal_text(value: u64) -> (text: String)
    ensures
        text@ == decimal(value as nat),
    decreases value,
{
    if value < 10 {
        digit_text(value as u8).to_owned()
    } else {
        let digit: u8 = (value % 10) as u8;
        let text = joined(decimal_text(value / 10).as_str(), digit_text(digit));
        assert(text@ =~= decimal(value as nat));
        text
    }
}

/// Reads the stored list of methods of a challenge: `None` stands for a value that is no list.
pub fn parse_required_methods(value: Option<Vec<JsonValue>>) -> (result: Result<
    Vec<String>,
    String,
>)
    ensures
        result is Ok <==> required_methods_problem(value) is None,
        result is Ok ==> texts(result->Ok_0@) == stored_methods(value),
        result is Err ==> Some(result->Err_0@) == required_methods_problem(value),
{
    let values: Vec<JsonValue> = match value {
        Some(values) => values,
        None => {
            return Err("account_risk_challenges.required_methods is not an array".to_owned());
        },
    };
    let mut methods: Vec<String> = Vec::new();
    let mut i: usize = 0;
    while i < values.len()
        invariant
            i <= values.len(),
            methods.len() == i,
            value == Some(values),
            methods_problem(values@, 0) == methods_problem(values@, i as int),
            forall|k: int|
                0 <= k < i ==> (#[trigger] methods@[k])@ == method_text(values@[k])->0,
        decreases values.len() - i,
    {
        match &values[i] {
            JsonValue::Text(method) => {
                methods.push(method.clone());
            },
            _ => {
                let place = joined(
                    "account_risk_challenges.required_methods[",
                    decimal_text(i as u64).as_str(),
                );
                return Err(joined(place.as_str(), "] is not a string"));
            },
        }
        i = i + 1;
    }
    assert(texts(methods@) =~= stored_methods(value));
    Ok(methods)
}

/// A stored list of methods is read exactly where each of its elements is a text.
pub proof fn only_lists_of_texts_are_methods(values: Seq<JsonValue>, from: int)
    requires
        0 <= from <= values.len(),
    ensures
        methods_problem(values, from) is None <==> forall|i: int|
            from <= i < values.len() ==> method_text(#[trigger] values[i]) is Some,
    decreases values.len() - from,
{
    if from < values.len() {
        only_lists_of_texts_are_methods(values, from + 1);
    }
}

/// The lower-case hexadecimal digit of a number below 16.
pub open spec fn hex_char(digit: int) -> char {
    if digit < 10 {
        (('0' as u32) + digit as u32) as char
    } else {
        (('a' as u32) + (digit - 10) as u32) as char
    }
}

/// The lower-case hexadecimal text of a byte string: two digits for each byte, high digit first.
pub open spec fn hex_text(bytes: Seq<u8>) -> Seq<char> {
    Seq::new(
        2 * bytes.len(),
        |i: int|
            hex_char(
                if i % 2 == 0 {
                    bytes[i / 2] as int / 16
                } else {
                    bytes[i / 2] as int % 16
                },
            ),
    )
}

fn hex_digit_text(digit: u8) -> (text: &'static str)
    requires
        digit < 16,
    ensures
        text@ == seq![hex_char(digit as int)],
{
    proof {
        reveal_strlit("a");
        reveal_strlit("b");
        reveal_strlit("c");
        reveal_strlit("d");
        reveal_strlit("e");
        reveal_strlit("f");
    }
    if digit < 10 {
        digit_text(digit)
    } else {
        let text = match digit {
            10 => "a",
            11 => "b",
            12 => "c",
            13 => "d",
            14 => "e",
            _ => "f",
        };
        assert(text@ =~= seq![hex_char(digit as int)]);
        text
    }
}

/// The lower-case hexadecimal text of a byte string.
pub fn encode_hex(bytes: &[u8]) -> (text: String)
    ensures
        text@ == hex_text(bytes@),
{
    let mut text = String::new();
    let mut i: usize = 0;
    assert(text@ =~= hex_text(bytes@.take(0)));
    while i < bytes.len()
        invariant
            i <= bytes.len(),
            text@ == hex_text(bytes@.take(i as int)),
        decreases bytes.len() - i,
    {
        let byte: u8 = bytes[i];
        text.append(hex_digit_text(byte / 16));
        text.append(hex_digit_text(byte % 16));
        i = i + 1;
        assert(text@ =~= hex_text(bytes@.take(i as int)));
    }
    assert(bytes@.take(i as int) =~= bytes@);
    text
}

/// The number that an ASCII hexadecimal digit of either case stands for.
pub open spec fn hex_value(byte: u8) -> Option<int> {
    if 0x30 <= byte <= 0x39 {
        Some(byte - 0x30)
    } else if 0x61 <= byte <= 0x66 {
        Some(byte - 0x61 + 10)
    } else if 0x41 <= byte <= 0x46 {
        Some(byte - 0x41 + 10)
    } else {
        None
    }
}

/// The byte that two ASCII characters stand for: two hexadecimal digits, or a plus sign and one.
pub open spec fn hex_pair(high: u8, low: u8) -> Option<int> {
    match (hex_value(high), hex_value(low)) {
        (Some(h), Some(l)) => Some(16 * h + l),
        (None, Some(l)) => if high == 0x2b {
            Some(l)
        } else {
            None
        },
        _ => None,
    }
}

fn hex_digit_value(byte: u8) -> (value: Option<u8>)
    ensures
        value is Some <==> hex_value(byte) is Some,
        value is Some ==> value->0 == hex_value(byte)->0 && value->0 < 16,
{
    if 0x30 <= byte && byte <= 0x39 {
        Some((byte - 0x30) as u8)
    } else if 0x61 <= byte && byte <= 0x66 {
        Some((byte - 0x61 + 10) as u8)
    } else if 0x41 <= byte && byte <= 0x46 {
        Some((byte - 0x41 + 10) as u8)
    } else {
        None
    }
}

/// Whether 64 bytes are 32 pairs that each stand for a byte.
pub open spec fn hex_pairs_valid(text: Seq<u8>) -> bool {
    forall|i: int| 0 <= i < 32 ==> (#[trigger] hex_pair(text[2 * i], text[2 * i + 1])) is Some
}

/// The digest that 64 hexadecimal characters stand for.
pub open spec fn hex_digest(text: Seq<u8>) -> Seq<u8> {
    Seq::new(32, |i: int| hex_pair(text[2 * i], text[2 * i + 1])->0 as u8)
}

/// Reads a digest of 32 bytes from its hexadecimal text. A text of 64 bytes that is not ASCII is
/// refused like any other that holds no digit where one belongs.
pub fn decode_hex_32(value: &str) -> (result: Result<[u8; 32], String>)
    ensures
        result is Ok <==> encode_utf8(value@).len() == 64 && hex_pairs_valid(encode_utf8(value@)),
        result is Ok ==> result->Ok_0@ == hex_digest(encode_utf8(value@)),
        result is Err ==> result->Err_0@ == if encode_utf8(value@).len() != 64 {
            "digest is not 64 hexadecimal characters"@
        } else {
            "digest contains invalid hexadecimal"@
        },
{
    let text = value.as_bytes();
    if text.len() != 64 {
        return Err("digest is not 64 hexadecimal characters".to_owned());
    }
    let mut output: [u8; 32] = [0u8; 32];
    let mut i: usize = 0;
    while i < 32
        invariant
            i <= 32,
            text@.len() == 64,
            text@ == encode_utf8(value@),
            forall|k: int|
                0 <= k < i ==> (#[trigger] hex_pair(text@[2 * k], text@[2 * k + 1])) is Some,
            forall|k: int| 0 <= k < i ==> #[trigger] output@[k] == hex_digest(text@)[k],
        decreases 32 - i,
    {
        let high: u8 = text[2 * i];
        let low: u8 = text[2 * i + 1];
        let ghost pair = hex_pair(text@[2 * i as int], text@[2 * i as int + 1]);
        let byte: u8 = match (hex_digit_value(high), hex_digit_value(low)) {
            (Some(h), Some(l)) => 16 * h + l,
            (None, Some(l)) => if high == 0x2b {
                l
            } else {
                assert(pair is None);
                return Err("digest contains invalid hexadecimal".to_owned());
            },
            _ => {
                assert(pair is None);
                return Err("digest contains invalid hexadecimal".to_owned());
            },
        };
        output[i] = byte;
        i = i + 1;
    }
    assert(output@ =~= hex_digest(text@));
    Ok(output)
}

/// A digest reads back from its hexadecimal text.
pub proof fn hex_round_trips(digest: Seq<u8>)
    requires
        digest.len() == 32,
    ensures
        encode_utf8(hex_text(digest)).len() == 64,
        hex_pairs_valid(encode_utf8(hex_text(digest))),
        hex_digest(encode_utf8(hex_text(digest))) == digest,
{
    let text = hex_text(digest);
    assert forall|i: int| 0 <= i < text.len() implies (text[i] as u32) < 128 by {
        assert(0 <= i / 2 < digest.len());
    }
    assert(is_ascii_chars(text));
    is_ascii_chars_encode_utf8(text);
    let bytes = encode_utf8(text);
    assert forall|i: int| 0 <= i < 32 implies (#[trigger] hex_pair(bytes[2 * i], bytes[2 * i + 1]))
        == Some(digest[i] as int) by {
        assert(bytes[2 * i] == text[2 * i] as u8);
        assert(bytes[2 * i + 1] == text[2 * i + 1] as u8);
        assert((2 * i) / 2 == i && (2 * i + 1) / 2 == i);
        let high = digest[i] as int / 16;
        let low = digest[i] as int % 16;
        assert(text[2 * i] == hex_char(high));
        assert(text[2 * i + 1] == hex_char(low));
        assert(hex_value(bytes[2 * i]) == Some(high));
        assert(hex_value(bytes[2 * i + 1]) == Some(low));
    }
    assert(hex_digest(bytes) =~= digest);
}

} // verus!
