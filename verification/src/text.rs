use crate::bytes::bytes_eq;
use vstd::prelude::*;
use vstd::utf8::encode_utf8;

verus! {

/// The characters of an optional text.
pub open spec fn opt_text(value: Option<String>) -> Option<Seq<char>> {
    match value {
        Some(text) => Some(text@),
        None => None,
    }
}

/// The characters of each text of a list, in order.
pub open spec fn texts(values: Seq<String>) -> Seq<Seq<char>> {
    values.map_values(|text: String| text@)
}

/// Two byte strings compare equal up to `at`, and the first is smaller there.
pub open spec fn bytes_lt_at(a: Seq<u8>, b: Seq<u8>, at: int) -> bool {
    &&& 0 <= at <= a.len()
    &&& at < b.len()
    &&& forall|i: int| 0 <= i < at ==> #[trigger] a[i] == b[i]
    &&& at == a.len() || a[at] < b[at]
}

/// Lexicographic order on byte strings.
pub open spec fn bytes_lt(a: Seq<u8>, b: Seq<u8>) -> bool {
    exists|at: int| bytes_lt_at(a, b, at)
}

/// The order of texts: lexicographic on their UTF-8 bytes.
pub open spec fn text_lt(a: Seq<char>, b: Seq<char>) -> bool {
    bytes_lt(encode_utf8(a), encode_utf8(b))
}

/// Texts with the same UTF-8 bytes are the same text.
pub proof fn lemma_utf8_injective(a: Seq<char>, b: Seq<char>)
    requires
        encode_utf8(a) == encode_utf8(b),
    ensures
        a == b,
{
    vstd::utf8::encode_utf8_decode_utf8(a);
    vstd::utf8::encode_utf8_decode_utf8(b);
}

/// The order of texts is irreflexive and transitive, and any two different texts are ordered.
pub proof fn text_order_is_strict_and_total(a: Seq<char>, b: Seq<char>, c: Seq<char>)
    ensures
        !text_lt(a, a),
        text_lt(a, b) && text_lt(b, c) ==> text_lt(a, c),
        a == b || text_lt(a, b) || text_lt(b, a),
        !(text_lt(a, b) && text_lt(b, a)),
{
    let x = encode_utf8(a);
    let y = encode_utf8(b);
    let z = encode_utf8(c);
    lemma_bytes_lt_irreflexive(x);
    lemma_bytes_lt_transitive(x, y, z);
    lemma_bytes_lt_transitive(x, y, x);
    lemma_bytes_lt_total(x, y, 0);
    if x == y {
        lemma_utf8_injective(a, b);
    }
}

proof fn lemma_bytes_lt_irreflexive(a: Seq<u8>)
    ensures
        !bytes_lt(a, a),
{
}

proof fn lemma_bytes_lt_transitive(a: Seq<u8>, b: Seq<u8>, c: Seq<u8>)
    ensures
        bytes_lt(a, b) && bytes_lt(b, c) ==> bytes_lt(a, c),
{
    if bytes_lt(a, b) && bytes_lt(b, c) {
        let i = choose|i: int| bytes_lt_at(a, b, i);
        let j = choose|j: int| bytes_lt_at(b, c, j);
        let at = if i <= j { i } else { j };
        assert forall|k: int| 0 <= k < at implies #[trigger] a[k] == c[k] by {
            assert(a[k] == b[k]);
            assert(b[k] == c[k]);
        }
        if i < j {
            assert(b[i] == c[i]);
        } else if j < i {
            assert(a[j] == b[j]);
        }
        assert(bytes_lt_at(a, c, at));
    }
}

proof fn lemma_bytes_lt_total(a: Seq<u8>, b: Seq<u8>, from: int)
    requires
        0 <= from <= a.len(),
        from <= b.len(),
        forall|i: int| 0 <= i < from ==> #[trigger] a[i] == b[i],
    ensures
        a == b || bytes_lt(a, b) || bytes_lt(b, a),
    decreases a.len() - from,
{
    if from == a.len() && from == b.len() {
        assert(a =~= b);
    } else if from == a.len() {
        assert(bytes_lt_at(a, b, from));
    } else if from == b.len() {
        assert(bytes_lt_at(b, a, from));
    } else if a[from] == b[from] {
        lemma_bytes_lt_total(a, b, from + 1);
    } else if a[from] < b[from] {
        assert(bytes_lt_at(a, b, from));
    } else {
        assert(bytes_lt_at(b, a, from));
    }
}

/// Whether the first byte string orders before the second.
fn bytes_before(a: &[u8], b: &[u8]) -> (before: bool)
    ensures
        before == bytes_lt(a@, b@),
{
    let mut i: usize = 0;
    while i < a.len() && i < b.len()
        invariant
            i <= a.len(),
            i <= b.len(),
            forall|k: int| 0 <= k < i ==> a@[k] == b@[k],
        decreases a.len() - i,
    {
        if a[i] < b[i] {
            assert(bytes_lt_at(a@, b@, i as int));
            return true;
        }
        if b[i] < a[i] {
            assert(bytes_lt_at(b@, a@, i as int));
            proof {
                lemma_bytes_lt_transitive(a@, b@, a@);
                lemma_bytes_lt_irreflexive(a@);
            }
            return false;
        }
        i = i + 1;
    }
    if i < b.len() {
        assert(bytes_lt_at(a@, b@, i as int));
        true
    } else {
        false
    }
}

/// Whether two texts are the same.
pub fn text_eq(a: &str, b: &str) -> (same: bool)
    ensures
        same == (a@ == b@),
{
    let same = bytes_eq(a.as_bytes(), b.as_bytes());
    proof {
        if same {
            lemma_utf8_injective(a@, b@);
        }
    }
    same
}

/// Whether the first text orders before the second.
pub fn text_before(a: &str, b: &str) -> (before: bool)
    ensures
        before == text_lt(a@, b@),
{
    bytes_before(a.as_bytes(), b.as_bytes())
}

/// Whether two optional texts are the same.
pub fn opt_text_eq(a: &Option<String>, b: &Option<String>) -> (same: bool)
    ensures
        same == (opt_text(*a) == opt_text(*b)),
{
    match (a, b) {
        (Some(x), Some(y)) => text_eq(x.as_str(), y.as_str()),
        (None, None) => true,
        _ => false,
    }
}

/// Whether an optional text is present and holds `expected`.
pub fn opt_text_is(value: &Option<String>, expected: &str) -> (same: bool)
    ensures
        same == (opt_text(*value) == Some(expected@)),
{
    match value {
        Some(text) => text_eq(text.as_str(), expected),
        None => false,
    }
}

/// Whether two lists hold the same texts in the same order.
pub fn texts_eq(a: &Vec<String>, b: &Vec<String>) -> (same: bool)
    ensures
        same == (texts(a@) == texts(b@)),
{
    if a.len() != b.len() {
        assert(texts(a@).len() != texts(b@).len());
        return false;
    }
    let mut i: usize = 0;
    while i < a.len()
        invariant
            i <= a.len(),
            a.len() == b.len(),
            forall|k: int| 0 <= k < i ==> texts(a@)[k] == texts(b@)[k],
        decreases a.len() - i,
    {
        if !text_eq(a[i].as_str(), b[i].as_str()) {
            assert(texts(a@)[i as int] != texts(b@)[i as int]);
            return false;
        }
        i = i + 1;
    }
    assert(texts(a@) =~= texts(b@));
    true
}

/// Whether a list holds a text.
pub fn texts_contain(values: &Vec<String>, wanted: &str) -> (found: bool)
    ensures
        found == texts(values@).contains(wanted@),
{
    let mut i: usize = 0;
    while i < values.len()
        invariant
            i <= values.len(),
            forall|k: int| 0 <= k < i ==> texts(values@)[k] != wanted@,
        decreases values.len() - i,
    {
        if text_eq(values[i].as_str(), wanted) {
            assert(texts(values@)[i as int] == wanted@);
            return true;
        }
        i = i + 1;
    }
    false
}

/// A copy of an optional text.
pub fn opt_text_copy(value: &Option<String>) -> (copy: Option<String>)
    ensures
        opt_text(copy) == opt_text(*value),
{
    match value {
        Some(text) => Some(text.clone()),
        None => None,
    }
}

/// A copy of a list of texts.
pub fn texts_copy(values: &Vec<String>) -> (copy: Vec<String>)
    ensures
        texts(copy@) == texts(values@),
{
    let mut copy: Vec<String> = Vec::new();
    let mut i: usize = 0;
    while i < values.len()
        invariant
            i <= values.len(),
            copy.len() == i,
            forall|k: int| 0 <= k < i ==> (#[trigger] copy@[k])@ == values@[k]@,
        decreases values.len() - i,
    {
        copy.push(values[i].clone());
        i = i + 1;
    }
    assert(texts(copy@) =~= texts(values@));
    copy
}

/// One text after another.
pub fn joined(first: &str, second: &str) -> (text: String)
    ensures
        text@ == first@ + second@,
{
    let mut text = first.to_owned();
    text.append(second);
    text
}

/// The characters of a text, one by one.
pub fn chars_of(text: &str) -> (characters: Vec<char>)
    ensures
        characters@ == text@,
{
    let mut characters: Vec<char> = Vec::new();
    for c in it: text.chars()
        invariant
            it.seq() == text@,
            characters@ == text@.take(it.index() as int),
    {
        characters.push(c);
        assert(characters@ =~= text@.take(it.index() as int + 1));
    }
    assert(text@.take(text@.len() as int) =~= text@);
    characters
}

/// The characters with the Unicode property `White_Space`.
pub open spec fn white_space(c: char) -> bool {
    let code = c as u32;
    ||| 0x9 <= code <= 0xd
    ||| code == 0x20
    ||| code == 0x85
    ||| code == 0xa0
    ||| code == 0x1680
    ||| 0x2000 <= code <= 0x200a
    ||| code == 0x2028
    ||| code == 0x2029
    ||| code == 0x202f
    ||| code == 0x205f
    ||| code == 0x3000
}

/// Whether a character has the Unicode property `White_Space`.
pub fn is_white_space(c: char) -> (white: bool)
    ensures
        white == white_space(c),
{
    let code: u32 = c as u32;
    (0x9 <= code && code <= 0xd) || code == 0x20 || code == 0x85 || code == 0xa0 || code == 0x1680
        || (0x2000 <= code && code <= 0x200a) || code == 0x2028 || code == 0x2029 || code == 0x202f
        || code == 0x205f || code == 0x3000
}

/// A text without the white space at its start.
pub open spec fn trim_start(text: Seq<char>) -> Seq<char>
    decreases text.len(),
{
    if text.len() > 0 && white_space(text[0]) {
        trim_start(text.drop_first())
    } else {
        text
    }
}

/// A text without the white space at its end.
pub open spec fn trim_end(text: Seq<char>) -> Seq<char>
    decreases text.len(),
{
    if text.len() > 0 && white_space(text.last()) {
        trim_end(text.drop_last())
    } else {
        text
    }
}

/// A text without the white space at its two ends.
pub open spec fn trimmed(text: Seq<char>) -> Seq<char> {
    trim_end(trim_start(text))
}

/// A text that holds nothing but white space.
pub open spec fn blank(text: Seq<char>) -> bool {
    forall|i: int| 0 <= i < text.len() ==> white_space(#[trigger] text[i])
}

proof fn lemma_trim_start(text: Seq<char>, from: int)
    requires
        0 <= from <= text.len(),
        forall|i: int| 0 <= i < from ==> white_space(#[trigger] text[i]),
        from == text.len() || !white_space(text[from]),
    ensures
        trim_start(text) == text.subrange(from, text.len() as int),
    decreases from,
{
    if from > 0 {
        let rest = text.drop_first();
        assert forall|i: int| 0 <= i < from - 1 implies white_space(#[trigger] rest[i]) by {
            assert(rest[i] == text[i + 1]);
        }
        if from < text.len() {
            assert(rest[from - 1] == text[from]);
        }
        lemma_trim_start(rest, from - 1);
        assert(rest.subrange(from - 1, rest.len() as int) =~= text.subrange(
            from,
            text.len() as int,
        ));
    } else {
        assert(text.subrange(0, text.len() as int) =~= text);
    }
}

proof fn lemma_trim_end(text: Seq<char>, to: int)
    requires
        0 <= to <= text.len(),
        forall|i: int| to <= i < text.len() ==> white_space(#[trigger] text[i]),
        to == 0 || !white_space(text[to - 1]),
    ensures
        trim_end(text) == text.subrange(0, to),
    decreases text.len() - to,
{
    if to < text.len() {
        lemma_trim_end(text.drop_last(), to);
        assert(text.drop_last().subrange(0, to) =~= text.subrange(0, to));
    } else {
        assert(text.subrange(0, to) =~= text);
    }
}

/// A trimmed text has no white space at either end, and only blank texts trim to nothing.
pub proof fn trimming_leaves_no_outer_space(text: Seq<char>)
    ensures
        trimmed(text).len() == 0 <==> blank(text),
        trimmed(text).len() > 0 ==> !white_space(trimmed(text)[0]) && !white_space(
            trimmed(text).last(),
        ),
        trimmed(trimmed(text)) == trimmed(text),
{
    let from = first_solid(text, 0);
    lemma_first_solid(text, 0);
    lemma_trim_start(text, from);
    let rest = text.subrange(from, text.len() as int);
    let to = last_solid(rest, rest.len() as int);
    lemma_last_solid(rest, rest.len() as int);
    lemma_trim_end(rest, to);
    let core = rest.subrange(0, to);
    assert(trimmed(text) == core);
    if from < text.len() {
        assert(rest[0] == text[from]);
        assert(to > 0);
        lemma_trim_start(core, 0);
        lemma_trim_end(core, to);
        assert(core.subrange(0, to) =~= core);
    }
}

spec fn first_solid(text: Seq<char>, from: int) -> int
    decreases text.len() - from,
{
    if from < text.len() && white_space(text[from]) {
        first_solid(text, from + 1)
    } else {
        from
    }
}

proof fn lemma_first_solid(text: Seq<char>, from: int)
    requires
        0 <= from <= text.len(),
    ensures
        from <= first_solid(text, from) <= text.len(),
        forall|i: int| from <= i < first_solid(text, from) ==> white_space(#[trigger] text[i]),
        first_solid(text, from) == text.len() || !white_space(text[first_solid(text, from)]),
    decreases text.len() - from,
{
    if from < text.len() && white_space(text[from]) {
        lemma_first_solid(text, from + 1);
    }
}

spec fn last_solid(text: Seq<char>, to: int) -> int
    decreases to,
{
    if 0 < to <= text.len() && white_space(text[to - 1]) {
        last_solid(text, to - 1)
    } else {
        to
    }
}

proof fn lemma_last_solid(text: Seq<char>, to: int)
    requires
        0 <= to <= text.len(),
    ensures
        0 <= last_solid(text, to) <= to,
        forall|i: int| last_solid(text, to) <= i < to ==> white_space(#[trigger] text[i]),
        last_solid(text, to) == 0 || !white_space(text[last_solid(text, to) - 1]),
    decreases to,
{
    if 0 < to && white_space(text[to - 1]) {
        lemma_last_solid(text, to - 1);
    }
}

/// A text without the white space at its two ends.
pub fn trim_text(text: &str) -> (core: &str)
    ensures
        core@ == trimmed(text@),
{
    let characters = chars_of(text);
    let len: usize = characters.len();
    let mut from: usize = 0;
    while from < len && is_white_space(characters[from])
        invariant
            from <= len,
            len == characters.len(),
            forall|i: int| 0 <= i < from ==> white_space(#[trigger] characters@[i]),
        decreases len - from,
    {
        from = from + 1;
    }
    let mut to: usize = len;
    while to > from && is_white_space(characters[to - 1])
        invariant
            from <= to <= len,
            len == characters.len(),
            forall|i: int| to <= i < len ==> white_space(#[trigger] characters@[i]),
        decreases to,
    {
        to = to - 1;
    }
    proof {
        lemma_trim_start(text@, from as int);
        let rest = text@.subrange(from as int, len as int);
        assert forall|i: int| to - from <= i < rest.len() implies white_space(
            #[trigger] rest[i],
        ) by {
            assert(rest[i] == characters@[i + from]);
        }
        if to > from {
            assert(rest[to - from - 1] == characters@[to - 1]);
        }
        lemma_trim_end(rest, to - from);
        assert(rest.subrange(0, to - from) =~= text@.subrange(from as int, to as int));
    }
    text.substring_char(from, to)
}

/// Whether a text holds nothing but white space.
pub fn is_blank(text: &str) -> (is_blank: bool)
    ensures
        is_blank == blank(text@),
{
    proof {
        trimming_leaves_no_outer_space(text@);
    }
    trim_text(text).is_empty()
}

/// The lower-case form of an ASCII letter; any other character itself.
pub open spec fn ascii_lower(c: char) -> char {
    if 'A' <= c <= 'Z' {
        (c as u32 + 32) as char
    } else {
        c
    }
}

/// The upper-case form of an ASCII letter; any other character itself.
pub open spec fn ascii_upper(c: char) -> char {
    if 'a' <= c <= 'z' {
        (c as u32 - 32) as char
    } else {
        c
    }
}

/// Calls `str::to_ascii_lowercase`: each ASCII letter in its lower case, any other character as it
/// is.
#[verifier::external_body]
pub(crate) fn ascii_lowercase(text: &str) -> (lower: String)
    ensures
        lower@ == text@.map_values(|c: char| ascii_lower(c)),
{
    text.to_ascii_lowercase()
}

/// Calls `str::to_ascii_uppercase`: each ASCII letter in its upper case, any other character as it
/// is.
#[verifier::external_body]
pub(crate) fn ascii_uppercase(text: &str) -> (upper: String)
    ensures
        upper@ == text@.map_values(|c: char| ascii_upper(c)),
{
    text.to_ascii_uppercase()
}

/// The number that a text of decimal digits stands for.
pub open spec fn digits_value(digits: Seq<char>) -> nat
    decreases digits.len(),
{
    if digits.len() == 0 {
        0
    } else {
        10 * digits_value(digits.drop_last()) + (digits.last() as u32 - '0' as u32) as nat
    }
}

/// One or more decimal digits and nothing else.
pub open spec fn all_digits(text: Seq<char>) -> bool {
    text.len() > 0 && forall|i: int| 0 <= i < text.len() ==> '0' <= #[trigger] text[i] <= '9'
}

/// A text without the plus sign that may stand before a number.
pub open spec fn unsigned_digits(text: Seq<char>) -> Seq<char> {
    if text.len() > 0 && text[0] == '+' {
        text.drop_first()
    } else {
        text
    }
}

/// The number that a text stands for: decimal digits, perhaps behind a plus sign, within 64 bits.
pub open spec fn parsed_u64(text: Seq<char>) -> Option<u64> {
    let digits = unsigned_digits(text);
    if all_digits(digits) && digits_value(digits) <= u64::MAX {
        Some(digits_value(digits) as u64)
    } else {
        None
    }
}

proof fn lemma_digits_grow(digits: Seq<char>, to: int)
    requires
        0 <= to <= digits.len(),
        forall|i: int| 0 <= i < digits.len() ==> '0' <= #[trigger] digits[i] <= '9',
    ensures
        digits_value(digits.take(to)) <= digits_value(digits),
    decreases digits.len() - to,
{
    if to < digits.len() {
        lemma_digits_grow(digits, to + 1);
        assert(digits.take(to + 1).drop_last() =~= digits.take(to));
    } else {
        assert(digits.take(to) =~= digits);
    }
}

/// Reads a number: decimal digits, perhaps behind a plus sign, within 64 bits.
pub fn parse_u64(text: &str) -> (value: Option<u64>)
    ensures
        value == parsed_u64(text@),
{
    let characters = chars_of(text);
    let len: usize = characters.len();
    let from: usize = if len > 0 && characters[0] == '+' {
        1
    } else {
        0
    };
    let ghost digits = unsigned_digits(text@);
    if from == len {
        return None;
    }
    let mut i: usize = from;
    while i < len
        invariant
            from <= i <= len,
            from <= 1,
            from < len,
            len == characters.len(),
            digits.len() == len - from,
            forall|k: int| 0 <= k < digits.len() ==> digits[k] == #[trigger] characters@[k + from],
            forall|k: int| 0 <= k < i - from ==> '0' <= #[trigger] digits[k] <= '9',
            digits == unsigned_digits(text@),
        decreases len - i,
    {
        let c: char = characters[i];
        assert(digits[i - from] == characters@[i - from + from]);
        if c < '0' || '9' < c {
            return None;
        }
        i = i + 1;
    }
    assert(all_digits(digits));
    let mut value: u64 = 0;
    i = from;
    assert(digits.take(0) =~= Seq::empty());
    while i < len
        invariant
            from <= i <= len,
            from <= 1,
            from < len,
            len == characters.len(),
            digits.len() == len - from,
            forall|k: int| 0 <= k < digits.len() ==> digits[k] == #[trigger] characters@[k + from],
            all_digits(digits),
            digits == unsigned_digits(text@),
            value == digits_value(digits.take(i - from)),
        decreases len - i,
    {
        assert(digits[i - from] == characters@[i - from + from]);
        let digit: u64 = (characters[i] as u32 - '0' as u32) as u64;
        proof {
            assert(digits.take(i - from + 1).drop_last() =~= digits.take(i - from));
            assert(digits.take(i - from + 1).last() == digits[i - from]);
            lemma_digits_grow(digits, i - from + 1);
        }
        let scaled: u64 = match value.checked_mul(10) {
            Some(scaled) => scaled,
            None => {
                return None;
            },
        };
        value = match scaled.checked_add(digit) {
            Some(sum) => sum,
            None => {
                return None;
            },
        };
        i = i + 1;
    }
    assert(digits.take(len - from) =~= digits);
    Some(value)
}

} // verus!
