//! The text that a refresh command prints: a credential and its lifetime in
//! seconds, set apart by white space.

use vstd::prelude::*;
use vstd::string::*;
use vstd::utf8::*;
use crate::error::AuthError;
use crate::text::chars_of;

verus! {

/// The characters that set fields apart: those with the Unicode property
/// `White_Space`.
pub open spec fn spec_is_whitespace(c: char) -> bool {
    let u: u32 = c as u32;
    (0x09 <= u && u <= 0x0D) || u == 0x20 || u == 0x85 || u == 0xA0 || u == 0x1680 || (0x2000 <= u
        && u <= 0x200A) || u == 0x2028 || u == 0x2029 || u == 0x202F || u == 0x205F || u == 0x3000
}

/// Where the run of characters other than white space that holds position
/// `i` comes to its end: the first position from `i` on that holds white
/// space, or the length of the text.
pub open spec fn word_end(s: Seq<char>, i: int) -> int
    decreases s.len() - i,
{
    if 0 <= i < s.len() && !spec_is_whitespace(s[i]) {
        word_end(s, i + 1)
    } else {
        i
    }
}

/// The fields of `s` that begin at position `i` or later, in order.
pub open spec fn fields_from(s: Seq<char>, i: int) -> Seq<Seq<char>>
    decreases s.len() - i,
{
    if i < 0 || i >= s.len() {
        Seq::empty()
    } else if spec_is_whitespace(s[i]) {
        fields_from(s, i + 1)
    } else {
        proof {
            lemma_word_end_bounds(s, i);
        }
        seq![s.subrange(i, word_end(s, i))] + fields_from(s, word_end(s, i))
    }
}

/// The fields of a text: its longest runs of characters other than white
/// space, in order. White space before the first field and after the last
/// one sets no empty field apart.
pub open spec fn spec_split_whitespace(s: Seq<char>) -> Seq<Seq<char>> {
    fields_from(s, 0)
}

/// A run ends within the text, and after its first character where that is
/// no white space.
pub proof fn lemma_word_end_bounds(s: Seq<char>, i: int)
    requires
        0 <= i <= s.len(),
    ensures
        i <= word_end(s, i) <= s.len(),
        i < s.len() && !spec_is_whitespace(s[i]) ==> i < word_end(s, i),
        forall|k: int| i <= k < word_end(s, i) ==> !spec_is_whitespace(#[trigger] s[k]),
        word_end(s, i) < s.len() ==> spec_is_whitespace(s[word_end(s, i)]),
    decreases s.len() - i,
{
    if i < s.len() && !spec_is_whitespace(s[i]) {
        lemma_word_end_bounds(s, i + 1);
    }
}

/// Every field that begins at position `i` or later holds at least one
/// character, and none that is white space.
pub proof fn lemma_fields_hold_no_whitespace(s: Seq<char>, i: int, k: int)
    requires
        0 <= i <= s.len(),
        0 <= k < fields_from(s, i).len(),
    ensures
        fields_from(s, i)[k].len() > 0,
        forall|j: int|
            0 <= j < fields_from(s, i)[k].len() ==> !spec_is_whitespace(
                #[trigger] fields_from(s, i)[k][j],
            ),
    decreases s.len() - i,
{
    if i < s.len() {
        if spec_is_whitespace(s[i]) {
            lemma_fields_hold_no_whitespace(s, i + 1, k);
        } else {
            lemma_word_end_bounds(s, i);
            if k > 0 {
                lemma_fields_hold_no_whitespace(s, word_end(s, i), k - 1);
            }
        }
    }
}

/// Whether a character sets fields apart.
pub fn is_whitespace(c: char) -> (space: bool)
    ensures
        space == spec_is_whitespace(c),
{
    let u: u32 = c as u32;
    (0x09 <= u && u <= 0x0D) || u == 0x20 || u == 0x85 || u == 0xA0 || u == 0x1680 || (0x2000 <= u
        && u <= 0x200A) || u == 0x2028 || u == 0x2029 || u == 0x202F || u == 0x205F || u == 0x3000
}

/// The texts that lie between the given bounds, each a first position and
/// the position after the last.
pub open spec fn texts_between(s: Seq<char>, bounds: Seq<(usize, usize)>) -> Seq<Seq<char>> {
    Seq::new(bounds.len(), |k: int| s.subrange(bounds[k].0 as int, bounds[k].1 as int))
}

/// Finds the fields of a text: for each field, in order, the position of its
/// first character and the position after its last.
pub fn field_bounds(chars: &[char]) -> (bounds: Vec<(usize, usize)>)
    ensures
        forall|k: int|
            0 <= k < bounds@.len() ==> (#[trigger] bounds@[k]).0 < bounds@[k].1 <= chars@.len(),
        texts_between(chars@, bounds@) == spec_split_whitespace(chars@),
{
    let n: usize = chars.len();
    let mut bounds: Vec<(usize, usize)> = Vec::new();
    let mut i: usize = 0;
    while i < n
        invariant
            i <= n,
            n == chars@.len(),
            forall|k: int|
                0 <= k < bounds@.len() ==> (#[trigger] bounds@[k]).0 < bounds@[k].1 <= chars@.len(),
            texts_between(chars@, bounds@) + fields_from(chars@, i as int) == spec_split_whitespace(
                chars@,
            ),
        decreases n - i,
    {
        if is_whitespace(chars[i]) {
            i += 1;
        } else {
            let start: usize = i;
            while i < n && !is_whitespace(chars[i])
                invariant
                    start <= i <= n,
                    n == chars@.len(),
                    word_end(chars@, i as int) == word_end(chars@, start as int),
                decreases n - i,
            {
                i += 1;
            }
            let ghost before = bounds@;
            bounds.push((start, i));
            proof {
                assert(texts_between(chars@, bounds@) =~= texts_between(chars@, before) + seq![
                    chars@.subrange(start as int, i as int),
                ]);
            }
        }
    }
    bounds
}

/// Whether a character is one of the ten ASCII digits.
pub open spec fn is_digit(c: char) -> bool {
    '0' <= c && c <= '9'
}

/// The number that a digit stands for.
pub open spec fn digit_value(c: char) -> int {
    (c as u32) - ('0' as u32)
}

/// The number that a run of digits stands for in base ten.
pub open spec fn digits_value(s: Seq<char>) -> int
    decreases s.len(),
{
    if s.len() == 0 {
        0
    } else {
        digits_value(s.drop_last()) * 10 + digit_value(s.last())
    }
}

/// Whether every character of a text is a digit.
pub open spec fn all_digits(s: Seq<char>) -> bool {
    forall|i: int| 0 <= i < s.len() ==> is_digit(#[trigger] s[i])
}

/// Whether a text begins with a sign.
pub open spec fn has_sign(s: Seq<char>) -> bool {
    s.len() > 0 && (s[0] == '-' || s[0] == '+')
}

/// The digits of a number: the text without its sign.
pub open spec fn unsigned_part(s: Seq<char>) -> Seq<char> {
    if has_sign(s) {
        s.skip(1)
    } else {
        s
    }
}

/// The number that a text stands for, whether or not it fits any machine
/// integer.
pub open spec fn signed_value(s: Seq<char>) -> int {
    if s.len() > 0 && s[0] == '-' {
        -digits_value(unsigned_part(s))
    } else {
        digits_value(unsigned_part(s))
    }
}

/// The signed 64-bit integer that a text stands for: an optional `+` or `-`
/// and then one digit or more, with nothing before, between or after them.
/// A text of another form stands for no integer, and so does a number that
/// does not fit 64 bits.
pub open spec fn spec_parse_i64(s: Seq<char>) -> Option<i64> {
    if unsigned_part(s).len() > 0 && all_digits(unsigned_part(s)) && i64::MIN <= signed_value(s)
        <= i64::MAX {
        Some(signed_value(s) as i64)
    } else {
        None
    }
}

/// A run of digits stands for no less than any run it begins with.
pub proof fn lemma_digits_value_grows(s: Seq<char>, k: int)
    requires
        all_digits(s),
        0 <= k <= s.len(),
    ensures
        0 <= digits_value(s.take(k)) <= digits_value(s),
    decreases s.len() - k,
{
    if k == s.len() {
        assert(s.take(k) =~= s);
        lemma_digits_value_nonnegative(s);
    } else {
        lemma_digits_value_grows(s, k + 1);
        let longer = s.take(k + 1);
        assert(longer.drop_last() =~= s.take(k));
        lemma_digits_value_nonnegative(s.take(k));
    }
}

/// A run of digits stands for a number that is not negative.
pub proof fn lemma_digits_value_nonnegative(s: Seq<char>)
    requires
        all_digits(s),
    ensures
        0 <= digits_value(s),
    decreases s.len(),
{
    if s.len() > 0 {
        lemma_digits_value_nonnegative(s.drop_last());
    }
}

/// The largest magnitude that a signed 64-bit integer can have: that of its
/// least value.
pub const MAX_MAGNITUDE: u128 = 0x8000_0000_0000_0000;

/// Reads the signed 64-bit integer in base ten that stands between two
/// positions of a text.
fn parse_i64_between(chars: &[char], from: usize, to: usize) -> (value: Option<i64>)
    requires
        from <= to <= chars@.len(),
    ensures
        value == spec_parse_i64(chars@.subrange(from as int, to as int)),
{
    let ghost text = chars@.subrange(from as int, to as int);
    let ghost digits = unsigned_part(text);
    let negative = from < to && chars[from] == '-';
    let start: usize = if from < to && (chars[from] == '-' || chars[from] == '+') {
        from + 1
    } else {
        from
    };
    if start == to {
        return None;
    }
    let mut magnitude: u128 = 0;
    let mut i: usize = start;
    while i < to
        invariant
            from <= start <= i <= to <= chars@.len(),
            text == chars@.subrange(from as int, to as int),
            digits == unsigned_part(text),
            digits == chars@.subrange(start as int, to as int),
            forall|j: int| 0 <= j < i - start ==> is_digit(#[trigger] digits[j]),
            magnitude == digits_value(digits.take(i - start)),
            magnitude <= MAX_MAGNITUDE,
        decreases to - i,
    {
        let c = chars[i];
        if !('0' <= c && c <= '9') {
            assert(!is_digit(digits[i - start]));
            return None;
        }
        let digit: u128 = ((c as u32) - ('0' as u32)) as u128;
        proof {
            let longer = digits.take(i - start + 1);
            assert(longer.drop_last() =~= digits.take(i - start));
        }
        magnitude = magnitude * 10 + digit;
        i += 1;
        if magnitude > MAX_MAGNITUDE {
            proof {
                if all_digits(digits) {
                    lemma_digits_value_grows(digits, i - start);
                }
            }
            return None;
        }
    }
    proof {
        assert(digits.take(i - start) =~= digits);
    }
    if negative {
        if magnitude == MAX_MAGNITUDE {
            Some(i64::MIN)
        } else {
            Some(-(magnitude as i64))
        }
    } else if magnitude < MAX_MAGNITUDE {
        Some(magnitude as i64)
    } else {
        None
    }
}

/// Reads a signed 64-bit integer in base ten.
pub fn parse_i64(text: &str) -> (value: Option<i64>)
    ensures
        value == spec_parse_i64(text@),
{
    let chars = chars_of(text);
    proof {
        assert(chars@.subrange(0, chars@.len() as int) =~= text@);
    }
    parse_i64_between(chars.as_slice(), 0, chars.len())
}

/// What a refresh command has to print: two fields, of which the first is
/// the credential and the second its lifetime in seconds. Any other number
/// of fields, or a second field that is no 64-bit integer, is refused with
/// `InvalidRefreshOutput`.
pub open spec fn spec_parse_output(text: Seq<char>) -> Result<(Seq<char>, i64), AuthError> {
    let fields = spec_split_whitespace(text);
    if fields.len() != 2 {
        Err(AuthError::InvalidRefreshOutput)
    } else {
        match spec_parse_i64(fields[1]) {
            Some(lifetime) => Ok((fields[0], lifetime)),
            None => Err(AuthError::InvalidRefreshOutput),
        }
    }
}

/// What the bytes that a refresh command printed stand for. Bytes that are
/// no well-formed UTF-8 cannot be read as text and are refused with
/// `CommandExecutionError`; the text of any others is held to
/// [`spec_parse_output`].
pub open spec fn spec_read_output(bytes: Seq<u8>) -> Result<(Seq<char>, i64), AuthError> {
    if valid_utf8(bytes) {
        spec_parse_output(decode_utf8(bytes))
    } else {
        Err(AuthError::CommandExecutionError)
    }
}

/// What a parsed output is as plain values.
pub open spec fn output_view(parsed: Result<(String, i64), AuthError>) -> Result<
    (Seq<char>, i64),
    AuthError,
> {
    match parsed {
        Ok((credential, lifetime)) => Ok((credential@, lifetime)),
        Err(e) => Err(e),
    }
}

/// Reads the credential and its lifetime from the text that a refresh
/// command printed.
pub fn parse_output(text: &str) -> (parsed: Result<(String, i64), AuthError>)
    ensures
        output_view(parsed) == spec_parse_output(text@),
{
    let chars = chars_of(text);
    let fields = field_bounds(chars.as_slice());
    if fields.len() != 2 {
        return Err(AuthError::InvalidRefreshOutput);
    }
    let (start, end): (usize, usize) = fields[0];
    let (from, to): (usize, usize) = fields[1];
    match parse_i64_between(chars.as_slice(), from, to) {
        Some(lifetime) => Ok((text.substring_char(start, end).to_owned(), lifetime)),
        None => Err(AuthError::InvalidRefreshOutput),
    }
}

/// Calls `String::from_utf8`. Taken from its documentation and not proved
/// here: the call succeeds on the byte sequences that are well-formed UTF-8
/// and on no others, and the text it then returns is the one that encodes to
/// these bytes.
#[verifier::external_body]
fn string_from_utf8(bytes: Vec<u8>) -> (text: Option<String>)
    ensures
        text is Some <==> valid_utf8(bytes@),
        text matches Some(t) ==> encode_utf8(t@) == bytes@,
{
    match String::from_utf8(bytes) {
        Ok(text) => Some(text),
        Err(_) => None,
    }
}

/// Reads the credential and its lifetime from the bytes that a refresh
/// command printed.
pub fn read_output(output: Vec<u8>) -> (parsed: Result<(String, i64), AuthError>)
    ensures
        output_view(parsed) == spec_read_output(output@),
{
    match string_from_utf8(output) {
        Some(text) => {
            proof {
                encode_utf8_decode_utf8(text@);
            }
            parse_output(text.as_str())
        },
        None => Err(AuthError::CommandExecutionError),
    }
}

} // verus!
