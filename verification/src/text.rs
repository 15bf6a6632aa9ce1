//! Text as the module meets it: C strings, decoded bytes, decimal numbers and
//! the search for a word in an error message.

use vstd::prelude::*;
#[allow(unused_imports)]
use vstd::arithmetic::power::*;
use vstd::slice::*;
use vstd::string::*;
use vstd::utf8::*;

verus! {

/// `String::push` appends the character `c` to the text.
pub assume_specification[ String::push ](text: &mut String, c: char)
    ensures
        final(text)@ == old(text)@.push(c),
;

/// `String::pop` takes the last character off the text and returns it. On an
/// empty text it returns `None` and leaves the text empty.
pub assume_specification[ String::pop ](text: &mut String) -> (last: Option<char>)
    ensures
        old(text)@.len() == 0 ==> last is None && final(text)@ == old(text)@,
        old(text)@.len() > 0 ==> last == Some(old(text)@.last()) && final(text)@
            == old(text)@.drop_last(),
;

/// The text that `String::from_utf8_lossy` makes of a sequence of bytes.
pub uninterp spec fn lossy_text(bytes: Seq<u8>) -> Seq<char>;

/// Calls `String::from_utf8_lossy` and takes ownership of what it returns.
///
/// The result depends on the bytes alone, and valid UTF-8 is decoded as it
/// stands. How many replacement characters stand for an ill-formed stretch of
/// bytes is left unsaid.
#[verifier::external_body]
pub(crate) fn decode_lossy(bytes: &[u8]) -> (text: String)
    ensures
        text@ == lossy_text(bytes@),
        valid_utf8(bytes@) ==> text@ == decode_utf8(bytes@),
{
    String::from_utf8_lossy(bytes).into_owned()
}

/// No byte of the sequence is zero, so that it can be handed over as a C
/// string.
pub open spec fn no_nul(bytes: Seq<u8>) -> bool {
    forall|i: int| 0 <= i < bytes.len() ==> bytes[i] != 0
}

/// `position` is the place of the first zero byte.
pub open spec fn first_nul(bytes: Seq<u8>, position: int) -> bool {
    &&& 0 <= position < bytes.len()
    &&& bytes[position] == 0
    &&& forall|i: int| 0 <= i < position ==> bytes[i] != 0
}

/// The bytes of a text, without the terminator, for use as a C string; or the
/// position of the zero byte that rules this out.
pub fn c_string(text: &str) -> (result: Result<Vec<u8>, usize>)
    ensures
        match result {
            Ok(bytes) => bytes@ == encode_utf8(text@) && no_nul(bytes@),
            Err(position) => first_nul(encode_utf8(text@), position as int),
        },
        result is Ok <==> !encode_utf8(text@).contains(0u8),
        result matches Err(position) ==> encode_utf8(text@).index_of_first(0u8) == Some(
            position as int,
        ),
{
    proof {
        c_strings_hold_no_zero(encode_utf8(text@));
    }
    let bytes: &[u8] = text.as_bytes();
    let mut i: usize = 0;
    while i < bytes.len()
        invariant
            i <= bytes@.len(),
            bytes@ == encode_utf8(text@),
            forall|j: int| 0 <= j < i ==> bytes@[j] != 0,
        decreases bytes@.len() - i,
    {
        if bytes[i] == 0 {
            assert(first_nul(encode_utf8(text@), i as int));
            assert(bytes@.contains(bytes@[i as int]));
            proof {
                c_strings_hold_no_zero(encode_utf8(text@));
            }
            return Err(i);
        }
        i += 1;
    }
    Ok(slice_to_vec(bytes))
}

/// A text that passes as a C string comes back unchanged when its bytes are
/// decoded.
pub proof fn c_string_round_trip(text: Seq<char>)
    ensures
        valid_utf8(encode_utf8(text)),
        decode_utf8(encode_utf8(text)) == text,
{
    encode_utf8_valid_utf8(text);
    encode_utf8_decode_utf8(text);
}

/// Two texts are the same.
pub fn same_text(left: &str, right: &str) -> (same: bool)
    ensures
        same == (left@ == right@),
{
    left.to_owned() == right.to_owned()
}

/// The characters of a text.
pub(crate) fn characters(text: &str) -> (chars: Vec<char>)
    ensures
        chars@ == text@,
{
    let mut chars: Vec<char> = Vec::new();
    for c in it: text.chars()
        invariant
            it.seq() == text@,
            chars@ == text@.take(it.index() as int),
    {
        chars.push(c);
    }
    assert(text@.take(text@.len() as int) == text@);
    chars
}

/// `part` stands in `text`, starting at `at`.
pub open spec fn stands_at(text: Seq<char>, part: Seq<char>, at: int) -> bool {
    &&& 0 <= at
    &&& at + part.len() <= text.len()
    &&& text.subrange(at, at + part.len()) == part
}

/// `part` stands somewhere in `text`.
pub open spec fn occurs(text: Seq<char>, part: Seq<char>) -> bool {
    exists|at: int| stands_at(text, part, at)
}

fn matches_at(text: &Vec<char>, part: &Vec<char>, at: usize) -> (found: bool)
    requires
        at + part@.len() <= text@.len(),
    ensures
        found == stands_at(text@, part@, at as int),
{
    let length: usize = text.len();
    let mut i: usize = 0;
    while i < part.len()
        invariant
            i <= part@.len(),
            length == text@.len(),
            at + part@.len() <= length,
            forall|j: int| 0 <= j < i ==> text@[at + j] == part@[j],
        decreases part@.len() - i,
    {
        if text[at + i] != part[i] {
            assert(text@.subrange(at as int, at + part@.len())[i as int] != part@[i as int]);
            return false;
        }
        i += 1;
    }
    assert(text@.subrange(at as int, at + part@.len()) =~= part@);
    true
}

/// Whether `part` stands somewhere in `text`.
pub fn contains_text(text: &str, part: &str) -> (found: bool)
    ensures
        found == occurs(text@, part@),
{
    let chars: Vec<char> = characters(text);
    let wanted: Vec<char> = characters(part);
    if wanted.len() > chars.len() {
        return false;
    }
    let last: usize = chars.len() - wanted.len();
    let mut at: usize = 0;
    while at <= last
        invariant
            chars@ == text@,
            wanted@ == part@,
            last + wanted@.len() == chars@.len(),
            at <= last + 1,
            forall|i: int| 0 <= i < at ==> !stands_at(text@, part@, i),
        decreases last + 1 - at,
    {
        if matches_at(&chars, &wanted, at) {
            return true;
        }
        if at == last {
            assert forall|i: int| !stands_at(text@, part@, i) by {}
            return false;
        }
        at += 1;
    }
    false
}

/// `c` is one of `0` to `9`.
pub open spec fn is_digit(c: char) -> bool {
    '0' <= c <= '9'
}

/// The text is made of decimal digits only.
pub open spec fn all_digits(text: Seq<char>) -> bool {
    forall|i: int| 0 <= i < text.len() ==> is_digit(#[trigger] text[i])
}

/// The number that a sequence of decimal digits writes.
pub open spec fn digits_value(digits: Seq<char>) -> nat
    decreases digits.len(),
{
    if digits.len() == 0 {
        0
    } else {
        (digits_value(digits.drop_last()) * 10 + (digits.last() as int - '0' as int)) as nat
    }
}

/// The count that a text writes: one digit or more, no other character, and a
/// value that fits in 32 bits.
pub open spec fn count_value(text: Seq<char>) -> Option<u32> {
    if text.len() > 0 && all_digits(text) && digits_value(text) <= u32::MAX {
        Some(digits_value(text) as u32)
    } else {
        None
    }
}

proof fn digits_value_grows(digits: Seq<char>, upto: int)
    requires
        all_digits(digits),
        0 <= upto <= digits.len(),
    ensures
        digits_value(digits.take(upto)) <= digits_value(digits),
    decreases digits.len() - upto,
{
    if upto == digits.len() {
        assert(digits.take(upto) =~= digits);
    } else {
        digits_value_grows(digits, upto + 1);
        assert(digits.take(upto + 1).drop_last() =~= digits.take(upto));
        assert(is_digit(digits[upto]));
    }
}

/// Reads a count, starting at the character `from`.
pub(crate) fn parse_count(text: &Vec<char>, from: usize) -> (count: Option<u32>)
    requires
        from <= text@.len(),
    ensures
        count == count_value(text@.skip(from as int)),
{
    let ghost digits = text@.skip(from as int);
    if from == text.len() {
        return None;
    }
    let mut value: u32 = 0;
    let mut i: usize = from;
    assert(digits.take(0).len() == 0);
    while i < text.len()
        invariant
            from <= i <= text@.len(),
            from < text@.len(),
            digits == text@.skip(from as int),
            all_digits(digits.take(i - from)),
            value == digits_value(digits.take(i - from)),
        decreases text@.len() - i,
    {
        let c: char = text[i];
        assert(digits[i - from] == c);
        if !('0' <= c && c <= '9') {
            assert(!is_digit(digits[i - from]));
            return None;
        }
        let ghost shorter = digits.take(i - from);
        let ghost longer = digits.take(i - from + 1);
        assert(longer.drop_last() =~= shorter);
        assert(all_digits(longer)) by {
            assert forall|j: int| 0 <= j < longer.len() implies is_digit(#[trigger] longer[j]) by {
                if j < i - from {
                    assert(is_digit(shorter[j]));
                }
            }
        }
        let digit: u64 = c as u64 - '0' as u64;
        let next: u64 = value as u64 * 10 + digit;
        assert(next == digits_value(longer));
        if next > u32::MAX as u64 {
            proof {
                if all_digits(digits) {
                    digits_value_grows(digits, i - from + 1);
                }
            }
            return None;
        }
        value = next as u32;
        i += 1;
    }
    assert(digits.take(text@.len() - from) =~= digits);
    Some(value)
}

/// The decimal digit of a number below ten.
pub open spec fn digit_char(digit: nat) -> char {
    ('0' as int + digit) as char
}

/// A number in decimal, without leading zeros.
pub open spec fn decimal(number: nat) -> Seq<char>
    decreases number,
{
    if number < 10 {
        seq![digit_char(number)]
    } else {
        decimal(number / 10).push(digit_char(number % 10))
    }
}

/// Appends a number in decimal.
pub(crate) fn append_decimal(text: &mut String, number: u64)
    ensures
        final(text)@ == old(text)@ + decimal(number as nat),
    decreases number,
{
    if number >= 10 {
        append_decimal(text, number / 10);
    }
    let digit: u8 = (number % 10) as u8;
    text.push((48 + digit) as char);
}

proof fn decimal_digits(number: nat)
    ensures
        decimal(number).len() > 0,
        all_digits(decimal(number)),
        digits_value(decimal(number)) == number,
    decreases number,
{
    if number < 10 {
        let text = decimal(number);
        assert(text.drop_last() =~= Seq::<char>::empty());
        assert(text.last() == digit_char(number));
        assert(digits_value(text.drop_last()) == 0);
    } else {
        let front = decimal(number / 10);
        let text = decimal(number);
        decimal_digits(number / 10);
        assert(text.drop_last() =~= front);
        assert(text.last() == digit_char(number % 10));
        assert forall|i: int| 0 <= i < text.len() implies is_digit(#[trigger] text[i]) by {
            if i < front.len() {
                assert(is_digit(front[i]));
            }
        }
    }
}

/// A count written in decimal is read back as the same count.
pub proof fn count_round_trip(count: u32)
    ensures
        count_value(decimal(count as nat)) == Some(count),
{
    decimal_digits(count as nat);
}

/// A sequence of bytes passes as a C string if and only if the byte zero does
/// not occur in it, and where it occurs there is a first place.
pub proof fn c_strings_hold_no_zero(bytes: Seq<u8>)
    ensures
        no_nul(bytes) <==> !bytes.contains(0u8),
        forall|position: int|
            #[trigger] first_nul(bytes, position) <==> bytes.index_of_first(0u8) == Some(position),
{
    bytes.index_of_first_ensures(0u8);
    if bytes.contains(0u8) {
        let k = bytes.index_of(0u8);
        assert(bytes[k] == 0);
    }
    if !no_nul(bytes) {
        let k = choose|k: int| 0 <= k < bytes.len() && bytes[k] == 0;
        assert(bytes.contains(bytes[k]));
    }
    assert forall|position: int|
        #[trigger] first_nul(bytes, position) <==> bytes.index_of_first(0u8) == Some(position) by {
        if first_nul(bytes, position) {
            assert(bytes.contains(bytes[position]));
            let first = bytes.index_of_first(0u8)->0;
            if first < position {
                assert(bytes[first] != 0);
            }
        }
    }
}

/// A part occurs in a text if and only if the text is made of something, the
/// part, and something more, in this order.
pub proof fn occurring_is_standing_inside(text: Seq<char>, part: Seq<char>)
    ensures
        occurs(text, part) <==> exists|front: Seq<char>, back: Seq<char>|
            text == #[trigger] (front + part + back),
{
    if occurs(text, part) {
        let at = choose|at: int| stands_at(text, part, at);
        let front = text.take(at);
        let back = text.skip(at + part.len());
        assert(text.subrange(at, at + part.len()) == part);
        assert(text =~= front + part + back);
    }
    if exists|front: Seq<char>, back: Seq<char>| text == #[trigger] (front + part + back) {
        let (front, back) = choose|front: Seq<char>, back: Seq<char>|
            text == #[trigger] (front + part + back);
        assert(text.subrange(front.len() as int, (front.len() + part.len()) as int) =~= part);
        assert(stands_at(text, part, front.len() as int));
    }
}

/// The number that decimal digits write, each counting ten times as much as
/// the one after it.
pub open spec fn place_value(digits: Seq<char>) -> int
    decreases digits.len(),
{
    if digits.len() == 0 {
        0
    } else {
        (digits[0] as int - 48) * pow(10, (digits.len() - 1) as nat) + place_value(digits.skip(1))
    }
}

/// The text is one character or more, each from `0` to `9`, and writes this
/// number.
pub open spec fn writes(text: Seq<char>, number: int) -> bool {
    &&& text.len() > 0
    &&& forall|i: int| 0 <= i < text.len() ==> 48 <= #[trigger] text[i] as int <= 57
    &&& place_value(text) == number
}

proof fn place_value_push(digits: Seq<char>, last: char)
    ensures
        place_value(digits.push(last)) == place_value(digits) * 10 + (last as int - 48),
    decreases digits.len(),
{
    let more = digits.push(last);
    if digits.len() == 0 {
        assert(more.skip(1) =~= Seq::<char>::empty());
        lemma_pow0(10);
        assert(place_value(more.skip(1)) == 0);
        assert(place_value(more) == (last as int - 48) * 1 + 0);
    } else {
        let rest = digits.skip(1);
        assert(more.skip(1) =~= rest.push(last));
        place_value_push(rest, last);
        let lead = digits[0] as int - 48;
        let n = (digits.len() - 1) as nat;
        lemma_pow_adds(10, 1, n);
        lemma_pow1(10);
        assert(pow(10, (n + 1) as nat) == 10 * pow(10, n));
        assert(lead * (10 * pow(10, n)) == lead * pow(10, n) * 10) by (nonlinear_arith);
        assert(place_value(more) == lead * pow(10, (n + 1) as nat) + place_value(more.skip(1)));
    }
}

proof fn both_values_agree(digits: Seq<char>)
    requires
        forall|i: int| 0 <= i < digits.len() ==> 48 <= #[trigger] digits[i] as int <= 57,
    ensures
        digits_value(digits) == place_value(digits),
    decreases digits.len(),
{
    if digits.len() > 0 {
        let front = digits.drop_last();
        assert forall|i: int| 0 <= i < front.len() implies 48 <= #[trigger] front[i] as int
            <= 57 by {
            assert(front[i] == digits[i]);
        }
        both_values_agree(front);
        assert(48 <= digits[digits.len() - 1] as int <= 57);
        place_value_push(front, digits.last());
        assert(front.push(digits.last()) =~= digits);
    }
}

/// A text is read as a count if and only if it writes a number that fits in 32
/// bits, and the count is that number. Leading zeros do no harm.
pub proof fn count_is_the_number_written(text: Seq<char>, count: u32)
    ensures
        count_value(text) == Some(count) <==> writes(text, count as int),
        count_value(text) is None <==> !(exists|number: int|
            0 <= number <= 0xffff_ffff && #[trigger] writes(text, number)),
{
    let digits = forall|i: int| 0 <= i < text.len() ==> 48 <= #[trigger] text[i] as int <= 57;
    assert(all_digits(text) <==> digits) by {
        if digits {
            assert forall|i: int| 0 <= i < text.len() implies is_digit(#[trigger] text[i]) by {
                assert(48 <= text[i] as int <= 57);
            }
        }
        if all_digits(text) {
            assert forall|i: int| 0 <= i < text.len() implies 48 <= #[trigger] text[i] as int
                <= 57 by {
                assert(is_digit(text[i]));
            }
        }
    }
    if digits {
        both_values_agree(text);
        if text.len() > 0 && digits_value(text) <= u32::MAX {
            assert(writes(text, digits_value(text) as int));
        }
    }
}

/// A number in decimal writes that number, with no zero in front of it.
pub proof fn decimal_writes_the_number(number: nat)
    ensures
        writes(decimal(number), number as int),
        decimal(number).len() > 1 ==> decimal(number)[0] != '0',
    decreases number,
{
    decimal_digits(number);
    let text = decimal(number);
    assert forall|i: int| 0 <= i < text.len() implies 48 <= #[trigger] text[i] as int <= 57 by {
        assert(is_digit(text[i]));
    }
    both_values_agree(text);
    if number >= 10 {
        decimal_writes_the_number(number / 10);
        let front = decimal(number / 10);
        assert(text[0] == front[0]);
        if front.len() == 1 {
            assert(number / 10 < 10) by {
                if number / 10 >= 10 {
                    decimal_digits(number / 10 / 10);
                    assert(front.len() == decimal(number / 10 / 10).len() + 1);
                }
            }
        }
    }
}

} // verus!
