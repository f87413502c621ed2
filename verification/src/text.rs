//! Small pieces of text handling that the rest of the crate shares: lower-case
//! hexadecimal, decimal numbers, and comparing and cutting strings.

use vstd::prelude::*;
use vstd::std_specs::iter::IteratorSpec;

verus! {

/// The lower-case hexadecimal digit for a value below sixteen.
pub open spec fn hex_char(nibble: u8) -> char {
    if nibble == 0 {
        '0'
    } else if nibble == 1 {
        '1'
    } else if nibble == 2 {
        '2'
    } else if nibble == 3 {
        '3'
    } else if nibble == 4 {
        '4'
    } else if nibble == 5 {
        '5'
    } else if nibble == 6 {
        '6'
    } else if nibble == 7 {
        '7'
    } else if nibble == 8 {
        '8'
    } else if nibble == 9 {
        '9'
    } else if nibble == 10 {
        'a'
    } else if nibble == 11 {
        'b'
    } else if nibble == 12 {
        'c'
    } else if nibble == 13 {
        'd'
    } else if nibble == 14 {
        'e'
    } else {
        'f'
    }
}

/// Whether `c` is one of `0`..`9`, `a`..`f`.
pub open spec fn is_lower_hex(c: char) -> bool {
    ('0' <= c && c <= '9') || ('a' <= c && c <= 'f')
}

/// Two lower-case hexadecimal digits for each byte, the high half first.
pub open spec fn hex_lower(bytes: Seq<u8>) -> Seq<char>
    decreases bytes.len(),
{
    if bytes.len() == 0 {
        Seq::empty()
    } else {
        hex_lower(bytes.drop_last()).push(hex_char(bytes.last() / 16)).push(
            hex_char(bytes.last() % 16),
        )
    }
}

/// The encoding is twice as long as the input and holds lower-case
/// hexadecimal digits only.
pub proof fn lemma_hex_lower_shape(bytes: Seq<u8>)
    ensures
        hex_lower(bytes).len() == 2 * bytes.len(),
        forall|i: int| 0 <= i < hex_lower(bytes).len() ==> is_lower_hex(#[trigger] hex_lower(bytes)[i]),
    decreases bytes.len(),
{
    if bytes.len() > 0 {
        lemma_hex_lower_shape(bytes.drop_last());
    }
}

/// Each byte shows in its own two digits: the digit at `2 * i` is the high
/// half of byte `i`, the one after it the low half.
pub proof fn lemma_hex_lower_digits(bytes: Seq<u8>, i: int)
    requires
        0 <= i < bytes.len(),
    ensures
        hex_lower(bytes).len() == 2 * bytes.len(),
        hex_lower(bytes)[2 * i] == hex_char(bytes[i] / 16),
        hex_lower(bytes)[2 * i + 1] == hex_char(bytes[i] % 16),
    decreases bytes.len(),
{
    lemma_hex_lower_shape(bytes);
    lemma_hex_lower_shape(bytes.drop_last());
    if i < bytes.len() - 1 {
        lemma_hex_lower_digits(bytes.drop_last(), i);
    }
}

/// Distinct byte strings have distinct encodings.
pub proof fn lemma_hex_lower_injective(a: Seq<u8>, b: Seq<u8>)
    requires
        hex_lower(a) == hex_lower(b),
    ensures
        a == b,
{
    lemma_hex_lower_shape(a);
    lemma_hex_lower_shape(b);
    assert(a.len() == b.len());
    assert forall|i: int| 0 <= i < a.len() implies a[i] == b[i] by {
        lemma_hex_lower_digits(a, i);
        lemma_hex_lower_digits(b, i);
        let x = a[i];
        let y = b[i];
        assert(hex_char(x / 16) == hex_char(y / 16));
        assert(hex_char(x % 16) == hex_char(y % 16));
        assert(x / 16 == y / 16);
        assert(x % 16 == y % 16);
    }
    assert(a =~= b);
}

fn nibble_text(nibble: u8) -> (text: &'static str)
    requires
        nibble < 16,
    ensures
        text@ == seq![hex_char(nibble)],
{
    proof {
        reveal_strlit("0");
        reveal_strlit("1");
        reveal_strlit("2");
        reveal_strlit("3");
        reveal_strlit("4");
        reveal_strlit("5");
        reveal_strlit("6");
        reveal_strlit("7");
        reveal_strlit("8");
        reveal_strlit("9");
        reveal_strlit("a");
        reveal_strlit("b");
        reveal_strlit("c");
        reveal_strlit("d");
        reveal_strlit("e");
        reveal_strlit("f");
    }
    let text = if nibble == 0 {
        "0"
    } else if nibble == 1 {
        "1"
    } else if nibble == 2 {
        "2"
    } else if nibble == 3 {
        "3"
    } else if nibble == 4 {
        "4"
    } else if nibble == 5 {
        "5"
    } else if nibble == 6 {
        "6"
    } else if nibble == 7 {
        "7"
    } else if nibble == 8 {
        "8"
    } else if nibble == 9 {
        "9"
    } else if nibble == 10 {
        "a"
    } else if nibble == 11 {
        "b"
    } else if nibble == 12 {
        "c"
    } else if nibble == 13 {
        "d"
    } else if nibble == 14 {
        "e"
    } else {
        "f"
    };
    assert(text@ =~= seq![hex_char(nibble)]);
    text
}

/// Writes `bytes` in lower-case hexadecimal.
pub fn hex_encode(bytes: &[u8]) -> (text: String)
    ensures
        text@ == hex_lower(bytes@),
        text@.len() == 2 * bytes@.len(),
{
    let mut text = String::new();
    let mut i: usize = 0;
    while i < bytes.len()
        invariant
            i <= bytes.len(),
            text@ == hex_lower(bytes@.take(i as int)),
        decreases bytes.len() - i,
    {
        let byte: u8 = bytes[i];
        let high = nibble_text(byte / 16);
        let low = nibble_text(byte % 16);
        text.append(high);
        text.append(low);
        proof {
            let done = bytes@.take(i as int + 1);
            assert(done.drop_last() =~= bytes@.take(i as int));
            assert(done.last() == byte);
            assert(text@ =~= hex_lower(done));
        }
        i += 1;
    }
    proof {
        assert(bytes@.take(i as int) =~= bytes@);
        lemma_hex_lower_shape(bytes@);
    }
    text
}

/// The decimal digit for a value below ten.
pub open spec fn digit_char(d: nat) -> char {
    if d == 0 {
        '0'
    } else if d == 1 {
        '1'
    } else if d == 2 {
        '2'
    } else if d == 3 {
        '3'
    } else if d == 4 {
        '4'
    } else if d == 5 {
        '5'
    } else if d == 6 {
        '6'
    } else if d == 7 {
        '7'
    } else if d == 8 {
        '8'
    } else {
        '9'
    }
}

/// A natural number in decimal, without leading zeros.
pub open spec fn decimal_digits(n: nat) -> Seq<char>
    decreases n,
{
    if n < 10 {
        seq![digit_char(n)]
    } else {
        decimal_digits(n / 10).push(digit_char(n % 10))
    }
}

/// An integer in decimal, with a minus sign where it is negative.
pub open spec fn decimal_int(n: int) -> Seq<char> {
    if n < 0 {
        seq!['-'] + decimal_digits((-n) as nat)
    } else {
        decimal_digits(n as nat)
    }
}

fn digit_text(d: u64) -> (text: &'static str)
    requires
        d < 10,
    ensures
        text@ == seq![digit_char(d as nat)],
{
    proof {
        reveal_strlit("0");
        reveal_strlit("1");
        reveal_strlit("2");
        reveal_strlit("3");
        reveal_strlit("4");
        reveal_strlit("5");
        reveal_strlit("6");
        reveal_strlit("7");
        reveal_strlit("8");
        reveal_strlit("9");
    }
    let text = if d == 0 {
        "0"
    } else if d == 1 {
        "1"
    } else if d == 2 {
        "2"
    } else if d == 3 {
        "3"
    } else if d == 4 {
        "4"
    } else if d == 5 {
        "5"
    } else if d == 6 {
        "6"
    } else if d == 7 {
        "7"
    } else if d == 8 {
        "8"
    } else {
        "9"
    };
    assert(text@ =~= seq![digit_char(d as nat)]);
    text
}

/// Writes `n` in decimal.
pub fn decimal_u64(n: u64) -> (text: String)
    ensures
        text@ == decimal_digits(n as nat),
    decreases n,
{
    if n < 10 {
        digit_text(n).to_owned()
    } else {
        let head = decimal_u64(n / 10);
        let text = head.concat(digit_text(n % 10));
        assert(text@ =~= decimal_digits(n as nat));
        text
    }
}

/// Writes `n` in decimal.
pub fn decimal_u128(n: u128) -> (text: String)
    ensures
        text@ == decimal_digits(n as nat),
    decreases n,
{
    if n < 10 {
        digit_text(n as u64).to_owned()
    } else {
        let head = decimal_u128(n / 10);
        let text = head.concat(digit_text((n % 10) as u64));
        assert(text@ =~= decimal_digits(n as nat));
        text
    }
}

/// Writes `n` in decimal, with a minus sign where it is negative.
pub fn decimal_i64(n: i64) -> (text: String)
    ensures
        text@ == decimal_int(n as int),
{
    if n < 0 {
        let magnitude: u64 = if n == i64::MIN {
            9223372036854775808u64
        } else {
            (-n) as u64
        };
        proof {
            reveal_strlit("-");
        }
        let digits = decimal_u64(magnitude);
        let text = "-".to_owned().concat(digits.as_str());
        assert(text@ =~= decimal_int(n as int));
        text
    } else {
        decimal_u64(n as u64)
    }
}

/// Whether two strings hold the same characters.
pub fn same_text(a: &str, b: &str) -> (same: bool)
    ensures
        same == (a@ == b@),
{
    let left = a.to_owned();
    let right = b.to_owned();
    left == right
}

/// The characters of a string, one by one.
pub fn chars_of(s: &str) -> (chars: Vec<char>)
    ensures
        chars@ == s@,
{
    let mut rest = s.chars();
    let mut chars: Vec<char> = Vec::new();
    loop
        invariant
            chars@ + rest.remaining() == s@,
            rest.decrease() is Some,
        decreases rest.decrease()->0,
    {
        let ghost before = rest.remaining();
        match rest.next() {
            Some(c) => {
                chars.push(c);
                assert(chars@ + rest.remaining() =~= chars@.drop_last() + before);
            },
            None => {
                assert(chars@ + before =~= chars@);
                return chars;
            },
        }
    }
}

/// Whether `text` begins with `prefix`.
pub open spec fn has_prefix(text: Seq<char>, prefix: Seq<char>) -> bool {
    prefix.len() <= text.len() && text.take(prefix.len() as int) == prefix
}

/// What is left of `text` behind `prefix`, where it begins with it.
pub open spec fn without_prefix(text: Seq<char>, prefix: Seq<char>) -> Option<Seq<char>> {
    if has_prefix(text, prefix) {
        Some(text.skip(prefix.len() as int))
    } else {
        None
    }
}

/// Cuts `prefix` off the front of `text`, or yields nothing where `text`
/// does not begin with it.
pub fn strip_prefix<'a>(text: &'a str, prefix: &str) -> (rest: Option<&'a str>)
    ensures
        match without_prefix(text@, prefix@) {
            Some(r) => rest matches Some(found) && found@ == r,
            None => rest is None,
        },
{
    let n = text.unicode_len();
    let k = prefix.unicode_len();
    if k > n {
        return None;
    }
    let head = text.substring_char(0, k);
    assert(text@.subrange(0, k as int) =~= text@.take(k as int));
    if same_text(head, prefix) {
        let rest = text.substring_char(k, n);
        assert(text@.subrange(k as int, n as int) =~= text@.skip(k as int));
        Some(rest)
    } else {
        None
    }
}

/// Whether `c` occurs in `text`.
pub open spec fn has_char(text: Seq<char>, c: char) -> bool {
    exists|i: int| 0 <= i < text.len() && text[i] == c
}

/// Whether `c` occurs among `chars`.
pub fn contains_char(chars: &Vec<char>, c: char) -> (found: bool)
    ensures
        found == has_char(chars@, c),
{
    let mut i: usize = 0;
    while i < chars.len()
        invariant
            i <= chars@.len(),
            forall|j: int| 0 <= j < i ==> chars@[j] != c,
        decreases chars@.len() - i,
    {
        if chars[i] == c {
            return true;
        }
        i += 1;
    }
    false
}

/// Whether `c` is one of `0`..`9`.
pub open spec fn is_digit(c: char) -> bool {
    '0' <= c && c <= '9'
}

/// The value of a decimal digit.
pub open spec fn digit_value(c: char) -> nat {
    (c as u32 - '0' as u32) as nat
}

/// The number that a run of decimal digits writes; zero for the empty run.
pub open spec fn digits_value(digits: Seq<char>) -> nat
    decreases digits.len(),
{
    if digits.len() == 0 {
        0
    } else {
        digits_value(digits.drop_last()) * 10 + digit_value(digits.last())
    }
}

/// Whether every character is a decimal digit.
pub open spec fn all_digits(digits: Seq<char>) -> bool {
    forall|i: int| 0 <= i < digits.len() ==> is_digit(#[trigger] digits[i])
}

/// The number written by a non-empty run of decimal digits, if it is at most
/// `max`.
pub open spec fn bounded_number(digits: Seq<char>, max: nat) -> Option<nat> {
    if digits.len() > 0 && all_digits(digits) && digits_value(digits) <= max {
        Some(digits_value(digits))
    } else {
        None
    }
}

/// An unsigned integer as `str::parse` reads it: an optional `+`, then one or
/// more decimal digits, the whole no greater than `max`.
pub open spec fn parsed_unsigned(text: Seq<char>, max: nat) -> Option<nat> {
    if text.len() > 0 && text[0] == '+' {
        bounded_number(text.skip(1), max)
    } else {
        bounded_number(text, max)
    }
}

/// A signed integer as `str::parse` reads it: an optional `+` or `-`, then
/// one or more decimal digits, the whole between `-(max + 1)` and `max`.
pub open spec fn parsed_signed(text: Seq<char>, max: nat) -> Option<int> {
    if text.len() > 0 && text[0] == '-' {
        match bounded_number(text.skip(1), max + 1) {
            Some(n) => Some(-(n as int)),
            None => None,
        }
    } else {
        match parsed_unsigned(text, max) {
            Some(n) => Some(n as int),
            None => None,
        }
    }
}

/// A longer run of digits writes a number at least as large as each of its
/// beginnings.
pub proof fn lemma_digits_value_grows(digits: Seq<char>, k: int)
    requires
        0 <= k <= digits.len(),
    ensures
        digits_value(digits.take(k)) <= digits_value(digits),
    decreases digits.len(),
{
    if k == digits.len() {
        assert(digits.take(k) =~= digits);
    } else {
        lemma_digits_value_grows(digits.drop_last(), k);
        assert(digits.drop_last().take(k) =~= digits.take(k));
    }
}

/// Reads the digits `chars[from..]` as a number no greater than `max`.
pub fn read_number(chars: &Vec<char>, from: usize, max: u128) -> (value: Option<u128>)
    requires
        from <= chars@.len(),
        max <= u128::MAX / 10 - 1,
    ensures
        match bounded_number(chars@.skip(from as int), max as nat) {
            Some(n) => value == Some(n as u128),
            None => value is None,
        },
{
    let ghost digits = chars@.skip(from as int);
    if from == chars.len() {
        return None;
    }
    let mut acc: u128 = 0;
    let mut i: usize = from;
    while i < chars.len()
        invariant
            from <= i <= chars@.len(),
            digits == chars@.skip(from as int),
            all_digits(digits.take(i - from)),
            acc == digits_value(digits.take(i - from)),
            acc <= max,
            max <= u128::MAX / 10 - 1,
        decreases chars@.len() - i,
    {
        let c = chars[i];
        assert(digits[i - from] == c);
        if !('0' <= c && c <= '9') {
            return None;
        }
        let d: u128 = (c as u32 - '0' as u32) as u128;
        let next: u128 = acc * 10 + d;
        proof {
            let longer = digits.take(i - from + 1);
            assert(longer.drop_last() =~= digits.take(i - from));
            assert(longer.last() == c);
            assert(next == digits_value(longer));
            assert forall|j: int| 0 <= j < longer.len() implies is_digit(#[trigger] longer[j]) by {
                if j < i - from {
                    assert(digits.take(i - from)[j] == longer[j]);
                }
            }
        }
        if next > max {
            proof {
                lemma_digits_value_grows(digits, i - from + 1);
            }
            return None;
        }
        acc = next;
        i += 1;
    }
    assert(digits.take(i - from) =~= digits);
    Some(acc)
}

/// The characters `chars[from..to]`.
pub fn sub_chars(chars: &Vec<char>, from: usize, to: usize) -> (part: Vec<char>)
    requires
        from <= to <= chars@.len(),
    ensures
        part@ == chars@.subrange(from as int, to as int),
{
    let mut part: Vec<char> = Vec::new();
    let mut i: usize = from;
    while i < to
        invariant
            from <= i <= to <= chars@.len(),
            part@ == chars@.subrange(from as int, i as int),
        decreases to - i,
    {
        part.push(chars[i]);
        assert(part@ =~= chars@.subrange(from as int, i as int + 1));
        i += 1;
    }
    part
}

/// Reads an unsigned integer no greater than `max`, as `str::parse` does.
pub fn read_unsigned(chars: &Vec<char>, max: u128) -> (value: Option<u128>)
    requires
        max <= u128::MAX / 10 - 1,
    ensures
        match parsed_unsigned(chars@, max as nat) {
            Some(n) => value == Some(n as u128),
            None => value is None,
        },
{
    if chars.len() > 0 && chars[0] == '+' {
        read_number(chars, 1, max)
    } else {
        assert(chars@.skip(0) =~= chars@);
        read_number(chars, 0, max)
    }
}

/// Reads a signed integer between `-(max + 1)` and `max`, as `str::parse`
/// does.
pub fn read_signed(chars: &Vec<char>, max: u128) -> (value: Option<i128>)
    requires
        max <= i128::MAX / 10 - 2,
    ensures
        match parsed_signed(chars@, max as nat) {
            Some(n) => value == Some(n as i128),
            None => value is None,
        },
{
    if chars.len() > 0 && chars[0] == '-' {
        match read_number(chars, 1, max + 1) {
            Some(n) => Some(-(n as i128)),
            None => None,
        }
    } else {
        match read_unsigned(chars, max) {
            Some(n) => Some(n as i128),
            None => None,
        }
    }
}

/// The place of the first `c` in a text, or the text's length where it has
/// none.
pub open spec fn find_char(text: Seq<char>, c: char) -> int
    decreases text.len(),
{
    if text.len() == 0 {
        0
    } else if text[0] == c {
        0
    } else {
        1 + find_char(text.drop_first(), c)
    }
}

/// [`find_char`] yields the first place of the character and nothing else.
pub proof fn lemma_find_char(text: Seq<char>, c: char)
    ensures
        0 <= find_char(text, c) <= text.len(),
        find_char(text, c) < text.len() ==> text[find_char(text, c)] == c,
        forall|j: int| 0 <= j < find_char(text, c) ==> text[j] != c,
    decreases text.len(),
{
    if text.len() > 0 && text[0] != c {
        let rest = text.drop_first();
        lemma_find_char(rest, c);
        assert forall|j: int| 0 <= j < find_char(text, c) implies text[j] != c by {
            if j > 0 {
                assert(rest[j - 1] == text[j]);
            }
        }
    }
}

/// The first place of `c` is the one place that holds `c` and has none
/// before it.
pub proof fn lemma_find_char_is(text: Seq<char>, c: char, i: int)
    requires
        0 <= i <= text.len(),
        i < text.len() ==> text[i] == c,
        forall|j: int| 0 <= j < i ==> text[j] != c,
    ensures
        find_char(text, c) == i,
{
    lemma_find_char(text, c);
}

/// The first place of `c` in `chars[from..to]`, counted in `chars`, or `to`
/// where there is none.
pub fn index_of(chars: &Vec<char>, from: usize, to: usize, c: char) -> (place: usize)
    requires
        from <= to <= chars@.len(),
    ensures
        from <= place <= to,
        place == from + find_char(chars@.subrange(from as int, to as int), c),
{
    let ghost part = chars@.subrange(from as int, to as int);
    let mut i: usize = from;
    while i < to
        invariant
            from <= i <= to <= chars@.len(),
            part == chars@.subrange(from as int, to as int),
            forall|j: int| 0 <= j < i - from ==> part[j] != c,
        decreases to - i,
    {
        if chars[i] == c {
            proof {
                assert(part[i - from] == c);
                lemma_find_char_is(part, c, i - from);
            }
            return i;
        }
        i += 1;
    }
    proof {
        lemma_find_char_is(part, c, to - from);
    }
    to
}

/// Whether two vectors hold the same characters.
pub fn same_chars(a: &Vec<char>, b: &Vec<char>) -> (same: bool)
    ensures
        same == (a@ == b@),
{
    if a.len() != b.len() {
        return false;
    }
    let mut i: usize = 0;
    while i < a.len()
        invariant
            a@.len() == b@.len(),
            i <= a@.len(),
            forall|j: int| 0 <= j < i ==> a@[j] == b@[j],
        decreases a@.len() - i,
    {
        if a[i] != b[i] {
            return false;
        }
        i += 1;
    }
    assert(a@ =~= b@);
    true
}

} // verus!
