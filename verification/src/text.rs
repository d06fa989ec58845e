//! Text helpers shared by the whole library: lower-casing, decimal numerals
//! and lower-case hexadecimal.

use vstd::prelude::*;

verus! {

/// `String::push` of the standard library: the character is appended at the
/// end and nothing else changes.
pub assume_specification[ String::push ](s: &mut String, ch: char)
    ensures
        final(s)@ == old(s)@.push(ch),
;

/// The lower-case form of a text, as the standard library's
/// `str::to_lowercase` computes it from the Unicode tables.
pub uninterp spec fn lowercase_of(s: Seq<char>) -> Seq<char>;

/// `str::to_lowercase` of the standard library. The result depends on the
/// characters of the text alone; it is not described further here.
pub assume_specification[ str::to_lowercase ](s: &str) -> (r: String)
    ensures
        r@ == lowercase_of(s@),
;

/// The characters of an optional text.
pub open spec fn optional_text(s: Option<String>) -> Option<Seq<char>> {
    match s {
        Some(t) => Some(t@),
        None => None,
    }
}

/// A copy of an optional text.
pub fn clone_optional_text(s: &Option<String>) -> (r: Option<String>)
    ensures
        r == *s,
{
    match s {
        Some(t) => Some(t.clone()),
        None => None,
    }
}

/// Do the two texts hold the same characters?
pub fn same_text(a: &str, b: &str) -> (r: bool)
    ensures
        r == (a@ == b@),
{
    let left = a.to_owned();
    let right = b.to_owned();
    left == right
}

/// A list of pairs of texts, as pairs of character sequences.
pub open spec fn pairs_view(pairs: Seq<(String, String)>) -> Seq<(Seq<char>, Seq<char>)> {
    pairs.map_values(|p: (String, String)| (p.0@, p.1@))
}

/// What the first pair with the key `key` holds, if there is such a pair.
pub open spec fn lookup(pairs: Seq<(Seq<char>, Seq<char>)>, key: Seq<char>) -> Option<Seq<char>>
    decreases pairs.len(),
{
    if pairs.len() == 0 {
        None
    } else if pairs[0].0 == key {
        Some(pairs[0].1)
    } else {
        lookup(pairs.drop_first(), key)
    }
}

/// Finds what the first pair with the key `key` holds.
pub fn find<'a>(pairs: &'a Vec<(String, String)>, key: &str) -> (r: Option<&'a String>)
    ensures
        r is Some == lookup(pairs_view(pairs@), key@) is Some,
        r matches Some(value) ==> lookup(pairs_view(pairs@), key@) == Some(value@),
{
    let wanted = key.to_owned();
    let mut i: usize = 0;
    assert(pairs_view(pairs@).skip(0) =~= pairs_view(pairs@));
    while i < pairs.len()
        invariant
            i <= pairs.len(),
            wanted@ == key@,
            lookup(pairs_view(pairs@), key@) == lookup(pairs_view(pairs@).skip(i as int), key@),
        decreases pairs.len() - i,
    {
        let ghost rest = pairs_view(pairs@).skip(i as int);
        proof {
            assert(rest[0] == (pairs@[i as int].0@, pairs@[i as int].1@));
            assert(rest.drop_first() =~= pairs_view(pairs@).skip(i + 1));
        }
        if pairs[i].0 == wanted {
            return Some(&pairs[i].1);
        }
        i = i + 1;
    }
    None
}

/// The character that stands for the decimal digit `d`.
pub open spec fn digit_char(d: nat) -> char
    recommends
        d < 10,
{
    ((48 + d) as u8) as char
}

/// The decimal numeral of `n`, without sign and without leading zeros.
pub open spec fn decimal_text(n: nat) -> Seq<char>
    decreases n,
{
    if n < 10 {
        seq![digit_char(n)]
    } else {
        decimal_text(n / 10).push(digit_char(n % 10))
    }
}

/// The decimal numeral of an integer: a minus sign in front of a negative one.
pub open spec fn signed_decimal_text(n: int) -> Seq<char> {
    if n < 0 {
        seq!['-'] + decimal_text((-n) as nat)
    } else {
        decimal_text(n as nat)
    }
}

/// Is `c` one of the ten decimal digits?
pub open spec fn is_digit(c: char) -> bool {
    '0' <= c && c <= '9'
}

/// The value of the decimal digit `c`.
pub open spec fn digit_value(c: char) -> nat
    recommends
        is_digit(c),
{
    (c as u32 - 48) as nat
}

/// Does the text consist of decimal digits only?
pub open spec fn all_digits(s: Seq<char>) -> bool {
    forall|i: int| 0 <= i < s.len() ==> is_digit(#[trigger] s[i])
}

/// The number that a sequence of decimal digits denotes.
pub open spec fn digits_value(s: Seq<char>) -> nat
    decreases s.len(),
{
    if s.len() == 0 {
        0
    } else {
        digits_value(s.drop_last()) * 10 + digit_value(s.last())
    }
}

/// The digits of an unsigned numeral: the text without one leading `+`.
pub open spec fn numeral_digits(s: Seq<char>) -> Seq<char> {
    if s.len() > 0 && s[0] == '+' {
        s.subrange(1, s.len() as int)
    } else {
        s
    }
}

/// What a text denotes as a `u64`: an optional `+`, then at least one decimal
/// digit and nothing else, with a value that fits.
pub open spec fn parse_u64_spec(s: Seq<char>) -> Option<u64> {
    let digits = numeral_digits(s);
    if digits.len() > 0 && all_digits(digits) && digits_value(digits) <= u64::MAX {
        Some(digits_value(digits) as u64)
    } else {
        None
    }
}

/// A prefix of a digit sequence denotes no more than the whole sequence.
pub proof fn lemma_digits_value_prefix(s: Seq<char>, k: int)
    requires
        0 <= k <= s.len(),
    ensures
        digits_value(s.take(k)) <= digits_value(s),
    decreases s.len() - k,
{
    if k == s.len() {
        assert(s.take(k) =~= s);
    } else {
        lemma_digits_value_prefix(s, k + 1);
        let t = s.take(k + 1);
        assert(t.drop_last() =~= s.take(k));
    }
}

/// Appends the decimal numeral of `n` to `out`.
pub fn push_decimal(out: &mut String, n: u128)
    ensures
        final(out)@ == old(out)@ + decimal_text(n as nat),
    decreases n,
{
    if n >= 10 {
        push_decimal(out, n / 10);
    }
    let d: u8 = (n % 10) as u8;
    out.push((48 + d) as char);
    proof {
        if n >= 10 {
            assert(old(out)@ + decimal_text((n / 10) as nat).push(digit_char((n % 10) as nat))
                =~= (old(out)@ + decimal_text((n / 10) as nat)).push(digit_char((n % 10) as nat)));
        } else {
            assert(old(out)@ + seq![digit_char(n as nat)] =~= old(out)@.push(digit_char(n as nat)));
        }
    }
}

/// The decimal numeral of an unsigned integer.
pub fn unsigned_to_string(n: u128) -> (r: String)
    ensures
        r@ == decimal_text(n as nat),
{
    let mut out = String::new();
    push_decimal(&mut out, n);
    assert(Seq::<char>::empty() + decimal_text(n as nat) =~= decimal_text(n as nat));
    out
}

/// The decimal numeral of a signed integer.
pub fn signed_to_string(n: i128) -> (r: String)
    ensures
        r@ == signed_decimal_text(n as int),
{
    let mut out = String::new();
    if n < 0 {
        out.push('-');
        let magnitude: u128 = ((-(n + 1)) as u128) + 1;
        push_decimal(&mut out, magnitude);
        assert(Seq::<char>::empty().push('-') =~= seq!['-']);
    } else {
        push_decimal(&mut out, n as u128);
        assert(Seq::<char>::empty() + decimal_text(n as nat) =~= decimal_text(n as nat));
    }
    out
}

/// Reads an unsigned decimal numeral. `None` where the text is no numeral or
/// its value does not fit in 64 bits.
pub fn parse_u64(s: &str) -> (r: Option<u64>)
    ensures
        r == parse_u64_spec(s@),
{
    let mut value: u64 = 0;
    let mut first: bool = true;
    let mut plus: bool = false;
    let mut any_digit: bool = false;
    let mut valid: bool = true;
    let ghost mut digits: int = 0;
    let ghost text = s@;
    for c in it: s.chars()
        invariant
            it.seq() == text,
            text == s@,
            first == (it.index() == 0),
            valid ==> {
                &&& plus == (it.index() > 0 && text[0] == '+')
                &&& digits == if plus { it.index() - 1 } else { it.index() as int }
                &&& any_digit == (digits > 0)
                &&& all_digits(numeral_digits(text).take(digits as int))
                &&& value == digits_value(numeral_digits(text).take(digits as int))
                &&& digits <= numeral_digits(text).len()
            },
            !valid ==> parse_u64_spec(text) is None,
    {
        let ghost body = numeral_digits(text);
        if valid {
            if first && c == '+' {
                plus = true;
                proof {
                    assert(body.take(0) =~= Seq::<char>::empty());
                }
            } else if '0' <= c && c <= '9' {
                let d: u64 = (c as u32 - 48) as u64;
                proof {
                    assert(body[digits as int] == c);
                    let next = body.take(digits + 1);
                    assert(next.drop_last() =~= body.take(digits as int));
                    assert(next.last() == c);
                    assert forall|i: int| 0 <= i < next.len() implies is_digit(#[trigger] next[i]) by {
                        if i < digits {
                            assert(next[i] == body.take(digits as int)[i]);
                        }
                    }
                    lemma_digits_value_prefix(body, digits + 1);
                }
                if value > (u64::MAX - d) / 10 {
                    valid = false;
                } else {
                    value = value * 10 + d;
                    any_digit = true;
                    proof {
                        digits = digits + 1;
                    }
                }
            } else {
                valid = false;
                proof {
                    assert(body[digits as int] == c);
                    assert(!is_digit(body[digits as int]));
                }
            }
        }
        first = false;
    }
    if valid && any_digit {
        proof {
            assert(numeral_digits(text).take(digits as int) =~= numeral_digits(text));
        }
        Some(value)
    } else {
        proof {
            if valid {
                assert(numeral_digits(text).len() == 0);
            }
        }
        None
    }
}

/// The character of one hexadecimal digit, in lower case.
pub open spec fn hex_digit(n: u8) -> u8
    recommends
        n < 16,
{
    if n < 10 {
        (48 + n) as u8
    } else {
        (87 + n) as u8
    }
}

/// Lower-case hexadecimal: two digits for each byte, the high half first.
pub open spec fn hex_lower(bytes: Seq<u8>) -> Seq<u8> {
    Seq::new(
        2 * bytes.len(),
        |i: int|
            if i % 2 == 0 {
                hex_digit(bytes[i / 2] / 16)
            } else {
                hex_digit(bytes[i / 2] % 16)
            },
    )
}

/// Bytes read as characters, one for one.
pub open spec fn bytes_as_text(bytes: Seq<u8>) -> Seq<char> {
    Seq::new(bytes.len(), |i: int| bytes[i] as char)
}

/// Lower-case hexadecimal as a text.
pub open spec fn hex_text(bytes: Seq<u8>) -> Seq<char> {
    bytes_as_text(hex_lower(bytes))
}

/// `subtle_encoding::hex::encode`: each byte becomes two lower-case
/// hexadecimal digits, the high half first; the output is twice as long as
/// the input.
#[verifier::external_body]
pub(crate) fn hex_encode(bytes: &[u8]) -> (r: Vec<u8>)
    ensures
        r@ == hex_lower(bytes@),
{
    subtle_encoding::hex::encode(bytes)
}

/// The lower-case hexadecimal text of `bytes`.
pub fn hex_string(bytes: &[u8]) -> (r: String)
    ensures
        r@ == hex_text(bytes@),
{
    let encoded = hex_encode(bytes);
    let mut out = String::new();
    let mut i: usize = 0;
    while i < encoded.len()
        invariant
            i <= encoded.len(),
            out@ == bytes_as_text(encoded@).take(i as int),
        decreases encoded.len() - i,
    {
        out.push(encoded[i] as char);
        proof {
            assert(bytes_as_text(encoded@).take(i as int).push(encoded@[i as int] as char)
                =~= bytes_as_text(encoded@).take(i + 1));
        }
        i = i + 1;
    }
    proof {
        assert(bytes_as_text(encoded@).take(i as int) =~= bytes_as_text(encoded@));
    }
    out
}

} // verus!
