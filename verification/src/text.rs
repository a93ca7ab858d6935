//! The string forms of an identifier: thirty-two hexadecimal digits, bare
//! or in the groups 8-4-4-4-12.

use vstd::prelude::*;
use vstd::string::*;
use crate::layout::Layout;
use crate::uuid::{Bytes, UUID};

verus! {

/// The character that writes the digit `n`, for `n` below sixteen.
pub open spec fn spec_hex_digit(n: int, upper: bool) -> char {
    if n < 10 {
        ((48 + n) as u8) as char
    } else if upper {
        ((55 + n) as u8) as char
    } else {
        ((87 + n) as u8) as char
    }
}

/// Two digits for each byte, the high nibble first.
pub open spec fn spec_hex(bytes: Seq<u8>, upper: bool) -> Seq<char> {
    Seq::new(
        2 * bytes.len(),
        |i: int|
            spec_hex_digit(
                if i % 2 == 0 {
                    bytes[i / 2] as int / 16
                } else {
                    bytes[i / 2] as int % 16
                },
                upper,
            ),
    )
}

/// Thirty-two digits set in the groups 8-4-4-4-12, a hyphen between groups.
pub open spec fn spec_hyphenated(digits: Seq<char>) -> Seq<char> {
    digits.subrange(0, 8) + seq!['-'] + digits.subrange(8, 12) + seq!['-'] + digits.subrange(
        12,
        16,
    ) + seq!['-'] + digits.subrange(16, 20) + seq!['-'] + digits.subrange(20, 32)
}

/// Appends the digit `n` to `out`.
fn push_hex_digit(out: &mut String, n: u8, upper: bool)
    requires
        n < 16,
    ensures
        final(out)@ == old(out)@.push(spec_hex_digit(n as int, upper)),
{
    proof {
        reveal_strlit("0123456789ABCDEF");
        reveal_strlit("0123456789abcdef");
    }
    let table: &str = if upper {
        "0123456789ABCDEF"
    } else {
        "0123456789abcdef"
    };
    let digit: &str = table.substring_ascii(n as usize, n as usize + 1);
    assert(digit@ =~= seq![spec_hex_digit(n as int, upper)]);
    out.append(digit);
    assert(out@ =~= old(out)@.push(spec_hex_digit(n as int, upper)));
}

/// Writes `bytes` as hexadecimal digits, two for each byte.
fn hex_string(bytes: &[u8; 16], upper: bool) -> (r: String)
    ensures
        r@ == spec_hex(bytes@, upper),
{
    let mut out = String::new();
    let mut i: usize = 0;
    while i < 16
        invariant
            i <= 16,
            out@ == spec_hex(bytes@.take(i as int), upper),
        decreases 16 - i,
    {
        let byte: u8 = bytes[i];
        proof {
            assert({
                &&& byte >> 4 == byte / 16
                &&& byte & 0x0f == byte % 16
                &&& byte >> 4 < 16
                &&& byte & 0x0f < 16
            }) by (bit_vector);
        }
        push_hex_digit(&mut out, byte >> 4, upper);
        push_hex_digit(&mut out, byte & 0x0f, upper);
        i += 1;
        assert(out@ =~= spec_hex(bytes@.take(i as int), upper));
    }
    assert(bytes@.take(16) =~= bytes@);
    out
}

/// Every hexadecimal digit is an ASCII character.
proof fn lemma_hex_is_ascii(bytes: Seq<u8>, upper: bool)
    ensures
        vstd::utf8::is_ascii_chars(spec_hex(bytes, upper)),
{
}

/// Sets thirty-two digits in the groups 8-4-4-4-12.
fn hyphenate(digits: &str) -> (r: String)
    requires
        digits@.len() == 32,
        digits.is_ascii(),
    ensures
        r@ == spec_hyphenated(digits@),
{
    let mut out = String::new();
    out.append(digits.substring_ascii(0, 8));
    out.append("-");
    out.append(digits.substring_ascii(8, 12));
    out.append("-");
    out.append(digits.substring_ascii(12, 16));
    out.append("-");
    out.append(digits.substring_ascii(16, 20));
    out.append("-");
    out.append(digits.substring_ascii(20, 32));
    proof {
        reveal_strlit("-");
        assert("-"@ =~= seq!['-']);
    }
    out
}

/// Whether the byte writes a hexadecimal digit, in either case.
pub open spec fn is_hex_digit(b: u8) -> bool {
    ||| 48 <= b <= 57
    ||| 65 <= b <= 70
    ||| 97 <= b <= 102
}

/// The number that a hexadecimal digit writes.
pub open spec fn spec_hex_value(b: u8) -> int {
    if b <= 57 {
        b - 48
    } else if b <= 70 {
        b - 55
    } else {
        b - 87
    }
}

/// Whether the byte is left out of a hyphenated text: the hyphen, and the
/// ASCII whitespace (space, tab, line feed, form feed, carriage return).
pub open spec fn is_separator(b: u8) -> bool {
    b == 45 || b == 32 || b == 9 || b == 10 || b == 12 || b == 13
}

/// The text without its separators.
pub open spec fn spec_strip(text: Seq<u8>) -> Seq<u8> {
    text.filter(|b: u8| !is_separator(b))
}

/// The digits of a text: where a hyphen occurs, the text without its
/// separators; where none occurs, the text as it is.
pub open spec fn spec_digits(text: Seq<u8>) -> Seq<u8> {
    if text.contains(45u8) {
        spec_strip(text)
    } else {
        text
    }
}

/// Whether the bytes are exactly thirty-two hexadecimal digits.
pub open spec fn is_hex_text(digits: Seq<u8>) -> bool {
    &&& digits.len() == 32
    &&& forall|i: int| 0 <= i < 32 ==> is_hex_digit(#[trigger] digits[i])
}

/// The byte that the `i`-th pair of digits writes.
pub open spec fn spec_hex_byte(digits: Seq<u8>, i: int) -> u8 {
    (16 * spec_hex_value(digits[2 * i]) + spec_hex_value(digits[2 * i + 1])) as u8
}

/// The sixteen bytes that thirty-two digits write.
pub open spec fn spec_unhex(digits: Seq<u8>) -> Bytes {
    [
        spec_hex_byte(digits, 0),
        spec_hex_byte(digits, 1),
        spec_hex_byte(digits, 2),
        spec_hex_byte(digits, 3),
        spec_hex_byte(digits, 4),
        spec_hex_byte(digits, 5),
        spec_hex_byte(digits, 6),
        spec_hex_byte(digits, 7),
        spec_hex_byte(digits, 8),
        spec_hex_byte(digits, 9),
        spec_hex_byte(digits, 10),
        spec_hex_byte(digits, 11),
        spec_hex_byte(digits, 12),
        spec_hex_byte(digits, 13),
        spec_hex_byte(digits, 14),
        spec_hex_byte(digits, 15),
    ]
}

/// The number that the digit `b` writes, if it is a hexadecimal digit.
fn hex_value(b: u8) -> (r: Option<u8>)
    ensures
        r == (if is_hex_digit(b) {
            Some(spec_hex_value(b) as u8)
        } else {
            None
        }),
        r matches Some(v) ==> v < 16,
{
    if 48 <= b && b <= 57 {
        Some(b - 48)
    } else if 65 <= b && b <= 70 {
        Some(b - 55)
    } else if 97 <= b && b <= 102 {
        Some(b - 87)
    } else {
        None
    }
}

/// Whether the byte is a separator.
fn separates(b: u8) -> (r: bool)
    ensures
        r == is_separator(b),
{
    b == 45 || b == 32 || b == 9 || b == 10 || b == 12 || b == 13
}

/// Whether a hyphen occurs in the text.
fn has_hyphen(text: &[u8]) -> (r: bool)
    ensures
        r == text@.contains(45u8),
{
    let mut i: usize = 0;
    while i < text.len()
        invariant
            i <= text@.len(),
            forall|k: int| 0 <= k < i ==> text@[k] != 45,
        decreases text@.len() - i,
    {
        if text[i] == 45 {
            return true;
        }
        i += 1;
    }
    false
}

/// Collects the digits of a text.
fn digits_of(text: &[u8]) -> (r: Vec<u8>)
    ensures
        r@ == spec_digits(text@),
{
    let hyphenated: bool = has_hyphen(text);
    let mut digits: Vec<u8> = Vec::new();
    let mut i: usize = 0;
    proof {
        reveal(Seq::filter);
    }
    while i < text.len()
        invariant
            i <= text@.len(),
            hyphenated == text@.contains(45u8),
            digits@ == (if hyphenated {
                spec_strip(text@.take(i as int))
            } else {
                text@.take(i as int)
            }),
        decreases text@.len() - i,
    {
        let b: u8 = text[i];
        proof {
            reveal(Seq::filter);
            assert(text@.take(i + 1).drop_last() =~= text@.take(i as int));
        }
        if !(hyphenated && separates(b)) {
            digits.push(b);
        }
        i += 1;
        assert(!hyphenated ==> digits@ =~= text@.take(i as int));
    }
    assert(text@.take(text@.len() as int) =~= text@);
    digits
}

/// Reads thirty-two hexadecimal digits as sixteen bytes.
fn unhex(digits: &Vec<u8>) -> (r: Option<Bytes>)
    ensures
        r == (if is_hex_text(digits@) {
            Some(spec_unhex(digits@))
        } else {
            None
        }),
{
    if digits.len() != 32 {
        return None;
    }
    let mut bytes: Bytes = [0; 16];
    let mut i: usize = 0;
    while i < 16
        invariant
            i <= 16,
            digits@.len() == 32,
            forall|k: int| 0 <= k < 2 * i ==> is_hex_digit(#[trigger] digits@[k]),
            forall|k: int| 0 <= k < i ==> bytes[k] == spec_hex_byte(digits@, k),
        decreases 16 - i,
    {
        let high: u8 = match hex_value(digits[2 * i]) {
            Some(v) => v,
            None => {
                return None;
            },
        };
        let low: u8 = match hex_value(digits[2 * i + 1]) {
            Some(v) => v,
            None => {
                return None;
            },
        };
        bytes[i] = 16 * high + low;
        i += 1;
    }
    assert(bytes =~= spec_unhex(digits@));
    Some(bytes)
}

impl UUID {
    /// What a text parses to. A text is accepted when it is 32 or 36 bytes
    /// long and its digits are exactly thirty-two hexadecimal digits; the
    /// layout is then the one that the sixteen bytes stand for, with the
    /// variant tag forced to RFC4122.
    pub open spec fn spec_from_str(text: Seq<u8>) -> Result<Layout, &'static str> {
        if (text.len() == 32 || text.len() == 36) && is_hex_text(spec_digits(text)) {
            Ok(Layout::spec_from_bytes(spec_unhex(spec_digits(text))).spec_with_rfc4122())
        } else {
            Err("Invalid UUID string")
        }
    }

    /// Parse `UUID` from a string of hex digits.
    pub fn from_str(us: &str) -> (r: Result<Layout, &'static str>)
        ensures
            r == Self::spec_from_str(us.spec_bytes()),
    {
        let text: &[u8] = us.as_bytes();
        if text.len() != 32 && text.len() != 36 {
            return Err("Invalid UUID string");
        }
        let digits: Vec<u8> = digits_of(text);
        match unhex(&digits) {
            Some(bytes) => Ok(Layout::from_bytes(bytes).with_rfc4122()),
            None => Err("Invalid UUID string"),
        }
    }

    /// The compact form: thirty-two lowercase digits.
    pub open spec fn spec_to_string(self) -> Seq<char> {
        spec_hex(self.0@, false)
    }

    /// The canonical form: lowercase digits in the groups 8-4-4-4-12.
    pub open spec fn spec_to_lower_hex(self) -> Seq<char> {
        spec_hyphenated(spec_hex(self.0@, false))
    }

    /// The canonical form in uppercase digits.
    pub open spec fn spec_to_upper_hex(self) -> Seq<char> {
        spec_hyphenated(spec_hex(self.0@, true))
    }

    /// Writes the identifier as thirty-two lowercase hexadecimal digits.
    pub fn to_string(&self) -> (r: String)
        ensures
            r@ == self.spec_to_string(),
    {
        hex_string(&self.0, false)
    }

    /// Writes the identifier in lowercase digits, hyphenated 8-4-4-4-12.
    pub fn to_lower_hex(&self) -> (r: String)
        ensures
            r@ == self.spec_to_lower_hex(),
    {
        let digits = hex_string(&self.0, false);
        proof {
            lemma_hex_is_ascii(self.0@, false);
        }
        hyphenate(digits.as_str())
    }

    /// Writes the identifier in uppercase digits, hyphenated 8-4-4-4-12.
    pub fn to_upper_hex(&self) -> (r: String)
        ensures
            r@ == self.spec_to_upper_hex(),
    {
        let digits = hex_string(&self.0, true);
        proof {
            lemma_hex_is_ascii(self.0@, true);
        }
        hyphenate(digits.as_str())
    }
}

/// The bytes of a text that is all ASCII: one byte for each character.
pub open spec fn spec_ascii(chars: Seq<char>) -> Seq<u8> {
    Seq::new(chars.len(), |i: int| chars[i] as u8)
}

/// A written digit is a hexadecimal digit, no separator, and reads back as
/// the number it was written for.
proof fn lemma_digit_reads_back(n: int, upper: bool)
    requires
        0 <= n < 16,
    ensures
        '\0' <= spec_hex_digit(n, upper) <= '\u{7f}',
        is_hex_digit(spec_hex_digit(n, upper) as u8),
        !is_separator(spec_hex_digit(n, upper) as u8),
        spec_hex_value(spec_hex_digit(n, upper) as u8) == n,
{
}

/// Stripping goes through a concatenation.
proof fn lemma_strip_concat(a: Seq<u8>, b: Seq<u8>)
    ensures
        spec_strip(a + b) == spec_strip(a) + spec_strip(b),
    decreases b.len(),
{
    reveal(Seq::filter);
    if b.len() == 0 {
        assert(a + b =~= a);
        assert(spec_strip(a) + spec_strip(b) =~= spec_strip(a));
    } else {
        assert((a + b).drop_last() =~= a + b.drop_last());
        lemma_strip_concat(a, b.drop_last());
        assert(spec_strip(a + b) =~= spec_strip(a) + spec_strip(b));
    }
}

/// Stripping leaves a text without separators as it is.
proof fn lemma_strip_keeps(a: Seq<u8>)
    requires
        forall|i: int| 0 <= i < a.len() ==> !is_separator(#[trigger] a[i]),
    ensures
        spec_strip(a) == a,
    decreases a.len(),
{
    reveal(Seq::filter);
    if a.len() > 0 {
        lemma_strip_keeps(a.drop_last());
        assert(spec_strip(a) =~= a);
    }
}

/// Stripping drops a hyphen, and a group of digits followed by one is
/// stripped to the group.
proof fn lemma_strip_group(head: Seq<u8>, group: Seq<u8>)
    requires
        forall|i: int| 0 <= i < group.len() ==> !is_separator(#[trigger] group[i]),
    ensures
        spec_strip(head + seq![45u8] + group) == spec_strip(head) + group,
{
    reveal_with_fuel(Seq::filter, 2);
    assert(spec_strip(seq![45u8]) =~= Seq::<u8>::empty()) by {
        assert(seq![45u8].drop_last() =~= Seq::<u8>::empty());
    }
    lemma_strip_concat(head, seq![45u8]);
    lemma_strip_concat(head + seq![45u8], group);
    lemma_strip_keeps(group);
    assert(spec_strip(head) + Seq::<u8>::empty() =~= spec_strip(head));
}

/// The bytes of the digits written for sixteen bytes are thirty-two
/// hexadecimal digits that read back as those bytes.
proof fn lemma_digits_read_back(uuid: UUID, upper: bool)
    ensures
        is_hex_text(spec_ascii(spec_hex(uuid.0@, upper))),
        spec_unhex(spec_ascii(spec_hex(uuid.0@, upper))) == uuid.0,
        !spec_ascii(spec_hex(uuid.0@, upper)).contains(45u8),
        forall|i: int|
            0 <= i < 32 ==> !is_separator(#[trigger] spec_ascii(spec_hex(uuid.0@, upper))[i]),
{
    let digits = spec_ascii(spec_hex(uuid.0@, upper));
    assert forall|i: int| 0 <= i < 32 implies is_hex_digit(#[trigger] digits[i]) && !is_separator(
        digits[i],
    ) && digits[i] != 45 && digits[i] == spec_hex_digit(
        if i % 2 == 0 {
            uuid.0@[i / 2] as int / 16
        } else {
            uuid.0@[i / 2] as int % 16
        },
        upper,
    ) as u8 by {
        let n = if i % 2 == 0 {
            uuid.0@[i / 2] as int / 16
        } else {
            uuid.0@[i / 2] as int % 16
        };
        lemma_digit_reads_back(n, upper);
    }
    assert forall|k: int| 0 <= k < 16 implies spec_hex_byte(digits, k) == uuid.0[k] by {
        lemma_digit_reads_back(uuid.0@[k] as int / 16, upper);
        lemma_digit_reads_back(uuid.0@[k] as int % 16, upper);
        assert(digits[2 * k] == spec_hex_digit(uuid.0@[k] as int / 16, upper) as u8);
        assert(digits[2 * k + 1] == spec_hex_digit(uuid.0@[k] as int % 16, upper) as u8);
    }
    assert(spec_unhex(digits) =~= uuid.0);
}

/// The bytes of a written identifier, compact or hyphenated: the text is
/// ASCII, so each character is one byte, and its digits are the thirty-two
/// that were written.
proof fn lemma_written_bytes(uuid: UUID, upper: bool)
    ensures
        vstd::utf8::encode_utf8(spec_hex(uuid.0@, upper)) == spec_ascii(spec_hex(uuid.0@, upper)),
        vstd::utf8::encode_utf8(spec_hyphenated(spec_hex(uuid.0@, upper))).len() == 36,
        spec_digits(vstd::utf8::encode_utf8(spec_hyphenated(spec_hex(uuid.0@, upper))))
            == spec_ascii(spec_hex(uuid.0@, upper)),
{
    let chars = spec_hex(uuid.0@, upper);
    let digits = spec_ascii(chars);
    let canonical = spec_hyphenated(chars);
    lemma_digits_read_back(uuid, upper);
    assert forall|i: int| 0 <= i < 32 implies '\0' <= #[trigger] chars[i] <= '\u{7f}' by {
        let n = if i % 2 == 0 {
            uuid.0@[i / 2] as int / 16
        } else {
            uuid.0@[i / 2] as int % 16
        };
        lemma_digit_reads_back(n, upper);
    }
    vstd::utf8::is_ascii_chars_encode_utf8(chars);
    assert(vstd::utf8::encode_utf8(chars) =~= digits);
    assert(vstd::utf8::is_ascii_chars(canonical));
    vstd::utf8::is_ascii_chars_encode_utf8(canonical);
    let text = vstd::utf8::encode_utf8(canonical);
    let g0 = digits.subrange(0, 8);
    let g1 = digits.subrange(8, 12);
    let g2 = digits.subrange(12, 16);
    let g3 = digits.subrange(16, 20);
    let g4 = digits.subrange(20, 32);
    assert(text =~= g0 + seq![45u8] + g1 + seq![45u8] + g2 + seq![45u8] + g3 + seq![45u8] + g4);
    assert(text[8] == 45u8);
    lemma_strip_keeps(g0);
    lemma_strip_group(g0, g1);
    lemma_strip_group(g0 + seq![45u8] + g1, g2);
    lemma_strip_group(g0 + seq![45u8] + g1 + seq![45u8] + g2, g3);
    lemma_strip_group(g0 + seq![45u8] + g1 + seq![45u8] + g2 + seq![45u8] + g3, g4);
    assert(g0 + g1 + g2 + g3 + g4 =~= digits);
}

/// Parsing is the inverse of writing, up to the forced variant tag: each
/// of the three written forms of an identifier parses, and parses to the
/// layout of the identifier's bytes with the variant tag set to RFC4122.
/// Where the high nibble of the ninth byte is already 8, generating from
/// that layout gives the identifier back.
pub proof fn lemma_parse_written(uuid: UUID)
    ensures
        UUID::spec_from_str(vstd::utf8::encode_utf8(uuid.spec_to_string())) == Ok::<
            Layout,
            &'static str,
        >(Layout::spec_from_bytes(uuid.0).spec_with_rfc4122()),
        UUID::spec_from_str(vstd::utf8::encode_utf8(uuid.spec_to_lower_hex())) == Ok::<
            Layout,
            &'static str,
        >(Layout::spec_from_bytes(uuid.0).spec_with_rfc4122()),
        UUID::spec_from_str(vstd::utf8::encode_utf8(uuid.spec_to_upper_hex())) == Ok::<
            Layout,
            &'static str,
        >(Layout::spec_from_bytes(uuid.0).spec_with_rfc4122()),
        uuid.0[8] / 16 == 8 ==> Layout::spec_from_bytes(uuid.0).spec_with_rfc4122().spec_generate()
            == uuid,
{
    lemma_digits_read_back(uuid, false);
    lemma_digits_read_back(uuid, true);
    lemma_written_bytes(uuid, false);
    lemma_written_bytes(uuid, true);
    if uuid.0[8] / 16 == 8 {
        assert(Layout::spec_from_bytes(uuid.0).spec_with_rfc4122() == Layout::spec_from_bytes(
            uuid.0,
        ));
        crate::layout::lemma_generate_from_bytes(uuid.0);
    }
}

} // verus!
