//! Text as sequences of characters: the character classes the rest of the
//! library speaks of, searches and comparisons on `&str`, and the decimal and
//! hexadecimal forms of numbers.
use vstd::prelude::*;
use vstd::utf8::{encode_utf8, valid_utf8};

verus! {

/// `String::push` appends one character.
pub assume_specification[ String::push ](s: &mut String, c: char)
    ensures
        final(s)@ == old(s)@.push(c),
;

/// `String::push_str` appends a string slice.
pub assume_specification[ String::push_str ](s: &mut String, other: &str)
    ensures
        final(s)@ == old(s)@ + other@,
;

/// `String::pop` removes the last character and returns it; on an empty string
/// it returns `None` and changes nothing.
pub assume_specification[ String::pop ](s: &mut String) -> (r: Option<char>)
    ensures
        old(s)@.len() == 0 ==> r is None && final(s)@ == old(s)@,
        old(s)@.len() > 0 ==> r == Some(old(s)@.last()) && final(s)@ == old(s)@.drop_last(),
;

/// `std::str::from_utf8` succeeds exactly on well-formed UTF-8 and then gives
/// the text whose encoding the bytes are.
#[verifier::external_body]
pub(crate) fn from_utf8(bytes: &[u8]) -> (r: Option<&str>)
    ensures
        r is Some <==> valid_utf8(bytes@),
        r matches Some(s) ==> encode_utf8(s@) == bytes@,
{
    std::str::from_utf8(bytes).ok()
}

/// An ASCII decimal digit.
pub open spec fn digit(c: char) -> bool {
    '0' <= c <= '9'
}

/// An ASCII hexadecimal digit, in either case.
pub open spec fn hex_digit(c: char) -> bool {
    digit(c) || 'a' <= c <= 'f' || 'A' <= c <= 'F'
}

/// An ASCII letter or digit.
pub open spec fn alphanumeric(c: char) -> bool {
    digit(c) || 'a' <= c <= 'z' || 'A' <= c <= 'Z'
}

/// A character of the Unicode `White_Space` property.
pub open spec fn white_space(c: char) -> bool {
    let n = c as u32;
    9 <= n <= 13 || n == 0x20 || n == 0x85 || n == 0xA0 || n == 0x1680 || 0x2000 <= n <= 0x200A || n
        == 0x2028 || n == 0x2029 || n == 0x202F || n == 0x205F || n == 0x3000
}

/// A character of the Unicode general category `Cc`.
pub open spec fn control(c: char) -> bool {
    let n = c as u32;
    n <= 0x1F || 0x7F <= n <= 0x9F
}

/// ASCII space, tab, line feed, form feed or carriage return.
pub open spec fn ascii_white_space(c: char) -> bool {
    let n = c as u32;
    n == 0x20 || n == 9 || n == 10 || n == 12 || n == 13
}

pub fn is_digit(c: char) -> (r: bool)
    ensures
        r == digit(c),
{
    '0' <= c && c <= '9'
}

pub fn is_hex_digit(c: char) -> (r: bool)
    ensures
        r == hex_digit(c),
{
    ('0' <= c && c <= '9') || ('a' <= c && c <= 'f') || ('A' <= c && c <= 'F')
}

pub fn is_alphanumeric(c: char) -> (r: bool)
    ensures
        r == alphanumeric(c),
{
    ('0' <= c && c <= '9') || ('a' <= c && c <= 'z') || ('A' <= c && c <= 'Z')
}

pub fn is_white_space(c: char) -> (r: bool)
    ensures
        r == white_space(c),
{
    let n: u32 = c as u32;
    (9 <= n && n <= 13) || n == 0x20 || n == 0x85 || n == 0xA0 || n == 0x1680 || (0x2000 <= n && n
        <= 0x200A) || n == 0x2028 || n == 0x2029 || n == 0x202F || n == 0x205F || n == 0x3000
}

pub fn is_control(c: char) -> (r: bool)
    ensures
        r == control(c),
{
    let n: u32 = c as u32;
    n <= 0x1F || (0x7F <= n && n <= 0x9F)
}

pub fn is_ascii_white_space(c: char) -> (r: bool)
    ensures
        r == ascii_white_space(c),
{
    let n: u32 = c as u32;
    n == 0x20 || n == 9 || n == 10 || n == 12 || n == 13
}

/// Every character is a hexadecimal digit.
pub open spec fn all_hex(chars: Seq<char>) -> bool {
    forall|i: int| 0 <= i < chars.len() ==> hex_digit(#[trigger] chars[i])
}

pub open spec fn any_control(chars: Seq<char>) -> bool {
    exists|i: int| 0 <= i < chars.len() && control(#[trigger] chars[i])
}

pub open spec fn any_white_space(chars: Seq<char>) -> bool {
    exists|i: int| 0 <= i < chars.len() && white_space(#[trigger] chars[i])
}

/// Equal encodings come from equal texts.
pub proof fn encoding_is_injective(a: Seq<char>, b: Seq<char>)
    requires
        encode_utf8(a) == encode_utf8(b),
    ensures
        a == b,
{
    vstd::utf8::encode_utf8_decode_utf8(a);
    vstd::utf8::encode_utf8_decode_utf8(b);
}

/// Texts are encoded one after the other.
pub proof fn encoding_of_concatenation(a: Seq<char>, b: Seq<char>)
    ensures
        encode_utf8(a + b) == encode_utf8(a) + encode_utf8(b),
    decreases a.len(),
{
    if a.len() == 0 {
        assert(a + b =~= b);
        assert(encode_utf8(a) + encode_utf8(b) =~= encode_utf8(b));
    } else {
        encoding_of_concatenation(a.drop_first(), b);
        assert((a + b).drop_first() =~= a.drop_first() + b);
        assert((a + b)[0] == a[0]);
        assert(encode_utf8(a + b) =~= encode_utf8(a) + encode_utf8(b));
    }
}

/// Whether two byte strings are equal.
pub fn same_bytes(a: &[u8], b: &[u8]) -> (r: bool)
    ensures
        r == (a@ == b@),
{
    if a.len() != b.len() {
        return false;
    }
    let mut i: usize = 0;
    while i < a.len()
        invariant
            a@.len() == b@.len(),
            i <= a@.len(),
            forall|k: int| 0 <= k < i ==> a@[k] == b@[k],
        decreases a@.len() - i,
    {
        if a[i] != b[i] {
            assert(a@[i as int] != b@[i as int]);
            return false;
        }
        i += 1;
    }
    assert(a@ =~= b@);
    true
}

/// Whether two texts hold the same characters.
pub fn same(a: &str, b: &str) -> (r: bool)
    ensures
        r == (a@ == b@),
{
    let r = same_bytes(a.as_bytes(), b.as_bytes());
    proof {
        if r {
            encoding_is_injective(a@, b@);
        }
    }
    r
}

/// The length of the text in UTF-8 bytes.
pub fn byte_len(s: &str) -> (n: usize)
    ensures
        n == encode_utf8(s@).len(),
{
    s.as_bytes().len()
}

pub fn contains(s: &str, wanted: char) -> (r: bool)
    ensures
        r == s@.contains(wanted),
{
    for c in it: s.chars()
        invariant
            it.seq() == s@,
            forall|i: int| 0 <= i < it.index() ==> s@[i] != wanted,
    {
        if c == wanted {
            assert(s@[it.index() as int] == wanted);
            return true;
        }
    }
    false
}

pub fn is_all_hex(s: &str) -> (r: bool)
    ensures
        r == all_hex(s@),
{
    for c in it: s.chars()
        invariant
            it.seq() == s@,
            forall|i: int| 0 <= i < it.index() ==> hex_digit(#[trigger] s@[i]),
    {
        if !is_hex_digit(c) {
            assert(!hex_digit(s@[it.index() as int]));
            return false;
        }
    }
    true
}

pub fn has_control(s: &str) -> (r: bool)
    ensures
        r == any_control(s@),
{
    for c in it: s.chars()
        invariant
            it.seq() == s@,
            forall|i: int| 0 <= i < it.index() ==> !control(#[trigger] s@[i]),
    {
        if is_control(c) {
            assert(control(s@[it.index() as int]));
            return true;
        }
    }
    false
}

pub fn has_white_space(s: &str) -> (r: bool)
    ensures
        r == any_white_space(s@),
{
    for c in it: s.chars()
        invariant
            it.seq() == s@,
            forall|i: int| 0 <= i < it.index() ==> !white_space(#[trigger] s@[i]),
    {
        if is_white_space(c) {
            assert(white_space(s@[it.index() as int]));
            return true;
        }
    }
    false
}

/// Sixty-four hexadecimal digits: the form of a session token.
pub open spec fn token_form(chars: Seq<char>) -> bool {
    chars.len() == 64 && all_hex(chars)
}

pub fn is_token_form(s: &str) -> (r: bool)
    ensures
        r == token_form(s@),
{
    s.unicode_len() == 64 && is_all_hex(s)
}

/// Each digit of a token is one byte.
pub proof fn token_is_ascii(chars: Seq<char>)
    requires
        token_form(chars),
    ensures
        encode_utf8(chars).len() == 64,
{
    assert(vstd::utf8::is_ascii_chars(chars)) by {
        assert forall|i: int| 0 <= i < chars.len() implies '\0' <= #[trigger] chars[i]
            <= '\u{7f}' by {
            assert(hex_digit(chars[i]));
        }
    }
    vstd::utf8::is_ascii_chars_encode_utf8(chars);
}

/// The first `limit` characters of a text, or all of it where it is shorter.
pub open spec fn clipped(chars: Seq<char>, limit: nat) -> Seq<char> {
    if chars.len() <= limit {
        chars
    } else {
        chars.take(limit as int)
    }
}

pub fn clip(s: &str, limit: usize) -> (r: String)
    ensures
        r@ == clipped(s@, limit as nat),
{
    let mut out = String::new();
    let mut taken: usize = 0;
    for c in it: s.chars()
        invariant
            it.seq() == s@,
            taken <= limit,
            taken == if it.index() <= limit { it.index() as int } else { limit as int },
            out@ =~= s@.take(taken as int),
            taken <= s@.len(),
            it.index() <= s@.len(),
    {
        if taken < limit {
            out.push(c);
            taken += 1;
        }
    }
    out
}

/// The decimal digit for a value below ten.
pub open spec fn digit_char(n: int) -> char {
    (48 + n) as char
}

/// The decimal form of a number, without leading zeros.
pub open spec fn decimal(n: nat) -> Seq<char>
    decreases n,
{
    if n < 10 {
        seq![digit_char(n as int)]
    } else {
        decimal(n / 10).push(digit_char((n % 10) as int))
    }
}

fn digit_of(n: u8) -> (c: char)
    requires
        n < 10,
    ensures
        c == digit_char(n as int),
{
    (48u8 + n) as char
}

pub fn push_decimal(out: &mut String, n: u64)
    ensures
        final(out)@ == old(out)@ + decimal(n as nat),
    decreases n,
{
    let ghost before = out@;
    if n >= 10 {
        push_decimal(out, n / 10);
    }
    let c = digit_of((n % 10) as u8);
    out.push(c);
    proof {
        if n >= 10 {
            assert(out@ =~= before + decimal((n / 10) as nat).push(c));
        } else {
            assert(out@ =~= before + seq![c]);
        }
    }
}

/// The six decimal digits of a number below one million, zeros included.
pub open spec fn six_digits(n: nat) -> Seq<char> {
    Seq::new(
        6,
        |i: int|
            digit_char(
                ((if i == 0 {
                    n / 100_000
                } else if i == 1 {
                    n / 10_000
                } else if i == 2 {
                    n / 1_000
                } else if i == 3 {
                    n / 100
                } else if i == 4 {
                    n / 10
                } else {
                    n
                }) % 10) as int,
            ),
    )
}

pub fn format_six_digits(n: u32) -> (r: String)
    ensures
        r@ == six_digits(n as nat),
{
    let mut out = String::new();
    out.push(digit_of((n / 100_000 % 10) as u8));
    out.push(digit_of((n / 10_000 % 10) as u8));
    out.push(digit_of((n / 1_000 % 10) as u8));
    out.push(digit_of((n / 100 % 10) as u8));
    out.push(digit_of((n / 10 % 10) as u8));
    out.push(digit_of((n % 10) as u8));
    assert(out@ =~= six_digits(n as nat));
    out
}

/// The lower-case hexadecimal digit for a value below sixteen.
pub open spec fn hex_char(n: int) -> char {
    if n < 10 {
        (48 + n) as char
    } else {
        (87 + n) as char
    }
}

/// Two lower-case hexadecimal digits for each byte, the high half first.
pub open spec fn hex(bytes: Seq<u8>) -> Seq<char> {
    Seq::new(
        2 * bytes.len(),
        |i: int|
            if i % 2 == 0 {
                hex_char(bytes[i / 2] as int / 16)
            } else {
                hex_char(bytes[i / 2] as int % 16)
            },
    )
}

fn hex_digit_of(n: u8) -> (c: char)
    requires
        n < 16,
    ensures
        c == hex_char(n as int),
{
    if n < 10 {
        (48u8 + n) as char
    } else {
        (87u8 + n) as char
    }
}

pub fn format_hex(bytes: &[u8]) -> (r: String)
    ensures
        r@ == hex(bytes@),
{
    let mut out = String::new();
    let mut i: usize = 0;
    while i < bytes.len()
        invariant
            i <= bytes@.len(),
            out@ =~= hex(bytes@).take(2 * i),
        decreases bytes@.len() - i,
    {
        let b: u8 = bytes[i];
        let ghost before = out@;
        out.push(hex_digit_of(b / 16));
        out.push(hex_digit_of(b % 16));
        assert(hex(bytes@).take(2 * (i + 1)) =~= before.push(hex_char(b as int / 16)).push(
            hex_char(b as int % 16),
        ));
        i += 1;
    }
    assert(hex(bytes@).take(2 * i as int) =~= hex(bytes@));
    out
}

/// The hexadecimal form holds hexadecimal digits only, two for each byte.
pub proof fn hex_is_hexadecimal(bytes: Seq<u8>)
    ensures
        hex(bytes).len() == 2 * bytes.len(),
        all_hex(hex(bytes)),
{
    assert forall|i: int| 0 <= i < hex(bytes).len() implies hex_digit(#[trigger] hex(bytes)[i]) by {
        let b = bytes[i / 2] as int;
        assert(0 <= b / 16 < 16 && 0 <= b % 16 < 16);
    }
}

proof fn hex_char_is_injective(p: int, q: int)
    requires
        0 <= p < 16,
        0 <= q < 16,
        hex_char(p) == hex_char(q),
    ensures
        p == q,
{
    assert(hex_char(p) as int == if p < 10 { 48 + p } else { 87 + p });
    assert(hex_char(q) as int == if q < 10 { 48 + q } else { 87 + q });
}

/// Different bytes have different hexadecimal forms.
pub proof fn hex_is_injective(a: Seq<u8>, b: Seq<u8>)
    requires
        hex(a) == hex(b),
    ensures
        a == b,
{
    assert(hex(a).len() == 2 * a.len() && hex(b).len() == 2 * b.len());
    assert forall|i: int| 0 <= i < a.len() implies a[i] == b[i] by {
        let (x, y) = (a[i] as int, b[i] as int);
        assert((2 * i) % 2 == 0 && (2 * i) / 2 == i);
        assert((2 * i + 1) % 2 == 1 && (2 * i + 1) / 2 == i);
        assert(hex(a)[2 * i] == hex_char(x / 16) && hex(b)[2 * i] == hex_char(y / 16));
        assert(hex(a)[2 * i + 1] == hex_char(x % 16) && hex(b)[2 * i + 1] == hex_char(y % 16));
        hex_char_is_injective(x / 16, y / 16);
        hex_char_is_injective(x % 16, y % 16);
    }
    assert(a =~= b);
}

/// Whether the text begins with `prefix`.
pub open spec fn has_prefix(chars: Seq<char>, prefix: Seq<char>) -> bool {
    chars.len() >= prefix.len() && chars.take(prefix.len() as int) == prefix
}

pub fn starts_with(s: &str, prefix: &str) -> (r: bool)
    ensures
        r == has_prefix(s@, prefix@),
{
    let n: usize = prefix.unicode_len();
    if s.unicode_len() < n {
        return false;
    }
    let head = s.substring_char(0, n);
    assert(head@ =~= s@.take(prefix@.len() as int));
    same(head, prefix)
}

/// Whether the text ends with `suffix`.
pub open spec fn has_suffix(chars: Seq<char>, suffix: Seq<char>) -> bool {
    chars.len() >= suffix.len() && chars.skip(chars.len() - suffix.len()) == suffix
}

pub fn ends_with(s: &str, suffix: &str) -> (r: bool)
    ensures
        r == has_suffix(s@, suffix@),
{
    let n: usize = s.unicode_len();
    let m: usize = suffix.unicode_len();
    if n < m {
        return false;
    }
    let tail = s.substring_char(n - m, n);
    assert(tail@ =~= s@.skip(s@.len() - suffix@.len()));
    same(tail, suffix)
}

/// The text without the white space at its beginning.
pub open spec fn trimmed_start(chars: Seq<char>) -> Seq<char>
    decreases chars.len(),
{
    if chars.len() > 0 && white_space(chars[0]) {
        trimmed_start(chars.drop_first())
    } else {
        chars
    }
}

/// The text without the white space at its end.
pub open spec fn trimmed_end(chars: Seq<char>) -> Seq<char>
    decreases chars.len(),
{
    if chars.len() > 0 && white_space(chars.last()) {
        trimmed_end(chars.drop_last())
    } else {
        chars
    }
}

/// The text without the white space around it.
pub open spec fn trimmed(chars: Seq<char>) -> Seq<char> {
    trimmed_end(trimmed_start(chars))
}

pub fn trim(s: &str) -> (r: &str)
    ensures
        r@ == trimmed(s@),
{
    let n: usize = s.unicode_len();
    let mut start: usize = 0;
    assert(s@.skip(0) =~= s@);
    while start < n && is_white_space(s.get_char(start))
        invariant
            n == s@.len(),
            start <= n,
            trimmed_start(s@) == trimmed_start(s@.skip(start as int)),
        decreases n - start,
    {
        assert(s@.skip(start as int).drop_first() =~= s@.skip(start + 1));
        start += 1;
    }
    let ghost rest = s@.skip(start as int);
    assert(trimmed_start(s@) == rest);
    let mut end: usize = n;
    assert(s@.subrange(start as int, n as int) =~= rest);
    while end > start && is_white_space(s.get_char(end - 1))
        invariant
            n == s@.len(),
            start <= end <= n,
            trimmed_end(rest) == trimmed_end(s@.subrange(start as int, end as int)),
        decreases end - start,
    {
        assert(s@.subrange(start as int, end as int).drop_last() =~= s@.subrange(
            start as int,
            end - 1,
        ));
        end -= 1;
    }
    s.substring_char(start, end)
}

/// The part occurs in the text at this place.
pub open spec fn occurs_at(chars: Seq<char>, part: Seq<char>, at: int) -> bool {
    0 <= at && at + part.len() <= chars.len() && chars.subrange(at, at + part.len()) == part
}

pub open spec fn has_part(chars: Seq<char>, part: Seq<char>) -> bool {
    exists|at: int| occurs_at(chars, part, at)
}

pub fn contains_text(s: &str, part: &str) -> (r: bool)
    ensures
        r == has_part(s@, part@),
{
    let n: usize = s.unicode_len();
    let m: usize = part.unicode_len();
    if n < m {
        return false;
    }
    let mut at: usize = 0;
    while at <= n - m
        invariant
            n == s@.len(),
            m == part@.len(),
            m <= n,
            at <= n - m + 1,
            forall|k: int| 0 <= k < at ==> !occurs_at(s@, part@, k),
        decreases n - m + 1 - at,
    {
        if same(s.substring_char(at, at + m), part) {
            assert(occurs_at(s@, part@, at as int));
            return true;
        }
        if at == n - m {
            return false;
        }
        at += 1;
    }
    false
}

/// The bytes of a number, the highest first.
pub open spec fn number_bytes(n: u64) -> Seq<u8> {
    seq![
        (n / 0x100_0000_0000_0000) as u8,
        (n / 0x1_0000_0000_0000 % 256) as u8,
        (n / 0x100_0000_0000 % 256) as u8,
        (n / 0x1_0000_0000 % 256) as u8,
        (n / 0x100_0000 % 256) as u8,
        (n / 0x1_0000 % 256) as u8,
        (n / 0x100 % 256) as u8,
        (n % 256) as u8,
    ]
}

/// The sixteen lower-case hexadecimal digits of a number, zeros included.
pub open spec fn number_hex(n: u64) -> Seq<char> {
    hex(number_bytes(n))
}

pub fn format_number(n: u64) -> (r: String)
    ensures
        r@ == number_hex(n),
{
    let bytes: [u8; 8] = [
        (n / 0x100_0000_0000_0000) as u8,
        (n / 0x1_0000_0000_0000 % 256) as u8,
        (n / 0x100_0000_0000 % 256) as u8,
        (n / 0x1_0000_0000 % 256) as u8,
        (n / 0x100_0000 % 256) as u8,
        (n / 0x1_0000 % 256) as u8,
        (n / 0x100 % 256) as u8,
        (n % 256) as u8,
    ];
    assert(bytes@ =~= number_bytes(n));
    format_hex(bytes.as_slice())
}

spec fn rebuilt(x: Seq<u8>) -> int {
    x[0] * 0x100_0000_0000_0000 + x[1] * 0x1_0000_0000_0000 + x[2] * 0x100_0000_0000 + x[3]
        * 0x1_0000_0000 + x[4] * 0x100_0000 + x[5] * 0x1_0000 + x[6] * 0x100 + x[7]
}

proof fn bytes_give_the_number(n: u64)
    ensures
        rebuilt(number_bytes(n)) == n,
{
    assert(n / 0x100_0000_0000_0000 < 256) by (bit_vector);
    assert(n == (n / 0x100_0000_0000_0000) * 0x100_0000_0000_0000 + (n / 0x1_0000_0000_0000 % 256)
        * 0x1_0000_0000_0000 + (n / 0x100_0000_0000 % 256) * 0x100_0000_0000 + (n / 0x1_0000_0000
        % 256) * 0x1_0000_0000 + (n / 0x100_0000 % 256) * 0x100_0000 + (n / 0x1_0000 % 256)
        * 0x1_0000 + (n / 0x100 % 256) * 0x100 + n % 256) by (bit_vector);
}

/// Different numbers have different digits.
pub proof fn number_hex_is_injective(a: u64, b: u64)
    requires
        number_hex(a) == number_hex(b),
    ensures
        a == b,
{
    let x = number_bytes(a);
    let y = number_bytes(b);
    hex_is_injective(x, y);
    assert(x[0] == y[0] && x[1] == y[1] && x[2] == y[2] && x[3] == y[3] && x[4] == y[4] && x[5]
        == y[5] && x[6] == y[6] && x[7] == y[7]);
    bytes_give_the_number(a);
    bytes_give_the_number(b);
}

} // verus!
