//! Numbers, bytes and texts in writing: what is written can be read again.
use crate::text::{
    clipped, decimal, digit, has_part, has_prefix, has_suffix, hex, number_bytes, number_hex,
    occurs_at, six_digits, trimmed, trimmed_end, trimmed_start, white_space,
};
use crate::text;
use crate::wire;
use vstd::prelude::*;

verus! {

/// The value of digits as they are read, from the left.
pub open spec fn read_decimal(chars: Seq<char>) -> int
    decreases chars.len(),
{
    if chars.len() == 0 {
        0
    } else {
        10 * read_decimal(chars.drop_last()) + (chars.last() as int - '0' as int)
    }
}

/// A number in decimal form is read as the number, in digits only and without a zero
/// in front.
#[verifier::spinoff_prover]
pub proof fn decimals_are_read_again(n: nat)
    ensures
        read_decimal(decimal(n)) == n,
        forall|i: int| 0 <= i < decimal(n).len() ==> digit(#[trigger] decimal(n)[i]),
        decimal(n).len() >= 1,
        decimal(n).len() > 1 ==> decimal(n)[0] != '0',
    decreases n,
{
    if n < 10 {
        assert(decimal(n).drop_last() =~= Seq::<char>::empty());
        assert(decimal(n).last() as int == 48 + n);
        assert(read_decimal(decimal(n).drop_last()) == 0);
    } else {
        decimals_are_read_again(n / 10);
        let shorter = decimal(n / 10);
        assert(decimal(n).drop_last() =~= shorter);
        assert(decimal(n).last() as int == 48 + n % 10);
        assert forall|i: int| 0 <= i < decimal(n).len() implies digit(
            #[trigger] decimal(n)[i],
        ) by {
            if i < shorter.len() {
                assert(decimal(n)[i] == shorter[i]);
            }
        }
        assert(decimal(n)[0] == shorter[0]);
        if shorter.len() == 1 {
            assert(shorter.drop_last() =~= Seq::<char>::empty());
            assert(read_decimal(shorter.drop_last()) == 0);
        }
    }
}

/// A code is read as its number, and has six digits.
#[verifier::spinoff_prover]
pub proof fn codes_are_read_again(n: nat)
    requires
        n < 1_000_000,
    ensures
        six_digits(n).len() == 6,
        read_decimal(six_digits(n)) == n,
        forall|i: int| 0 <= i < 6 ==> digit(#[trigger] six_digits(n)[i]),
{
    let c = six_digits(n);
    let d1 = c.drop_last();
    let d2 = d1.drop_last();
    let d3 = d2.drop_last();
    let d4 = d3.drop_last();
    let d5 = d4.drop_last();
    assert(c[0] as int == 48 + n / 100_000 % 10);
    assert(c[1] as int == 48 + n / 10_000 % 10);
    assert(c[2] as int == 48 + n / 1_000 % 10);
    assert(c[3] as int == 48 + n / 100 % 10);
    assert(c[4] as int == 48 + n / 10 % 10);
    assert(c[5] as int == 48 + n % 10);
    assert(read_decimal(d5.drop_last()) == 0);
    assert(read_decimal(d5) == n / 100_000);
    assert(read_decimal(d4) == n / 10_000);
    assert(read_decimal(d3) == n / 1_000);
    assert(read_decimal(d2) == n / 100);
    assert(read_decimal(d1) == n / 10);
    assert(read_decimal(c) == n);
}

/// The value of a lower-case hexadecimal digit, as it is read.
pub open spec fn read_hex_digit(c: char) -> int {
    if '0' <= c <= '9' {
        c as int - '0' as int
    } else {
        10 + (c as int - 'a' as int)
    }
}

/// Two digits are read as their byte, and no digit is upper-case.
pub proof fn hexadecimals_are_read_again(bytes: Seq<u8>, i: int)
    requires
        0 <= i < bytes.len(),
    ensures
        hex(bytes).len() == 2 * bytes.len(),
        16 * read_hex_digit(hex(bytes)[2 * i]) + read_hex_digit(hex(bytes)[2 * i + 1]) == bytes[i],
        digit(hex(bytes)[2 * i]) || 'a' <= hex(bytes)[2 * i] <= 'f',
        digit(hex(bytes)[2 * i + 1]) || 'a' <= hex(bytes)[2 * i + 1] <= 'f',
{
    let b = bytes[i] as int;
    assert((2 * i) % 2 == 0 && (2 * i) / 2 == i);
    assert((2 * i + 1) % 2 == 1 && (2 * i + 1) / 2 == i);
    let high = b / 16;
    let low = b % 16;
    assert(hex(bytes)[2 * i] as int == if high < 10 { 48 + high } else { 87 + high });
    assert(hex(bytes)[2 * i + 1] as int == if low < 10 { 48 + low } else { 87 + low });
}

/// The number whose bytes these are, the highest first.
pub open spec fn read_bytes(bytes: Seq<u8>) -> int
    decreases bytes.len(),
{
    if bytes.len() == 0 {
        0
    } else {
        256 * read_bytes(bytes.drop_last()) + bytes.last()
    }
}

/// The bytes of a number are read as the number, the highest first.
#[verifier::spinoff_prover]
pub proof fn numbers_are_read_again(n: u64)
    ensures
        number_bytes(n).len() == 8,
        read_bytes(number_bytes(n)) == n,
        number_hex(n).len() == 16,
        number_hex(n) == hex(number_bytes(n)),
{
    let c = number_bytes(n);
    reveal_with_fuel(read_bytes, 9);
    let d1 = c.drop_last();
    let d2 = d1.drop_last();
    let d3 = d2.drop_last();
    let d4 = d3.drop_last();
    let d5 = d4.drop_last();
    let d6 = d5.drop_last();
    let d7 = d6.drop_last();
    assert(d7.drop_last().len() == 0);
    assert(n / 0x100_0000_0000_0000 < 256) by (bit_vector);
    assert(c.last() == c[7] && d1.last() == c[6] && d2.last() == c[5] && d3.last() == c[4]
        && d4.last() == c[3] && d5.last() == c[2] && d6.last() == c[1] && d7.last() == c[0]);
    assert(n == (((((((n / 0x100_0000_0000_0000) * 256 + n / 0x1_0000_0000_0000 % 256) * 256 + n
        / 0x100_0000_0000 % 256) * 256 + n / 0x1_0000_0000 % 256) * 256 + n / 0x100_0000 % 256)
        * 256 + n / 0x1_0000 % 256) * 256 + n / 0x100 % 256) * 256 + n % 256) by (bit_vector);
}

/// A number of two bytes is read as it was written, the higher byte first.
pub proof fn lengths_are_read_again(n: nat)
    requires
        n < 65536,
    ensures
        wire::be16(n).len() == 2,
        read_bytes(wire::be16(n)) == n,
        wire::from_be16(wire::be16(n)) == n,
{
    let c = wire::be16(n);
    reveal_with_fuel(read_bytes, 3);
    assert(c.drop_last().drop_last().len() == 0);
    wire::be16_round_trip(n);
}

/// What is clipped is the beginning of the text, as much as is allowed.
pub proof fn a_clipped_text_is_a_beginning(chars: Seq<char>, limit: nat, i: int)
    ensures
        clipped(chars, limit).len() == if chars.len() < limit {
            chars.len()
        } else {
            limit
        },
        0 <= i < clipped(chars, limit).len() ==> clipped(chars, limit)[i] == chars[i],
{
}

proof fn start_is_trimmed(chars: Seq<char>)
    ensures
        exists|n: int|
            0 <= n <= chars.len() && trimmed_start(chars) == #[trigger] chars.skip(n) && forall|
                i: int,
            |
                0 <= i < n ==> white_space(#[trigger] chars[i]),
        trimmed_start(chars).len() > 0 ==> !white_space(trimmed_start(chars)[0]),
    decreases chars.len(),
{
    if chars.len() > 0 && white_space(chars[0]) {
        let rest = chars.drop_first();
        start_is_trimmed(rest);
        let n = choose|n: int|
            0 <= n <= rest.len() && trimmed_start(rest) == #[trigger] rest.skip(n) && forall|i: int|
                0 <= i < n ==> white_space(#[trigger] rest[i]);
        assert(rest.skip(n) =~= chars.skip(n + 1));
        assert forall|i: int| 0 <= i < n + 1 implies white_space(#[trigger] chars[i]) by {
            if i > 0 {
                assert(chars[i] == rest[i - 1]);
            }
        }
    } else {
        assert(chars.skip(0) =~= chars);
    }
}

proof fn end_is_trimmed(chars: Seq<char>)
    ensures
        exists|n: int|
            0 <= n <= chars.len() && trimmed_end(chars) == #[trigger] chars.take(n) && forall|
                i: int,
            |
                n <= i < chars.len() ==> white_space(#[trigger] chars[i]),
        trimmed_end(chars).len() > 0 ==> !white_space(trimmed_end(chars).last()),
    decreases chars.len(),
{
    if chars.len() > 0 && white_space(chars.last()) {
        let rest = chars.drop_last();
        end_is_trimmed(rest);
        let n = choose|n: int|
            0 <= n <= rest.len() && trimmed_end(rest) == #[trigger] rest.take(n) && forall|i: int|
                n <= i < rest.len() ==> white_space(#[trigger] rest[i]);
        assert(rest.take(n) =~= chars.take(n));
        assert forall|i: int| n <= i < chars.len() implies white_space(#[trigger] chars[i]) by {
            if i < rest.len() {
                assert(chars[i] == rest[i]);
            }
        }
    } else {
        assert(chars.take(chars.len() as int) =~= chars);
    }
}

/// What is left once white space is trimmed is a piece of the text: only white space
/// was before and after it, and it neither begins nor ends with any.
pub proof fn trimming_drops_white_space_only(chars: Seq<char>)
    ensures
        exists|a: int, b: int|
            0 <= a <= b <= chars.len() && trimmed(chars) == #[trigger] chars.subrange(a, b) && (
            forall|i: int| 0 <= i < a || b <= i < chars.len() ==> white_space(#[trigger] chars[i])),
        trimmed(chars).len() > 0 ==> !white_space(trimmed(chars)[0]) && !white_space(
            trimmed(chars).last(),
        ),
{
    start_is_trimmed(chars);
    let rest = trimmed_start(chars);
    let a = choose|n: int|
        0 <= n <= chars.len() && rest == #[trigger] chars.skip(n) && forall|i: int|
            0 <= i < n ==> white_space(#[trigger] chars[i]);
    end_is_trimmed(rest);
    let n = choose|n: int|
        0 <= n <= rest.len() && trimmed_end(rest) == #[trigger] rest.take(n) && forall|i: int|
            n <= i < rest.len() ==> white_space(#[trigger] rest[i]);
    let b = a + n;
    assert(rest.take(n) =~= chars.subrange(a, b));
    assert forall|i: int| 0 <= i < a || b <= i < chars.len() implies white_space(
        #[trigger] chars[i],
    ) by {
        if i >= b {
            assert(chars[i] == rest[i - a]);
        }
    }
    if trimmed(chars).len() > 0 {
        assert(trimmed(chars)[0] == rest[0]);
    }
}

/// A text begins, ends and goes on with what it was put together from.
pub proof fn pieces_are_found_again(a: Seq<char>, b: Seq<char>, c: Seq<char>)
    ensures
        has_prefix(a + b, a),
        has_suffix(a + b, b),
        has_part(a + b + c, b),
{
    assert((a + b).take(a.len() as int) =~= a);
    assert((a + b).skip(a.len() as int) =~= b);
    assert((a + b + c).subrange(a.len() as int, (a.len() + b.len()) as int) =~= b);
    assert(occurs_at(a + b + c, b, a.len() as int));
}

/// What begins a text is followed by the rest of it, and what ends it is preceded by the
/// rest.
pub proof fn the_rest_is_there(chars: Seq<char>, piece: Seq<char>)
    ensures
        has_prefix(chars, piece) ==> chars == piece + chars.skip(piece.len() as int),
        has_suffix(chars, piece) ==> chars == chars.take(chars.len() - piece.len()) + piece,
{
    if has_prefix(chars, piece) {
        assert(chars =~= chars.take(piece.len() as int) + chars.skip(piece.len() as int));
    }
    if has_suffix(chars, piece) {
        let n = chars.len() - piece.len();
        assert(chars =~= chars.take(n) + chars.skip(n));
    }
}

/// Which characters are blank: the usual ones, and the wide and narrow ones of other
/// scripts. No letter, digit or mark of ASCII is.
pub proof fn blank_characters(c: char)
    ensures
        text::white_space(' ') && text::white_space('\t') && text::white_space('\n')
            && text::white_space('\r'),
        text::white_space('\u{b}') && text::white_space('\u{c}'),
        text::white_space('\u{85}') && text::white_space('\u{a0}') && text::white_space(
            '\u{1680}',
        ) && text::white_space('\u{2028}') && text::white_space('\u{2029}') && text::white_space(
            '\u{202f}',
        ) && text::white_space('\u{205f}') && text::white_space('\u{3000}'),
        '\u{2000}' <= c <= '\u{200a}' ==> text::white_space(c),
        '!' <= c <= '~' ==> !text::white_space(c),
        c < '\t' || '\u{e}' <= c <= '\u{1f}' || c == '\u{7f}' ==> !text::white_space(c),
        c > '\u{3000}' ==> !text::white_space(c),
        text::white_space(c) ==> !text::hex_digit(c) && !text::alphanumeric(c),
{
}

proof fn control_character(c: char)
    ensures
        text::control(c) <==> c < ' ' || '\u{7f}' <= c <= '\u{9f}',
{
}

/// Control characters are the first 32 of ASCII, its last, and the 32 after it.
pub proof fn control_characters(c: char, chars: Seq<char>)
    ensures
        text::control(c) <==> c < ' ' || '\u{7f}' <= c <= '\u{9f}',
        text::any_control(chars) <==> !(forall|i: int|
            0 <= i < chars.len() ==> !(#[trigger] chars[i] < ' ') && !('\u{7f}' <= chars[i]
                <= '\u{9f}')),
        text::ascii_white_space(c) <==> c == ' ' || c == '\t' || c == '\n' || c == '\u{c}' || c
            == '\r',
{
    assert forall|i: int| 0 <= i < chars.len() implies (text::control(#[trigger] chars[i])
        <==> chars[i] < ' ' || '\u{7f}' <= chars[i] <= '\u{9f}') by {
        control_character(chars[i]);
    }
    if !text::any_control(chars) {
        assert forall|i: int| 0 <= i < chars.len() implies !(#[trigger] chars[i] < ' ') && !(
        '\u{7f}' <= chars[i] <= '\u{9f}') by {
            assert(!text::control(chars[i]));
        }
    }
}

/// A token is 64 hexadecimal digits, and neither more nor less.
pub proof fn tokens_are_digits(chars: Seq<char>, i: int)
    ensures
        text::token_form(chars) ==> chars.len() == 64 && (0 <= i < 64 ==> '0' <= chars[i] <= '9'
            || 'a' <= chars[i] <= 'f' || 'A' <= chars[i] <= 'F'),
        chars.len() == 64 && (forall|k: int|
            0 <= k < 64 ==> '0' <= #[trigger] chars[k] <= '9' || 'a' <= chars[k] <= 'f' || 'A'
                <= chars[k] <= 'F') ==> text::token_form(chars),
{
    if text::token_form(chars) && 0 <= i < 64 {
        assert(text::hex_digit(chars[i]));
    }
}

} // verus!
