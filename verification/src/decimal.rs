//! Whole numbers written in decimal digits, without sign and without
//! leading zeros.

use vstd::prelude::*;

verus! {

/// Whether a byte is one of the digits `0` to `9`.
pub open spec fn is_digit(byte: u8) -> bool {
    48 <= byte <= 57
}

/// A number as decimal digits: `0` for zero, no leading zero otherwise.
pub open spec fn decimal(n: nat) -> Seq<u8>
    decreases n,
{
    if n < 10 {
        seq![(48 + n) as u8]
    } else {
        decimal(n / 10).push((48 + n % 10) as u8)
    }
}

/// The number that a row of digits stands for.
pub open spec fn digits_value(digits: Seq<u8>) -> nat
    decreases digits.len(),
{
    if digits.len() == 0 {
        0
    } else {
        digits_value(digits.drop_last()) * 10 + (digits.last() - 48) as nat
    }
}

/// How many digits stand at the start of a text.
pub open spec fn digit_count(text: Seq<u8>) -> nat
    decreases text.len(),
{
    if text.len() > 0 && is_digit(text[0]) {
        1 + digit_count(text.drop_first())
    } else {
        0
    }
}

/// Reads the number at the start of a text: all the digits that stand
/// there. There is none where no digit stands there, where more than one
/// does and the first is `0`, or where the number is over `max`. With the
/// number comes what is left of the text.
pub open spec fn parse_decimal(text: Seq<u8>, max: nat) -> Option<(nat, Seq<u8>)> {
    let count = digit_count(text) as int;
    if count == 0 || (count > 1 && text[0] == 48) || digits_value(text.take(count)) > max {
        None
    } else {
        Some((digits_value(text.take(count)), text.skip(count)))
    }
}

/// The digits of a number: at least one, all of them digits, no leading
/// zero but for zero itself, and their value is the number.
pub proof fn lemma_decimal_shape(n: nat)
    ensures
        decimal(n).len() >= 1,
        n < 10 <==> decimal(n).len() == 1,
        n > 0 ==> decimal(n)[0] != 48,
        forall|i: int| 0 <= i < decimal(n).len() ==> is_digit(#[trigger] decimal(n)[i]),
        digits_value(decimal(n)) == n,
    decreases n,
{
    if n < 10 {
        assert(decimal(n).drop_last() =~= Seq::<u8>::empty());
        assert(digits_value(decimal(n).drop_last()) == 0);
    } else {
        let front = decimal(n / 10);
        lemma_decimal_shape(n / 10);
        assert(decimal(n).drop_last() =~= front);
        assert(decimal(n)[0] == front[0]);
    }
}

/// No number written in decimal is longer than twenty digits if it fits in
/// 64 bits, nor longer than three if it fits in eight.
pub proof fn lemma_decimal_length(n: nat)
    ensures
        n <= 0xff ==> decimal(n).len() <= 3,
        n <= 0xffff_ffff_ffff_ffff ==> decimal(n).len() <= 20,
{
    reveal_with_fuel(decimal, 21);
}

/// The digits of a number are text: each is a character of one byte.
pub proof fn lemma_decimal_is_text(n: nat)
    ensures
        vstd::utf8::valid_utf8(decimal(n)),
{
    let digits = decimal(n);
    lemma_decimal_shape(n);
    assert forall|i: int| 0 <= i < digits.len() implies #[trigger] vstd::utf8::is_leading_byte_width_1(
        digits[i],
    ) by {
        let byte = digits[i];
        assert(is_digit(byte));
        assert(byte & 0x80 == 0) by (bit_vector)
            requires
                48 <= byte <= 57,
        ;
    }
    assert(digits.subrange(0, 0) =~= Seq::<u8>::empty());
    assert(vstd::utf8::partial_valid_utf8(digits, 0));
    vstd::utf8::partial_valid_utf8_extend_ascii_block(digits, 0, digits.len() as int);
    assert(digits.subrange(0, digits.len() as int) =~= digits);
}

/// Where the first `count` bytes of a text are digits, at least so many
/// digits stand at its start; exactly so many where the text ends there or
/// goes on with something else.
pub proof fn lemma_digit_count_prefix(text: Seq<u8>, count: int)
    requires
        0 <= count <= text.len(),
        forall|i: int| 0 <= i < count ==> is_digit(#[trigger] text[i]),
    ensures
        digit_count(text) >= count,
        count == text.len() || !is_digit(text[count]) ==> digit_count(text) == count,
    decreases count,
{
    if count > 0 {
        let rest = text.drop_first();
        assert forall|i: int| 0 <= i < count - 1 implies is_digit(#[trigger] rest[i]) by {
            assert(rest[i] == text[i + 1]);
        }
        lemma_digit_count_prefix(rest, count - 1);
        if count < text.len() {
            assert(rest[count - 1] == text[count]);
        }
    }
}

/// The digits that stand at the start of a text are digits, lie within the
/// text, and what follows them is none.
pub proof fn lemma_digit_count_bound(text: Seq<u8>)
    ensures
        digit_count(text) <= text.len(),
        forall|i: int| 0 <= i < digit_count(text) ==> is_digit(#[trigger] text[i]),
        digit_count(text) == text.len() || !is_digit(text[digit_count(text) as int]),
    decreases text.len(),
{
    if text.len() > 0 && is_digit(text[0]) {
        let rest = text.drop_first();
        lemma_digit_count_bound(rest);
        assert forall|i: int| 0 <= i < digit_count(text) implies is_digit(#[trigger] text[i]) by {
            if i > 0 {
                assert(text[i] == rest[i - 1]);
            }
        }
        if digit_count(text) < text.len() {
            assert(text[digit_count(text) as int] == rest[digit_count(rest) as int]);
        }
    }
}

/// A row of digits stands for no less than any of its beginnings.
pub proof fn lemma_digits_value_grows(digits: Seq<u8>, count: int)
    requires
        0 <= count <= digits.len(),
        forall|i: int| 0 <= i < digits.len() ==> is_digit(#[trigger] digits[i]),
    ensures
        digits_value(digits.take(count)) <= digits_value(digits),
    decreases digits.len(),
{
    if count == digits.len() {
        assert(digits.take(count) =~= digits);
    } else {
        let front = digits.drop_last();
        lemma_digits_value_grows(front, count);
        assert(front.take(count) =~= digits.take(count));
    }
}

/// A row of digits without a leading zero is the decimal form of the
/// number that it stands for.
pub proof fn lemma_decimal_of_value(digits: Seq<u8>)
    requires
        digits.len() >= 1,
        forall|i: int| 0 <= i < digits.len() ==> is_digit(#[trigger] digits[i]),
        digits.len() > 1 ==> digits[0] != 48,
    ensures
        decimal(digits_value(digits)) == digits,
    decreases digits.len(),
{
    let front = digits.drop_last();
    if digits.len() == 1 {
        assert(front =~= Seq::<u8>::empty());
        assert(digits_value(front) == 0);
        assert(decimal(digits_value(digits)) =~= digits);
    } else {
        assert(front[0] == digits[0]);
        lemma_decimal_of_value(front);
        lemma_digits_value_grows(front, 1);
        assert(front.take(1).drop_last() =~= Seq::<u8>::empty());
        assert(digits_value(Seq::<u8>::empty()) == 0);
        assert(front.take(1).last() == front[0]);
        assert(digits_value(front.take(1)) == (front[0] - 48) as nat);
        assert(digits_value(front) >= 1);
        let value = digits_value(digits);
        let last = (digits.last() - 48) as nat;
        assert(value == digits_value(front) * 10 + last);
        assert(value / 10 == digits_value(front));
        assert(value % 10 == last);
        assert(decimal(value) =~= digits);
    }
}

/// A number that was written is read back as it was, whatever follows it
/// that is no digit.
pub proof fn lemma_parse_decimal_written(n: nat, rest: Seq<u8>, max: nat)
    requires
        rest.len() == 0 || !is_digit(rest[0]),
    ensures
        parse_decimal(decimal(n) + rest, max) == if n <= max {
            Some((n, rest))
        } else {
            None
        },
{
    let digits = decimal(n);
    let text = digits + rest;
    lemma_decimal_shape(n);
    assert forall|i: int| 0 <= i < digits.len() implies is_digit(#[trigger] text[i]) by {
        assert(text[i] == digits[i]);
    }
    if rest.len() > 0 {
        assert(text[digits.len() as int] == rest[0]);
    }
    lemma_digit_count_prefix(text, digits.len() as int);
    assert(text.take(digits.len() as int) =~= digits);
    assert(text.skip(digits.len() as int) =~= rest);
    assert(text[0] == digits[0]);
}

/// What is read as a number is that number as it is written, and what is
/// left does not go on with a digit.
pub proof fn lemma_parse_decimal_canonical(text: Seq<u8>, max: nat)
    requires
        parse_decimal(text, max) is Some,
    ensures
        text == decimal((parse_decimal(text, max)->0).0) + (parse_decimal(text, max)->0).1,
        (parse_decimal(text, max)->0).0 <= max,
        (parse_decimal(text, max)->0).1.len() == 0 || !is_digit((parse_decimal(text, max)->0).1[0]),
{
    let count = digit_count(text) as int;
    lemma_digit_count_bound(text);
    let digits = text.take(count);
    assert forall|i: int| 0 <= i < digits.len() implies is_digit(#[trigger] digits[i]) by {
        assert(digits[i] == text[i]);
    }
    assert(digits[0] == text[0]);
    lemma_decimal_of_value(digits);
    assert(text =~= digits + text.skip(count));
    if count < text.len() {
        assert(text.skip(count)[0] == text[count]);
    }
}

/// Writes a number in decimal digits.
pub fn put_decimal(out: &mut Vec<u8>, n: u64)
    ensures
        final(out)@ == old(out)@ + decimal(n as nat),
{
    let ghost before = out@;
    let mut digits: Vec<u8> = Vec::new();
    let mut left: u64 = n;
    // The digits come out last first.
    loop
        invariant_except_break
            digits@.len() < 20 || left == 0,
            decimal(n as nat) == decimal(left as nat) + digits@.reverse(),
        invariant
            digits@.len() <= 20,
        ensures
            decimal(n as nat) == digits@.reverse(),
            digits@.len() >= 1,
        decreases left,
    {
        let digit: u8 = (48 + left % 10) as u8;
        let ghost earlier = digits@;
        proof {
            lemma_decimal_length(n as nat);
            lemma_decimal_shape(left as nat);
            assert((decimal(left as nat) + earlier.reverse()).len() <= 20);
        }
        digits.push(digit);
        proof {
            assert(digits@.reverse() =~= seq![digit] + earlier.reverse());
        }
        if left < 10 {
            proof {
                assert(decimal(left as nat) =~= seq![digit]);
            }
            break;
        }
        proof {
            let front = decimal((left / 10) as nat);
            assert(decimal(left as nat) == front.push(digit));
            assert(front.push(digit) + earlier.reverse() =~= front + digits@.reverse());
        }
        left = left / 10;
    }
    let count: usize = digits.len();
    let mut i: usize = count;
    while i > 0
        invariant
            i <= count,
            count == digits@.len(),
            out@ == before + digits@.reverse().take(count - i),
        decreases i,
    {
        i = i - 1;
        out.push(digits[i]);
        proof {
            let turned = digits@.reverse();
            assert(turned[count - 1 - i] == digits@[i as int]);
            assert(out@ =~= before + turned.take(count - i));
        }
    }
    proof {
        assert(digits@.reverse().take(count as int) =~= digits@.reverse());
    }
}

/// Reads the number that stands in `input` at `pos`, if one does and it is
/// not over `max`. With the number comes the place behind it.
pub fn read_decimal(input: &[u8], pos: usize, max: u64) -> (found: Option<(u64, usize)>)
    requires
        pos <= input@.len(),
    ensures
        match found {
            Some((value, end)) => pos < end <= input@.len() && value <= max && parse_decimal(
                input@.skip(pos as int),
                max as nat,
            ) == Some((value as nat, input@.skip(end as int))),
            None => parse_decimal(input@.skip(pos as int), max as nat) is None,
        },
{
    let n: usize = input.len();
    let ghost text = input@.skip(pos as int);
    let mut i: usize = pos;
    let mut value: u64 = 0;
    loop
        invariant
            pos <= i <= n,
            n == input@.len(),
            text == input@.skip(pos as int),
            forall|j: int| 0 <= j < i - pos ==> is_digit(#[trigger] text[j]),
            value == digits_value(text.take(i - pos)),
            value <= max,
        ensures
            i == n || !is_digit(input@[i as int]),
        decreases n - i,
    {
        if i >= n {
            break;
        }
        let byte: u8 = input[i];
        if byte < 48 || byte > 57 {
            break;
        }
        let digit: u64 = (byte - 48) as u64;
        proof {
            assert(text[i - pos] == byte);
            let longer = text.take(i - pos + 1);
            assert(longer.drop_last() =~= text.take(i - pos));
            assert(longer.last() == byte);
            assert(digits_value(longer) == value * 10 + digit);
        }
        if max < digit || value > (max - digit) / 10 {
            proof {
                let longer = text.take(i - pos + 1);
                assert(digits_value(longer) > max);
                lemma_digit_count_prefix(text, i - pos + 1);
                lemma_digit_count_bound(text);
                let count = digit_count(text) as int;
                let digits = text.take(count);
                assert forall|j: int| 0 <= j < digits.len() implies is_digit(
                    #[trigger] digits[j],
                ) by {
                    assert(digits[j] == text[j]);
                }
                lemma_digits_value_grows(digits, i - pos + 1);
                assert(digits.take(i - pos + 1) =~= longer);
            }
            return None;
        }
        value = value * 10 + digit;
        i = i + 1;
    }
    proof {
        if i < n {
            assert(text[i - pos] == input@[i as int]);
        }
        lemma_digit_count_prefix(text, i - pos);
        assert(text.skip(i - pos) =~= input@.skip(i as int));
    }
    if i == pos {
        return None;
    }
    if i - pos > 1 && input[pos] == 48 {
        return None;
    }
    Some((value, i))
}

} // verus!
