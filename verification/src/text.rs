//! Text for the serial link, built in buffers of fixed size so that no line
//! costs an allocation: the line buffer itself, unsigned decimal and
//! two-digit lower-case hexadecimal.

use vstd::prelude::*;
use vstd::slice::slice_subrange;

verus! {

/// The most bytes a line can hold.
pub const LINE_CAPACITY: usize = 1026;

/// The longest decimal text of a 32-bit number.
pub const DECIMAL_WIDTH: usize = 10;

/// One line of text, as the bytes that go over the link.
#[derive(Clone, Copy, Debug, PartialEq, Eq)]
pub struct Line {
    bytes: [u8; LINE_CAPACITY],
    len: usize,
}

impl Line {
    #[verifier::type_invariant]
    spec fn len_in_range(self) -> bool {
        self.len <= LINE_CAPACITY
    }

    /// The bytes of the line.
    pub closed spec fn content(self) -> Seq<u8> {
        self.bytes@.subrange(0, self.len as int)
    }

    /// How many bytes the line has.
    pub fn len(&self) -> (len: usize)
        ensures
            len == self.content().len(),
            len <= LINE_CAPACITY,
    {
        proof {
            use_type_invariant(self);
        }
        self.len
    }

    /// The bytes of the line.
    pub fn as_bytes(&self) -> (bytes: &[u8])
        ensures
            bytes@ == self.content(),
    {
        proof {
            use_type_invariant(self);
        }
        slice_subrange(self.bytes.as_slice(), 0, self.len)
    }
}

/// The byte for one decimal digit.
pub open spec fn digit(value: nat) -> u8
    recommends
        value < 10,
{
    (48 + value) as u8
}

/// The number that a decimal digit stands for.
pub open spec fn digit_value(byte: u8) -> nat {
    (byte - 48) as nat
}

/// A number in decimal, without sign and without leading zeros.
pub open spec fn decimal(value: nat) -> Seq<u8>
    decreases value,
{
    if value < 10 {
        seq![digit(value)]
    } else {
        decimal(value / 10).push(digit(value % 10))
    }
}

/// The number that a run of decimal digits stands for.
pub open spec fn decimal_value(digits: Seq<u8>) -> nat
    decreases digits.len(),
{
    if digits.len() == 0 {
        0
    } else {
        decimal_value(digits.drop_last()) * 10 + digit_value(digits.last())
    }
}

/// Ten to the power of `exponent`.
pub open spec fn power_of_ten(exponent: nat) -> nat
    decreases exponent,
{
    if exponent == 0 {
        1
    } else {
        10 * power_of_ten((exponent - 1) as nat)
    }
}

/// The byte for one hexadecimal digit, in lower case.
pub open spec fn hex_digit(value: nat) -> u8
    recommends
        value < 16,
{
    if value < 10 {
        (48 + value) as u8
    } else {
        (87 + value) as u8
    }
}

/// A byte as two lower-case hexadecimal digits, the high one first.
pub open spec fn hex_pair(byte: u8) -> Seq<u8> {
    seq![hex_digit(byte as nat / 16), hex_digit(byte as nat % 16)]
}

/// The number that a lower-case hexadecimal digit stands for.
pub open spec fn hex_digit_value(byte: u8) -> nat {
    if byte <= 57 {
        (byte - 48) as nat
    } else {
        (byte - 87) as nat
    }
}

/// The decimal text of a number is made of the digits `0` to `9` only,
/// starts with a zero only for zero itself, and reads back as the number.
pub proof fn lemma_decimal_reads_back(value: nat)
    ensures
        decimal(value).len() >= 1,
        forall|i: int| 0 <= i < decimal(value).len() ==> 48 <= #[trigger] decimal(value)[i] <= 57,
        decimal(value)[0] == 48 <==> value == 0,
        decimal_value(decimal(value)) == value,
    decreases value,
{
    if value < 10 {
        let text = decimal(value);
        assert(text.drop_last() =~= Seq::<u8>::empty());
        assert(decimal_value(text.drop_last()) == 0);
    } else {
        lemma_decimal_reads_back(value / 10);
        let head = decimal(value / 10);
        let text = decimal(value);
        assert(text.drop_last() =~= head);
        assert(text[0] == head[0]);
    }
}

/// Two numbers with the same decimal text are the same number.
pub proof fn lemma_decimal_is_injective(a: nat, b: nat)
    requires
        decimal(a) == decimal(b),
    ensures
        a == b,
{
    lemma_decimal_reads_back(a);
    lemma_decimal_reads_back(b);
}

/// A number below ten to the power of `digits` has at most `digits`
/// decimal digits.
pub proof fn lemma_decimal_len(value: nat, digits: nat)
    requires
        digits >= 1,
        value < power_of_ten(digits),
    ensures
        1 <= decimal(value).len() <= digits,
    decreases digits,
{
    if value >= 10 {
        if digits == 1 {
            assert(power_of_ten(1) == 10) by {
                reveal_with_fuel(power_of_ten, 2);
            }
        } else {
            lemma_decimal_len(value / 10, (digits - 1) as nat);
        }
    }
}

/// The decimal text of a 32-bit number has at most `DECIMAL_WIDTH` bytes.
pub proof fn lemma_decimal_width(value: u32)
    ensures
        1 <= decimal(value as nat).len() <= DECIMAL_WIDTH,
{
    assert(power_of_ten(10) == 10_000_000_000nat) by {
        reveal_with_fuel(power_of_ten, 11);
    }
    lemma_decimal_len(value as nat, 10);
}

/// The two digits of a byte are among `0` to `9` and `a` to `f`, and read
/// back as the byte.
pub proof fn lemma_hex_pair_reads_back(byte: u8)
    ensures
        hex_pair(byte).len() == 2,
        forall|i: int|
            0 <= i < 2 ==> {
                let digit = #[trigger] hex_pair(byte)[i];
                48 <= digit <= 57 || 97 <= digit <= 102
            },
        hex_digit_value(hex_pair(byte)[0]) * 16 + hex_digit_value(hex_pair(byte)[1]) == byte,
{
}

/// A line in the making: what has been written so far, and the room that
/// is left.
pub(crate) struct Draft {
    bytes: [u8; LINE_CAPACITY],
    len: usize,
}

impl Draft {
    /// What has been written so far.
    pub(crate) closed spec fn text(self) -> Seq<u8> {
        self.bytes@.subrange(0, self.len as int)
    }

    /// How many more bytes can be written.
    pub(crate) closed spec fn room(self) -> int {
        LINE_CAPACITY - self.len
    }

    /// An empty draft.
    pub(crate) fn new() -> (draft: Self)
        ensures
            draft.text() == Seq::<u8>::empty(),
            draft.room() == LINE_CAPACITY,
    {
        let draft = Draft { bytes: [0u8; LINE_CAPACITY], len: 0 };
        assert(draft.bytes@.subrange(0, 0) =~= Seq::<u8>::empty());
        draft
    }

    /// Writes one byte.
    pub(crate) fn push(&mut self, byte: u8)
        requires
            old(self).room() >= 1,
        ensures
            final(self).text() == old(self).text().push(byte),
            final(self).room() == old(self).room() - 1,
    {
        let at: usize = self.len;
        self.bytes[at] = byte;
        self.len = at + 1;
        assert(self.bytes@.subrange(0, at + 1) =~= old(self).bytes@.subrange(0, at as int).push(
            byte,
        ));
    }

    /// Writes all of `piece`.
    pub(crate) fn extend(&mut self, piece: &[u8])
        requires
            old(self).room() >= piece.len(),
        ensures
            final(self).text() == old(self).text() + piece@,
            final(self).room() == old(self).room() - piece.len(),
    {
        let mut done: usize = 0;
        assert(self.text() =~= old(self).text() + piece@.subrange(0, 0));
        while done < piece.len()
            invariant
                done <= piece.len(),
                self.room() == old(self).room() - done,
                old(self).room() >= piece.len(),
                self.text() == old(self).text() + piece@.subrange(0, done as int),
            decreases piece.len() - done,
        {
            let ghost before = self.text();
            self.push(piece[done]);
            assert(before.push(piece@[done as int]) =~= old(self).text() + piece@.subrange(
                0,
                done + 1,
            ));
            done += 1;
        }
        assert(piece@.subrange(0, piece.len() as int) =~= piece@);
    }

    /// Writes `value` in decimal.
    pub(crate) fn decimal(&mut self, value: u32)
        requires
            old(self).room() >= decimal(value as nat).len(),
        ensures
            final(self).text() == old(self).text() + decimal(value as nat),
            final(self).room() == old(self).room() - decimal(value as nat).len(),
        decreases value,
    {
        let low: u8 = 48u8 + ((value % 10) as u8);
        if value >= 10 {
            self.decimal(value / 10);
            let ghost head = self.text();
            self.push(low);
            assert(head.push(low) =~= old(self).text() + decimal(value as nat));
        } else {
            self.push(low);
            assert(old(self).text().push(low) =~= old(self).text() + decimal(value as nat));
        }
    }

    /// Writes `byte` as two lower-case hexadecimal digits.
    pub(crate) fn hex_pair(&mut self, byte: u8)
        requires
            old(self).room() >= 2,
        ensures
            final(self).text() == old(self).text() + hex_pair(byte),
            final(self).room() == old(self).room() - 2,
    {
        let high: u8 = byte / 16;
        let low: u8 = byte % 16;
        let first: u8 = if high < 10 {
            48u8 + high
        } else {
            87u8 + high
        };
        let second: u8 = if low < 10 {
            48u8 + low
        } else {
            87u8 + low
        };
        self.push(first);
        self.push(second);
        assert(old(self).text().push(first).push(second) =~= old(self).text() + hex_pair(byte));
    }

    /// The line that has been written.
    pub(crate) fn finish(self) -> (line: Line)
        requires
            self.room() >= 0,
        ensures
            line.content() == self.text(),
    {
        Line { bytes: self.bytes, len: self.len }
    }
}

} // verus!
