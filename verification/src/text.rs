//! Text assembly for the messages that errors carry.
use vstd::prelude::*;

verus! {

/// The decimal digit that stands for `digit`.
pub open spec fn decimal_digit(digit: nat) -> char {
    if digit == 0 {
        '0'
    } else if digit == 1 {
        '1'
    } else if digit == 2 {
        '2'
    } else if digit == 3 {
        '3'
    } else if digit == 4 {
        '4'
    } else if digit == 5 {
        '5'
    } else if digit == 6 {
        '6'
    } else if digit == 7 {
        '7'
    } else if digit == 8 {
        '8'
    } else {
        '9'
    }
}

/// `value` written in decimal, without leading zeros.
pub open spec fn decimal(value: nat) -> Seq<char>
    decreases value,
{
    if value < 10 {
        seq![decimal_digit(value)]
    } else {
        decimal(value / 10).push(decimal_digit(value % 10))
    }
}

/// The lower-case hexadecimal digit that stands for `digit`.
pub open spec fn hex_digit(digit: nat) -> char {
    if digit < 10 {
        decimal_digit(digit)
    } else if digit == 10 {
        'a'
    } else if digit == 11 {
        'b'
    } else if digit == 12 {
        'c'
    } else if digit == 13 {
        'd'
    } else if digit == 14 {
        'e'
    } else {
        'f'
    }
}

/// The low `width` hexadecimal digits of `value`, most significant first.
pub open spec fn hex(value: nat, width: nat) -> Seq<char>
    decreases width,
{
    if width == 0 {
        Seq::empty()
    } else {
        hex(value / 16, (width - 1) as nat).push(hex_digit(value % 16))
    }
}

fn decimal_digit_text(digit: u64) -> (text: &'static str)
    requires
        digit < 10,
    ensures
        text@ == seq![decimal_digit(digit as nat)],
{
    proof {
        reveal_strlit("0");
        reveal_strlit("1");
        reveal_strlit("2");
        reveal_strlit("3");
        reveal_strlit("4");
        reveal_strlit("5");
        reveal_strlit("6");
        reveal_strlit("7");
        reveal_strlit("8");
        reveal_strlit("9");
    }
    if digit == 0 {
        "0"
    } else if digit == 1 {
        "1"
    } else if digit == 2 {
        "2"
    } else if digit == 3 {
        "3"
    } else if digit == 4 {
        "4"
    } else if digit == 5 {
        "5"
    } else if digit == 6 {
        "6"
    } else if digit == 7 {
        "7"
    } else if digit == 8 {
        "8"
    } else {
        "9"
    }
}

fn hex_digit_text(digit: u64) -> (text: &'static str)
    requires
        digit < 16,
    ensures
        text@ == seq![hex_digit(digit as nat)],
{
    proof {
        reveal_strlit("a");
        reveal_strlit("b");
        reveal_strlit("c");
        reveal_strlit("d");
        reveal_strlit("e");
        reveal_strlit("f");
    }
    if digit < 10 {
        decimal_digit_text(digit)
    } else if digit == 10 {
        "a"
    } else if digit == 11 {
        "b"
    } else if digit == 12 {
        "c"
    } else if digit == 13 {
        "d"
    } else if digit == 14 {
        "e"
    } else {
        "f"
    }
}

/// Writes `value` in decimal.
pub fn decimal_text(value: u64) -> (text: String)
    ensures
        text@ == decimal(value as nat),
    decreases value,
{
    if value < 10 {
        decimal_digit_text(value).to_owned()
    } else {
        let mut text = decimal_text(value / 10);
        text.append(decimal_digit_text(value % 10));
        proof {
            assert(decimal((value / 10) as nat) + seq![decimal_digit((value % 10) as nat)]
                =~= decimal((value / 10) as nat).push(decimal_digit((value % 10) as nat)));
        }
        text
    }
}

/// Writes the low `width` hexadecimal digits of `value`.
pub fn hex_text(value: u64, width: u64) -> (text: String)
    ensures
        text@ == hex(value as nat, width as nat),
    decreases width,
{
    if width == 0 {
        String::new()
    } else {
        let mut text = hex_text(value / 16, width - 1);
        text.append(hex_digit_text(value % 16));
        proof {
            assert(hex((value / 16) as nat, (width - 1) as nat)
                + seq![hex_digit((value % 16) as nat)]
                =~= hex((value / 16) as nat, (width - 1) as nat).push(
                hex_digit((value % 16) as nat),
            ));
        }
        text
    }
}

/// `first` followed by `second`.
pub fn joined(first: &str, second: &str) -> (text: String)
    ensures
        text@ == first@ + second@,
{
    let mut text = first.to_owned();
    text.append(second);
    text
}

/// `first`, `second` and `third`, one after the other.
pub fn joined3(first: &str, second: &str, third: &str) -> (text: String)
    ensures
        text@ == first@ + second@ + third@,
{
    let mut text = joined(first, second);
    text.append(third);
    text
}

/// Whether `text` begins with `prefix`.
pub fn starts_with(text: &str, prefix: &str) -> (starts: bool)
    ensures
        starts == prefix@.is_prefix_of(text@),
{
    let length: usize = prefix.unicode_len();
    if length > text.unicode_len() {
        return false;
    }
    let mut i: usize = 0;
    while i < length
        invariant
            i <= length,
            length == prefix@.len(),
            length <= text@.len(),
            forall|j: int| 0 <= j < i ==> prefix@[j] == text@[j],
        decreases length - i,
    {
        if prefix.get_char(i) != text.get_char(i) {
            assert(text@.subrange(0, length as int)[i as int] != prefix@[i as int]);
            return false;
        }
        i = i + 1;
    }
    assert(prefix@ =~= text@.subrange(0, length as int));
    true
}

/// The number that a text of decimal digits reads as.
pub open spec fn decimal_reading(text: Seq<char>) -> int
    decreases text.len(),
{
    if text.len() == 0 {
        0
    } else {
        decimal_reading(text.drop_last()) * 10 + (text.last() as int - '0' as int)
    }
}

/// A number that was written in decimal reads back as itself: it has digits
/// only, and no zero before them.
pub proof fn law_a_decimal_reads_back(value: nat)
    ensures
        decimal_reading(decimal(value)) == value,
        decimal(value).len() > 0,
        forall|i: int|
            0 <= i < decimal(value).len() ==> '0' as int <= (#[trigger] decimal(value)[i]) as int
                <= '9' as int,
        decimal(value).len() > 1 ==> decimal(value)[0] != '0',
    decreases value,
{
    let text = decimal(value);
    if value < 10 {
        assert(text.drop_last() =~= Seq::<char>::empty());
        assert(text.last() as int - '0' as int == value);
        assert(decimal_reading(text.drop_last()) == 0);
    } else {
        law_a_decimal_reads_back(value / 10);
        let before = decimal(value / 10);
        let digit = decimal_digit(value % 10);
        assert(text =~= before.push(digit));
        assert(text.drop_last() =~= before);
        assert(digit as int - '0' as int == value % 10);
        assert(text[0] == before[0]);
        if value / 10 < 10 {
            assert(before =~= seq![decimal_digit(value / 10)]);
            assert(value / 10 > 0);
        } else {
            assert(before.len() > 1) by {
                law_a_decimal_reads_back(value / 100);
                assert(value / 10 / 10 == value / 100);
                assert(before =~= decimal(value / 10 / 10).push(decimal_digit(value / 10 % 10)));
            }
        }
        assert forall|i: int| 0 <= i < text.len() implies '0' as int <= (#[trigger] text[i]) as int
            <= '9' as int by {
            if i < before.len() {
                assert(text[i] == before[i]);
            }
        }
    }
}

/// The number that a hexadecimal digit stands for.
pub open spec fn hex_digit_reading(digit: char) -> int {
    if digit as int <= '9' as int {
        digit as int - '0' as int
    } else {
        digit as int - 'a' as int + 10
    }
}

/// The number that a text of hexadecimal digits reads as.
pub open spec fn hex_reading(text: Seq<char>) -> int
    decreases text.len(),
{
    if text.len() == 0 {
        0
    } else {
        hex_reading(text.drop_last()) * 16 + hex_digit_reading(text.last())
    }
}

/// How many numbers have this many hexadecimal digits.
pub open spec fn hex_range(width: nat) -> nat
    decreases width,
{
    if width == 0 {
        1
    } else {
        16 * hex_range((width - 1) as nat)
    }
}

/// A number that was written in as many hexadecimal digits as it needs, or
/// more, has exactly that many, and reads back as itself.
pub proof fn law_a_hexadecimal_reads_back(value: nat, width: nat)
    ensures
        hex(value, width).len() == width,
        value < hex_range(width) ==> hex_reading(hex(value, width)) == value,
    decreases width,
{
    let text = hex(value, width);
    if width > 0 {
        let shorter = (width - 1) as nat;
        law_a_hexadecimal_reads_back(value / 16, shorter);
        let before = hex(value / 16, shorter);
        let digit = hex_digit(value % 16);
        assert(text =~= before.push(digit));
        assert(text.drop_last() =~= before);
        assert(hex_digit_reading(digit) == value % 16);
    }
}

} // verus!
