//! Text rendering of numbers for diagnostic messages.

use vstd::prelude::*;

verus! {

/// The upper-case hexadecimal digit of a value below sixteen.
pub open spec fn hex_digit_spec(d: int) -> char {
    if d < 10 {
        ('0' as int + d) as char
    } else {
        ('A' as int + d - 10) as char
    }
}

/// Eight upper-case hexadecimal digits, most significant first.
pub open spec fn hex8_spec(v: u32) -> Seq<char> {
    Seq::new(8, |i: int| hex_digit_spec(nibble_spec(v, i)))
}

/// The `i`-th hexadecimal digit from the left, as a number.
pub open spec fn nibble_spec(v: u32, i: int) -> int {
    ((v >> ((28 - 4 * i) as u32)) & 0xF) as int
}

/// Decimal digits without leading zeros, most significant first.
pub open spec fn decimal_spec(n: nat) -> Seq<char>
    decreases n,
{
    if n < 10 {
        seq![hex_digit_spec(n as int)]
    } else {
        decimal_spec(n / 10).push(hex_digit_spec((n % 10) as int))
    }
}

/// One-digit text of a value below sixteen.
fn digit_text(d: u32) -> (r: &'static str)
    requires
        d < 16,
    ensures
        r@ == seq![hex_digit_spec(d as int)],
{
    proof {
        reveal_strlit("0");
        reveal_strlit("1");
        reveal_strlit("2");
        reveal_strlit("3");
        reveal_strlit("4");
        reveal_strlit("5");
        reveal_strlit("6");
        reveal_strlit("7");
        reveal_strlit("8");
        reveal_strlit("9");
        reveal_strlit("A");
        reveal_strlit("B");
        reveal_strlit("C");
        reveal_strlit("D");
        reveal_strlit("E");
        reveal_strlit("F");
    }
    match d {
        0 => "0",
        1 => "1",
        2 => "2",
        3 => "3",
        4 => "4",
        5 => "5",
        6 => "6",
        7 => "7",
        8 => "8",
        9 => "9",
        10 => "A",
        11 => "B",
        12 => "C",
        13 => "D",
        14 => "E",
        _ => "F",
    }
}

/// Render eight upper-case hexadecimal digits.
pub fn hex8(v: u32) -> (r: String)
    ensures
        r@ == hex8_spec(v),
{
    let mut text = String::new();
    let mut i: u32 = 0;
    while i < 8
        invariant
            i <= 8,
            text@ == hex8_spec(v).take(i as int),
        decreases 8 - i,
    {
        let shift: u32 = 28 - 4 * i;
        let d: u32 = (v >> shift) & 0xF;
        assert(d < 16) by (bit_vector)
            requires
                d == (v >> shift) & 0xF,
        ;
        text.append(digit_text(d));
        i += 1;
        assert(text@ =~= hex8_spec(v).take(i as int));
    }
    assert(hex8_spec(v).take(8) =~= hex8_spec(v));
    text
}

/// Render a number in decimal.
pub fn decimal_u64(n: u64) -> (r: String)
    ensures
        r@ == decimal_spec(n as nat),
    decreases n,
{
    if n < 10 {
        digit_text(n as u32).to_owned()
    } else {
        let mut text = decimal_u64(n / 10);
        text.append(digit_text((n % 10) as u32));
        assert(text@ =~= decimal_spec(n as nat));
        text
    }
}

/// Render a count in decimal.
pub fn decimal(n: usize) -> (r: String)
    ensures
        r@ == decimal_spec(n as nat),
{
    decimal_u64(n as u64)
}

/// The lower-case hexadecimal digit of a value below sixteen.
pub open spec fn lower_hex_digit_spec(d: int) -> char {
    if d < 10 {
        ('0' as int + d) as char
    } else {
        ('a' as int + d - 10) as char
    }
}

/// Lower-case hexadecimal digits without leading zeros, most significant first.
pub open spec fn lower_hex_spec(n: nat) -> Seq<char>
    decreases n,
{
    if n < 16 {
        seq![lower_hex_digit_spec(n as int)]
    } else {
        lower_hex_spec(n / 16).push(lower_hex_digit_spec((n % 16) as int))
    }
}

/// One-digit lower-case text of a value below sixteen.
fn lower_digit_text(d: u32) -> (r: &'static str)
    requires
        d < 16,
    ensures
        r@ == seq![lower_hex_digit_spec(d as int)],
{
    proof {
        reveal_strlit("a");
        reveal_strlit("b");
        reveal_strlit("c");
        reveal_strlit("d");
        reveal_strlit("e");
        reveal_strlit("f");
    }
    match d {
        10 => "a",
        11 => "b",
        12 => "c",
        13 => "d",
        14 => "e",
        15 => "f",
        _ => digit_text(d),
    }
}

/// Render a number in lower-case hexadecimal.
pub fn lower_hex(n: usize) -> (r: String)
    ensures
        r@ == lower_hex_spec(n as nat),
    decreases n,
{
    if n < 16 {
        lower_digit_text(n as u32).to_owned()
    } else {
        let mut text = lower_hex(n / 16);
        text.append(lower_digit_text((n % 16) as u32));
        assert(text@ =~= lower_hex_spec(n as nat));
        text
    }
}

/// The text of a truth value.
pub open spec fn bool_spec(value: bool) -> Seq<char> {
    if value {
        "true"@
    } else {
        "false"@
    }
}

/// Render a truth value.
pub fn bool_text(value: bool) -> (r: &'static str)
    ensures
        r@ == bool_spec(value),
{
    if value {
        "true"
    } else {
        "false"
    }
}

/// Numbers in decimal, with a comma and a space between them.
pub open spec fn byte_items_spec(bytes: Seq<u8>) -> Seq<char>
    decreases bytes.len(),
{
    if bytes.len() == 0 {
        Seq::empty()
    } else if bytes.len() == 1 {
        decimal_spec(bytes[0] as nat)
    } else {
        byte_items_spec(bytes.drop_last()) + ", "@ + decimal_spec(bytes.last() as nat)
    }
}

/// A bracketed list of numbers.
pub open spec fn byte_list_spec(bytes: Seq<u8>) -> Seq<char> {
    "["@ + byte_items_spec(bytes) + "]"@
}

/// Render bytes as a bracketed list of numbers.
pub fn byte_list(bytes: &[u8]) -> (r: String)
    ensures
        r@ == byte_list_spec(bytes@),
{
    let mut text = "[".to_owned();
    let mut i: usize = 0;
    assert(text@ =~= "["@ + byte_items_spec(bytes@.take(0)));
    while i < bytes.len()
        invariant
            i <= bytes@.len(),
            text@ == "["@ + byte_items_spec(bytes@.take(i as int)),
        decreases bytes@.len() - i,
    {
        assert(bytes@.take(i + 1).drop_last() =~= bytes@.take(i as int));
        assert(bytes@.take(i + 1).last() == bytes@[i as int]);
        if i > 0 {
            text.append(", ");
        }
        text.append(decimal(bytes[i] as usize).as_str());
        assert(text@ =~= "["@ + byte_items_spec(bytes@.take(i + 1)));
        i += 1;
    }
    assert(bytes@.take(i as int) =~= bytes@);
    text.append("]");
    text
}

/// The number that decimal digits spell.
pub open spec fn decimal_value(digits: Seq<char>) -> int
    decreases digits.len(),
{
    if digits.len() == 0 {
        0
    } else {
        10 * decimal_value(digits.drop_last()) + (digits.last() as int - '0' as int)
    }
}

/// The number that hexadecimal digits spell, with `ten` as the digit for ten.
pub open spec fn hex_value(digits: Seq<char>, ten: char) -> int
    decreases digits.len(),
{
    if digits.len() == 0 {
        0
    } else {
        let last = digits.last();
        16 * hex_value(digits.drop_last(), ten) + if last <= '9' {
            last as int - '0' as int
        } else {
            last as int - ten as int + 10
        }
    }
}

/// The decimal text of a number spells that number, in digits alone and without
/// leading zeros.
pub proof fn law_decimal_text_spells_the_number(n: nat)
    ensures
        decimal_value(decimal_spec(n)) == n,
        decimal_spec(n).len() > 0,
        forall|i: int| 0 <= i < decimal_spec(n).len() ==> '0' <= #[trigger] decimal_spec(n)[i] <= '9',
        n > 0 ==> decimal_spec(n)[0] != '0',
    decreases n,
{
    let text = decimal_spec(n);
    if n < 10 {
        reveal_with_fuel(decimal_value, 2);
        assert(text.drop_last() =~= Seq::empty());
        assert(text.last() == hex_digit_spec(n as int));
    } else {
        law_decimal_text_spells_the_number(n / 10);
        assert(text.drop_last() =~= decimal_spec(n / 10));
        assert(text.last() == hex_digit_spec((n % 10) as int));
        assert(text[0] == decimal_spec(n / 10)[0]);
    }
}

/// The lower-case hexadecimal text of a number spells that number, without
/// leading zeros.
pub proof fn law_lower_hex_text_spells_the_number(n: nat)
    ensures
        hex_value(lower_hex_spec(n), 'a') == n,
        lower_hex_spec(n).len() > 0,
        forall|i: int|
            0 <= i < lower_hex_spec(n).len() ==> {
                ||| '0' <= #[trigger] lower_hex_spec(n)[i] <= '9'
                ||| 'a' <= lower_hex_spec(n)[i] <= 'f'
            },
        n > 0 ==> lower_hex_spec(n)[0] != '0',
    decreases n,
{
    let text = lower_hex_spec(n);
    if n < 16 {
        reveal_with_fuel(hex_value, 2);
        assert(text.drop_last() =~= Seq::empty());
        assert(text.last() == lower_hex_digit_spec(n as int));
    } else {
        law_lower_hex_text_spells_the_number(n / 16);
        assert(text.drop_last() =~= lower_hex_spec(n / 16));
        assert(text.last() == lower_hex_digit_spec((n % 16) as int));
        assert(text[0] == lower_hex_spec(n / 16)[0]);
    }
}

/// Eight-digit hexadecimal text spells its number, in upper-case digits.
pub proof fn law_hex8_text_spells_the_number(v: u32)
    ensures
        hex8_spec(v).len() == 8,
        hex_value(hex8_spec(v), 'A') == v,
        forall|i: int|
            0 <= i < 8 ==> {
                ||| '0' <= #[trigger] hex8_spec(v)[i] <= '9'
                ||| 'A' <= hex8_spec(v)[i] <= 'F'
            },
{
    let text = hex8_spec(v);
    lemma_hex8_prefix(v, 8);
    assert(text.take(8) =~= text);
    assert(v >> 0 == v) by (bit_vector);
    assert forall|i: int| 0 <= i < 8 implies {
        ||| '0' <= #[trigger] text[i] <= '9'
        ||| 'A' <= text[i] <= 'F'
    } by {
        let shift: u32 = (28 - 4 * i) as u32;
        assert((v >> shift) & 0xF < 16) by (bit_vector);
    }
}

/// The first digits of an eight-digit text spell the high bits of the number.
proof fn lemma_hex8_prefix(v: u32, k: int)
    requires
        0 <= k <= 8,
    ensures
        k == 0 ==> hex_value(hex8_spec(v).take(k), 'A') == 0,
        k > 0 ==> hex_value(hex8_spec(v).take(k), 'A') == v >> ((32 - 4 * k) as u32),
    decreases k,
{
    let text = hex8_spec(v).take(k);
    if k > 0 {
        lemma_hex8_prefix(v, k - 1);
        let shift: u32 = (32 - 4 * k) as u32;
        let above: u32 = (36 - 4 * k) as u32;
        assert(text.drop_last() =~= hex8_spec(v).take(k - 1));
        assert(text.last() == hex_digit_spec(nibble_spec(v, k - 1)));
        assert((v >> shift) & 0xF < 16) by (bit_vector);
        if k == 1 {
            assert((v >> 28) & 0xF == v >> 28) by (bit_vector);
        } else {
            assert(16 * (v >> above) + ((v >> shift) & 0xF) == v >> shift) by (bit_vector)
                requires
                    above == shift + 4,
                    shift <= 24,
            ;
        }
    }
}

/// Truth values read as the words for them.
pub proof fn law_truth_values_read_as_words()
    ensures
        bool_spec(true) == "true"@,
        bool_spec(false) == "false"@,
{
}

/// A list of bytes stands in brackets. Each byte that is added comes last, in
/// decimal, after a comma and a space where there are others before it.
pub proof fn law_byte_lists_grow_at_the_end(bytes: Seq<u8>, byte: u8)
    ensures
        byte_items_spec(Seq::<u8>::empty()).len() == 0,
        bytes.len() == 0 ==> byte_items_spec(bytes.push(byte)) == decimal_spec(byte as nat),
        bytes.len() > 0 ==> byte_items_spec(bytes.push(byte)) == byte_items_spec(bytes) + ", "@
            + decimal_spec(byte as nat),
        byte_list_spec(bytes) == "["@ + byte_items_spec(bytes) + "]"@,
{
    assert(bytes.push(byte).drop_last() =~= bytes);
}

} // verus!
