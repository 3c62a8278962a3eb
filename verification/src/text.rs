//! Decimal and hexadecimal rendering of integers and bytes, and joining of
//! texts with a separator.
use vstd::prelude::*;

verus! {

/// The character of a digit value below sixteen, in lower-case hexadecimal
/// (the decimal digits are the first ten of them).
pub open spec fn digit_char(d: int) -> char {
    if d == 0 {
        '0'
    } else if d == 1 {
        '1'
    } else if d == 2 {
        '2'
    } else if d == 3 {
        '3'
    } else if d == 4 {
        '4'
    } else if d == 5 {
        '5'
    } else if d == 6 {
        '6'
    } else if d == 7 {
        '7'
    } else if d == 8 {
        '8'
    } else if d == 9 {
        '9'
    } else if d == 10 {
        'a'
    } else if d == 11 {
        'b'
    } else if d == 12 {
        'c'
    } else if d == 13 {
        'd'
    } else if d == 14 {
        'e'
    } else {
        'f'
    }
}

/// The value of a lower-case hexadecimal digit (the inverse of `digit_char`).
pub open spec fn digit_value(c: char) -> int {
    if c == '0' {
        0
    } else if c == '1' {
        1
    } else if c == '2' {
        2
    } else if c == '3' {
        3
    } else if c == '4' {
        4
    } else if c == '5' {
        5
    } else if c == '6' {
        6
    } else if c == '7' {
        7
    } else if c == '8' {
        8
    } else if c == '9' {
        9
    } else if c == 'a' {
        10
    } else if c == 'b' {
        11
    } else if c == 'c' {
        12
    } else if c == 'd' {
        13
    } else if c == 'e' {
        14
    } else {
        15
    }
}

/// The decimal representation of `n`, without leading zeros ("0" for zero),
/// as `{}` prints an unsigned integer.
pub open spec fn decimal(n: nat) -> Seq<char>
    decreases n,
{
    if n < 10 {
        seq![digit_char(n as int)]
    } else {
        decimal(n / 10).push(digit_char((n % 10) as int))
    }
}

/// Ten to the power `e`.
pub open spec fn pow10(e: nat) -> nat
    decreases e,
{
    if e == 0 {
        1
    } else {
        10 * pow10((e - 1) as nat)
    }
}

/// A byte as two lower-case hexadecimal digits, as `{:02x}` prints it.
pub open spec fn hex_byte(b: u8) -> Seq<char> {
    seq![digit_char(b as int / 16), digit_char(b as int % 16)]
}

/// The bytes, each as two lower-case hexadecimal digits, in order.
pub open spec fn hex_text(bytes: Seq<u8>) -> Seq<char>
    decreases bytes.len(),
{
    if bytes.len() == 0 {
        Seq::empty()
    } else {
        hex_text(bytes.drop_last()) + hex_byte(bytes.last())
    }
}

/// Reads a text of hexadecimal digit pairs back into bytes.
pub open spec fn hex_decode(text: Seq<char>) -> Seq<u8>
    decreases text.len(),
{
    if text.len() < 2 {
        Seq::empty()
    } else {
        hex_decode(text.take(text.len() - 2)).push(
            (digit_value(text[text.len() - 2]) * 16 + digit_value(text[text.len() - 1])) as u8,
        )
    }
}

/// The items, in order, with `sep` between each two of them.
pub open spec fn join(items: Seq<Seq<char>>, sep: Seq<char>) -> Seq<char>
    decreases items.len(),
{
    if items.len() == 0 {
        Seq::empty()
    } else if items.len() == 1 {
        items[0]
    } else {
        join(items.drop_last(), sep) + sep + items.last()
    }
}

/// Appends the digit `d` (below sixteen) as `digit_char` writes it.
pub fn push_digit(s: &mut String, d: u64)
    requires
        d < 16,
    ensures
        final(s)@ == old(s)@.push(digit_char(d as int)),
{
    let t: &str = if d == 0 {
        proof { reveal_strlit("0"); }
        "0"
    } else if d == 1 {
        proof { reveal_strlit("1"); }
        "1"
    } else if d == 2 {
        proof { reveal_strlit("2"); }
        "2"
    } else if d == 3 {
        proof { reveal_strlit("3"); }
        "3"
    } else if d == 4 {
        proof { reveal_strlit("4"); }
        "4"
    } else if d == 5 {
        proof { reveal_strlit("5"); }
        "5"
    } else if d == 6 {
        proof { reveal_strlit("6"); }
        "6"
    } else if d == 7 {
        proof { reveal_strlit("7"); }
        "7"
    } else if d == 8 {
        proof { reveal_strlit("8"); }
        "8"
    } else if d == 9 {
        proof { reveal_strlit("9"); }
        "9"
    } else if d == 10 {
        proof { reveal_strlit("a"); }
        "a"
    } else if d == 11 {
        proof { reveal_strlit("b"); }
        "b"
    } else if d == 12 {
        proof { reveal_strlit("c"); }
        "c"
    } else if d == 13 {
        proof { reveal_strlit("d"); }
        "d"
    } else if d == 14 {
        proof { reveal_strlit("e"); }
        "e"
    } else {
        proof { reveal_strlit("f"); }
        "f"
    };
    assert(t@ =~= seq![digit_char(d as int)]);
    s.append(t);
    assert(s@ =~= old(s)@.push(digit_char(d as int)));
}

/// Appends the decimal representation of `n`.
pub fn push_decimal(s: &mut String, n: u64)
    ensures
        final(s)@ == old(s)@ + decimal(n as nat),
    decreases n,
{
    if n >= 10 {
        push_decimal(s, n / 10);
    }
    push_digit(s, n % 10);
    assert(s@ =~= old(s)@ + decimal(n as nat));
}

/// The decimal representation of `n`, as `n.to_string()` gives it.
pub fn decimal_text(n: u64) -> (s: String)
    ensures
        s@ == decimal(n as nat),
{
    let mut s = String::new();
    push_decimal(&mut s, n);
    assert(s@ =~= decimal(n as nat));
    s
}

/// The bytes as lower-case hexadecimal, two digits for each byte, as the
/// concatenation of `format!("{:02x}", b)` over the bytes gives it.
pub fn to_hex(bytes: &[u8]) -> (s: String)
    ensures
        s@ == hex_text(bytes@),
{
    let mut s = String::new();
    let n = bytes.len();
    for i in 0..n
        invariant
            n == bytes@.len(),
            s@ == hex_text(bytes@.take(i as int)),
    {
        let b = bytes[i];
        push_digit(&mut s, (b / 16) as u64);
        push_digit(&mut s, (b % 16) as u64);
        assert(bytes@.take(i + 1).drop_last() =~= bytes@.take(i as int));
        assert(s@ =~= hex_text(bytes@.take(i + 1)));
    }
    assert(bytes@.take(n as int) =~= bytes@);
    s
}

/// The texts in order, with `sep` between each two of them, as
/// `items.join(sep)` gives it.
pub fn join_texts(items: &Vec<&str>, sep: &str) -> (s: String)
    ensures
        s@ == join(items@.map_values(|t: &str| t@), sep@),
{
    let ghost views = items@.map_values(|t: &str| t@);
    let mut s = String::new();
    let n = items.len();
    for i in 0..n
        invariant
            n == items@.len(),
            views == items@.map_values(|t: &str| t@),
            s@ == join(views.take(i as int), sep@),
    {
        assert(views.take(i + 1).drop_last() =~= views.take(i as int));
        if i != 0 {
            s.append(sep);
        }
        s.append(items[i]);
        assert(s@ =~= join(views.take(i + 1), sep@));
    }
    assert(views.take(n as int) =~= views);
    s
}

proof fn lemma_digit_char_table(d: int)
    requires
        0 <= d < 16,
    ensures
        digit_char(d) == "0123456789abcdef"@[d],
{
    reveal_strlit("0123456789abcdef");
    let t = "0123456789abcdef"@;
    assert(t[0] == '0' && t[1] == '1' && t[2] == '2' && t[3] == '3' && t[4] == '4' && t[5] == '5');
    assert(t[6] == '6' && t[7] == '7' && t[8] == '8' && t[9] == '9' && t[10] == 'a' && t[11] == 'b');
    assert(t[12] == 'c' && t[13] == 'd' && t[14] == 'e' && t[15] == 'f');
}

/// The hexadecimal text of bytes has two characters for each byte, in
/// order: the lower-case hexadecimal digit of its high four bits, then that
/// of its low four bits.
pub proof fn law_hex_digits(bytes: Seq<u8>)
    ensures
        hex_text(bytes).len() == 2 * bytes.len(),
        forall|i: int|
            #![trigger bytes[i]]
            0 <= i < bytes.len() ==> hex_text(bytes)[2 * i] == "0123456789abcdef"@[bytes[i] as int / 16]
                && hex_text(bytes)[2 * i + 1] == "0123456789abcdef"@[bytes[i] as int % 16],
    decreases bytes.len(),
{
    reveal_strlit("0123456789abcdef");
    if bytes.len() > 0 {
        let prefix = bytes.drop_last();
        law_hex_digits(prefix);
        let t = hex_text(bytes);
        let n = bytes.len() - 1;
        assert forall|i: int|
            #![trigger bytes[i]]
            0 <= i < bytes.len() implies t[2 * i] == "0123456789abcdef"@[bytes[i] as int / 16] && t[2 * i
                + 1] == "0123456789abcdef"@[bytes[i] as int % 16] by {
            if i < n {
                assert(bytes[i] == prefix[i]);
                assert(prefix[i] == prefix[i]);
                assert(t[2 * i] == hex_text(prefix)[2 * i]);
                assert(t[2 * i + 1] == hex_text(prefix)[2 * i + 1]);
            } else {
                lemma_digit_char_table(bytes.last() as int / 16);
                lemma_digit_char_table(bytes.last() as int % 16);
                assert(t[2 * i] == hex_byte(bytes.last())[0]);
                assert(t[2 * i + 1] == hex_byte(bytes.last())[1]);
            }
        }
    }
}

/// Reading the hexadecimal text of some bytes gives the bytes back, and the
/// text has two digits for each byte.
pub proof fn law_hex_roundtrip(bytes: Seq<u8>)
    ensures
        hex_text(bytes).len() == 2 * bytes.len(),
        hex_decode(hex_text(bytes)) == bytes,
    decreases bytes.len(),
{
    if bytes.len() > 0 {
        let prefix = bytes.drop_last();
        law_hex_roundtrip(prefix);
        let t = hex_text(bytes);
        assert(t.take(t.len() - 2) =~= hex_text(prefix));
        let b = bytes.last();
        assert(digit_value(digit_char(b as int / 16)) == b as int / 16);
        assert(digit_value(digit_char(b as int % 16)) == b as int % 16);
        assert(hex_decode(t) =~= bytes);
    }
}

} // verus!
