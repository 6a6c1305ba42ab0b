//! Building the ASCII text of the wire contract: decimal and hexadecimal
//! renderings of integers, with the strings they stand for as spec functions.
use vstd::prelude::*;

verus! {

/// The sixteen digits, in value order, lower case.
pub open spec fn digits() -> Seq<char> {
    seq!['0', '1', '2', '3', '4', '5', '6', '7', '8', '9', 'a', 'b', 'c', 'd', 'e', 'f']
}

/// The digit character for `d` (meaningful for `d < 16`).
pub open spec fn digit(d: nat) -> char {
    digits()[d as int]
}

/// The decimal rendering of `n`: no sign, no leading zeros, "0" for zero.
pub open spec fn decimal(n: nat) -> Seq<char>
    decreases n,
{
    if n < 10 {
        seq![digit(n)]
    } else {
        decimal(n / 10).push(digit(n % 10))
    }
}

/// The value of a digit character `'0'..='9'`.
pub open spec fn digit_value(c: char) -> int {
    c as int - '0' as int
}

/// The number that a string of decimal digits reads as.
pub open spec fn decimal_value(s: Seq<char>) -> int
    decreases s.len(),
{
    if s.len() == 0 {
        0
    } else {
        decimal_value(s.drop_last()) * 10 + digit_value(s.last())
    }
}

proof fn lemma_digit_char(d: nat)
    requires
        d < 10,
    ensures
        '0' <= digit(d) <= '9',
        digit_value(digit(d)) == d,
{
    if d == 0 { assert(digit(0) == '0'); }
    else if d == 1 { assert(digit(1) == '1'); }
    else if d == 2 { assert(digit(2) == '2'); }
    else if d == 3 { assert(digit(3) == '3'); }
    else if d == 4 { assert(digit(4) == '4'); }
    else if d == 5 { assert(digit(5) == '5'); }
    else if d == 6 { assert(digit(6) == '6'); }
    else if d == 7 { assert(digit(7) == '7'); }
    else if d == 8 { assert(digit(8) == '8'); }
    else { assert(digit(9) == '9'); }
}

/// The decimal rendering of `n` is made of digits only, has no leading zero
/// (but for `n == 0`, which renders as `"0"`), and reads back as `n`.
pub proof fn lemma_decimal_value(n: nat)
    ensures
        decimal(n).len() >= 1,
        forall|i: int| 0 <= i < decimal(n).len() ==> '0' <= #[trigger] decimal(n)[i] <= '9',
        n > 0 ==> decimal(n)[0] != '0',
        n == 0 ==> decimal(n) == seq!['0'],
        decimal_value(decimal(n)) == n,
    decreases n,
{
    lemma_digit_char(n % 10);
    if n < 10 {
        assert(decimal(n).drop_last() =~= Seq::<char>::empty());
        assert(decimal_value(Seq::<char>::empty()) == 0);
        assert(decimal_value(decimal(n)) == decimal_value(decimal(n).drop_last()) * 10
            + digit_value(decimal(n).last()));
        if n > 0 {
            assert(digit_value(decimal(n)[0]) == n);
        } else {
            assert(digit(0) == '0');
        }
    } else {
        lemma_decimal_value(n / 10);
        let s = decimal(n);
        assert(s.drop_last() =~= decimal(n / 10));
        assert(s.last() == digit(n % 10));
        assert(decimal_value(s) == decimal_value(s.drop_last()) * 10 + digit_value(s.last()));
        assert(decimal_value(s) == decimal_value(decimal(n / 10)) * 10 + (n % 10) as int);
        assert(n == (n / 10) * 10 + n % 10);
        assert forall|i: int| 0 <= i < s.len() implies '0' <= #[trigger] s[i] <= '9' by {
            if i < s.len() - 1 {
                assert(s[i] == decimal(n / 10)[i]);
            }
        }
        assert(s[0] == decimal(n / 10)[0]);
    }
}

/// The two-digit, zero-padded, lower-case hexadecimal rendering of a byte.
pub open spec fn hex_byte(b: u8) -> Seq<char> {
    seq![digit((b / 16) as nat), digit((b % 16) as nat)]
}

/// The value of a hexadecimal digit character `'0'..='9'` or `'a'..='f'`.
pub open spec fn hex_digit_value(c: char) -> int {
    if '0' <= c <= '9' {
        c as int - '0' as int
    } else {
        c as int - 'a' as int + 10
    }
}

/// The number that two hexadecimal digits read as.
pub open spec fn hex_value(s: Seq<char>) -> int {
    hex_digit_value(s[0]) * 16 + hex_digit_value(s[1])
}

proof fn lemma_hex_digit_char(d: nat)
    requires
        d < 16,
    ensures
        hex_digit_value(digit(d)) == d,
        ('0' <= digit(d) <= '9') || ('a' <= digit(d) <= 'f'),
{
    if d < 10 {
        lemma_digit_char(d);
    } else if d == 10 { assert(digit(10) == 'a'); }
    else if d == 11 { assert(digit(11) == 'b'); }
    else if d == 12 { assert(digit(12) == 'c'); }
    else if d == 13 { assert(digit(13) == 'd'); }
    else if d == 14 { assert(digit(14) == 'e'); }
    else { assert(digit(15) == 'f'); }
}

/// The two hex digits of a byte are lower-case hex digits and read back as
/// the byte.
pub proof fn lemma_hex_byte_value(b: u8)
    ensures
        hex_byte(b).len() == 2,
        hex_value(hex_byte(b)) == b,
        forall|i: int| 0 <= i < 2 ==> ('0' <= #[trigger] hex_byte(b)[i] <= '9') || ('a' <= hex_byte(b)[i] <= 'f'),
{
    lemma_hex_digit_char((b / 16) as nat);
    lemma_hex_digit_char((b % 16) as nat);
    assert(b == (b / 16) * 16 + b % 16);
}

/// The one-character string of the digit `d`.
pub fn digit_str(d: u64) -> (s: &'static str)
    requires
        d < 16,
    ensures
        s@ == seq![digit(d as nat)],
{
    match d {
        0 => { proof { reveal_strlit("0"); } "0" },
        1 => { proof { reveal_strlit("1"); } "1" },
        2 => { proof { reveal_strlit("2"); } "2" },
        3 => { proof { reveal_strlit("3"); } "3" },
        4 => { proof { reveal_strlit("4"); } "4" },
        5 => { proof { reveal_strlit("5"); } "5" },
        6 => { proof { reveal_strlit("6"); } "6" },
        7 => { proof { reveal_strlit("7"); } "7" },
        8 => { proof { reveal_strlit("8"); } "8" },
        9 => { proof { reveal_strlit("9"); } "9" },
        10 => { proof { reveal_strlit("a"); } "a" },
        11 => { proof { reveal_strlit("b"); } "b" },
        12 => { proof { reveal_strlit("c"); } "c" },
        13 => { proof { reveal_strlit("d"); } "d" },
        14 => { proof { reveal_strlit("e"); } "e" },
        _ => { proof { reveal_strlit("f"); } "f" },
    }
}

/// Appends the decimal rendering of `n` to `out`.
pub fn push_decimal(out: &mut String, n: u64)
    ensures
        final(out)@ == old(out)@ + decimal(n as nat),
    decreases n,
{
    if n >= 10 {
        push_decimal(out, n / 10);
    }
    out.append(digit_str(n % 10));
    proof {
        if n >= 10 {
            assert(old(out)@ + decimal((n / 10) as nat) + seq![digit((n % 10) as nat)]
                =~= old(out)@ + decimal(n as nat));
        } else {
            assert(old(out)@ + seq![digit(n as nat)] =~= old(out)@ + decimal(n as nat));
        }
    }
}

/// Appends the two-digit lower-case hexadecimal rendering of `b` to `out`.
pub fn push_hex_byte(out: &mut String, b: u8)
    ensures
        final(out)@ == old(out)@ + hex_byte(b),
{
    let hi: u64 = (b / 16) as u64;
    let lo: u64 = (b % 16) as u64;
    out.append(digit_str(hi));
    out.append(digit_str(lo));
    assert(old(out)@ + seq![digit(hi as nat)] + seq![digit(lo as nat)] =~= old(out)@ + hex_byte(b));
}

} // verus!
