use vstd::prelude::*;
use vstd::string::*;

verus! {

/// The decimal digit character for `d`.
pub open spec fn digit_char(d: nat) -> char
    recommends
        d < 10,
{
    "0123456789"@[d as int]
}

/// The lower-case hexadecimal digit character for `d`.
pub open spec fn hex_char(d: nat) -> char
    recommends
        d < 16,
{
    "0123456789abcdef"@[d as int]
}

/// The decimal digits of `n`, most significant first, without leading zeros.
pub open spec fn digits_of(n: nat) -> Seq<char>
    decreases n,
{
    if n < 10 {
        seq![digit_char(n)]
    } else {
        digits_of(n / 10) + seq![digit_char(n % 10)]
    }
}

/// How an integer is written: an optional minus sign, then its digits.
pub open spec fn int_text(n: int) -> Seq<char> {
    if n < 0 {
        seq!['-'] + digits_of((-n) as nat)
    } else {
        digits_of(n as nat)
    }
}

/// How a boolean is written.
pub open spec fn bool_text(b: bool) -> Seq<char> {
    if b {
        "true"@
    } else {
        "false"@
    }
}

/// Two lower-case hexadecimal digits for a byte.
pub open spec fn hex_byte(b: u8) -> Seq<char> {
    seq![hex_char((b / 16) as nat), hex_char((b % 16) as nat)]
}

fn append_digits(s: &mut String, n: u128)
    ensures
        final(s)@ == old(s)@ + digits_of(n as nat),
    decreases n,
{
    if n >= 10 {
        append_digits(s, n / 10);
    }
    let d: usize = (n % 10) as usize;
    proof {
        reveal_strlit("0123456789");
    }
    let digit = "0123456789".substring_char(d, d + 1);
    s.append(digit);
    proof {
        assert(digit@ =~= seq![digit_char(d as nat)]);
        assert(old(s)@ + digits_of(n as nat) =~= final(s)@);
    }
}

/// Writes an integer in decimal, as `{:?}` and `{}` do.
pub fn integer_text(n: i128) -> (r: String)
    ensures
        r@ == int_text(n as int),
{
    let mut s = String::new();
    if n < 0 {
        proof {
            reveal_strlit("-");
        }
        s.append("-");
        let m: u128 = (0 - (n as i128 + 1)) as u128 + 1;
        append_digits(&mut s, m);
        assert(s@ =~= int_text(n as int));
    } else {
        append_digits(&mut s, n as u128);
        assert(s@ =~= int_text(n as int));
    }
    s
}

/// Writes a boolean as `true` or `false`.
pub fn boolean_text(b: bool) -> (r: String)
    ensures
        r@ == bool_text(b),
{
    if b {
        String::from_str("true")
    } else {
        String::from_str("false")
    }
}

/// Appends the two lower-case hexadecimal digits of `b` to `s`.
pub fn append_hex_byte(s: &mut String, b: u8)
    ensures
        final(s)@ == old(s)@ + hex_byte(b),
{
    proof {
        reveal_strlit("0123456789abcdef");
    }
    let hi: usize = (b / 16) as usize;
    let lo: usize = (b % 16) as usize;
    s.append("0123456789abcdef".substring_char(hi, hi + 1));
    s.append("0123456789abcdef".substring_char(lo, lo + 1));
    assert(final(s)@ =~= old(s)@ + hex_byte(b));
}

} // verus!
