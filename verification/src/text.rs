//! Text building blocks: decimal numerals, runs of spaces, left-justified
//! padding, and lengths measured in UTF-8 bytes.

use vstd::prelude::*;
use vstd::string::*;
use vstd::utf8::*;

verus! {

/// Length of `s` in UTF-8 bytes.
pub open spec fn byte_len(s: Seq<char>) -> nat {
    encode_utf8(s).len()
}

/// A run of `n` spaces.
pub open spec fn spaces(n: nat) -> Seq<char> {
    Seq::new(n, |i: int| ' ')
}

/// The character for a single decimal digit.
pub open spec fn digit_char(d: nat) -> char {
    if d == 0 {
        '0'
    } else if d == 1 {
        '1'
    } else if d == 2 {
        '2'
    } else if d == 3 {
        '3'
    } else if d == 4 {
        '4'
    } else if d == 5 {
        '5'
    } else if d == 6 {
        '6'
    } else if d == 7 {
        '7'
    } else if d == 8 {
        '8'
    } else {
        '9'
    }
}

/// The decimal numeral of `n`: most significant digit first, no sign, no
/// leading zero except for zero itself.
pub open spec fn decimal(n: nat) -> Seq<char>
    decreases n,
{
    if n < 10 {
        seq![digit_char(n)]
    } else {
        decimal(n / 10).push(digit_char(n % 10))
    }
}

/// Number of digits in the decimal numeral of `n`.
pub open spec fn digit_count(n: nat) -> nat
    decreases n,
{
    if n < 10 {
        1
    } else {
        1 + digit_count(n / 10)
    }
}

/// `text` followed by as many spaces as it takes to reach `width`
/// characters; `text` itself when it is already that wide.
pub open spec fn left_justified(text: Seq<char>, width: nat) -> Seq<char> {
    if text.len() >= width {
        text
    } else {
        text + spaces((width - text.len()) as nat)
    }
}

/// A numeral has as many characters as the number has digits.
pub proof fn lemma_decimal_len(n: nat)
    ensures
        decimal(n).len() == digit_count(n),
        digit_count(n) >= 1,
    decreases n,
{
    if n >= 10 {
        lemma_decimal_len(n / 10);
    }
}

/// A larger number never has fewer digits.
pub proof fn lemma_digit_count_monotonic(a: nat, b: nat)
    requires
        a <= b,
    ensures
        digit_count(a) <= digit_count(b),
    decreases b,
{
    if a >= 10 {
        lemma_digit_count_monotonic(a / 10, b / 10);
    }
}

/// Every character takes at least one byte, so a text is never longer in
/// characters than in bytes.
pub proof fn lemma_byte_len_at_least_len(s: Seq<char>)
    ensures
        s.len() <= byte_len(s),
    decreases s.len(),
{
    if s.len() > 0 {
        lemma_byte_len_at_least_len(s.drop_first());
    }
}

/// Length of `s` in UTF-8 bytes.
pub fn byte_length(s: &str) -> (n: usize)
    ensures
        n == byte_len(s@),
{
    s.as_bytes().len()
}

/// The one-character text of a decimal digit.
fn digit_str(d: u8) -> (r: &'static str)
    requires
        d < 10,
    ensures
        r@ == seq![digit_char(d as nat)],
{
    proof {
        reveal_strlit("0");
        reveal_strlit("1");
        reveal_strlit("2");
        reveal_strlit("3");
        reveal_strlit("4");
        reveal_strlit("5");
        reveal_strlit("6");
        reveal_strlit("7");
        reveal_strlit("8");
        reveal_strlit("9");
    }
    let r = match d {
        0 => "0",
        1 => "1",
        2 => "2",
        3 => "3",
        4 => "4",
        5 => "5",
        6 => "6",
        7 => "7",
        8 => "8",
        _ => "9",
    };
    assert(r@ =~= seq![digit_char(d as nat)]);
    r
}

/// Appends the decimal numeral of `n` to `out`.
pub fn push_decimal(out: &mut String, n: u128)
    ensures
        final(out)@ == old(out)@ + decimal(n as nat),
    decreases n,
{
    if n >= 10 {
        push_decimal(out, n / 10);
    }
    let ghost before = out@;
    let d: u8 = (n % 10) as u8;
    out.append(digit_str(d));
    proof {
        if n >= 10 {
            assert(before == old(out)@ + decimal((n / 10) as nat));
            assert(out@ =~= old(out)@ + decimal((n / 10) as nat).push(digit_char((n % 10) as nat)));
        } else {
            assert(out@ =~= old(out)@ + seq![digit_char(n as nat)]);
        }
    }
}

/// The decimal numeral of `n`.
pub fn decimal_string(n: u128) -> (r: String)
    ensures
        r@ == decimal(n as nat),
{
    let mut out = String::new();
    push_decimal(&mut out, n);
    assert(out@ =~= decimal(n as nat));
    out
}

/// Number of digits in the decimal numeral of `n`.
pub fn count_digits(n: u64) -> (r: usize)
    ensures
        r == digit_count(n as nat),
        1 <= r <= 20,
{
    let mut rest: u64 = n;
    let mut count: usize = 1;
    assert(rest as nat * pow10(0) == n) by (nonlinear_arith)
        requires
            rest == n,
            pow10(0) == 1,
    ;
    while rest >= 10
        invariant
            1 <= count <= 20,
            digit_count(n as nat) == digit_count(rest as nat) + count - 1,
            rest as nat * pow10((count - 1) as nat) <= n,
        decreases rest,
    {
        proof {
            lemma_pow10_step((count - 1) as nat);
            assert((rest / 10) as nat * pow10(count as nat) <= n) by (nonlinear_arith)
                requires
                    rest as nat * pow10((count - 1) as nat) <= n,
                    pow10(count as nat) == 10 * pow10((count - 1) as nat),
            ;
            if count == 20 {
                lemma_pow10_twenty();
                assert(false) by (nonlinear_arith)
                    requires
                        (rest / 10) as nat * pow10(20) <= n,
                        rest / 10 >= 1,
                        pow10(20) > n,
                ;
            }
        }
        rest = rest / 10;
        count = count + 1;
    }
    count
}

/// Ten to the power `k`.
pub open spec fn pow10(k: nat) -> nat
    decreases k,
{
    if k == 0 {
        1
    } else {
        10 * pow10((k - 1) as nat)
    }
}

proof fn lemma_pow10_step(k: nat)
    ensures
        pow10(k + 1) == 10 * pow10(k),
{
}

proof fn lemma_pow10_twenty()
    ensures
        pow10(20) == 100_000_000_000_000_000_000nat,
{
    reveal_with_fuel(pow10, 21);
}

/// A run of `n` spaces.
pub fn spaces_string(n: usize) -> (r: String)
    ensures
        r@ == spaces(n as nat),
{
    let mut out = String::new();
    let mut i: usize = 0;
    proof {
        reveal_strlit(" ");
    }
    while i < n
        invariant
            i <= n,
            out@ == spaces(i as nat),
            " "@.len() == 1,
            " "@[0] == ' ',
        decreases n - i,
    {
        out.append(" ");
        i = i + 1;
        assert(out@ =~= spaces(i as nat));
    }
    out
}

/// `text` padded on the right with spaces to `width` characters.
pub fn left_justify(text: &str, width: usize) -> (r: String)
    ensures
        r@ == left_justified(text@, width as nat),
{
    let len = text.unicode_len();
    let mut out = String::from_str(text);
    if len < width {
        let pad = spaces_string(width - len);
        out.append(pad.as_str());
    }
    out
}

} // verus!
