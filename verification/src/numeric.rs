//! Decimal text for the handshake: the port number is written into the
//! agent's argument vector as decimal digits, and on a console-model platform
//! the identity line is read back as a decimal process id.

use vstd::arithmetic::div_mod::lemma_fundamental_div_mod;
use vstd::prelude::*;

verus! {

/// The digit character for a value below ten.
pub open spec fn digit_char(d: nat) -> char
    recommends
        d < 10,
{
    if d == 0 {
        '0'
    } else if d == 1 {
        '1'
    } else if d == 2 {
        '2'
    } else if d == 3 {
        '3'
    } else if d == 4 {
        '4'
    } else if d == 5 {
        '5'
    } else if d == 6 {
        '6'
    } else if d == 7 {
        '7'
    } else if d == 8 {
        '8'
    } else {
        '9'
    }
}

/// The decimal digit sequence of `n`, most significant digit first, with no
/// sign and no leading zero (a single `'0'` for zero itself).
pub open spec fn decimal(n: nat) -> Seq<char>
    decreases n,
{
    if n < 10 {
        seq![digit_char(n)]
    } else {
        decimal(n / 10).push(digit_char(n % 10))
    }
}

/// Whether `c` is a decimal digit.
pub open spec fn is_digit(c: char) -> bool {
    '0' as int <= c as int && c as int <= '9' as int
}

/// The value of the digit `c`.
pub open spec fn digit_val(c: char) -> nat
    recommends
        is_digit(c),
{
    (c as int - '0' as int) as nat
}

/// Whether `s` is a plain decimal numeral: at least one character, all of
/// them digits.
pub open spec fn is_decimal(s: Seq<char>) -> bool {
    s.len() > 0 && forall|i: int| 0 <= i < s.len() ==> is_digit(s[i])
}

/// The value of the digit sequence `s`, read as a decimal numeral.
pub open spec fn decimal_val(s: Seq<char>) -> nat
    decreases s.len(),
{
    if s.len() == 0 {
        0
    } else {
        decimal_val(s.drop_last()) * 10 + digit_val(s.last())
    }
}

/// The one-character string for a digit value.
fn digit_str(d: u8) -> (r: &'static str)
    requires
        d < 10,
    ensures
        r@ =~= seq![digit_char(d as nat)],
{
    proof {
        reveal_strlit("0");
        reveal_strlit("1");
        reveal_strlit("2");
        reveal_strlit("3");
        reveal_strlit("4");
        reveal_strlit("5");
        reveal_strlit("6");
        reveal_strlit("7");
        reveal_strlit("8");
        reveal_strlit("9");
    }
    match d {
        0 => "0",
        1 => "1",
        2 => "2",
        3 => "3",
        4 => "4",
        5 => "5",
        6 => "6",
        7 => "7",
        8 => "8",
        _ => "9",
    }
}

/// The decimal digits of `n`, as text.
pub fn decimal_string(n: u16) -> (r: String)
    ensures
        r@ == decimal(n as nat),
    decreases n,
{
    if n < 10 {
        digit_str(n as u8).to_owned()
    } else {
        let mut r = decimal_string(n / 10);
        r.append(digit_str((n % 10) as u8));
        proof {
            assert(r@ =~= decimal(n as nat / 10).push(digit_char(n as nat % 10)));
        }
        r
    }
}

proof fn lemma_decimal_val_prefix_le(s: Seq<char>, j: int)
    requires
        0 <= j <= s.len(),
    ensures
        decimal_val(s.take(j)) <= decimal_val(s),
    decreases s.len() - j,
{
    if j == s.len() {
        assert(s.take(j) =~= s);
    } else {
        assert(s.take(j + 1).drop_last() =~= s.take(j));
        assert(s.take(j + 1).last() == s[j]);
        assert(decimal_val(s.take(j)) <= decimal_val(s.take(j)) * 10 + digit_val(s[j]));
        lemma_decimal_val_prefix_le(s, j + 1);
    }
}

/// Reads `s` as a decimal numeral. Returns the value exactly when `s` is a
/// nonempty all-digit string whose value fits; returns nothing otherwise.
pub fn parse_u32(s: &str) -> (r: Option<u32>)
    ensures
        match r {
            Some(v) => is_decimal(s@) && decimal_val(s@) == v as nat,
            None => !(is_decimal(s@) && decimal_val(s@) <= u32::MAX as nat),
        },
{
    let n = s.unicode_len();
    if n == 0 {
        return None;
    }
    let mut acc: u32 = 0;
    let mut i: usize = 0;
    while i < n
        invariant
            0 < n == s@.len(),
            0 <= i <= n,
            forall|k: int| 0 <= k < i ==> is_digit(s@[k]),
            acc as nat == decimal_val(s@.take(i as int)),
        decreases n - i,
    {
        let c = s.get_char(i);
        let code = c as u32;
        if code < 48 || code > 57 {
            assert(!is_digit(s@[i as int]));
            return None;
        }
        let d = code - 48;
        proof {
            assert(is_digit(s@[i as int]));
            assert(digit_val(s@[i as int]) == d as nat);
        }
        if acc > (u32::MAX - d) / 10 {
            proof {
                lemma_fundamental_div_mod((u32::MAX - d) as int, 10);
                assert(acc as nat * 10 + d as nat > u32::MAX as nat) by (nonlinear_arith)
                    requires
                        acc as nat > ((u32::MAX - d) as nat) / 10,
                        d < 10,
                        ((u32::MAX - d) as nat / 10) * 10 + (u32::MAX - d) as nat % 10 == (u32::MAX
                            - d) as nat,
                ;
                assert(s@.take(i + 1).drop_last() =~= s@.take(i as int));
                assert(s@.take(i + 1).last() == s@[i as int]);
                assert(decimal_val(s@.take(i + 1)) > u32::MAX as nat);
                lemma_decimal_val_prefix_le(s@, i + 1);
            }
            return None;
        }
        proof {
            lemma_fundamental_div_mod((u32::MAX - d) as int, 10);
            assert(acc as nat * 10 + d as nat <= u32::MAX as nat) by (nonlinear_arith)
                requires
                    acc as nat <= ((u32::MAX - d) as nat) / 10,
                    d <= 9,
                    ((u32::MAX - d) as nat / 10) * 10 + (u32::MAX - d) as nat % 10 == (u32::MAX
                        - d) as nat,
            ;
            assert(s@.take(i + 1).drop_last() =~= s@.take(i as int));
            assert(s@.take(i + 1).last() == s@[i as int]);
        }
        acc = acc * 10 + d;
        i = i + 1;
    }
    proof {
        assert(s@.take(n as int) =~= s@);
    }
    Some(acc)
}

proof fn lemma_digit_char_val(d: nat)
    requires
        d < 10,
    ensures
        is_digit(digit_char(d)),
        digit_val(digit_char(d)) == d,
{
    assert(is_digit(digit_char(d)) && digit_val(digit_char(d)) == d);
}

/// Law: the decimal text of a value reads back as that value — an identity
/// written by this library's own formatter always parses, and to the same
/// number.
pub proof fn lemma_decimal_round_trip(n: nat)
    ensures
        is_decimal(decimal(n)),
        decimal_val(decimal(n)) == n,
    decreases n,
{
    if n < 10 {
        lemma_digit_char_val(n);
        assert(decimal(n).drop_last() =~= Seq::<char>::empty());
        assert(decimal(n).last() == digit_char(n));
        assert(decimal_val(decimal(n)) == decimal_val(decimal(n).drop_last()) * 10 + digit_val(
            decimal(n).last(),
        ));
    } else {
        lemma_decimal_round_trip(n / 10);
        lemma_digit_char_val(n % 10);
        assert(decimal(n).drop_last() =~= decimal(n / 10));
        assert(decimal(n).last() == digit_char(n % 10));
        lemma_fundamental_div_mod(n as int, 10);
    }
}

} // verus!
