use vstd::prelude::*;
use vstd::string::*;

use crate::codec::hex_char;

verus! {

/// The digits of `n` in `base`, most significant first, without leading zeros.
pub open spec fn numeral(n: nat, base: nat) -> Seq<char>
    decreases n,
    via numeral_decreases
{
    if base < 2 || n < base {
        seq![hex_char(n as int)]
    } else {
        numeral(n / base, base).push(hex_char((n % base) as int))
    }
}

#[via_fn]
proof fn numeral_decreases(n: nat, base: nat) {
    if !(base < 2 || n < base) {
        assert(n / base < n) by (nonlinear_arith)
            requires
                base >= 2,
                n >= base,
        ;
    }
}

fn digit_str(d: u64) -> (r: &'static str)
    requires
        d < 16,
    ensures
        r@ == seq![hex_char(d as int)],
{
    proof {
        reveal_strlit("0");
        reveal_strlit("1");
        reveal_strlit("2");
        reveal_strlit("3");
        reveal_strlit("4");
        reveal_strlit("5");
        reveal_strlit("6");
        reveal_strlit("7");
        reveal_strlit("8");
        reveal_strlit("9");
        reveal_strlit("a");
        reveal_strlit("b");
        reveal_strlit("c");
        reveal_strlit("d");
        reveal_strlit("e");
        reveal_strlit("f");
    }
    match d {
        0 => "0",
        1 => "1",
        2 => "2",
        3 => "3",
        4 => "4",
        5 => "5",
        6 => "6",
        7 => "7",
        8 => "8",
        9 => "9",
        10 => "a",
        11 => "b",
        12 => "c",
        13 => "d",
        14 => "e",
        _ => "f",
    }
}

/// Appends the digits of `n` in `base` (lowercase beyond nine).
pub fn append_numeral(s: &mut String, n: u64, base: u64)
    requires
        2 <= base <= 16,
    ensures
        final(s)@ == old(s)@ + numeral(n as nat, base as nat),
{
    let mut digits: Vec<u64> = Vec::new();
    let mut m: u64 = n;
    while m >= base
        invariant
            2 <= base <= 16,
            s@ == old(s)@,
            forall|i: int| 0 <= i < digits@.len() ==> #[trigger] digits@[i] < base,
            numeral(n as nat, base as nat) == numeral(m as nat, base as nat) + Seq::new(
                digits@.len(),
                |i: int| hex_char(digits@[digits@.len() - 1 - i] as int),
            ),
        decreases m,
    {
        let ghost before = digits@;
        digits.push(m % base);
        proof {
            let tail_old = Seq::new(
                before.len(),
                |i: int| hex_char(before[before.len() - 1 - i] as int),
            );
            let tail_new = Seq::new(
                digits@.len(),
                |i: int| hex_char(digits@[digits@.len() - 1 - i] as int),
            );
            assert(tail_new =~= seq![hex_char((m % base) as int)] + tail_old);
            assert(numeral(m as nat, base as nat) == numeral((m / base) as nat, base as nat).push(
                hex_char((m % base) as int),
            ));
        }
        m = m / base;
    }
    s.append(digit_str(m));
    let mut k: usize = digits.len();
    while k > 0
        invariant
            k <= digits@.len(),
            2 <= base <= 16,
            forall|i: int| 0 <= i < digits@.len() ==> #[trigger] digits@[i] < base,
            s@ == old(s)@ + seq![hex_char(m as int)] + Seq::new(
                (digits@.len() - k) as nat,
                |i: int| hex_char(digits@[digits@.len() - 1 - i] as int),
            ),
        decreases k,
    {
        k = k - 1;
        let d = digits[k];
        s.append(digit_str(d));
        proof {
            assert(s@ =~= old(s)@ + seq![hex_char(m as int)] + Seq::new(
                (digits@.len() - k) as nat,
                |i: int| hex_char(digits@[digits@.len() - 1 - i] as int),
            ));
        }
    }
    proof {
        assert(numeral(m as nat, base as nat) == seq![hex_char(m as int)]);
        assert(s@ =~= old(s)@ + numeral(n as nat, base as nat));
    }
}

} // verus!
