//! Decimal text of unsigned integers.
use vstd::prelude::*;

verus! {

/// The decimal digits of `n`, most significant first, without leading zeros.
pub open spec fn decimal_text(n: nat) -> Seq<char>
    decreases n,
{
    if n < 10 {
        seq![(n + 48) as char]
    } else {
        decimal_text(n / 10) + seq![((n % 10) + 48) as char]
    }
}

/// The decimal text of `n`, as `Display` of an unsigned integer writes it.
pub fn decimal_string(n: usize) -> (s: String)
    ensures
        s@ == decimal_text(n as nat),
    decreases n,
{
    let digits = "0123456789";
    proof {
        reveal_strlit("0123456789");
    }
    if n < 10 {
        let d = digits.substring_char(n, n + 1);
        let s = String::from_str(d);
        assert(s@ =~= decimal_text(n as nat));
        s
    } else {
        let mut s = decimal_string(n / 10);
        let last = n % 10;
        let d = digits.substring_char(last, last + 1);
        s.append(d);
        assert(s@ =~= decimal_text(n as nat));
        s
    }
}


/// The number that the decimal digits `s` spell, most significant first.
pub open spec fn decimal_value(s: Seq<char>) -> nat
    decreases s.len(),
{
    if s.len() == 0 {
        0
    } else {
        decimal_value(s.drop_last()) * 10 + ((s.last() as u32) - 48) as nat
    }
}

/// The decimal text of `n` reads back as `n`: it is made of the digits
/// `0-9`, is not empty, and starts with `0` only for `n == 0`.
pub proof fn decimal_text_reads_back(n: nat)
    ensures
        decimal_text(n).len() > 0,
        forall|k: int|
            0 <= k < decimal_text(n).len() ==> 48 <= #[trigger] (decimal_text(n)[k] as u32) <= 57,
        decimal_value(decimal_text(n)) == n,
        (decimal_text(n)[0] == '0') == (n == 0),
    decreases n,
{
    let t = decimal_text(n);
    if n >= 10 {
        decimal_text_reads_back(n / 10);
        let p = decimal_text(n / 10);
        assert(t.drop_last() =~= p);
        assert(t[0] == p[0]);
        assert forall|k: int| 0 <= k < t.len() implies 48 <= #[trigger] (t[k] as u32) <= 57 by {
            if k < p.len() {
                assert(t[k] == p[k]);
            }
        }
        assert(decimal_value(t) == decimal_value(p) * 10 + (n % 10));
        assert((n / 10) * 10 + n % 10 == n);
    } else {
        assert(t.drop_last() =~= Seq::<char>::empty());
        assert(decimal_value(t) == decimal_value(t.drop_last()) * 10 + ((t.last() as u32) - 48) as nat);
    }
}

} // verus!
