//! Numbers as the player types them, digit by digit, and the width of a string on
//! the terminal.

use vstd::prelude::*;
use unicode_width::UnicodeWidthStr;

verus! {

/// Whether every entry of `d` is a decimal digit, 0 to 9.
pub open spec fn all_digits(d: Seq<u8>) -> bool {
    forall|i: int| 0 <= i < d.len() ==> #[trigger] d[i] <= 9
}

/// The number that the digits `d` write in base ten, the first digit counting
/// most. No digits write zero.
pub open spec fn decimal_value(d: Seq<u8>) -> int
    decreases d.len(),
{
    if d.len() == 0 {
        0
    } else {
        decimal_value(d.drop_last()) * 10 + d.last()
    }
}

/// The digits that write `n` in base ten, without a leading zero but for zero itself.
pub open spec fn decimal_digits(n: nat) -> Seq<u8>
    decreases n,
{
    if n < 10 {
        seq![n as u8]
    } else {
        decimal_digits(n / 10).push((n % 10) as u8)
    }
}

/// The digits of a number are digits, and write that number.
pub proof fn lemma_decimal_digits(n: nat)
    ensures
        all_digits(decimal_digits(n)),
        decimal_value(decimal_digits(n)) == n,
        decimal_digits(n).len() >= 1,
    decreases n,
{
    let d = decimal_digits(n);
    if n < 10 {
        assert(d.drop_last() =~= Seq::<u8>::empty());
        assert(decimal_value(d.drop_last()) == 0);
    } else {
        lemma_decimal_digits(n / 10);
        assert(d.drop_last() =~= decimal_digits(n / 10));
    }
}

/// Digits written after others only add to the number.
pub proof fn lemma_decimal_value_grows(d: Seq<u8>, k: int)
    requires
        0 <= k <= d.len(),
    ensures
        0 <= decimal_value(d.take(k)) <= decimal_value(d),
    decreases d.len() - k,
{
    if k == d.len() {
        assert(d.take(k) =~= d);
        lemma_decimal_value_nonnegative(d);
    } else {
        lemma_decimal_value_grows(d, k + 1);
        assert(d.take(k + 1).drop_last() =~= d.take(k));
        lemma_decimal_value_nonnegative(d.take(k));
    }
}

/// No digits write a negative number.
pub proof fn lemma_decimal_value_nonnegative(d: Seq<u8>)
    ensures
        0 <= decimal_value(d),
    decreases d.len(),
{
    if d.len() > 0 {
        lemma_decimal_value_nonnegative(d.drop_last());
    }
}

/// The digits that write `n` in base ten.
pub fn digits_of(n: usize) -> (d: Vec<u8>)
    ensures
        d@ == decimal_digits(n as nat),
    decreases n,
{
    if n < 10 {
        let mut d: Vec<u8> = Vec::new();
        d.push(n as u8);
        assert(d@ =~= seq![n as u8]);
        d
    } else {
        let mut d = digits_of(n / 10);
        d.push((n % 10) as u8);
        d
    }
}

/// The largest number that `read_digits` reads.
pub const READ_LIMIT: usize = 1_000_000;

/// Reads the number that the digits `d` write, where it is no more than `READ_LIMIT`:
/// a larger number, or an entry that is no digit, is not read.
pub fn read_digits(d: &Vec<u8>) -> (n: Option<usize>)
    ensures
        match n {
            Some(v) => all_digits(d@) && v == decimal_value(d@) && v <= READ_LIMIT,
            None => !all_digits(d@) || decimal_value(d@) > READ_LIMIT,
        },
{
    let mut v: usize = 0;
    let mut i: usize = 0;
    while i < d.len()
        invariant
            i <= d.len(),
            v == decimal_value(d@.take(i as int)),
            v <= READ_LIMIT,
            all_digits(d@.take(i as int)),
        decreases d.len() - i,
    {
        let digit = d[i];
        if digit > 9 {
            return None;
        }
        proof {
            assert(d@.take(i + 1).drop_last() =~= d@.take(i as int));
            assert forall|j: int| 0 <= j < i + 1 implies #[trigger] d@.take(i + 1)[j] <= 9 by {
                if j < i {
                    assert(d@.take(i as int)[j] <= 9);
                }
            }
        }
        v = v * 10 + digit as usize;
        i = i + 1;
        if v > READ_LIMIT {
            proof {
                lemma_decimal_value_grows(d@, i as int);
            }
            return None;
        }
    }
    proof {
        assert(d@.take(d.len() as int) =~= d@);
    }
    Some(v)
}

/// The number of terminal columns that a string takes, as the `unicode-width`
/// crate counts them with ambiguous characters taken as narrow.
pub uninterp spec fn display_width(s: Seq<char>) -> nat;

/// Asks `unicode_width::UnicodeWidthStr::width` for the columns that `s` takes.
/// Trusted: the answer is a function of the characters of `s` alone.
#[verifier::external_body]
pub(crate) fn width_of(s: &str) -> (columns: usize)
    ensures
        columns == display_width(s@),
{
    UnicodeWidthStr::width(s)
}

} // verus!
