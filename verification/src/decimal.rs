use vstd::prelude::*;

verus! {

/// The ASCII decimal digits of a natural number, most significant first,
/// with no leading zeros (a single `0` for zero).
pub open spec fn dec_of(n: nat) -> Seq<u8>
    decreases n,
{
    if n < 10 {
        seq![(48 + n) as u8]
    } else {
        dec_of(n / 10) + seq![(48 + n % 10) as u8]
    }
}

/// Appends the decimal digits of `n` to `out`.
pub fn push_decimal(n: u64, out: &mut Vec<u8>)
    ensures
        final(out)@ == old(out)@ + dec_of(n as nat),
    decreases n,
{
    if n < 10 {
        out.push(48 + n as u8);
        assert(out@ =~= old(out)@ + dec_of(n as nat));
    } else {
        push_decimal(n / 10, out);
        out.push(48 + (n % 10) as u8);
        assert(out@ =~= old(out)@ + dec_of(n as nat));
    }
}

} // verus!
