use vstd::prelude::*;

use crate::error::SpectrumError;

verus! {

/// The exact numerator of frequency bin `k` of an `n`-point transform, in
/// unshifted bin order: bin `k` carries the frequency `numerator / (n * dt)`
/// where `dt` is the sampling interval. The lower half of the bins holds the
/// non-negative frequencies in ascending order, the upper half the negative
/// ones.
pub open spec fn freq_numerator(k: int, n: int) -> int {
    if k < n / 2 {
        k
    } else {
        k - n
    }
}

/// Builds the frequency axis of an `n`-point transform as exact integer
/// numerators over the common denominator `n * dt` (the total sampled
/// duration); dividing each entry by that denominator — a step left to the
/// floating-point host — yields the frequency of the corresponding bin.
/// Rejects a zero-length axis. The host is likewise responsible for
/// rejecting a non-positive sampling interval, which never reaches this
/// function.
pub fn generate_frequencies(len: usize) -> (r: Result<Vec<i64>, SpectrumError>)
    requires
        len as int <= i64::MAX as int,
    ensures
        r is Ok <==> len > 0,
        r is Err ==> r->Err_0 is InvalidLength,
        r is Ok ==> r->Ok_0@.len() == len,
        r is Ok ==> forall|k: int|
            0 <= k < len ==> #[trigger] r->Ok_0@[k] == freq_numerator(k, len as int),
{
    if len == 0 {
        return Err(SpectrumError::InvalidLength);
    }
    let half = len / 2;
    let mut freq: Vec<i64> = Vec::new();
    for k in 0..len
        invariant
            len as int <= i64::MAX as int,
            half == len / 2,
            freq@.len() == k,
            forall|j: int| 0 <= j < k ==> freq@[j] == freq_numerator(j, len as int),
    {
        if k < half {
            freq.push(k as i64);
        } else {
            freq.push(k as i64 - len as i64);
        }
    }
    Ok(freq)
}

} // verus!
