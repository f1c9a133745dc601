use vstd::prelude::*;

use crate::error::SpectrumError;

verus! {

/// The spectrum-centering permutation: a left circular rotation of `s` by
/// `s.len() / 2` positions, which moves the zero-frequency bin of an
/// unshifted transform from index 0 to the middle of the sequence.
pub open spec fn rotate_half<A>(s: Seq<A>) -> Seq<A> {
    s.subrange(s.len() as int / 2, s.len() as int) + s.subrange(0, s.len() as int / 2)
}

/// Left circular rotation of `v` by `v.len() / 2` positions.
fn rotate_half_vec<T: Copy>(v: &Vec<T>) -> (r: Vec<T>)
    ensures
        r@ == rotate_half(v@),
{
    let n = v.len();
    let half = n / 2;
    let mut out: Vec<T> = Vec::new();
    for i in half..n
        invariant
            n == v.len(),
            half == n / 2,
            out@ == v@.subrange(half as int, i as int),
    {
        out.push(v[i]);
        proof {
            assert(out@ =~= v@.subrange(half as int, i + 1 as int));
        }
    }
    for i in 0..half
        invariant
            n == v.len(),
            half == n / 2,
            out@ == v@.subrange(half as int, n as int) + v@.subrange(0, i as int),
    {
        out.push(v[i]);
        proof {
            assert(out@ =~= v@.subrange(half as int, n as int) + v@.subrange(0, i + 1 as int));
        }
    }
    out
}

/// Centers the zero-frequency bin of a real/imaginary pair: each sequence is
/// rotated left by half of its own length. Callers must supply equal-length
/// pairs; on mismatched lengths each sequence is still rotated by its own
/// half, leaving the pair misaligned.
pub fn fft_shift<T: Copy>(re: Vec<T>, im: Vec<T>) -> (r: Result<
    (Vec<T>, Vec<T>),
    SpectrumError,
>)
    ensures
        r is Ok,
        r->Ok_0.0@ == rotate_half(re@),
        r->Ok_0.1@ == rotate_half(im@),
{
    let shifted_re = rotate_half_vec(&re);
    let shifted_im = rotate_half_vec(&im);
    Ok((shifted_re, shifted_im))
}

/// Centers the zero-frequency bin of a single sequence (typically a frequency
/// axis): a left circular rotation by half the length.
pub fn fft_shift_frequencies<T: Copy>(data: Vec<T>) -> (r: Result<Vec<T>, SpectrumError>)
    ensures
        r is Ok,
        r->Ok_0@ == rotate_half(data@),
{
    let shifted = rotate_half_vec(&data);
    Ok(shifted)
}

/// How two applications of the centering rotation act on a sequence: together
/// they rotate left by `2 * (len / 2)`, which is the identity on sequences of
/// even length, and on odd lengths moves every element one position to the
/// right (cyclically).
pub proof fn lemma_rotate_half_twice<A>(s: Seq<A>)
    ensures
        s.len() % 2 == 0 ==> rotate_half(rotate_half(s)) == s,
        s.len() % 2 == 1 ==> rotate_half(rotate_half(s)) == s.subrange(
            s.len() - 1,
            s.len() as int,
        ) + s.subrange(0, s.len() - 1),
{
    if s.len() % 2 == 0 {
        assert(rotate_half(rotate_half(s)) =~= s);
    } else {
        assert(rotate_half(rotate_half(s)) =~= s.subrange(s.len() - 1, s.len() as int)
            + s.subrange(0, s.len() - 1));
    }
}

/// On odd lengths the double rotation fixes a sequence only if every element
/// is equal to every other; so for any odd-length sequence with two distinct
/// elements, applying the shift twice does not reproduce the input.
pub proof fn lemma_rotate_half_twice_odd_fixed<A>(s: Seq<A>)
    requires
        s.len() % 2 == 1,
        rotate_half(rotate_half(s)) == s,
    ensures
        forall|i: int, j: int| 0 <= i < s.len() && 0 <= j < s.len() ==> s[i] == s[j],
{
    lemma_rotate_half_twice(s);
    assert forall|i: int| 0 < i < s.len() implies #[trigger] s[i] == s[i - 1] by {
        assert(s[i] == (s.subrange(s.len() - 1, s.len() as int) + s.subrange(0, s.len() - 1))[i]);
    }
    assert forall|i: int, j: int| 0 <= i < s.len() && 0 <= j < s.len() implies s[i] == s[j] by {
        lemma_adjacent_equal_all_equal(s, i);
        lemma_adjacent_equal_all_equal(s, j);
    }
}

/// A sequence whose every element equals its left neighbour is constant.
proof fn lemma_adjacent_equal_all_equal<A>(s: Seq<A>, i: int)
    requires
        0 <= i < s.len(),
        forall|k: int| 0 < k < s.len() ==> #[trigger] s[k] == s[k - 1],
    ensures
        s[i] == s[0],
    decreases i,
{
    if i > 0 {
        lemma_adjacent_equal_all_equal(s, i - 1);
    }
}

} // verus!
