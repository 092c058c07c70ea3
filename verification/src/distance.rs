//! Hamming-distance comparison of two fingerprints.
//!
//! A fingerprint is an ordered sequence of bits, each held as a `u8` that is
//! 0 or 1; the distance between two fingerprints of equal length is the
//! number of positions at which they differ.

use vstd::prelude::*;

verus! {

/// Error returned when a comparison is asked of ill-matched arguments.
#[derive(Debug, Clone, Copy, PartialEq, Eq, Structural)]
pub enum HashError {
    /// The two fingerprints do not have the same length.
    InvalidArgument,
}

/// Number of positions at which `a` and `b` differ, counted from the back.
/// Meaningful when `a.len() == b.len()`.
pub open spec fn hamming(a: Seq<u8>, b: Seq<u8>) -> nat
    decreases a.len(),
{
    if a.len() == 0 {
        0
    } else {
        hamming(a.drop_last(), b.drop_last()) + if a.last() == b.last() {
            0nat
        } else {
            1nat
        }
    }
}

/// Extending both sequences by one position adds one to the distance
/// exactly when the new elements differ.
proof fn lemma_hamming_step(a: Seq<u8>, b: Seq<u8>, i: int)
    requires
        0 <= i < a.len(),
        i < b.len(),
    ensures
        hamming(a.take(i + 1), b.take(i + 1)) == hamming(a.take(i), b.take(i)) + if a[i] == b[i] {
            0nat
        } else {
            1nat
        },
{
    assert(a.take(i + 1).drop_last() =~= a.take(i));
    assert(b.take(i + 1).drop_last() =~= b.take(i));
    assert(a.take(i + 1).last() == a[i]);
    assert(b.take(i + 1).last() == b[i]);
}

/// A fingerprint is at distance zero from itself.
pub proof fn lemma_hamming_self(a: Seq<u8>)
    ensures
        hamming(a, a) == 0,
    decreases a.len(),
{
    if a.len() > 0 {
        lemma_hamming_self(a.drop_last());
    }
}

/// Hamming distance is symmetric in its two arguments.
pub proof fn lemma_hamming_symmetric(a: Seq<u8>, b: Seq<u8>)
    requires
        a.len() == b.len(),
    ensures
        hamming(a, b) == hamming(b, a),
    decreases a.len(),
{
    if a.len() > 0 {
        lemma_hamming_symmetric(a.drop_last(), b.drop_last());
    }
}

/// The distance between two fingerprints of length L lies between 0 and L.
pub proof fn lemma_hamming_bounds(a: Seq<u8>, b: Seq<u8>)
    requires
        a.len() == b.len(),
    ensures
        hamming(a, b) <= a.len(),
    decreases a.len(),
{
    if a.len() > 0 {
        lemma_hamming_bounds(a.drop_last(), b.drop_last());
    }
}

/// Count the positions at which the two fingerprints differ.
///
/// The fingerprints must have the same length; ill-matched lengths are
/// rejected with `HashError::InvalidArgument` rather than read out of
/// bounds. The count is returned as a `u8`, so the fingerprints must be
/// short enough for the count to fit.
pub fn hamming_distance(hash1: &Vec<u8>, hash2: &Vec<u8>) -> (r: Result<u8, HashError>)
    requires
        hash1@.len() <= u8::MAX,
    ensures
        hash1@.len() == hash2@.len() ==> (r matches Ok(d) && d as nat == hamming(hash1@, hash2@)
            && d as nat <= hash1@.len()),
        hash1@.len() != hash2@.len() ==> r == Err::<u8, HashError>(HashError::InvalidArgument),
{
    if hash1.len() != hash2.len() {
        return Err(HashError::InvalidArgument);
    }
    let mut distance: u8 = 0;
    let n = hash1.len();
    for i in 0..n
        invariant
            n == hash1@.len() == hash2@.len(),
            n <= u8::MAX,
            distance as nat == hamming(hash1@.take(i as int), hash2@.take(i as int)),
            distance <= i,
    {
        if hash1[i] != hash2[i] {
            distance = distance + 1;
        }
        proof {
            lemma_hamming_step(hash1@, hash2@, i as int);
        }
    }
    proof {
        assert(hash1@.take(n as int) =~= hash1@);
        assert(hash2@.take(n as int) =~= hash2@);
    }
    Ok(distance)
}

} // verus!
