use vstd::prelude::*;

use subtle::ConstantTimeEq;

use super::strings::{chars_of, string_of};

verus! {

/// The letters that random names are drawn from.
pub open spec fn letter_set() -> Seq<char> {
    "abcdefghijklmnopqrstuvwxyz"@
}

/// The characters that random secrets are drawn from.
pub open spec fn secret_set() -> Seq<char> {
    "abcdefghijklmnopqrstuvwxyzABCDEFGHIJKLMNOPQRSTUVWXYZ0123456789"@
}

/// rand's `random_range(0..bound)`: a number drawn from the thread's generator. Claimed: it is
/// below `bound`; which number comes is left open. The range must not be empty.
#[verifier::external_body]
pub(crate) fn random_below(bound: usize) -> (out: usize)
    requires
        bound > 0,
    ensures
        out < bound,
{
    rand::random_range(0..bound)
}

/// `count` numbers, each drawn at random below `bound`.
pub(crate) fn random_indices(bound: usize, count: usize) -> (out: Vec<usize>)
    requires
        bound > 0,
    ensures
        out@.len() == count,
        forall|i: int| 0 <= i < count ==> #[trigger] out@[i] < bound,
{
    let mut out: Vec<usize> = Vec::new();
    let mut k: usize = 0;
    while k < count
        invariant
            bound > 0,
            k <= count,
            out@.len() == k,
            forall|i: int| 0 <= i < k ==> #[trigger] out@[i] < bound,
        decreases count - k,
    {
        out.push(random_below(bound));
        k = k + 1;
    }
    out
}

/// The characters of `set` at the positions `idx`, in order.
pub fn letters_at(set: &Vec<char>, idx: &Vec<usize>) -> (out: Vec<char>)
    requires
        forall|i: int| 0 <= i < idx@.len() ==> #[trigger] idx@[i] < set@.len(),
    ensures
        out@.len() == idx@.len(),
        forall|i: int| 0 <= i < idx@.len() ==> #[trigger] out@[i] == set@[idx@[i] as int],
{
    let mut out: Vec<char> = Vec::new();
    let mut k: usize = 0;
    while k < idx.len()
        invariant
            forall|i: int| 0 <= i < idx@.len() ==> #[trigger] idx@[i] < set@.len(),
            k <= idx@.len(),
            out@.len() == k,
            forall|i: int| 0 <= i < k ==> #[trigger] out@[i] == set@[idx@[i] as int],
        decreases idx@.len() - k,
    {
        out.push(set[idx[k]]);
        k = k + 1;
    }
    out
}

/// `count` characters of `set`, at positions drawn at random (each below the set's length).
pub(crate) fn random_from(set: &Vec<char>, count: usize) -> (out: Vec<char>)
    requires
        set.len() > 0,
    ensures
        out@.len() == count,
        forall|i: int| 0 <= i < count ==> set@.contains(#[trigger] out@[i]),
{
    let draws = random_indices(set.len(), count);
    let out = letters_at(set, &draws);
    assert forall|i: int| 0 <= i < count implies set@.contains(#[trigger] out@[i]) by {
        assert(draws@[i] < set@.len());
        assert(out@[i] == set@[draws@[i] as int]);
    }
    out
}

/// A random string of `max` lowercase letters (none when `max` is not positive), each the
/// letter at a position drawn at random (`letters_at` of the draws).
pub fn get_random_letters(max: i32) -> (out: String)
    ensures
        out@.len() == (if max > 0 {
            max as int
        } else {
            0
        }),
        forall|i: int| 0 <= i < out@.len() ==> letter_set().contains(#[trigger] out@[i]),
{
    let set = chars_of("abcdefghijklmnopqrstuvwxyz");
    proof {
        reveal_strlit("abcdefghijklmnopqrstuvwxyz");
    }
    let count: usize = if max > 0 {
        max as usize
    } else {
        0
    };
    let chars = random_from(&set, count);
    string_of(chars.as_slice())
}

/// A random string of `len` ASCII letters and digits, each the character at a position drawn
/// at random (`letters_at` of the draws).
pub fn get_random_secret(len: usize) -> (out: String)
    ensures
        out@.len() == len,
        forall|i: int| 0 <= i < out@.len() ==> secret_set().contains(#[trigger] out@[i]),
{
    let set = chars_of("abcdefghijklmnopqrstuvwxyzABCDEFGHIJKLMNOPQRSTUVWXYZ0123456789");
    proof {
        reveal_strlit("abcdefghijklmnopqrstuvwxyzABCDEFGHIJKLMNOPQRSTUVWXYZ0123456789");
    }
    let chars = random_from(&set, len);
    string_of(chars.as_slice())
}

/// subtle's `ConstantTimeEq::ct_eq` on the bytes of two strings, turned into a `bool`. Claimed:
/// it is true exactly when the strings are equal (subtle compares lengths first, then every byte).
#[verifier::external_body]
fn bytes_ct_eq(a: &str, b: &str) -> (out: bool)
    ensures
        out == (a@ == b@),
{
    a.as_bytes().ct_eq(b.as_bytes()).into()
}

/// Whether `a` and `b` are equal, compared in time that does not depend on where they differ.
pub fn is_constant_time_equals(a: &str, b: &str) -> (out: bool)
    ensures
        out == (a@ == b@),
{
    bytes_ct_eq(a, b)
}

} // verus!
