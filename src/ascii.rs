//! ASCII case-insensitive comparison of byte strings.
use vstd::prelude::*;

verus! {

/// The byte with ASCII upper-case letters mapped to lower case; every other
/// byte is left as it is.
pub open spec fn ascii_lower(b: u8) -> u8 {
    if 65 <= b && b <= 90 {
        (b + 32) as u8
    } else {
        b
    }
}

/// A byte string with its ASCII letters folded to lower case.
pub open spec fn ascii_fold(s: Seq<u8>) -> Seq<u8> {
    s.map_values(|b: u8| ascii_lower(b))
}

/// Whether `a` equals the part of `b` that starts at `start`, ignoring ASCII case.
pub open spec fn eq_ignore_case_from(a: Seq<u8>, b: Seq<u8>, start: int) -> bool {
    0 <= start <= b.len() && ascii_fold(a) == ascii_fold(b.subrange(start, b.len() as int))
}

fn to_ascii_lower(b: u8) -> (r: u8)
    ensures
        r == ascii_lower(b),
{
    if 65 <= b && b <= 90 {
        b + 32
    } else {
        b
    }
}

/// Compares `a` with `b[start..]`, ignoring the case of ASCII letters; other
/// bytes must be equal exactly.
pub fn eq_ignore_ascii_case_from(a: &[u8], b: &[u8], start: usize) -> (r: bool)
    ensures
        r == eq_ignore_case_from(a@, b@, start as int),
{
    if start > b.len() || b.len() - start != a.len() {
        proof {
            if start <= b.len() {
                assert(ascii_fold(a@).len() != ascii_fold(b@.subrange(start as int, b@.len() as int)).len());
            }
        }
        return false;
    }
    let ghost tail = b@.subrange(start as int, b@.len() as int);
    let mut i: usize = 0;
    while i < a.len()
        invariant
            0 <= i <= a@.len(),
            a@.len() == tail.len(),
            start as int + a@.len() == b@.len(),
            b@.len() == b.len(),
            tail == b@.subrange(start as int, b@.len() as int),
            forall|j: int| 0 <= j < i ==> ascii_lower(#[trigger] a@[j]) == ascii_lower(tail[j]),
        decreases a@.len() - i,
    {
        if to_ascii_lower(a[i]) != to_ascii_lower(b[start + i]) {
            proof {
                assert(ascii_fold(a@)[i as int] != ascii_fold(tail)[i as int]);
            }
            return false;
        }
        i = i + 1;
    }
    proof {
        assert(ascii_fold(a@) =~= ascii_fold(tail));
    }
    true
}

} // verus!
