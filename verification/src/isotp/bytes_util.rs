//! Small verified helpers on byte vectors.

use vstd::prelude::*;

verus! {

/// `s` cut or filled with `v` to exactly `n` bytes.
pub open spec fn resized(s: Seq<u8>, n: nat, v: u8) -> Seq<u8> {
    if s.len() >= n {
        s.take(n as int)
    } else {
        s + Seq::new((n - s.len()) as nat, |_i: int| v)
    }
}

/// A copy of `data[i..j]`.
pub fn copy_range(data: &[u8], i: usize, j: usize) -> (r: Vec<u8>)
    requires
        i <= j <= data@.len(),
    ensures
        r@ == data@.subrange(i as int, j as int),
{
    let s = vstd::slice::slice_subrange(data, i, j);
    vstd::slice::slice_to_vec(s)
}

/// Cuts `v` or fills it with `value` to exactly `n` bytes.
pub fn resize_to(v: &mut Vec<u8>, n: usize, value: u8)
    ensures
        final(v)@ == resized(old(v)@, n as nat, value),
{
    let ghost old_v = v@;
    v.resize(n, value);
    proof {
        if n > old_v.len() {
            assert forall|k: int| old_v.len() <= k < n implies v@[k] == value by {
                assert(cloned::<u8>(value, v@[k]));
            }
            assert(v@ =~= resized(old_v, n as nat, value));
        } else {
            assert(v@ =~= resized(old_v, n as nat, value));
        }
    }
}

/// Appends `data` to `v`.
pub fn append_slice(v: &mut Vec<u8>, data: &[u8])
    ensures
        final(v)@ == old(v)@ + data@,
{
    let ghost old_v = v@;
    v.extend_from_slice(data);
    proof {
        assert forall|k: int| 0 <= k < v@.len() implies v@[k] == (old_v + data@)[k] by {
            if k >= old_v.len() {
                assert(cloned::<u8>(data@[k - old_v.len()], v@[k]));
            }
        }
        assert(v@ =~= old_v + data@);
    }
}

} // verus!
