//! Circular list indexing for row-addressed views: any signed offset wraps
//! into a valid position of a non-empty list, and an empty list pins the
//! position at zero.

use vstd::prelude::*;

verus! {

/// The wrapped position: the Euclidean remainder of the offset by the
/// length, or zero for an empty list.
pub open spec fn spec_circular_index(index: int, len: int) -> int {
    if len <= 0 {
        0
    } else {
        index % len
    }
}

/// Wrap a signed offset into `0..len`.
pub fn circular_index(index: i32, len: usize) -> (r: usize)
    ensures
        r == spec_circular_index(index as int, len as int),
        len > 0 ==> r < len,
{
    if len == 0 {
        0
    } else if index >= 0 {
        let r = (index as u64) % (len as u64);
        proof {
            vstd::arithmetic::div_mod::lemma_fundamental_div_mod(index as int, len as int);
        }
        r as usize
    } else {
        let m = ((-(index as i64)) as u64) % (len as u64);
        proof {
            let ii = index as int;
            let li = len as int;
            let mi = (-(index as int)) % li;
            let qi = (-(index as int)) / li;
            vstd::arithmetic::div_mod::lemma_fundamental_div_mod(-(index as int), li);
            vstd::arithmetic::div_mod::lemma_mod_bound(-(index as int), li);
            if mi == 0 {
                assert(ii == (-qi) * li + 0) by (nonlinear_arith)
                    requires
                        -(ii) == li * qi + mi,
                        mi == 0,
                ;
                vstd::arithmetic::div_mod::lemma_fundamental_div_mod_converse(ii, li, -qi, 0);
            } else {
                assert(ii == (-qi - 1) * li + (li - mi)) by (nonlinear_arith)
                    requires
                        -(ii) == li * qi + mi,
                ;
                vstd::arithmetic::div_mod::lemma_fundamental_div_mod_converse(
                    ii,
                    li,
                    -qi - 1,
                    li - mi,
                );
            }
        }
        if m == 0 {
            0
        } else {
            len - (m as usize)
        }
    }
}

/// Wrap a signed offset into the positions of a list.
pub fn circular_index_in<T>(index: i32, arr: &Vec<T>) -> (r: usize)
    ensures
        r == spec_circular_index(index as int, arr@.len() as int),
        arr@.len() > 0 ==> r < arr@.len(),
{
    circular_index(index, arr.len())
}

} // verus!
