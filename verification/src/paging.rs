//! Page-count arithmetic shared by the search sequence and the article
//! loader: how many fixed-size pages a listing of `n` items occupies.

use vstd::prelude::*;

verus! {

/// Number of pages a listing of `n` items occupies when each page holds
/// `size` items: `ceil(n / size)`, with `0` for an empty listing.
///
/// The `n >= 1` branch is written `(n - 1) / size + 1` so that it never
/// divides by an adjusted count of zero.
pub open spec fn spec_pages_needed(n: nat, size: nat) -> nat
    recommends
        size >= 1,
{
    if n == 0 {
        0
    } else {
        (((n - 1) / (size as int)) + 1) as nat
    }
}

/// Number of pages a listing of `n` items occupies when each page holds
/// `size` items.
pub fn pages_needed(n: usize, size: usize) -> (r: usize)
    requires
        size >= 1,
    ensures
        r == spec_pages_needed(n as nat, size as nat),
{
    if n == 0 {
        0
    } else {
        (n - 1) / size + 1
    }
}

/// `spec_pages_needed` is exactly the ceiling of `n / size`: the pages it
/// allots hold at least `n` items, one page fewer would hold fewer than
/// `n`, and an empty listing needs no page at all.
pub proof fn lemma_pages_needed_is_ceil(n: nat, size: nat)
    requires
        size >= 1,
    ensures
        n == 0 ==> spec_pages_needed(n, size) == 0,
        n >= 1 ==> spec_pages_needed(n, size) >= 1,
        size * spec_pages_needed(n, size) >= n,
        n >= 1 ==> size * ((spec_pages_needed(n, size) - 1) as nat) < n,
{
    if n >= 1 {
        let q = (n - 1) as int / size as int;
        let r = (n - 1) as int % size as int;
        vstd::arithmetic::div_mod::lemma_fundamental_div_mod((n - 1) as int, size as int);
        vstd::arithmetic::div_mod::lemma_mod_bound((n - 1) as int, size as int);
        assert(size * spec_pages_needed(n, size) >= n) by (nonlinear_arith)
            requires
                (n - 1) as int == size as int * q + r,
                0 <= r < size,
                spec_pages_needed(n, size) == q + 1,
        ;
        assert(size * ((spec_pages_needed(n, size) - 1) as nat) < n) by (nonlinear_arith)
            requires
                (n - 1) as int == size as int * q + r,
                0 <= r < size,
                q >= 0,
                spec_pages_needed(n, size) == q + 1,
        ;
    }
}

} // verus!
