//! Index arithmetic on a cycle of `n` positions.

use vstd::prelude::*;
use crate::workspace::Direction;

verus! {

/// The position reached from `p` by one step in `direction` on a cycle of `n`
/// positions: the remainder of `p + step` by `n`, which is never negative.
pub open spec fn neighbour(p: int, n: int, direction: Direction) -> int {
    (p + direction.step()) % n
}

/// On a cycle the neighbour is the adjacent position, but for the last
/// position going forward and the first going backward, which wrap around.
pub proof fn lemma_neighbour_cases(p: int, n: int, direction: Direction)
    requires
        0 <= p < n,
    ensures
        0 <= neighbour(p, n, direction) < n,
        direction == Direction::Next ==> neighbour(p, n, direction) == (if p == n - 1 { 0 } else { p + 1 }),
        direction == Direction::Previous ==> neighbour(p, n, direction) == (if p == 0 { n - 1 } else { p - 1 }),
        direction == Direction::Previous ==> neighbour(p, n, direction) == (p - 1 + n) % n,
{
    match direction {
        Direction::Next => {
            if p == n - 1 {
                vstd::arithmetic::div_mod::lemma_mod_self_0(n);
            } else {
                vstd::arithmetic::div_mod::lemma_small_mod((p + 1) as nat, n as nat);
            }
        },
        Direction::Previous => {
            vstd::arithmetic::div_mod::lemma_mod_add_multiples_vanish(p - 1, n);
            if p == 0 {
                vstd::arithmetic::div_mod::lemma_small_mod((n - 1) as nat, n as nat);
            } else {
                vstd::arithmetic::div_mod::lemma_small_mod((p - 1) as nat, n as nat);
            }
        },
    }
}

/// A step in one direction followed by a step in the other leads back.
pub proof fn lemma_neighbour_round_trip(p: int, n: int, direction: Direction)
    requires
        0 <= p < n,
    ensures
        neighbour(neighbour(p, n, direction), n, direction.reverse()) == p,
{
    lemma_neighbour_cases(p, n, direction);
    lemma_neighbour_cases(neighbour(p, n, direction), n, direction.reverse());
}

/// Computes the neighbour of position `p` on a cycle of `n` positions.
pub fn neighbour_index(p: usize, n: usize, direction: Direction) -> (q: usize)
    requires
        p < n,
    ensures
        q == neighbour(p as int, n as int, direction),
        q < n,
{
    proof {
        lemma_neighbour_cases(p as int, n as int, direction);
    }
    match direction {
        Direction::Next => if p == n - 1 { 0 } else { p + 1 },
        Direction::Previous => if p == 0 { n - 1 } else { p - 1 },
    }
}

} // verus!
