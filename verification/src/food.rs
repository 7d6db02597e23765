//! Food placement: picking a free board cell uniformly at random.

use vstd::prelude::*;
use vstd::arithmetic::div_mod::lemma_fundamental_div_mod_converse;

use crate::geom::{Pos, cell_of, on_grid, CELL, BOUND, NUM_CELLS};

use rand::Rng;

verus! {

/// The standard random number generator of the `rand` crate, used as an
/// opaque source of randomness.
#[verifier::external_type_specification]
#[verifier::external_body]
pub struct ExStdRng(rand::rngs::StdRng);

/// Relies on rand's `Rng::random_range`: the result of `random_range(0..n)`
/// is uniformly distributed in `0..n`, and the call panics only on an empty
/// range, which `n >= 1` rules out. Of a random result nothing more than its
/// range can be promised.
#[verifier::external_body]
fn pick_index(rng: &mut rand::rngs::StdRng, n: usize) -> (r: usize)
    requires
        n >= 1,
    ensures
        r < n,
{
    rng.random_range(0..n)
}

/// Every board cell is held by one of the positions in `occ`.
pub open spec fn board_full(occ: Seq<Pos>) -> bool {
    forall|k: int| 0 <= k < NUM_CELLS as int ==> occ.contains(#[trigger] cell_of(k))
}

/// Whether `p` occurs in `v`.
fn contains_pos(v: &Vec<Pos>, p: Pos) -> (r: bool)
    ensures
        r == v@.contains(p),
{
    let mut i: usize = 0;
    while i < v.len()
        invariant
            i <= v@.len(),
            forall|j: int| 0 <= j < i ==> v@[j] != p,
        decreases v@.len() - i,
    {
        if v[i] == p {
            return true;
        }
        i += 1;
    }
    false
}

/// Picks a food cell uniformly at random among the board cells that no
/// position in `occupied` holds, or reports that the board is full — the
/// fatal condition under which the session has no continuation. Cells are
/// `CELL` apart, so "within the proximity threshold of an occupied cell"
/// is equality with an occupied cell.
pub fn spawn_food(occupied: &Vec<Pos>, rng: &mut rand::rngs::StdRng) -> (r: Option<Pos>)
    ensures
        r is Some <==> !board_full(occupied@),
        r matches Some(f) ==> on_grid(f) && !occupied@.contains(f),
{
    let mut admissible: Vec<Pos> = Vec::new();
    let mut xi: usize = 0;
    while xi < 11
        invariant
            xi <= 11,
            forall|j: int| 0 <= j < admissible@.len() ==> on_grid(#[trigger] admissible@[j])
                && !occupied@.contains(admissible@[j]),
            forall|k: int|
                0 <= k < 11 * xi && !occupied@.contains(#[trigger] cell_of(k))
                    ==> admissible@.contains(cell_of(k)),
        decreases 11 - xi,
    {
        let mut yi: usize = 0;
        while yi < 11
            invariant
                xi < 11,
                yi <= 11,
                forall|j: int| 0 <= j < admissible@.len() ==> on_grid(#[trigger] admissible@[j])
                    && !occupied@.contains(admissible@[j]),
                forall|k: int|
                    0 <= k < 11 * xi + yi && !occupied@.contains(#[trigger] cell_of(k))
                        ==> admissible@.contains(cell_of(k)),
            decreases 11 - yi,
        {
            let c = Pos {
                x: (xi as i64) * CELL - BOUND,
                y: (yi as i64) * CELL - BOUND,
            };
            proof {
                let k: int = 11 * (xi as int) + (yi as int);
                lemma_fundamental_div_mod_converse(k, 11, xi as int, yi as int);
                assert(cell_of(k) == c);
                assert(0 <= k < NUM_CELLS as int);
            }
            let ghost pre = admissible@;
            if !contains_pos(occupied, c) {
                admissible.push(c);
            }
            proof {
                assert forall|k: int|
                    0 <= k < 11 * xi + yi + 1 && !occupied@.contains(#[trigger] cell_of(k))
                        implies admissible@.contains(cell_of(k)) by {
                    if k < 11 * xi + yi {
                        let j = choose|j: int| 0 <= j < pre.len() && pre[j] == cell_of(k);
                        assert(admissible@[j] == cell_of(k));
                    } else {
                        assert(admissible@[admissible@.len() - 1] == cell_of(k));
                    }
                }
            }
            yi += 1;
        }
        xi += 1;
    }
    if admissible.len() == 0 {
        proof {
            assert forall|k: int| 0 <= k < NUM_CELLS as int implies occupied@.contains(
                #[trigger] cell_of(k)) by {
                if !occupied@.contains(cell_of(k)) {
                    assert(admissible@.contains(cell_of(k)));
                }
            }
        }
        None
    } else {
        let i = pick_index(rng, admissible.len());
        let f = admissible[i];
        proof {
            let k = choose|k: int| 0 <= k < NUM_CELLS as int && cell_of(k) == f;
            assert(!occupied@.contains(cell_of(k)));
            assert(!board_full(occupied@));
        }
        Some(f)
    }
}

} // verus!
