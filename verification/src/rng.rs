use vstd::prelude::*;
use rand::seq::SliceRandom;
use crate::{BLOCK_SIZE, MAX_COORD};

verus! {

/// Relies on rand's `SliceRandom::choose` (with `thread_rng`): on a
/// non-empty slice it returns `Some` of an element at a random index, so
/// whatever comes back is one of the vector's own elements.
#[verifier::external_body]
fn choose_one(coords: &Vec<i32>) -> (r: i32)
    requires
        coords@.len() > 0,
    ensures
        coords@.contains(r),
{
    *coords.as_slice().choose(&mut rand::thread_rng()).unwrap()
}

/// A valid cell-origin coordinate picked at random: one of
/// 0, 20, 40, ..., `MAX_COORD`.
pub fn rand_num() -> (r: i32)
    ensures
        0 <= r <= MAX_COORD,
        r as int % (BLOCK_SIZE as int) == 0,
{
    let mut valid_coords: Vec<i32> = Vec::new();
    let mut c: i32 = 0;
    while c <= MAX_COORD
        invariant
            0 <= c <= MAX_COORD + BLOCK_SIZE,
            c as int == BLOCK_SIZE * valid_coords@.len(),
            forall|j: int|
                0 <= j < valid_coords@.len() ==> (0 <= valid_coords@[j] <= MAX_COORD
                    && valid_coords@[j] as int % (BLOCK_SIZE as int) == 0),
        decreases MAX_COORD + BLOCK_SIZE - c,
    {
        proof {
            vstd::arithmetic::div_mod::lemma_mod_multiples_basic(
                valid_coords@.len() as int,
                BLOCK_SIZE as int,
            );
        }
        valid_coords.push(c);
        c += BLOCK_SIZE;
    }
    choose_one(&valid_coords)
}

} // verus!
