use vstd::prelude::*;
use crate::store::{
    Block, Type, block_at, occupied, remove_first, store_in_range, coords_in_range,
    lemma_remove_first_hit, lemma_remove_first_pointwise,
};
use crate::physics::{
    Mouse, step_block, physics_step, edit_spec, tick_spec, created_block, fall_down, fall_left,
};
use crate::{BLOCK_SIZE, CANVAS_H, CANVAS_W, MAX_COORD, snap_spec, lemma_snap_properties};

verus! {

/// The store after `k` physics steps.
pub open spec fn physics_iter(s: Seq<Block>, k: nat) -> Seq<Block>
    decreases k,
{
    if k == 0 {
        s
    } else {
        physics_step(physics_iter(s, (k - 1) as nat))
    }
}

/// The store after `k` whole ticks, each against the same pointer sample.
pub open spec fn tick_iter(s: Seq<Block>, m: Mouse, k: nat) -> Seq<Block>
    decreases k,
{
    if k == 0 {
        s
    } else {
        tick_spec(tick_iter(s, m, (k - 1) as nat), m)
    }
}

/// A physics step never changes how many blocks the store holds.
pub proof fn lemma_physics_preserves_len(s: Seq<Block>)
    ensures
        physics_step(s).len() == s.len(),
{
}

/// Creating a block at a cell that held no block and then deleting at that
/// cell returns the store to its prior contents, order preserved.
pub proof fn lemma_create_then_delete(s: Seq<Block>, b: Block)
    requires
        !occupied(s, b.x as int, b.y as int),
    ensures
        remove_first(s.push(b), b.x as int, b.y as int) == s,
{
    let s2 = s.push(b);
    assert forall|j: int| 0 <= j < s.len() implies !block_at(
        s2[j],
        b.x as int,
        b.y as int,
    ) by {
        assert(s2[j] == s[j]);
    }
    assert(block_at(s2[s.len() as int], b.x as int, b.y as int));
    lemma_remove_first_hit(s2, b.x as int, b.y as int, s.len() as int);
    assert(s2.remove(s.len() as int) =~= s);
}

/// A wall block never moves: its entry is unchanged by any number of
/// physics steps, whatever its neighbors hold.
pub proof fn lemma_wall_fixed(s: Seq<Block>, i: int, k: nat)
    requires
        0 <= i < s.len(),
        s[i].block_type == Type::Wall,
    ensures
        physics_iter(s, k).len() == s.len(),
        physics_iter(s, k)[i] == s[i],
    decreases k,
{
    if k > 0 {
        lemma_wall_fixed(s, i, (k - 1) as nat);
        let p = physics_iter(s, (k - 1) as nat);
        assert(physics_step(p)[i] == step_block(p[i], p));
    }
}

/// When the cell below a sand block is blocked and both the left and
/// down-left cells are clear, the block slides down-left on the next step:
/// the left diagonal is tried before the right one.
pub proof fn lemma_left_before_right(s: Seq<Block>, i: int)
    requires
        0 <= i < s.len(),
        s[i].block_type == Type::Sand,
        s[i].y <= CANVAS_H - 2 * BLOCK_SIZE,
        occupied(s, s[i].x as int, s[i].y + BLOCK_SIZE),
        !occupied(s, s[i].x - BLOCK_SIZE, s[i].y as int),
        !occupied(s, s[i].x - BLOCK_SIZE, s[i].y + BLOCK_SIZE),
    ensures
        physics_step(s)[i] == fall_left(s[i]),
{
    assert(physics_step(s)[i] == step_block(s[i], s));
}

/// Holding a creation button across `k` ticks creates exactly one block per
/// tick: the store grows by exactly `k`.
pub proof fn lemma_hold_creates_per_tick(s: Seq<Block>, m: Mouse, k: nat)
    requires
        m.left_button_pressed || m.right_button_pressed,
    ensures
        tick_iter(s, m, k).len() == s.len() + k,
    decreases k,
{
    if k > 0 {
        lemma_hold_creates_per_tick(s, m, (k - 1) as nat);
    }
}

/// With the primary button held, a tick's edit phase appends exactly one
/// sand block at the snapped pointer cell.
pub proof fn lemma_primary_creates_sand(s: Seq<Block>, m: Mouse)
    requires
        m.left_button_pressed,
    ensures
        edit_spec(s, m) == s.push(created_block(m)),
        created_block(m).block_type == Type::Sand,
        created_block(m).x == snap_spec(m.x as int) as i32,
        created_block(m).y == snap_spec(m.y as int) as i32,
{
}

/// When a creation button and the deletion button are both active in the
/// same tick, creation wins: the tick appends one block and deletes none.
pub proof fn lemma_creation_precedence(s: Seq<Block>, m: Mouse)
    requires
        m.left_button_pressed || m.right_button_pressed,
        m.middle_button_pressed,
    ensures
        edit_spec(s, m) == s.push(created_block(m)),
        tick_spec(s, m).len() == s.len() + 1,
{
}

/// Grid alignment of one block: both coordinates are multiples of the cell
/// size, and the vertical one lies on the canvas. Physics lets a sliding
/// block drift past the canvas's sides, so nothing is said of the range of
/// the horizontal one.
pub open spec fn aligned_block(b: Block) -> bool {
    &&& b.x as int % (BLOCK_SIZE as int) == 0
    &&& b.y as int % (BLOCK_SIZE as int) == 0
    &&& 0 <= b.y <= MAX_COORD
}

/// `aligned_block` for every block of the store.
pub open spec fn aligned_store(s: Seq<Block>) -> bool {
    forall|i: int| 0 <= i < s.len() ==> aligned_block(s[i])
}

/// Every block is grid-aligned at all times: creation snaps the pointer to
/// a cell origin, and a physics move is by exactly one cell, so a whole
/// tick keeps every block on the grid.
pub proof fn lemma_tick_preserves_alignment(s: Seq<Block>, m: Mouse)
    requires
        aligned_store(s),
        store_in_range(s),
        0 <= m.x < CANVAS_W,
        0 <= m.y < CANVAS_H,
    ensures
        aligned_store(tick_spec(s, m)),
{
    let sz = BLOCK_SIZE as int;
    let e = edit_spec(s, m);
    assert forall|i: int| 0 <= i < e.len() implies aligned_block(e[i]) && coords_in_range(
        e[i],
    ) by {
        if m.left_button_pressed || m.right_button_pressed {
            if i < s.len() {
                assert(aligned_block(s[i]) && coords_in_range(s[i]));
            } else {
                lemma_snap_properties(m.x as int);
                lemma_snap_properties(m.y as int);
            }
        } else if m.middle_button_pressed {
            let q = |b: Block| aligned_block(b) && coords_in_range(b);
            assert forall|j: int| 0 <= j < s.len() implies q(s[j]) by {
                assert(aligned_block(s[j]) && coords_in_range(s[j]));
            }
            lemma_remove_first_pointwise(s, snap_spec(m.x as int), snap_spec(m.y as int), q);
            assert(q(e[i]));
        } else {
            assert(aligned_block(s[i]) && coords_in_range(s[i]));
        }
    }
    assert forall|i: int| 0 <= i < tick_spec(s, m).len() implies aligned_block(
        tick_spec(s, m)[i],
    ) by {
        assert(tick_spec(s, m)[i] == step_block(e[i], e));
        let b = e[i];
        assert(aligned_block(b) && coords_in_range(b));
        vstd::arithmetic::div_mod::lemma_mod_add_multiples_vanish(b.y as int, sz);
        vstd::arithmetic::div_mod::lemma_mod_add_multiples_vanish(b.x as int, sz);
        vstd::arithmetic::div_mod::lemma_mod_sub_multiples_vanish(b.x as int, sz);
        assert((b.y + sz) % sz == 0);
        assert((b.x + sz) % sz == 0);
        assert((b.x - sz) % sz == 0);
    }
}

/// A lone sand block strictly above the bottom row falls one cell straight
/// down in one physics step.
pub proof fn lemma_lone_sand_falls_one(b: Block)
    requires
        b.block_type == Type::Sand,
        b.y <= CANVAS_H - 2 * BLOCK_SIZE,
    ensures
        physics_step(seq![b]) == seq![fall_down(b)],
{
    assert(!occupied(seq![b], b.x as int, b.y + BLOCK_SIZE));
    assert(physics_step(seq![b])[0] == step_block(b, seq![b]));
    assert(physics_step(seq![b]) =~= seq![fall_down(b)]);
}

/// A lone sand block on a grid row falls one cell per step until it reaches
/// the bottom row, and then stays fixed for any further number of steps.
pub proof fn lemma_lone_sand_reaches_floor(b: Block, k: nat)
    requires
        b.block_type == Type::Sand,
        0 <= b.y <= MAX_COORD,
        b.y as int % (BLOCK_SIZE as int) == 0,
    ensures
        physics_iter(seq![b], k).len() == 1,
        physics_iter(seq![b], k)[0].x == b.x,
        physics_iter(seq![b], k)[0].block_type == Type::Sand,
        physics_iter(seq![b], k)[0].y as int == if b.y + BLOCK_SIZE * k <= MAX_COORD {
            b.y + BLOCK_SIZE * k
        } else {
            MAX_COORD as int
        },
        physics_iter(seq![b], k)[0].y as int % (BLOCK_SIZE as int) == 0,
    decreases k,
{
    if k > 0 {
        lemma_lone_sand_reaches_floor(b, (k - 1) as nat);
        let p = physics_iter(seq![b], (k - 1) as nat);
        let b2 = p[0];
        assert(p =~= seq![b2]);
        if b2.y <= CANVAS_H - 2 * BLOCK_SIZE {
            lemma_lone_sand_falls_one(b2);
            vstd::arithmetic::div_mod::lemma_mod_add_multiples_vanish(
                b2.y as int,
                BLOCK_SIZE as int,
            );
        } else {
            assert(b2.y as int == MAX_COORD as int) by {
                vstd::arithmetic::div_mod::lemma_mod_bound(b2.y as int, BLOCK_SIZE as int);
                vstd::arithmetic::div_mod::lemma_fundamental_div_mod(
                    b2.y as int,
                    BLOCK_SIZE as int,
                );
            }
            assert(physics_step(p)[0] == step_block(b2, p));
            assert(physics_step(p) =~= p);
        }
    }
}

} // verus!
