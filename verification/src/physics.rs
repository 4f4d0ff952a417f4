use vstd::prelude::*;
use crate::store::{
    Block, Type, occupied, remove_first, store_in_range, coords_in_range, create_block,
    delete_block, under_is_clear, lemma_remove_first_in_range,
};
use crate::{BLOCK_SIZE, CANVAS_H, CANVAS_W, snap_spec, get_closest_coord, lemma_snap_properties};

verus! {

/// One sampled snapshot of the pointer: position and the three button states.
#[derive(Debug, Clone, Copy)]
pub struct Mouse {
    pub x: i32,
    pub y: i32,
    pub left_button_pressed: bool,
    pub right_button_pressed: bool,
    pub middle_button_pressed: bool,
}

/// `b` moved one cell straight down.
pub open spec fn fall_down(b: Block) -> Block {
    Block { x: b.x, y: (b.y + BLOCK_SIZE) as i32, block_type: b.block_type }
}

/// `b` moved one cell down and one cell to the left.
pub open spec fn fall_left(b: Block) -> Block {
    Block { x: (b.x - BLOCK_SIZE) as i32, y: (b.y + BLOCK_SIZE) as i32, block_type: b.block_type }
}

/// `b` moved one cell down and one cell to the right.
pub open spec fn fall_right(b: Block) -> Block {
    Block { x: (b.x + BLOCK_SIZE) as i32, y: (b.y + BLOCK_SIZE) as i32, block_type: b.block_type }
}

/// Where one block ends up after a physics step, with clearance judged
/// against the snapshot `s` of the whole store taken before the step: sand
/// strictly above the bottom row falls straight down when the cell below is
/// free, else slides down-left when both left and down-left are free, else
/// slides down-right when both right and down-right are free, else rests.
/// Walls and bottom-row sand never move.
pub open spec fn step_block(b: Block, s: Seq<Block>) -> Block {
    if b.block_type == Type::Sand && b.y <= CANVAS_H - 2 * BLOCK_SIZE {
        if !occupied(s, b.x as int, b.y + BLOCK_SIZE) {
            fall_down(b)
        } else if !occupied(s, b.x - BLOCK_SIZE, b.y as int) && !occupied(
            s,
            b.x - BLOCK_SIZE,
            b.y + BLOCK_SIZE,
        ) {
            fall_left(b)
        } else if !occupied(s, b.x + BLOCK_SIZE, b.y as int) && !occupied(
            s,
            b.x + BLOCK_SIZE,
            b.y + BLOCK_SIZE,
        ) {
            fall_right(b)
        } else {
            b
        }
    } else {
        b
    }
}

/// One whole physics step: every block moves (or stays) as `step_block`
/// says, each judged against the same pre-step configuration.
pub open spec fn physics_step(s: Seq<Block>) -> Seq<Block> {
    s.map(|i: int, b: Block| step_block(b, s))
}

/// Run one physics step over the store, in store order, with every
/// clearance query made against the configuration the store had when the
/// step began.
pub fn step_physics(blocks: &mut Vec<Block>)
    requires
        store_in_range(old(blocks)@),
    ensures
        final(blocks)@ == physics_step(old(blocks)@),
{
    if blocks.len() == 0 {
        proof {
            assert(physics_step(blocks@) =~= blocks@);
        }
        return ;
    }
    let mut snapshot: Vec<Block> = Vec::new();
    let mut k: usize = 0;
    while k < blocks.len()
        invariant
            k <= blocks@.len(),
            blocks@ == old(blocks)@,
            snapshot@ == blocks@.subrange(0, k as int),
        decreases blocks@.len() - k,
    {
        snapshot.push(blocks[k]);
        k += 1;
    }
    proof {
        assert(snapshot@ =~= blocks@);
    }

    let mut cur_block: usize = 0;
    while cur_block < blocks.len()
        invariant
            cur_block <= blocks@.len(),
            blocks@.len() == old(blocks)@.len(),
            snapshot@ == old(blocks)@,
            store_in_range(old(blocks)@),
            forall|j: int|
                0 <= j < cur_block ==> blocks@[j] == step_block(old(blocks)@[j], old(blocks)@),
            forall|j: int| cur_block <= j < blocks@.len() ==> blocks@[j] == old(blocks)@[j],
        decreases blocks@.len() - cur_block,
    {
        let b = blocks[cur_block];
        proof {
            assert(coords_in_range(old(blocks)@[cur_block as int]));
        }
        if b.y <= CANVAS_H - 2 * BLOCK_SIZE && b.block_type == Type::Sand {
            let (left_empty, bottom_left_empty, bottom_empty, bottom_right_empty, right_empty) =
                under_is_clear(b.x, b.y, &snapshot);
            if bottom_empty {
                blocks[cur_block] =
                    Block { x: b.x, y: b.y + BLOCK_SIZE, block_type: b.block_type };
            } else if left_empty && bottom_left_empty {
                blocks[cur_block] =
                    Block { x: b.x - BLOCK_SIZE, y: b.y + BLOCK_SIZE, block_type: b.block_type };
            } else if right_empty && bottom_right_empty {
                blocks[cur_block] =
                    Block { x: b.x + BLOCK_SIZE, y: b.y + BLOCK_SIZE, block_type: b.block_type };
            }
        }
        cur_block += 1;
    }
    proof {
        assert(blocks@ =~= physics_step(old(blocks)@));
    }
}

/// The block a tick creates: kind from the buttons (sand for primary, wall
/// for secondary), position the snapped pointer position.
pub open spec fn created_block(m: Mouse) -> Block {
    Block {
        x: snap_spec(m.x as int) as i32,
        y: snap_spec(m.y as int) as i32,
        block_type: if m.left_button_pressed {
            Type::Sand
        } else {
            Type::Wall
        },
    }
}

/// The store after a tick's creation/deletion phase: a pressed creation
/// button appends one block at the snapped pointer cell (primary wins over
/// secondary, and creation wins over deletion); else a pressed deletion
/// button removes the earliest block at the snapped pointer cell; else the
/// store is untouched.
pub open spec fn edit_spec(s: Seq<Block>, m: Mouse) -> Seq<Block> {
    if m.left_button_pressed || m.right_button_pressed {
        s.push(created_block(m))
    } else if m.middle_button_pressed {
        remove_first(s, snap_spec(m.x as int), snap_spec(m.y as int))
    } else {
        s
    }
}

/// The store after one whole tick: the creation/deletion phase, then one
/// physics step.
pub open spec fn tick_spec(s: Seq<Block>, m: Mouse) -> Seq<Block> {
    physics_step(edit_spec(s, m))
}

/// Run one tick against the store: apply the pointer's creation or deletion,
/// then one physics step.
pub fn update_game(mouse: &Mouse, blocks: &mut Vec<Block>)
    requires
        0 <= mouse.x < CANVAS_W,
        0 <= mouse.y < CANVAS_H,
        store_in_range(old(blocks)@),
    ensures
        final(blocks)@ == tick_spec(old(blocks)@, *mouse),
{
    proof {
        lemma_snap_properties(mouse.x as int);
        lemma_snap_properties(mouse.y as int);
    }
    if mouse.left_button_pressed || mouse.right_button_pressed {
        let block_type = if mouse.left_button_pressed {
            Type::Sand
        } else {
            Type::Wall
        };
        let x = get_closest_coord(mouse.x);
        let y = get_closest_coord(mouse.y);
        create_block(x, y, block_type, blocks);
        proof {
            assert(blocks@ == edit_spec(old(blocks)@, *mouse));
            assert forall|i: int| 0 <= i < blocks@.len() implies coords_in_range(
                blocks@[i],
            ) by {
                if i < old(blocks)@.len() {
                    assert(coords_in_range(old(blocks)@[i]));
                }
            }
        }
    } else if mouse.middle_button_pressed {
        let x = get_closest_coord(mouse.x);
        let y = get_closest_coord(mouse.y);
        delete_block(x, y, blocks);
        proof {
            lemma_remove_first_in_range(
                old(blocks)@,
                snap_spec(mouse.x as int),
                snap_spec(mouse.y as int),
            );
            assert(blocks@ == edit_spec(old(blocks)@, *mouse));
        }
    }
    step_physics(blocks);
}

} // verus!
