use vstd::prelude::*;
use crate::BLOCK_SIZE;

verus! {

/// The two kinds of simulated matter: sand falls, walls never move.
#[derive(Debug, Clone, Copy, PartialEq, Eq, Structural)]
pub enum Type {
    Sand,
    Wall,
}

/// One placed element: a grid cell origin and a kind.
#[derive(Debug, Clone, Copy, PartialEq, Eq, Structural)]
pub struct Block {
    pub x: i32,
    pub y: i32,
    pub block_type: Type,
}

/// Whether block `b` sits at cell origin `(x, y)`.
pub open spec fn block_at(b: Block, x: int, y: int) -> bool {
    b.x == x && b.y == y
}

/// Whether one of the first `n` blocks of `s` sits at `(x, y)`.
pub open spec fn occupied_upto(s: Seq<Block>, n: int, x: int, y: int) -> bool {
    exists|i: int| 0 <= i < n && block_at(s[i], x, y)
}

/// Whether some block of `s` sits at `(x, y)`.
pub open spec fn occupied(s: Seq<Block>, x: int, y: int) -> bool {
    occupied_upto(s, s.len() as int, x, y)
}

/// The store after deleting at `(x, y)`: the earliest block at that cell is
/// removed and the order of the rest is kept; a store with no block there is
/// left unchanged.
pub open spec fn remove_first(s: Seq<Block>, x: int, y: int) -> Seq<Block>
    decreases s.len(),
{
    if s.len() == 0 {
        s
    } else if block_at(s[0], x, y) {
        s.skip(1)
    } else {
        seq![s[0]] + remove_first(s.skip(1), x, y)
    }
}

/// Every block's coordinates sit far enough from the `i32` limits that moving
/// one cell in any direction cannot overflow.
pub open spec fn coords_in_range(b: Block) -> bool {
    &&& i32::MIN + BLOCK_SIZE <= b.x
    &&& b.x <= i32::MAX - BLOCK_SIZE
    &&& b.y <= i32::MAX - BLOCK_SIZE
}

/// `coords_in_range` for every block of the store.
pub open spec fn store_in_range(s: Seq<Block>) -> bool {
    forall|i: int| 0 <= i < s.len() ==> coords_in_range(s[i])
}

/// Append a new block to the end of the store. No occupancy check is made:
/// a duplicate at the same cell may coexist with an earlier one.
pub fn create_block(x: i32, y: i32, block_type: Type, blocks: &mut Vec<Block>)
    ensures
        final(blocks)@ == old(blocks)@.push(Block { x, y, block_type }),
{
    blocks.push(Block { x, y, block_type });
}

/// Deleting where the earliest match is at index `i` removes exactly that one
/// block: the result is the store with index `i` taken out.
pub proof fn lemma_remove_first_hit(s: Seq<Block>, x: int, y: int, i: int)
    requires
        0 <= i < s.len(),
        block_at(s[i], x, y),
        forall|j: int| 0 <= j < i ==> !block_at(s[j], x, y),
    ensures
        remove_first(s, x, y) == s.remove(i),
        remove_first(s, x, y).len() == s.len() - 1,
    decreases i,
{
    if i == 0 {
        assert(s.skip(1) =~= s.remove(0));
    } else {
        assert(forall|j: int| 0 <= j < i - 1 ==> s.skip(1)[j] == s[j + 1]);
        lemma_remove_first_hit(s.skip(1), x, y, i - 1);
        assert(seq![s[0]] + s.skip(1).remove(i - 1) =~= s.remove(i));
    }
}

/// Deleting at a cell that holds no block leaves the store unchanged.
pub proof fn lemma_remove_first_miss(s: Seq<Block>, x: int, y: int)
    requires
        forall|j: int| 0 <= j < s.len() ==> !block_at(s[j], x, y),
    ensures
        remove_first(s, x, y) == s,
    decreases s.len(),
{
    if s.len() > 0 {
        assert(forall|j: int| 0 <= j < s.len() - 1 ==> s.skip(1)[j] == s[j + 1]);
        lemma_remove_first_miss(s.skip(1), x, y);
        assert(seq![s[0]] + s.skip(1) =~= s);
    }
}

/// Every block of the store after a deletion already stood in the store
/// before it: a property that holds of each block beforehand still holds of
/// each block afterwards.
pub proof fn lemma_remove_first_pointwise(s: Seq<Block>, x: int, y: int, p: spec_fn(Block) -> bool)
    requires
        forall|i: int| 0 <= i < s.len() ==> p(s[i]),
    ensures
        forall|i: int|
            0 <= i < remove_first(s, x, y).len() ==> #[trigger] p(remove_first(s, x, y)[i]),
    decreases s.len(),
{
    if s.len() == 0 {
    } else if block_at(s[0], x, y) {
        assert(forall|j: int| 0 <= j < s.len() - 1 ==> s.skip(1)[j] == s[j + 1]);
    } else {
        assert(forall|j: int| 0 <= j < s.len() - 1 ==> s.skip(1)[j] == s[j + 1]);
        lemma_remove_first_pointwise(s.skip(1), x, y, p);
        let r = seq![s[0]] + remove_first(s.skip(1), x, y);
        assert(forall|j: int| 1 <= j < r.len() ==> r[j] == remove_first(s.skip(1), x, y)[j - 1]);
        assert(r[0] == s[0]);
    }
}

/// Deletion preserves `store_in_range`.
pub proof fn lemma_remove_first_in_range(s: Seq<Block>, x: int, y: int)
    requires
        store_in_range(s),
    ensures
        store_in_range(remove_first(s, x, y)),
{
    let p = |b: Block| coords_in_range(b);
    assert forall|i: int| 0 <= i < s.len() implies p(s[i]) by {
        assert(coords_in_range(s[i]));
    }
    lemma_remove_first_pointwise(s, x, y, p);
    let r = remove_first(s, x, y);
    assert forall|i: int| 0 <= i < r.len() implies coords_in_range(r[i]) by {
        assert(p(r[i]));
    }
}

/// Scan the store in order and remove the first block at `(x, y)`, shifting
/// the blocks after it; do nothing when no block matches.
pub fn delete_block(x: i32, y: i32, blocks: &mut Vec<Block>)
    ensures
        final(blocks)@ == remove_first(old(blocks)@, x as int, y as int),
{
    let mut index: usize = 0;
    while index < blocks.len()
        invariant
            index <= blocks@.len(),
            blocks@ == old(blocks)@,
            forall|j: int| 0 <= j < index ==> !block_at(blocks@[j], x as int, y as int),
        decreases blocks@.len() - index,
    {
        if x == blocks[index].x && y == blocks[index].y {
            proof {
                lemma_remove_first_hit(blocks@, x as int, y as int, index as int);
            }
            blocks.remove(index);
            return;
        }
        index += 1;
    }
    proof {
        lemma_remove_first_miss(blocks@, x as int, y as int);
    }
}

/// Report, for the cell at `(x, y)`, whether each of the left, down-left,
/// down, down-right and right neighbor cells is free of blocks, in that
/// order. Read-only: one full scan of the store.
pub fn under_is_clear(x: i32, y: i32, blocks: &Vec<Block>) -> (r: (bool, bool, bool, bool, bool))
    requires
        i32::MIN + BLOCK_SIZE <= x,
        x <= i32::MAX - BLOCK_SIZE,
        y <= i32::MAX - BLOCK_SIZE,
    ensures
        r.0 == !occupied(blocks@, x - BLOCK_SIZE, y as int),
        r.1 == !occupied(blocks@, x - BLOCK_SIZE, y + BLOCK_SIZE),
        r.2 == !occupied(blocks@, x as int, y + BLOCK_SIZE),
        r.3 == !occupied(blocks@, x + BLOCK_SIZE, y + BLOCK_SIZE),
        r.4 == !occupied(blocks@, x + BLOCK_SIZE, y as int),
{
    let mut bottom_left_empty = true;
    let mut bottom_empty = true;
    let mut bottom_right_empty = true;
    let mut right_empty = true;
    let mut left_empty = true;

    let mut k: usize = 0;
    while k < blocks.len()
        invariant
            k <= blocks@.len(),
            i32::MIN + BLOCK_SIZE <= x,
            x <= i32::MAX - BLOCK_SIZE,
            y <= i32::MAX - BLOCK_SIZE,
            left_empty == !occupied_upto(blocks@, k as int, x - BLOCK_SIZE, y as int),
            bottom_left_empty == !occupied_upto(blocks@, k as int, x - BLOCK_SIZE, y + BLOCK_SIZE),
            bottom_empty == !occupied_upto(blocks@, k as int, x as int, y + BLOCK_SIZE),
            bottom_right_empty == !occupied_upto(blocks@, k as int, x + BLOCK_SIZE, y + BLOCK_SIZE),
            right_empty == !occupied_upto(blocks@, k as int, x + BLOCK_SIZE, y as int),
        decreases blocks@.len() - k,
    {
        let block = blocks[k];
        if x == block.x && y + BLOCK_SIZE == block.y {
            bottom_empty = false;
        }
        if x + BLOCK_SIZE == block.x && y + BLOCK_SIZE == block.y {
            bottom_right_empty = false;
        }
        if x - BLOCK_SIZE == block.x && y + BLOCK_SIZE == block.y {
            bottom_left_empty = false;
        }
        if x + BLOCK_SIZE == block.x && y == block.y {
            right_empty = false;
        }
        if x - BLOCK_SIZE == block.x && y == block.y {
            left_empty = false;
        }
        k += 1;
    }
    (left_empty, bottom_left_empty, bottom_empty, bottom_right_empty, right_empty)
}

} // verus!
