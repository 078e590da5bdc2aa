//! The blocks a moving body can run into.
//!
//! The body's own motion is worked out by the caller; this module answers
//! which solid blocks lie in the range of blocks the body could touch.

use crate::level::Level;
use crate::position::BlockPos;
use vstd::prelude::*;

verus! {

/// Whether `pos` lies in the box of blocks from `low` to `high`, both
/// included.
pub open spec fn in_box(pos: BlockPos, low: BlockPos, high: BlockPos) -> bool {
    &&& low.x <= pos.x <= high.x
    &&& low.y <= pos.y <= high.y
    &&& low.z <= pos.z <= high.z
}

/// Whether `(ax, ay, az)` comes before `(bx, by, bz)` when blocks are
/// walked with x slowest and z fastest.
pub open spec fn walked_before(ax: int, ay: int, az: int, bx: int, by: int, bz: int) -> bool {
    ax < bx || (ax == bx && (ay < by || (ay == by && az < bz)))
}

/// Whether `found` lists exactly the solid blocks of `level` in the box
/// from `low` to `high` that are walked before `(x, y, z)`, in the order
/// they are walked.
pub open spec fn lists_solid_before(
    found: Seq<BlockPos>,
    level: Level,
    low: BlockPos,
    high: BlockPos,
    x: int,
    y: int,
    z: int,
) -> bool {
    &&& forall|k: int|
        0 <= k < found.len() ==> {
            &&& in_box(#[trigger] found[k], low, high)
            &&& level.solid_at(found[k])
            &&& walked_before(found[k].x as int, found[k].y as int, found[k].z as int, x, y, z)
        }
    &&& forall|k: int, l: int|
        0 <= k < l < found.len() ==> walked_before(
            (#[trigger] found[k]).x as int,
            found[k].y as int,
            found[k].z as int,
            (#[trigger] found[l]).x as int,
            found[l].y as int,
            found[l].z as int,
        )
    &&& forall|pos: BlockPos|
        in_box(pos, low, high) && #[trigger] level.solid_at(pos) && walked_before(
            pos.x as int,
            pos.y as int,
            pos.z as int,
            x,
            y,
            z,
        ) ==> found.contains(pos)
}

/// Whether `found` lists exactly the solid blocks of `level` in the box
/// from `low` to `high`, each once, x slowest and z fastest.
pub open spec fn lists_solid_blocks(found: Seq<BlockPos>, level: Level, low: BlockPos, high: BlockPos)
    -> bool {
    lists_solid_before(found, level, low, high, high.x + 1, low.y as int, low.z as int)
}

/// The solid blocks in the box of blocks from `low` to `high`, both
/// included: the blocks a body can collide with whose reach, widened by
/// half a block, is that box.
pub fn get_potential_collisions(level: &Level, low: BlockPos, high: BlockPos) -> (found: Vec<BlockPos>)
    ensures
        lists_solid_blocks(found@, *level, low, high),
{
    let mut found: Vec<BlockPos> = Vec::new();
    if low.x > high.x || low.y > high.y || low.z > high.z {
        return found;
    }
    let mut x: i64 = low.x as i64;
    while x <= high.x as i64
        invariant
            low.x <= high.x,
            low.y <= high.y,
            low.z <= high.z,
            low.x <= x <= high.x + 1,
            lists_solid_before(found@, *level, low, high, x as int, low.y as int, low.z as int),
        decreases high.x + 1 - x,
    {
        let mut y: i64 = low.y as i64;
        while y <= high.y as i64
            invariant
                low.x <= high.x,
                low.y <= high.y,
                low.z <= high.z,
                low.x <= x <= high.x,
                low.y <= y <= high.y + 1,
                lists_solid_before(found@, *level, low, high, x as int, y as int, low.z as int),
            decreases high.y + 1 - y,
        {
            let mut z: i64 = low.z as i64;
            while z <= high.z as i64
                invariant
                        low.x <= high.x,
                    low.y <= high.y,
                    low.z <= high.z,
                    low.x <= x <= high.x,
                    low.y <= y <= high.y,
                    low.z <= z <= high.z + 1,
                    lists_solid_before(found@, *level, low, high, x as int, y as int, z as int),
                decreases high.z + 1 - z,
            {
                let pos = BlockPos::new(x as i32, y as i32, z as i32);
                let ghost before = found@;
                if level.block(pos).is_solid() {
                    found.push(pos);
                    proof {
                        assert(forall|k: int| 0 <= k < before.len() ==> found@[k] == before[k]);
                        assert(found@[before.len() as int] == pos);
                        assert forall|q: BlockPos|
                            in_box(q, low, high) && #[trigger] level.solid_at(q) && walked_before(
                                q.x as int,
                                q.y as int,
                                q.z as int,
                                x as int,
                                y as int,
                                z + 1,
                            ) implies found@.contains(q) by {
                            if q == pos {
                            } else {
                                assert(before.contains(q));
                                let k = choose|k: int| 0 <= k < before.len() && before[k] == q;
                                assert(found@[k] == q);
                            }
                        }
                    }
                } else {
                    assert forall|q: BlockPos|
                        in_box(q, low, high) && #[trigger] level.solid_at(q) && walked_before(
                            q.x as int,
                            q.y as int,
                            q.z as int,
                            x as int,
                            y as int,
                            z + 1,
                        ) implies found@.contains(q) by {
                        assert(q != pos);
                    }
                }
                z += 1;
            }
            y += 1;
        }
        x += 1;
    }
    found
}

/// A list of the solid blocks of a box holds none twice, and two such
/// lists of one box are the same.
pub proof fn lemma_solid_blocks_unique(
    a: Seq<BlockPos>,
    b: Seq<BlockPos>,
    level: Level,
    low: BlockPos,
    high: BlockPos,
)
    requires
        lists_solid_blocks(a, level, low, high),
        lists_solid_blocks(b, level, low, high),
    ensures
        a.no_duplicates(),
        a == b,
{
    assert forall|k: int, l: int| 0 <= k < a.len() && 0 <= l < a.len() && k != l implies a[k]
        != a[l] by {
        if k < l {
            assert(walked_before(
                a[k].x as int,
                a[k].y as int,
                a[k].z as int,
                a[l].x as int,
                a[l].y as int,
                a[l].z as int,
            ));
        } else {
            assert(walked_before(
                a[l].x as int,
                a[l].y as int,
                a[l].z as int,
                a[k].x as int,
                a[k].y as int,
                a[k].z as int,
            ));
        }
    }
    lemma_walked_lists_equal(a, b, level, low, high);
}

proof fn lemma_walked_lists_equal(
    a: Seq<BlockPos>,
    b: Seq<BlockPos>,
    level: Level,
    low: BlockPos,
    high: BlockPos,
)
    requires
        lists_solid_blocks(a, level, low, high),
        lists_solid_blocks(b, level, low, high),
    ensures
        a == b,
{
    lemma_prefixes_agree(a, b, level, low, high, a.len() as int);
    lemma_prefixes_agree(b, a, level, low, high, b.len() as int);
    assert(a =~= b);
}

/// The two lists agree on their first `n` places, as far as `a` reaches.
proof fn lemma_prefixes_agree(
    a: Seq<BlockPos>,
    b: Seq<BlockPos>,
    level: Level,
    low: BlockPos,
    high: BlockPos,
    n: int,
)
    requires
        lists_solid_blocks(a, level, low, high),
        lists_solid_blocks(b, level, low, high),
        0 <= n <= a.len(),
    ensures
        n <= b.len(),
        forall|k: int| 0 <= k < n ==> a[k] == b[k],
    decreases n,
{
    if n > 0 {
        lemma_prefixes_agree(a, b, level, low, high, n - 1);
        let m = n - 1;
        // a[m] stands somewhere in b, and not among b's first m places
        assert(in_box(a[m], low, high) && level.solid_at(a[m]));
        assert(b.contains(a[m]));
        let j = choose|j: int| 0 <= j < b.len() && b[j] == a[m];
        if j < m {
            assert(a[j] == b[j]);
            assert(walked_before(
                a[j].x as int,
                a[j].y as int,
                a[j].z as int,
                a[m].x as int,
                a[m].y as int,
                a[m].z as int,
            ));
        }
        assert(m < b.len());
        // b[m] stands somewhere in a, and not among a's first m places
        assert(in_box(b[m], low, high) && level.solid_at(b[m]));
        assert(a.contains(b[m]));
        let i = choose|i: int| 0 <= i < a.len() && a[i] == b[m];
        if i < m {
            assert(a[i] == b[i]);
            assert(walked_before(
                b[i].x as int,
                b[i].y as int,
                b[i].z as int,
                b[m].x as int,
                b[m].y as int,
                b[m].z as int,
            ));
        }
        if j > m {
            assert(walked_before(
                b[m].x as int,
                b[m].y as int,
                b[m].z as int,
                b[j].x as int,
                b[j].y as int,
                b[j].z as int,
            ));
            if i > m {
                assert(walked_before(
                    a[m].x as int,
                    a[m].y as int,
                    a[m].z as int,
                    a[i].x as int,
                    a[i].y as int,
                    a[i].z as int,
                ));
            }
        }
    }
}

} // verus!
