//! Which chunks to load next, and the set of chunks already on their way.
//!
//! Each tick scans the cube of chunks around the viewpoint, keeps those
//! that are near enough and neither loaded nor pending, and takes the
//! closest few. What a tick hands out is pending from then on, so no later
//! tick hands it out again before it has arrived.

use crate::chunk::Chunk;
use crate::level::{is_far, Level, LoadedChunk};
use crate::position::{BlockPos, ChunkPos};
use bevy::ecs::entity::Entity;
use bevy::utils::HashSet;
use vstd::prelude::*;
use vstd::relations::{sorted_by, total_ordering};

verus! {

/// How many chunks around the viewpoint's chunk are scanned on each axis.
pub const GENERATION_RADIUS: i32 = 8;

/// How many chunks one tick hands out at most.
pub const CHUNK_GENERATION_BATCH_SIZE: usize = 50;

/// Edge length of the scanned cube, in chunks.
pub const SCAN_SIDE: usize = 17;

/// Number of chunk positions one tick scans.
pub const SCAN_CELLS: usize = SCAN_SIDE * SCAN_SIDE * SCAN_SIDE;

/// The largest squared distance, in blocks, from the viewpoint to the
/// origin of a chunk that is still loaded.
pub const MAX_DISTANCE_SQ: i64 = 16384;

/// Milliseconds to wait after a tick that found nothing to load.
pub const IDLE_SLEEP_MILLIS: u64 = 500;

/// Milliseconds to wait after a batch has arrived.
pub const BATCH_PAUSE_MILLIS: u64 = 100;

/// The hash set of chunk positions that are being loaded: a
/// `bevy::utils::HashSet`, which is hashbrown's `HashSet`. Verus does not
/// look inside it; all that is known of it is what the functions below
/// say of [`pending_positions`]. A position is stored as the tuple of its
/// three coordinates, which the set hashes and compares as the standard
/// library does tuples of integers.
#[verifier::external_body]
#[derive(Debug)]
pub struct PendingSet {
    set: HashSet<(i32, i32, i32)>,
}

/// What a [`PendingSet`] holds.
pub uninterp spec fn pending_positions(set: PendingSet) -> Set<ChunkPos>;

/// The set of positions that holds none.
pub open spec fn no_positions() -> Set<ChunkPos> {
    Set::empty()
}

/// `HashSet::new`: a set that holds nothing.
#[verifier::external_body]
fn pending_new() -> (set: PendingSet)
    ensures
        pending_positions(set) == no_positions(),
{
    PendingSet { set: HashSet::new() }
}

/// `HashSet::contains`: whether the set holds `pos`.
#[verifier::external_body]
fn pending_contains(set: &PendingSet, pos: ChunkPos) -> (held: bool)
    ensures
        held == pending_positions(*set).contains(pos),
{
    set.set.contains(&(pos.x, pos.y, pos.z))
}

/// `HashSet::insert`: adds `pos`, and tells whether it was new.
#[verifier::external_body]
fn pending_insert(set: &mut PendingSet, pos: ChunkPos) -> (added: bool)
    ensures
        pending_positions(*final(set)) == pending_positions(*old(set)).insert(pos),
        added == !pending_positions(*old(set)).contains(pos),
{
    set.set.insert((pos.x, pos.y, pos.z))
}

/// `HashSet::remove`: takes `pos` out, and tells whether it was there.
#[verifier::external_body]
fn pending_remove(set: &mut PendingSet, pos: ChunkPos) -> (removed: bool)
    ensures
        pending_positions(*final(set)) == pending_positions(*old(set)).remove(pos),
        removed == pending_positions(*old(set)).contains(pos),
{
    set.set.remove(&(pos.x, pos.y, pos.z))
}

/// Ascending order on pairs of a distance and a place in the scan: by
/// distance, and by place where distances are equal.
pub open spec fn rank_leq(a: (i64, usize), b: (i64, usize)) -> bool {
    a.0 < b.0 || (a.0 == b.0 && a.1 <= b.1)
}

/// [`rank_leq`] as a relation.
pub open spec fn rank_order() -> spec_fn((i64, usize), (i64, usize)) -> bool {
    |a: (i64, usize), b: (i64, usize)| rank_leq(a, b)
}

/// `<[T]>::sort` on a vector of pairs of integers: afterwards the vector
/// holds the same pairs, each as often as before, in ascending order.
/// Pairs are compared as tuples are: by their first parts, and by their
/// second parts where the first are equal.
#[verifier::external_body]
fn sort_ranks(ranks: &mut Vec<(i64, usize)>)
    ensures
        final(ranks)@.to_multiset() == old(ranks)@.to_multiset(),
        sorted_by(final(ranks)@, rank_order()),
{
    ranks.sort();
}

/// The `i`-th chunk position of the scan around `center`: the cube is
/// walked with x slowest and z fastest.
pub open spec fn scan_cell(center: ChunkPos, i: int) -> ChunkPos {
    center.offset(i / 289 - 8, (i / 17) % 17 - 8, i % 17 - 8)
}

/// Squared distance, in blocks, from `viewpoint` to the origin of the chunk
/// at `pos`.
pub open spec fn distance_sq(pos: ChunkPos, viewpoint: BlockPos) -> int {
    (pos.x * 16 - viewpoint.x) * (pos.x * 16 - viewpoint.x) + (pos.y * 16 - viewpoint.y) * (pos.y
        * 16 - viewpoint.y) + (pos.z * 16 - viewpoint.z) * (pos.z * 16 - viewpoint.z)
}

/// Whether the chunk at `pos` should be loaded: it lies in the world and
/// near enough to the viewpoint, and is neither loaded nor pending.
pub open spec fn is_candidate(
    loaded: Set<ChunkPos>,
    pending: Set<ChunkPos>,
    viewpoint: BlockPos,
    pos: ChunkPos,
) -> bool {
    &&& pos.in_world()
    &&& distance_sq(pos, viewpoint) <= MAX_DISTANCE_SQ
    &&& !loaded.contains(pos)
    &&& !pending.contains(pos)
}

/// The candidates among the first `n` cells of the scan, in scan order.
pub open spec fn candidates_upto(
    loaded: Set<ChunkPos>,
    pending: Set<ChunkPos>,
    viewpoint: BlockPos,
    n: nat,
) -> Seq<ChunkPos>
    decreases n,
{
    if n == 0 {
        seq![]
    } else {
        let before = candidates_upto(loaded, pending, viewpoint, (n - 1) as nat);
        let pos = scan_cell(viewpoint.spec_chunk_pos(), n - 1);
        if is_candidate(loaded, pending, viewpoint, pos) {
            before.push(pos)
        } else {
            before
        }
    }
}

/// All candidates of a tick, in scan order.
pub open spec fn candidates(loaded: Set<ChunkPos>, pending: Set<ChunkPos>, viewpoint: BlockPos)
    -> Seq<ChunkPos> {
    candidates_upto(loaded, pending, viewpoint, SCAN_CELLS as nat)
}

/// Each candidate's distance paired with its place among the candidates.
pub open spec fn ranking(cands: Seq<ChunkPos>, viewpoint: BlockPos) -> Seq<(i64, usize)> {
    Seq::new(cands.len(), |i: int| (distance_sq(cands[i], viewpoint) as i64, i as usize))
}

/// The chunks a tick hands out: the candidates ordered by distance to the
/// viewpoint, those equally far in scan order, cut off after
/// [`CHUNK_GENERATION_BATCH_SIZE`].
pub open spec fn selection(loaded: Set<ChunkPos>, pending: Set<ChunkPos>, viewpoint: BlockPos)
    -> Seq<ChunkPos> {
    let cands = candidates(loaded, pending, viewpoint);
    let order = ranking(cands, viewpoint).sort_by(rank_order());
    let count = if order.len() < CHUNK_GENERATION_BATCH_SIZE {
        order.len()
    } else {
        CHUNK_GENERATION_BATCH_SIZE as nat
    };
    Seq::new(count, |k: int| cands[order[k].1 as int])
}

/// Where a chunk position stands on its way into the world.
#[derive(Debug, Clone, Copy, PartialEq, Eq, Structural)]
pub enum ChunkState {
    /// Neither loaded nor on its way.
    Unloaded,
    /// Handed out for loading, not yet arrived.
    Pending,
    /// In the store.
    Loaded,
}

/// The state of the chunk at `pos` when the chunks of `loaded` are in the
/// store and those of `pending` are on their way.
pub open spec fn spec_chunk_state(loaded: Set<ChunkPos>, pending: Set<ChunkPos>, pos: ChunkPos)
    -> ChunkState {
    if loaded.contains(pos) {
        ChunkState::Loaded
    } else if pending.contains(pos) {
        ChunkState::Pending
    } else {
        ChunkState::Unloaded
    }
}

/// What the loading loop does next.
#[derive(Debug)]
pub enum StreamAction {
    /// Load or generate these chunks; they are pending from now on.
    Load(Vec<ChunkPos>),
    /// Nothing to load: wait this many milliseconds before the next tick.
    Sleep(u64),
}

/// The chunk positions that have been handed out for loading and have not
/// arrived yet.
#[derive(Debug)]
pub struct ChunkGenerationQueue {
    pending: PendingSet,
}

impl View for ChunkGenerationQueue {
    type V = Set<ChunkPos>;

    closed spec fn view(&self) -> Set<ChunkPos> {
        pending_positions(self.pending)
    }
}

impl Default for ChunkGenerationQueue {
    fn default() -> (queue: Self)
        ensures
            queue@ == no_positions(),
    {
        Self::new()
    }
}

impl ChunkGenerationQueue {
    /// A queue with nothing pending.
    pub fn new() -> (queue: Self)
        ensures
            queue@ == no_positions(),
    {
        Self { pending: pending_new() }
    }

    /// Whether the chunk at `pos` has been handed out and has not arrived.
    pub fn is_pending(&self, pos: ChunkPos) -> (pending: bool)
        ensures
            pending == self@.contains(pos),
    {
        pending_contains(&self.pending, pos)
    }

    /// The state of the chunk at `pos`.
    pub fn chunk_state(&self, level: &Level, pos: ChunkPos) -> (state: ChunkState)
        ensures
            state == spec_chunk_state(level@.dom(), self@, pos),
    {
        if level.chunk(pos).is_some() {
            ChunkState::Loaded
        } else if self.is_pending(pos) {
            ChunkState::Pending
        } else {
            ChunkState::Unloaded
        }
    }

    /// The chunks to load next for a viewer at `viewpoint`: the closest
    /// chunks within the generation radius that are neither loaded nor
    /// pending, nearest first, at most a batch of them.
    pub fn select_chunks(&self, level: &Level, viewpoint: BlockPos) -> (chosen: Vec<ChunkPos>)
        ensures
            chosen@ == selection(level@.dom(), self@, viewpoint),
    {
        let center = viewpoint.chunk_pos();
        let local = viewpoint.local_pos();
        let ghost loaded = level@.dom();
        let mut cands: Vec<ChunkPos> = Vec::new();
        let mut ranks: Vec<(i64, usize)> = Vec::new();
        let mut i: usize = 0;
        assert(ranks@ =~= ranking(cands@, viewpoint));
        while i < SCAN_CELLS
            invariant
                i <= SCAN_CELLS,
                loaded == level@.dom(),
                center == viewpoint.spec_chunk_pos(),
                local == viewpoint.spec_local_pos(),
                center.in_world(),
                local.is_valid(),
                cands@ == candidates_upto(loaded, self@, viewpoint, i as nat),
                cands@.len() <= i,
                ranks@ == ranking(cands@, viewpoint),
            decreases SCAN_CELLS - i,
        {
            let dx: i32 = (i / 289) as i32 - 8;
            let dy: i32 = ((i / 17) % 17) as i32 - 8;
            let dz: i32 = (i % 17) as i32 - 8;
            let pos = ChunkPos::new(center.x + dx, center.y + dy, center.z + dz);
            assert(pos == scan_cell(center, i as int));
            let ox: i64 = 16 * (dx as i64) - (local.x as i64);
            let oy: i64 = 16 * (dy as i64) - (local.y as i64);
            let oz: i64 = 16 * (dz as i64) - (local.z as i64);
            proof {
                crate::position::lemma_block_round_trip(viewpoint);
                assert(ox == pos.x * 16 - viewpoint.x);
                assert(oy == pos.y * 16 - viewpoint.y);
                assert(oz == pos.z * 16 - viewpoint.z);
                lemma_square_bound(ox as int);
                lemma_square_bound(oy as int);
                lemma_square_bound(oz as int);
            }
            let d2: i64 = ox * ox + oy * oy + oz * oz;
            assert(d2 == distance_sq(pos, viewpoint)) by {
                reveal(distance_sq);
            }
            if d2 <= MAX_DISTANCE_SQ && pos.is_in_world() {
                if level.chunk(pos).is_none() && !self.is_pending(pos) {
                    let ghost before = cands@;
                    ranks.push((d2, cands.len()));
                    cands.push(pos);
                    assert(ranks@ =~= ranking(cands@, viewpoint)) by {
                        assert forall|k: int| 0 <= k < ranks@.len() implies ranks@[k] == ranking(
                            cands@,
                            viewpoint,
                        )[k] by {
                            if k < before.len() {
                                assert(cands@[k] == before[k]);
                                assert(ranks@[k] == ranking(before, viewpoint)[k]);
                            }
                        }
                    }
                }
            }
            i += 1;
        }
        let ghost unsorted = ranks@;
        sort_ranks(&mut ranks);
        proof {
            lemma_rank_order_total();
            unsorted.lemma_sort_by_ensures(rank_order());
            vstd::seq_lib::lemma_sorted_unique(ranks@, unsorted.sort_by(rank_order()), rank_order());
            lemma_sorted_ranking(cands@, viewpoint, ranks@);
        }
        let ghost order = ranks@;
        ranks.truncate(CHUNK_GENERATION_BATCH_SIZE);
        let mut chosen: Vec<ChunkPos> = Vec::new();
        let mut k: usize = 0;
        while k < ranks.len()
            invariant
                k <= ranks.len(),
                ranks@.len() <= order.len(),
                forall|j: int| 0 <= j < ranks@.len() ==> ranks@[j] == order[j],
                forall|j: int| 0 <= j < order.len() ==> (#[trigger] order[j]).1 < cands@.len(),
                chosen@.len() == k,
                forall|j: int| 0 <= j < k ==> chosen@[j] == cands@[order[j].1 as int],
            decreases ranks.len() - k,
        {
            let place = ranks[k].1;
            assert(ranks@[k as int] == order[k as int]);
            chosen.push(cands[place]);
            k += 1;
        }
        assert(chosen@ =~= selection(loaded, self@, viewpoint));
        chosen
    }

    /// Marks every chunk of `positions` as pending.
    pub fn mark_pending(&mut self, positions: &Vec<ChunkPos>)
        ensures
            forall|pos: ChunkPos|
                #[trigger] final(self)@.contains(pos) <==> old(self)@.contains(pos)
                    || positions@.contains(pos),
    {
        let mut i: usize = 0;
        while i < positions.len()
            invariant
                i <= positions.len(),
                forall|pos: ChunkPos|
                    #[trigger] self@.contains(pos) <==> old(self)@.contains(pos) || exists|j: int|
                        0 <= j < i && positions@[j] == pos,
            decreases positions.len() - i,
        {
            let ghost held = self@;
            pending_insert(&mut self.pending, positions[i]);
            assert forall|pos: ChunkPos|
                #[trigger] self@.contains(pos) <==> old(self)@.contains(pos) || exists|j: int|
                    0 <= j < i + 1 && positions@[j] == pos by {
                if held.contains(pos) && !old(self)@.contains(pos) {
                    let j = choose|j: int| 0 <= j < i && positions@[j] == pos;
                    assert(0 <= j < i + 1 && positions@[j] == pos);
                }
                if pos == positions@[i as int] {
                    assert(0 <= i < i + 1 && positions@[i as int] == pos);
                }
            }
            i += 1;
        }
    }

    /// One tick of the loading loop for a viewer at `viewpoint`: picks the
    /// chunks to load and marks them pending before they are handed out,
    /// or asks for a pause where there is nothing to load.
    pub fn next_action(&mut self, level: &Level, viewpoint: BlockPos) -> (action: StreamAction)
        ensures
            match action {
                StreamAction::Load(positions) => {
                    &&& positions@ == selection(level@.dom(), old(self)@, viewpoint)
                    &&& positions@.len() > 0
                    &&& forall|pos: ChunkPos|
                        #[trigger] final(self)@.contains(pos) <==> old(self)@.contains(pos)
                            || positions@.contains(pos)
                },
                StreamAction::Sleep(millis) => {
                    &&& selection(level@.dom(), old(self)@, viewpoint).len() == 0
                    &&& millis == IDLE_SLEEP_MILLIS
                    &&& final(self)@ == old(self)@
                },
            },
    {
        let positions = self.select_chunks(level, viewpoint);
        if positions.len() == 0 {
            StreamAction::Sleep(IDLE_SLEEP_MILLIS)
        } else {
            self.mark_pending(&positions);
            StreamAction::Load(positions)
        }
    }

    /// Takes in a chunk that has arrived: puts it into the store with the
    /// entity that renders it, ends its pending state, and hands back the
    /// entities of the loaded chunks around it, whose meshes are stale now.
    pub fn complete(&mut self, level: &mut Level, pos: ChunkPos, chunk: Chunk, entity: Entity) -> (dirty:
        Vec<Entity>)
        ensures
            final(level)@ == old(level)@.insert(pos, LoadedChunk { chunk, entity }),
            final(self)@ == old(self)@.remove(pos),
            dirty@ == old(level).spec_loaded_neighbors(pos),
    {
        let dirty = level.loaded_neighbors(pos);
        level.insert(pos, chunk, entity);
        pending_remove(&mut self.pending, pos);
        dirty
    }
}

proof fn lemma_square_bound(v: int)
    requires
        -160 <= v <= 160,
    ensures
        0 <= v * v <= 25600,
{
    assert(0 <= v * v <= 25600) by (nonlinear_arith)
        requires
            -160 <= v <= 160,
    ;
}

/// [`rank_leq`] orders pairs totally.
proof fn lemma_rank_order_total()
    ensures
        total_ordering(rank_order()),
{
    let r = rank_order();
    assert(vstd::relations::reflexive(r));
    assert(vstd::relations::antisymmetric(r));
    assert(vstd::relations::transitive(r));
    assert(vstd::relations::strongly_connected(r));
}

/// The three digits of a scan cell's number to the base 17 are its steps
/// along x, y and z.
proof fn lemma_scan_digits(i: int)
    requires
        0 <= i < SCAN_CELLS,
    ensures
        0 <= i / 289 <= 16,
        0 <= (i / 17) % 17 <= 16,
        0 <= i % 17 <= 16,
        i == 289 * (i / 289) + 17 * ((i / 17) % 17) + i % 17,
{
    let q = i / 17;
    assert(i == 17 * q + i % 17);
    assert(0 <= q < 289);
    assert(q == 17 * (q / 17) + q % 17);
    assert(q / 17 == i / 289) by {
        let a = q / 17;
        assert(0 <= a <= 16);
        assert(289 * a <= i < 289 * a + 289);
    }
}

/// Every cell of the scan lies within the scan radius of the centre, and
/// two cells with different numbers differ.
proof fn lemma_scan_cells(center: ChunkPos, i: int, j: int)
    requires
        center.in_world(),
        0 <= i < SCAN_CELLS,
        0 <= j < SCAN_CELLS,
    ensures
        -8 <= scan_cell(center, i).x - center.x <= 8,
        -8 <= scan_cell(center, i).y - center.y <= 8,
        -8 <= scan_cell(center, i).z - center.z <= 8,
        i != j ==> scan_cell(center, i) != scan_cell(center, j),
{
    lemma_scan_digits(i);
    lemma_scan_digits(j);
    let cell = scan_cell(center, i);
    let other = scan_cell(center, j);
    assert(cell.x == center.x + i / 289 - 8);
    assert(cell.y == center.y + (i / 17) % 17 - 8);
    assert(cell.z == center.z + i % 17 - 8);
    assert(other.x == center.x + j / 289 - 8);
    assert(other.y == center.y + (j / 17) % 17 - 8);
    assert(other.z == center.z + j % 17 - 8);
}

/// Every candidate among the first `n` scan cells is one of those cells
/// and passes [`is_candidate`]; they stand in scan order.
proof fn lemma_candidates_upto(
    loaded: Set<ChunkPos>,
    pending: Set<ChunkPos>,
    viewpoint: BlockPos,
    n: nat,
) -> (cell: Seq<int>)
    requires
        n <= SCAN_CELLS,
    ensures
        cell.len() == candidates_upto(loaded, pending, viewpoint, n).len(),
        cell.len() <= n,
        forall|k: int|
            0 <= k < cell.len() ==> {
                &&& 0 <= #[trigger] cell[k] < n
                &&& candidates_upto(loaded, pending, viewpoint, n)[k] == scan_cell(
                    viewpoint.spec_chunk_pos(),
                    cell[k],
                )
                &&& is_candidate(
                    loaded,
                    pending,
                    viewpoint,
                    candidates_upto(loaded, pending, viewpoint, n)[k],
                )
            },
        forall|k: int, l: int| 0 <= k < l < cell.len() ==> cell[k] < cell[l],
        forall|i: int|
            0 <= i < n && is_candidate(
                loaded,
                pending,
                viewpoint,
                scan_cell(viewpoint.spec_chunk_pos(), i),
            ) ==> candidates_upto(loaded, pending, viewpoint, n).contains(
                #[trigger] scan_cell(viewpoint.spec_chunk_pos(), i),
            ),
    decreases n,
{
    if n == 0 {
        seq![]
    } else {
        let before = lemma_candidates_upto(loaded, pending, viewpoint, (n - 1) as nat);
        let prev = candidates_upto(loaded, pending, viewpoint, (n - 1) as nat);
        let now = candidates_upto(loaded, pending, viewpoint, n);
        let pos = scan_cell(viewpoint.spec_chunk_pos(), n - 1);
        let cell = if is_candidate(loaded, pending, viewpoint, pos) {
            before.push(n - 1)
        } else {
            before
        };
        assert forall|i: int|
            0 <= i < n && is_candidate(
                loaded,
                pending,
                viewpoint,
                scan_cell(viewpoint.spec_chunk_pos(), i),
            ) implies now.contains(#[trigger] scan_cell(viewpoint.spec_chunk_pos(), i)) by {
            if i < n - 1 {
                let k = choose|k: int|
                    0 <= k < prev.len() && prev[k] == scan_cell(viewpoint.spec_chunk_pos(), i);
                assert(now[k] == prev[k]);
            } else {
                assert(now[now.len() - 1] == pos);
            }
        }
        cell
    }
}

/// No chunk position stands twice among the candidates.
proof fn lemma_candidates_distinct(
    loaded: Set<ChunkPos>,
    pending: Set<ChunkPos>,
    viewpoint: BlockPos,
)
    ensures
        candidates(loaded, pending, viewpoint).no_duplicates(),
        candidates(loaded, pending, viewpoint).len() <= SCAN_CELLS,
        forall|k: int|
            0 <= k < candidates(loaded, pending, viewpoint).len() ==> is_candidate(
                loaded,
                pending,
                viewpoint,
                #[trigger] candidates(loaded, pending, viewpoint)[k],
            ),
{
    let cell = lemma_candidates_upto(loaded, pending, viewpoint, SCAN_CELLS as nat);
    let cands = candidates(loaded, pending, viewpoint);
    crate::position::lemma_block_round_trip(viewpoint);
    assert forall|k: int| 0 <= k < cands.len() implies is_candidate(
        loaded,
        pending,
        viewpoint,
        #[trigger] cands[k],
    ) by {
        assert(0 <= cell[k]);
    }
    assert forall|k: int, l: int| 0 <= k < cands.len() && 0 <= l < cands.len() && k != l implies
        cands[k] != cands[l] by {
        assert(cell[k] != cell[l]) by {
            if k < l {
                assert(cell[k] < cell[l]);
            } else {
                assert(cell[l] < cell[k]);
            }
        }
        lemma_scan_cells(viewpoint.spec_chunk_pos(), cell[k], cell[l]);
    }
}

/// A sorted ranking holds each pair of the ranking once: the pair at any
/// place names a candidate, and no candidate is named twice.
proof fn lemma_sorted_ranking(cands: Seq<ChunkPos>, viewpoint: BlockPos, order: Seq<(i64, usize)>)
    requires
        cands.len() <= usize::MAX,
        order.to_multiset() == ranking(cands, viewpoint).to_multiset(),
    ensures
        order.len() == cands.len(),
        forall|k: int|
            0 <= k < order.len() ==> (#[trigger] order[k]).1 < cands.len() && order[k]
                == ranking(cands, viewpoint)[order[k].1 as int],
        forall|k: int, l: int|
            0 <= k < order.len() && 0 <= l < order.len() && k != l ==> order[k].1 != order[l].1,
        forall|i: int| 0 <= i < cands.len() ==> order.contains(#[trigger] ranking(cands, viewpoint)[i]),
{
    broadcast use vstd::seq_lib::group_to_multiset_ensures;

    let ranks = ranking(cands, viewpoint);
    assert(order.len() == ranks.len()) by {
        assert(order.to_multiset().len() == order.len());
        assert(ranks.to_multiset().len() == ranks.len());
    }
    assert forall|k: int| 0 <= k < order.len() implies (#[trigger] order[k]).1 < cands.len()
        && order[k] == ranks[order[k].1 as int] by {
        assert(order.contains(order[k]));
        assert(order.to_multiset().count(order[k]) > 0);
        assert(ranks.contains(order[k]));
        let j = choose|j: int| 0 <= j < ranks.len() && ranks[j] == order[k];
        assert(ranks[j].1 == j);
    }
    assert(ranks.no_duplicates()) by {
        assert forall|i: int, j: int| 0 <= i < ranks.len() && 0 <= j < ranks.len() && i != j implies
            ranks[i] != ranks[j] by {
            assert(ranks[i].1 == i && ranks[j].1 == j);
        }
    }
    assert(order.no_duplicates()) by {
        ranks.lemma_multiset_has_no_duplicates();
        order.lemma_multiset_has_no_duplicates_conv();
    }
    assert forall|k: int, l: int|
        0 <= k < order.len() && 0 <= l < order.len() && k != l implies order[k].1 != order[l].1 by {
        if order[k].1 == order[l].1 {
            assert(order[k] == ranks[order[k].1 as int]);
            assert(order[l] == ranks[order[l].1 as int]);
        }
    }
    assert forall|i: int| 0 <= i < cands.len() implies order.contains(#[trigger] ranks[i]) by {
        assert(ranks.contains(ranks[i]));
        assert(ranks.to_multiset().count(ranks[i]) > 0);
    }
}

/// What a tick hands out: at most a batch, no chunk twice, and only
/// chunks that pass [`is_candidate`], so none that is loaded or pending.
pub proof fn lemma_selection_fresh(
    loaded: Set<ChunkPos>,
    pending: Set<ChunkPos>,
    viewpoint: BlockPos,
)
    ensures
        selection(loaded, pending, viewpoint).len() <= CHUNK_GENERATION_BATCH_SIZE,
        selection(loaded, pending, viewpoint).no_duplicates(),
        forall|k: int|
            0 <= k < selection(loaded, pending, viewpoint).len() ==> is_candidate(
                loaded,
                pending,
                viewpoint,
                #[trigger] selection(loaded, pending, viewpoint)[k],
            ),
{
    let cands = candidates(loaded, pending, viewpoint);
    let order = ranking(cands, viewpoint).sort_by(rank_order());
    let chosen = selection(loaded, pending, viewpoint);
    lemma_candidates_distinct(loaded, pending, viewpoint);
    lemma_rank_order_total();
    ranking(cands, viewpoint).lemma_sort_by_ensures(rank_order());
    lemma_sorted_ranking(cands, viewpoint, order);
    assert forall|k: int| 0 <= k < chosen.len() implies is_candidate(
        loaded,
        pending,
        viewpoint,
        #[trigger] chosen[k],
    ) by {
        assert(order[k].1 < cands.len());
    }
    assert forall|k: int, l: int| 0 <= k < chosen.len() && 0 <= l < chosen.len() && k != l implies
        chosen[k] != chosen[l] by {
        assert(order[k].1 < cands.len());
        assert(order[l].1 < cands.len());
        assert(order[k].1 != order[l].1);
    }
}

/// A tick never hands out a chunk that an earlier tick handed out and that
/// has not arrived since: with the first tick's chunks pending, the second
/// tick picks none of them, wherever the viewer has moved.
pub proof fn lemma_no_reselection(
    loaded: Set<ChunkPos>,
    pending: Set<ChunkPos>,
    first_viewpoint: BlockPos,
    second_viewpoint: BlockPos,
    pending_after: Set<ChunkPos>,
)
    requires
        forall|pos: ChunkPos|
            #[trigger] pending_after.contains(pos) <==> pending.contains(pos) || selection(
                loaded,
                pending,
                first_viewpoint,
            ).contains(pos),
    ensures
        forall|pos: ChunkPos|
            selection(loaded, pending, first_viewpoint).contains(pos) ==> !(#[trigger] selection(
                loaded,
                pending_after,
                second_viewpoint,
            ).contains(pos)),
{
    let second = selection(loaded, pending_after, second_viewpoint);
    lemma_selection_fresh(loaded, pending_after, second_viewpoint);
    assert forall|pos: ChunkPos|
        selection(loaded, pending, first_viewpoint).contains(pos) implies !(#[trigger] second.contains(
        pos,
    )) by {
        if second.contains(pos) {
            let k = choose|k: int| 0 <= k < second.len() && second[k] == pos;
            assert(is_candidate(loaded, pending_after, second_viewpoint, second[k]));
            assert(pending_after.contains(pos));
        }
    }
}

/// A place in `order` whose pair names candidate `c`.
spec fn place_of(order: Seq<(i64, usize)>, c: int) -> int {
    choose|m: int| 0 <= m < order.len() && order[m].1 == c
}

/// Each pair of the sorted ranking names a candidate and holds that
/// candidate's distance.
proof fn lemma_order_distances(loaded: Set<ChunkPos>, pending: Set<ChunkPos>, viewpoint: BlockPos)
    ensures
        ranking(candidates(loaded, pending, viewpoint), viewpoint).sort_by(rank_order()).len()
            == candidates(loaded, pending, viewpoint).len(),
        sorted_by(
            ranking(candidates(loaded, pending, viewpoint), viewpoint).sort_by(rank_order()),
            rank_order(),
        ),
        forall|k: int|
            0 <= k < candidates(loaded, pending, viewpoint).len() ==> {
                let pair = #[trigger] ranking(
                    candidates(loaded, pending, viewpoint),
                    viewpoint,
                ).sort_by(rank_order())[k];
                &&& pair.1 < candidates(loaded, pending, viewpoint).len()
                &&& pair.0 == distance_sq(
                    candidates(loaded, pending, viewpoint)[pair.1 as int],
                    viewpoint,
                )
            },
        forall|c: int|
            0 <= c < candidates(loaded, pending, viewpoint).len() ==> {
                let m = #[trigger] place_of(
                    ranking(candidates(loaded, pending, viewpoint), viewpoint).sort_by(
                        rank_order(),
                    ),
                    c,
                );
                &&& 0 <= m < candidates(loaded, pending, viewpoint).len()
                &&& ranking(candidates(loaded, pending, viewpoint), viewpoint).sort_by(
                    rank_order(),
                )[m].1 == c
            },
{
    let cands = candidates(loaded, pending, viewpoint);
    let ranks = ranking(cands, viewpoint);
    let order = ranks.sort_by(rank_order());
    lemma_candidates_distinct(loaded, pending, viewpoint);
    lemma_rank_order_total();
    ranks.lemma_sort_by_ensures(rank_order());
    lemma_sorted_ranking(cands, viewpoint, order);
    assert forall|k: int| 0 <= k < cands.len() implies (#[trigger] order[k]).1 < cands.len()
        && order[k].0 == distance_sq(cands[order[k].1 as int], viewpoint) by {
        let c = order[k].1 as int;
        assert(order[k] == ranks[c]);
        assert(is_candidate(loaded, pending, viewpoint, cands[c]));
        lemma_distance_not_negative(cands[c], viewpoint);
    }
    assert forall|c: int| 0 <= c < cands.len() implies 0 <= #[trigger] place_of(order, c)
        < cands.len() && order[place_of(order, c)].1 == c by {
        assert(order.contains(ranks[c]));
        let m = choose|m: int| 0 <= m < order.len() && order[m] == ranks[c];
        assert(order[m].1 == c);
    }
}

/// The cell of the scan that lies `(a, b, c)` from the scan's first cell
/// has the number `289 a + 17 b + c`.
proof fn lemma_scan_number(a: int, b: int, c: int)
    requires
        0 <= a <= 16,
        0 <= b <= 16,
        0 <= c <= 16,
    ensures
        0 <= 289 * a + 17 * b + c < SCAN_CELLS,
        (289 * a + 17 * b + c) / 289 == a,
        ((289 * a + 17 * b + c) / 17) % 17 == b,
        (289 * a + 17 * b + c) % 17 == c,
{
    let i = 289 * a + 17 * b + c;
    assert(i == 17 * (17 * a + b) + c);
    assert(i / 17 == 17 * a + b);
    assert(i % 17 == c);
    assert((17 * a + b) % 17 == b);
    assert(289 * a <= i < 289 * a + 289);
}

/// A chunk near enough to the viewpoint lies within the scanned cube.
proof fn lemma_near_chunk_offsets(pos: ChunkPos, viewpoint: BlockPos)
    requires
        distance_sq(pos, viewpoint) <= MAX_DISTANCE_SQ,
    ensures
        -8 <= pos.x - viewpoint.spec_chunk_pos().x <= 8,
        -8 <= pos.y - viewpoint.spec_chunk_pos().y <= 8,
        -8 <= pos.z - viewpoint.spec_chunk_pos().z <= 8,
{
    reveal(distance_sq);
    lemma_near_is_scanned(
        pos.x * 16 - viewpoint.x,
        pos.y * 16 - viewpoint.y,
        pos.z * 16 - viewpoint.z,
    );
}

/// Every chunk that passes [`is_candidate`] stands among the candidates.
proof fn lemma_candidate_is_listed(
    loaded: Set<ChunkPos>,
    pending: Set<ChunkPos>,
    viewpoint: BlockPos,
    pos: ChunkPos,
)
    requires
        is_candidate(loaded, pending, viewpoint, pos),
    ensures
        candidates(loaded, pending, viewpoint).contains(pos),
{
    let center = viewpoint.spec_chunk_pos();
    lemma_near_chunk_offsets(pos, viewpoint);
    let a = pos.x - center.x + 8;
    let b = pos.y - center.y + 8;
    let c = pos.z - center.z + 8;
    lemma_scan_number(a, b, c);
    let i = 289 * a + 17 * b + c;
    assert(scan_cell(center, i) == pos);
    let cell = lemma_candidates_upto(loaded, pending, viewpoint, SCAN_CELLS as nat);
    assert(candidates(loaded, pending, viewpoint).contains(scan_cell(center, i)));
}

/// A tick moves the chunks it hands out from unloaded to pending and
/// leaves every other chunk in its state.
pub proof fn lemma_tick_makes_pending(
    loaded: Set<ChunkPos>,
    pending: Set<ChunkPos>,
    viewpoint: BlockPos,
    pending_after: Set<ChunkPos>,
    pos: ChunkPos,
)
    requires
        forall|p: ChunkPos|
            #[trigger] pending_after.contains(p) <==> pending.contains(p) || selection(
                loaded,
                pending,
                viewpoint,
            ).contains(p),
    ensures
        selection(loaded, pending, viewpoint).contains(pos) ==> spec_chunk_state(
            loaded,
            pending,
            pos,
        ) == ChunkState::Unloaded && spec_chunk_state(loaded, pending_after, pos)
            == ChunkState::Pending,
        !selection(loaded, pending, viewpoint).contains(pos) ==> spec_chunk_state(
            loaded,
            pending_after,
            pos,
        ) == spec_chunk_state(loaded, pending, pos),
{
    let chosen = selection(loaded, pending, viewpoint);
    lemma_selection_fresh(loaded, pending, viewpoint);
    if chosen.contains(pos) {
        let k = choose|k: int| 0 <= k < chosen.len() && chosen[k] == pos;
        assert(is_candidate(loaded, pending, viewpoint, chosen[k]));
    }
}

/// The arrival of a chunk makes it loaded and leaves every other chunk in
/// its state.
pub proof fn lemma_arrival_makes_loaded(
    loaded: Set<ChunkPos>,
    pending: Set<ChunkPos>,
    arrived: ChunkPos,
    pos: ChunkPos,
)
    ensures
        spec_chunk_state(loaded.insert(arrived), pending.remove(arrived), arrived)
            == ChunkState::Loaded,
        pos != arrived ==> spec_chunk_state(loaded.insert(arrived), pending.remove(arrived), pos)
            == spec_chunk_state(loaded, pending, pos),
{
}

/// The chunks a tick hands out are the closest candidates: they stand in
/// order of distance, and a chunk that passes [`is_candidate`] and is not
/// handed out is at least as far as each that is, the batch being full.
pub proof fn lemma_selection_closest(
    loaded: Set<ChunkPos>,
    pending: Set<ChunkPos>,
    viewpoint: BlockPos,
    pos: ChunkPos,
)
    ensures
        forall|k: int, l: int|
            0 <= k < l < selection(loaded, pending, viewpoint).len() ==> distance_sq(
                selection(loaded, pending, viewpoint)[k],
                viewpoint,
            ) <= distance_sq(selection(loaded, pending, viewpoint)[l], viewpoint),
        is_candidate(loaded, pending, viewpoint, pos) && !selection(
            loaded,
            pending,
            viewpoint,
        ).contains(pos) ==> {
            &&& selection(loaded, pending, viewpoint).len() == CHUNK_GENERATION_BATCH_SIZE
            &&& forall|k: int|
                0 <= k < selection(loaded, pending, viewpoint).len() ==> distance_sq(
                    #[trigger] selection(loaded, pending, viewpoint)[k],
                    viewpoint,
                ) <= distance_sq(pos, viewpoint)
        },
{
    let cands = candidates(loaded, pending, viewpoint);
    let order = ranking(cands, viewpoint).sort_by(rank_order());
    let chosen = selection(loaded, pending, viewpoint);
    lemma_order_distances(loaded, pending, viewpoint);
    lemma_candidates_distinct(loaded, pending, viewpoint);
    assert forall|k: int, l: int| 0 <= k < l < chosen.len() implies distance_sq(
        chosen[k],
        viewpoint,
    ) <= distance_sq(chosen[l], viewpoint) by {
        assert(rank_order()(order[k], order[l]));
    }
    if is_candidate(loaded, pending, viewpoint, pos) && !chosen.contains(pos) {
        lemma_candidate_is_listed(loaded, pending, viewpoint, pos);
        let c = choose|c: int| 0 <= c < cands.len() && cands[c] == pos;
        let m = place_of(order, c);
        if m < chosen.len() {
            assert(chosen[m] == pos);
        }
        assert forall|k: int| 0 <= k < chosen.len() implies distance_sq(
            #[trigger] chosen[k],
            viewpoint,
        ) <= distance_sq(pos, viewpoint) by {
            assert(rank_order()(order[k], order[m]));
        }
    }
}

/// A squared distance is not negative.
proof fn lemma_distance_not_negative(pos: ChunkPos, viewpoint: BlockPos)
    ensures
        0 <= distance_sq(pos, viewpoint),
{
    reveal(distance_sq);
    let ox = pos.x * 16 - viewpoint.x;
    let oy = pos.y * 16 - viewpoint.y;
    let oz = pos.z * 16 - viewpoint.z;
    assert(0 <= ox * ox + oy * oy + oz * oz) by (nonlinear_arith);
}

/// The least a squared offset in blocks can be along one axis when the
/// chunk lies `steps` chunks from the viewpoint's chunk along it.
spec fn least_square(steps: int) -> int {
    if steps <= 0 {
        0
    } else if steps == 1 {
        1
    } else if steps == 2 {
        289
    } else if steps == 3 {
        1089
    } else if steps == 4 {
        2401
    } else if steps == 5 {
        4225
    } else if steps == 6 {
        6561
    } else if steps == 7 {
        9409
    } else {
        12769
    }
}

/// `steps` squared, for up to eight steps either way.
spec fn step_square(steps: int) -> int {
    if steps == 0 {
        0
    } else if steps == 1 || steps == -1 {
        1
    } else if steps == 2 || steps == -2 {
        4
    } else if steps == 3 || steps == -3 {
        9
    } else if steps == 4 || steps == -4 {
        16
    } else if steps == 5 || steps == -5 {
        25
    } else if steps == 6 || steps == -6 {
        36
    } else if steps == 7 || steps == -7 {
        49
    } else {
        64
    }
}

/// Along one axis: a chunk `steps` chunks from the viewpoint's chunk has
/// its origin at least so many blocks from the viewpoint that the square
/// is [`least_square`] of the steps.
proof fn lemma_axis_offset(steps: int, local: int, offset: int)
    requires
        -8 <= steps <= 8,
        0 <= local < 16,
        offset == 16 * steps - local,
    ensures
        offset * offset >= least_square(if steps < 0 {
            -steps
        } else {
            steps
        }),
        steps * steps == step_square(steps),
{
    assert(steps * steps == step_square(steps)) by (nonlinear_arith)
        requires
            -8 <= steps <= 8,
    ;
    let size = if steps < 0 {
        -steps
    } else {
        steps
    };
    if steps > 0 {
        assert(offset * offset >= (16 * steps - 15) * (16 * steps - 15)) by (nonlinear_arith)
            requires
                offset >= 16 * steps - 15,
                16 * steps - 15 >= 0,
        ;
        assert((16 * steps - 15) * (16 * steps - 15) == least_square(steps)) by (nonlinear_arith)
            requires
                1 <= steps <= 8,
        ;
    } else if steps < 0 {
        assert(offset * offset >= (16 * size) * (16 * size)) by (nonlinear_arith)
            requires
                offset <= -16 * size,
                size >= 0,
        ;
        assert((16 * size) * (16 * size) >= least_square(size)) by (nonlinear_arith)
            requires
                1 <= size <= 8,
        ;
    } else {
        assert(offset * offset >= 0) by (nonlinear_arith);
    }
}

/// Loading and unloading do not fight: a chunk that a tick may hand out
/// lies within the distance at which chunks stay loaded around the
/// viewpoint's chunk.
pub proof fn lemma_candidates_stay_loaded(
    loaded: Set<ChunkPos>,
    pending: Set<ChunkPos>,
    viewpoint: BlockPos,
    pos: ChunkPos,
)
    requires
        is_candidate(loaded, pending, viewpoint, pos),
    ensures
        !is_far(pos, viewpoint.spec_chunk_pos()),
{
    let center = viewpoint.spec_chunk_pos();
    let local = viewpoint.spec_local_pos();
    lemma_near_chunk_offsets(pos, viewpoint);
    crate::position::lemma_block_round_trip(viewpoint);
    let dx = pos.x - center.x;
    let dy = pos.y - center.y;
    let dz = pos.z - center.z;
    let ox = pos.x * 16 - viewpoint.x;
    let oy = pos.y * 16 - viewpoint.y;
    let oz = pos.z * 16 - viewpoint.z;
    lemma_axis_offset(dx, local.x as int, ox);
    lemma_axis_offset(dy, local.y as int, oy);
    lemma_axis_offset(dz, local.z as int, oz);
    assert(ox * ox + oy * oy + oz * oz <= MAX_DISTANCE_SQ) by {
        reveal(distance_sq);
    }
    assert(step_square(dx) + step_square(dy) + step_square(dz) <= 100);
    assert(crate::level::chunk_distance_sq(pos, center) == dx * dx + dy * dy + dz * dz);
}

proof fn lemma_near_is_scanned(ox: int, oy: int, oz: int)
    requires
        ox * ox + oy * oy + oz * oz <= MAX_DISTANCE_SQ,
    ensures
        -128 <= ox <= 128,
        -128 <= oy <= 128,
        -128 <= oz <= 128,
{
    assert(-128 <= ox <= 128 && -128 <= oy <= 128 && -128 <= oz <= 128) by (nonlinear_arith)
        requires
            ox * ox + oy * oy + oz * oz <= 16384,
    ;
}

} // verus!
