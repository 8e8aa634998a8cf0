//! A uniform grid of cells over a two-dimensional world, each cell holding
//! the entities that touch it.
//!
//! The grid works on cell indices. An entity occupies the rectangle of cells
//! between the cells of two opposite corners of its extent; a query covers
//! the rectangle of cells between the cells of two opposite corners of its
//! range.

use std::collections::HashSet;
use vstd::prelude::*;
use vstd::std_specs::hash::{group_hash_axioms, spec_hash_keys_iter};
use vstd::std_specs::iter::IteratorSpec;

verus! {

broadcast use group_hash_axioms;

/// An entity as the grid knows it: its id, and the cells of the two corners
/// of the rectangle that it occupies.
#[derive(Debug, Clone, Copy, PartialEq, Eq)]
pub struct Client {
    pub indexes: [[u32; 2]; 2],
    pub id: u64,
}

/// Whether the occupancy `occ`, written as the cell of its lower corner and
/// the cell of its upper corner, holds the cell `(ix, iy)`.
pub open spec fn occupies(occ: Seq<u32>, ix: int, iy: int) -> bool {
    occ[0] <= ix <= occ[2] && occ[1] <= iy <= occ[3]
}

/// The occupancy between the corner cells `i1` and `i2`.
pub open spec fn occupancy_of(i1: [u32; 2], i2: [u32; 2]) -> Seq<u32> {
    seq![i1[0], i1[1], i2[0], i2[1]]
}

/// The set `ids` with `id` in it or not, as `present` says.
pub open spec fn with_id(ids: Set<u64>, id: u64, present: bool) -> Set<u64> {
    if present {
        ids.insert(id)
    } else {
        ids.remove(id)
    }
}

/// The mathematical content of a grid: for every column of cells, the sets
/// of ids of its cells.
pub struct GridView {
    pub nx: nat,
    pub ny: nat,
    pub cells: Seq<Seq<Set<u64>>>,
}

impl GridView {
    /// There are `nx` columns of `ny` cells.
    pub open spec fn wf(self) -> bool {
        &&& self.cells.len() == self.nx
        &&& forall|ix: int| 0 <= ix < self.nx ==> (#[trigger] self.cells[ix]).len() == self.ny
    }

    /// Whether `(ix, iy)` is a cell of the grid.
    pub open spec fn in_grid(self, ix: int, iy: int) -> bool {
        0 <= ix < self.nx && 0 <= iy < self.ny
    }

    /// The ids in the cell `(ix, iy)`.
    pub open spec fn cell(self, ix: int, iy: int) -> Set<u64> {
        self.cells[ix][iy]
    }

    /// The grid in which every cell that `occ` holds has `id`, or none has,
    /// as `present` says, and all else is as in this one.
    pub open spec fn with_membership(self, occ: Seq<u32>, id: u64, present: bool) -> GridView {
        GridView {
            nx: self.nx,
            ny: self.ny,
            cells: Seq::new(
                self.nx,
                |ix: int|
                    Seq::new(
                        self.ny,
                        |iy: int|
                            if occupies(occ, ix, iy) {
                                with_id(self.cell(ix, iy), id, present)
                            } else {
                                self.cell(ix, iy)
                            },
                    ),
            ),
        }
    }

    /// The grid with `id` added to every cell of `occ`.
    pub open spec fn inserted(self, occ: Seq<u32>, id: u64) -> GridView {
        self.with_membership(occ, id, true)
    }

    /// The grid with `id` taken out of every cell of `occ`.
    pub open spec fn removed(self, occ: Seq<u32>, id: u64) -> GridView {
        self.with_membership(occ, id, false)
    }

    /// The ids in the cells `(ix, y_lo)` up to but excluding `(ix, y_hi)`.
    pub open spec fn column_union(self, ix: int, y_lo: int, y_hi: int) -> Set<u64>
        decreases y_hi - y_lo,
    {
        if y_hi <= y_lo {
            Set::empty()
        } else {
            self.column_union(ix, y_lo, y_hi - 1).union(self.cell(ix, y_hi - 1))
        }
    }

    /// The ids in the cells of the columns `x_lo` up to but excluding
    /// `x_hi`, each from `y_lo` up to but excluding `y_hi`.
    pub open spec fn block_union(self, x_lo: int, x_hi: int, y_lo: int, y_hi: int) -> Set<u64>
        decreases x_hi - x_lo,
    {
        if x_hi <= x_lo {
            Set::empty()
        } else {
            self.block_union(x_lo, x_hi - 1, y_lo, y_hi).union(
                self.column_union(x_hi - 1, y_lo, y_hi),
            )
        }
    }

    /// Where a query up to the cell `i` ends in a grid of `n` cells: behind
    /// `i`, or at the end of the grid.
    pub open spec fn query_end(i: u32, n: nat) -> int {
        if i < n {
            i + 1
        } else {
            n as int
        }
    }

    /// The ids in the cells of the grid that lie between the corner cells
    /// `i1` and `i2`, both included.
    pub open spec fn nearby(self, i1: [u32; 2], i2: [u32; 2]) -> Set<u64> {
        self.block_union(
            i1[0] as int,
            Self::query_end(i2[0], self.nx),
            i1[1] as int,
            Self::query_end(i2[1], self.ny),
        )
    }
}

/// A grid of `nx` by `ny` cells, each a set of entity ids.
pub struct SpatialHashGrid {
    nx: u32,
    ny: u32,
    cells: Vec<Vec<HashSet<u64>>>,
}

impl View for SpatialHashGrid {
    type V = GridView;

    closed spec fn view(&self) -> GridView {
        GridView {
            nx: self.nx as nat,
            ny: self.ny as nat,
            cells: Seq::new(
                self.cells@.len(),
                |ix: int| Seq::new(self.cells@[ix]@.len(), |iy: int| self.cells@[ix]@[iy]@),
            ),
        }
    }
}

impl SpatialHashGrid {
    /// The grid has the cells that its dimensions say.
    pub closed spec fn wf(&self) -> bool {
        &&& self.cells@.len() == self.nx
        &&& forall|ix: int| 0 <= ix < self.nx ==> (#[trigger] self.cells@[ix])@.len() == self.ny
    }

    /// A well-formed grid has a well-formed view.
    pub proof fn lemma_wf(&self)
        requires
            self.wf(),
        ensures
            self@.wf(),
    {
    }

    /// A grid of `nx` by `ny` empty cells.
    pub fn new(nx: u32, ny: u32) -> (grid: SpatialHashGrid)
        ensures
            grid.wf(),
            grid@.nx == nx,
            grid@.ny == ny,
            forall|ix: int, iy: int|
                grid@.in_grid(ix, iy) ==> grid@.cell(ix, iy) == Set::<u64>::empty(),
            tracks(grid@, Map::<u64, Seq<u32>>::empty()),
    {
        let mut cells: Vec<Vec<HashSet<u64>>> = Vec::new();
        let mut x: u32 = 0;
        while x < nx
            invariant
                x <= nx,
                cells@.len() == x,
                forall|ix: int| 0 <= ix < x ==> (#[trigger] cells@[ix])@.len() == ny,
                forall|ix: int, iy: int|
                    0 <= ix < x && 0 <= iy < ny ==> (#[trigger] cells@[ix]@[iy])@ == Set::<
                        u64,
                    >::empty(),
            decreases nx - x,
        {
            let mut column: Vec<HashSet<u64>> = Vec::new();
            let mut y: u32 = 0;
            while y < ny
                invariant
                    y <= ny,
                    column@.len() == y,
                    forall|iy: int|
                        0 <= iy < y ==> (#[trigger] column@[iy])@ == Set::<u64>::empty(),
                decreases ny - y,
            {
                column.push(HashSet::new());
                y = y + 1;
            }
            cells.push(column);
            x = x + 1;
        }
        SpatialHashGrid { nx, ny, cells }
    }

    /// How many columns of cells the grid has.
    pub fn columns(&self) -> (nx: u32)
        ensures
            nx == self@.nx,
    {
        self.nx
    }

    /// How many cells each column has.
    pub fn rows(&self) -> (ny: u32)
        ensures
            ny == self@.ny,
    {
        self.ny
    }

    /// Whether the cell `(ix, iy)` holds `id`. A cell outside the grid holds
    /// nothing.
    pub fn cell_contains(&self, ix: u32, iy: u32, id: u64) -> (found: bool)
        requires
            self.wf(),
        ensures
            found == (self@.in_grid(ix as int, iy as int) && self@.cell(
                ix as int,
                iy as int,
            ).contains(id)),
    {
        if ix < self.nx && iy < self.ny {
            self.cells[ix as usize][iy as usize].contains(&id)
        } else {
            false
        }
    }

    /// The ids of every cell, column by column, each id of a cell once.
    pub fn get_cells(&self) -> (cells: Vec<Vec<Vec<u64>>>)
        requires
            self.wf(),
        ensures
            cells@.len() == self@.nx,
            forall|ix: int| 0 <= ix < self@.nx ==> (#[trigger] cells@[ix])@.len() == self@.ny,
            forall|ix: int, iy: int|
                self@.in_grid(ix, iy) ==> (#[trigger] cells@[ix]@[iy])@.no_duplicates()
                    && cells@[ix]@[iy]@.to_set() == self@.cell(ix, iy),
    {
        let mut cells: Vec<Vec<Vec<u64>>> = Vec::new();
        let mut x: usize = 0;
        while x < self.cells.len()
            invariant
                self.wf(),
                x <= self.cells@.len(),
                cells@.len() == x,
                forall|ix: int| 0 <= ix < x ==> (#[trigger] cells@[ix])@.len() == self.ny,
                forall|ix: int, iy: int|
                    0 <= ix < x && 0 <= iy < self.ny ==> (
                    #[trigger] cells@[ix]@[iy])@.no_duplicates() && cells@[ix]@[iy]@.to_set()
                        == self.cells@[ix]@[iy]@,
            decreases self.cells@.len() - x,
        {
            let mut column: Vec<Vec<u64>> = Vec::new();
            let mut y: usize = 0;
            while y < self.cells[x].len()
                invariant
                    self.wf(),
                    x < self.cells@.len(),
                    y <= self.cells@[x as int]@.len(),
                    column@.len() == y,
                    forall|iy: int|
                        0 <= iy < y ==> (#[trigger] column@[iy])@.no_duplicates()
                            && column@[iy]@.to_set() == self.cells@[x as int]@[iy]@,
                decreases self.cells@[x as int]@.len() - y,
            {
                column.push(to_vec(&self.cells[x][y]));
                y = y + 1;
            }
            cells.push(column);
            x = x + 1;
        }
        cells
    }

    /// Puts `id` into every cell of `occ` that the grid has, or takes it out
    /// of every one, as `present` says.
    fn set_membership(&mut self, occ: &Vec<u32>, id: u64, present: bool)
        requires
            old(self).wf(),
            occ@.len() == 4,
        ensures
            final(self).wf(),
            final(self)@ == old(self)@.with_membership(occ@, id, present),
    {
        let x_lo = occ[0];
        let y_lo = occ[1];
        let x_end = if occ[2] < self.nx {
            occ[2] + 1
        } else {
            self.nx
        };
        let y_end = if occ[3] < self.ny {
            occ[3] + 1
        } else {
            self.ny
        };
        let ghost before = self@;
        let mut x = x_lo;
        while x < x_end
            invariant
                self.nx == old(self).nx,
                self.ny == old(self).ny,
                self.wf(),
                before == old(self)@,
                occ@.len() == 4,
                x_lo == occ@[0],
                y_lo == occ@[1],
                x_end == GridView::query_end(occ@[2], self.nx as nat),
                y_end == GridView::query_end(occ@[3], self.ny as nat),
                x_lo <= x,
                forall|ix: int, iy: int|
                    0 <= ix < self.nx && 0 <= iy < self.ny ==> #[trigger] self.cells@[ix]@[iy]@ == (
                    if occupies(occ@, ix, iy) && ix < x {
                        with_id(before.cell(ix, iy), id, present)
                    } else {
                        before.cell(ix, iy)
                    }),
            decreases x_end - x,
        {
            let mut y = y_lo;
            while y < y_end
                invariant
                    self.nx == old(self).nx,
                    self.ny == old(self).ny,
                    self.wf(),
                    before == old(self)@,
                    occ@.len() == 4,
                    x_lo == occ@[0],
                    y_lo == occ@[1],
                    x_end == GridView::query_end(occ@[2], self.nx as nat),
                    y_end == GridView::query_end(occ@[3], self.ny as nat),
                    x_lo <= x < x_end,
                    y_lo <= y,
                    forall|ix: int, iy: int|
                        0 <= ix < self.nx && 0 <= iy < self.ny ==> #[trigger] self.cells@[ix]@[iy]@
                            == (if occupies(occ@, ix, iy) && (ix < x || (ix == x && iy < y)) {
                            with_id(before.cell(ix, iy), id, present)
                        } else {
                            before.cell(ix, iy)
                        }),
                decreases y_end - y,
            {
                if present {
                    self.cells[x as usize][y as usize].insert(id);
                } else {
                    self.cells[x as usize][y as usize].remove(&id);
                }
                y = y + 1;
            }
            x = x + 1;
        }
        proof {
            let after = self@;
            let target = before.with_membership(occ@, id, present);
            assert(after.cells.len() == target.cells.len());
            assert forall|ix: int| 0 <= ix < after.cells.len() implies after.cells[ix]
                == target.cells[ix] by {
                assert(self.cells@[ix]@.len() == self.ny);
                assert forall|iy: int| 0 <= iy < self.ny implies after.cells[ix][iy]
                    == target.cells[ix][iy] by {
                    assert(after.cells[ix][iy] == self.cells@[ix]@[iy]@);
                }
                assert(after.cells[ix] =~= target.cells[ix]);
            }
            assert(after.cells =~= target.cells);
        }
    }

    /// Enters the client into the cells that its corners span.
    fn _insert(&mut self, client: &Client) -> (indexes: Vec<u32>)
        requires
            old(self).wf(),
        ensures
            final(self).wf(),
            indexes@ == occupancy_of(client.indexes[0], client.indexes[1]),
            final(self)@ == old(self)@.inserted(indexes@, client.id),
    {
        let mut indexes: Vec<u32> = Vec::new();
        indexes.push(client.indexes[0][0]);
        indexes.push(client.indexes[0][1]);
        indexes.push(client.indexes[1][0]);
        indexes.push(client.indexes[1][1]);
        assert(indexes@ =~= occupancy_of(client.indexes[0], client.indexes[1]));
        self.set_membership(&indexes, client.id, true);
        indexes
    }

    /// Enters the entity `id`, whose extent reaches from the cell `i1` to
    /// the cell `i2`, into every cell of the grid between the two. The
    /// result is the occupancy to hand back when the entity moves or leaves.
    pub fn create_client(&mut self, i1: [u32; 2], i2: [u32; 2], id: u64) -> (indexes: Vec<u32>)
        requires
            old(self).wf(),
        ensures
            final(self).wf(),
            indexes@ == occupancy_of(i1, i2),
            final(self)@ == old(self)@.inserted(indexes@, id),
            forall|entities: Map<u64, Seq<u32>>|
                #[trigger] tracks(old(self)@, entities) && !entities.dom().contains(id) ==> tracks(
                    final(self)@,
                    entities.insert(id, indexes@),
                ),
    {
        let client = Client { indexes: [i1, i2], id };
        let indexes = self._insert(&client);
        proof {
            old(self).lemma_wf();
            assert forall|entities: Map<u64, Seq<u32>>|
                #[trigger] tracks(old(self)@, entities) && !entities.dom().contains(
                    id,
                ) implies tracks(self@, entities.insert(id, indexes@)) by {
                lemma_insert_keeps_track(old(self)@, entities, indexes@, id);
            }
        }
        indexes
    }

    /// Takes the entity `id` out of every cell of the grid that the
    /// occupancy `indexes` holds.
    pub fn remove(&mut self, indexes: Vec<u32>, id: u64)
        requires
            old(self).wf(),
            indexes@.len() == 4,
        ensures
            final(self).wf(),
            final(self)@ == old(self)@.removed(indexes@, id),
            forall|entities: Map<u64, Seq<u32>>|
                #[trigger] tracks(old(self)@, entities) && entities.dom().contains(id)
                    && entities[id] == indexes@ ==> tracks(final(self)@, entities.remove(id)),
    {
        self.set_membership(&indexes, id, false);
        proof {
            old(self).lemma_wf();
            assert forall|entities: Map<u64, Seq<u32>>|
                #[trigger] tracks(old(self)@, entities) && entities.dom().contains(id)
                    && entities[id] == indexes@ implies tracks(self@, entities.remove(id)) by {
                lemma_remove_keeps_track(old(self)@, entities, id);
            }
        }
    }

    /// Moves the entity `id` from the occupancy `indexes` to the cells
    /// between `i1` and `i2`. The result is its new occupancy.
    pub fn update(&mut self, i1: [u32; 2], i2: [u32; 2], indexes: Vec<u32>, id: u64) -> (moved:
        Vec<u32>)
        requires
            old(self).wf(),
            indexes@.len() == 4,
        ensures
            final(self).wf(),
            moved@ == occupancy_of(i1, i2),
            final(self)@ == old(self)@.removed(indexes@, id).inserted(moved@, id),
            forall|entities: Map<u64, Seq<u32>>|
                #[trigger] tracks(old(self)@, entities) && entities.dom().contains(id)
                    && entities[id] == indexes@ ==> tracks(
                    final(self)@,
                    entities.insert(id, moved@),
                ),
    {
        self.remove(indexes, id);
        let moved = self.create_client(i1, i2, id);
        proof {
            old(self).lemma_wf();
            assert forall|entities: Map<u64, Seq<u32>>|
                #[trigger] tracks(old(self)@, entities) && entities.dom().contains(id)
                    && entities[id] == indexes@ implies tracks(
                self@,
                entities.insert(id, moved@),
            ) by {
                lemma_update_keeps_track(old(self)@, entities, moved@, id);
            }
        }
        moved
    }

    /// The ids of the entities in the cells of the grid between the corner
    /// cells `i1` and `i2` of a query, each id once. Where the grid holds
    /// exactly the entities of a register, these are the entities whose
    /// occupancy shares a cell of the grid with the query.
    pub fn find_nearby(&mut self, i1: [u32; 2], i2: [u32; 2]) -> (found: Vec<u64>)
        requires
            old(self).wf(),
        ensures
            final(self).wf(),
            final(self)@ == old(self)@,
            found@.no_duplicates(),
            found@.to_set() == old(self)@.nearby(i1, i2),
            forall|entities: Map<u64, Seq<u32>>, id: u64|
                #![trigger tracks(old(self)@, entities), found@.contains(id)]
                tracks(old(self)@, entities) ==> (found@.contains(id) <==> entities.dom().contains(
                    id,
                ) && overlaps(old(self)@, entities[id], i1, i2)),
    {
        proof {
            self.lemma_wf();
        }
        let x_lo = i1[0];
        let y_lo = i1[1];
        let x_end = if i2[0] < self.nx {
            i2[0] + 1
        } else {
            self.nx
        };
        let y_end = if i2[1] < self.ny {
            i2[1] + 1
        } else {
            self.ny
        };
        let ghost grid = self@;
        let mut clients: HashSet<u64> = HashSet::new();
        let mut x = x_lo;
        while x < x_end
            invariant
                self.wf(),
                grid == self@,
                x_end <= self.nx,
                y_end <= self.ny,
                x_lo <= x,
                x <= x_end || x == x_lo,
                clients@ == grid.block_union(x_lo as int, x as int, y_lo as int, y_end as int),
            decreases x_end - x,
        {
            let ghost done = clients@;
            let mut y = y_lo;
            while y < y_end
                invariant
                    self.wf(),
                    grid == self@,
                    x < x_end <= self.nx,
                    y_end <= self.ny,
                    y_lo <= y,
                    y <= y_end || y == y_lo,
                    clients@ == done.union(grid.column_union(x as int, y_lo as int, y as int)),
                decreases y_end - y,
            {
                add_all(&mut clients, &self.cells[x as usize][y as usize]);
                assert(clients@ =~= done.union(
                    grid.column_union(x as int, y_lo as int, y as int + 1),
                ));
                y = y + 1;
            }
            assert(grid.column_union(x as int, y_lo as int, y as int) == grid.column_union(
                x as int,
                y_lo as int,
                y_end as int,
            ));
            x = x + 1;
        }
        assert(grid.block_union(x_lo as int, x as int, y_lo as int, y_end as int)
            == grid.block_union(x_lo as int, x_end as int, y_lo as int, y_end as int));
        let found = to_vec(&clients);
        proof {
            assert forall|entities: Map<u64, Seq<u32>>, id: u64|
                #![trigger tracks(grid, entities), found@.contains(id)]
                tracks(grid, entities) implies (found@.contains(id) <==> entities.dom().contains(id)
                && overlaps(grid, entities[id], i1, i2)) by {
                lemma_nearby_finds_overlapping(grid, entities, i1, i2, id);
                assert(found@.contains(id) <==> found@.to_set().contains(id));
            }
        }
        found
    }
}

/// Adds the ids of `cell` to `clients`.
fn add_all(clients: &mut HashSet<u64>, cell: &HashSet<u64>)
    ensures
        final(clients)@ == old(clients)@.union(cell@),
{
    let ghost keys = spec_hash_keys_iter(cell).remaining();
    for id in it: cell.iter()
        invariant
            it.seq() == keys,
            keys.unref().to_set() == cell@,
            forall|a: u64| old(clients)@.contains(a) ==> clients@.contains(a),
            forall|j: int| 0 <= j < it.index() ==> clients@.contains(*#[trigger] keys[j]),
            forall|a: u64| clients@.contains(a) ==> old(clients)@.contains(a) || cell@.contains(a),
    {
        assert(keys.unref()[it.index()] == *id);
        assert(keys.unref().contains(*id));
        clients.insert(*id);
    }
    assert forall|a: u64| cell@.contains(a) implies clients@.contains(a) by {
        assert(keys.unref().contains(a));
        let j = choose|j: int| 0 <= j < keys.unref().len() && keys.unref()[j] == a;
        assert(*keys[j] == a);
    }
    assert(clients@ =~= old(clients)@.union(cell@));
}

/// The ids of `set`, each once.
fn to_vec(set: &HashSet<u64>) -> (ids: Vec<u64>)
    ensures
        ids@.no_duplicates(),
        ids@.to_set() == set@,
{
    let mut ids: Vec<u64> = Vec::new();
    let ghost keys = spec_hash_keys_iter(set).remaining();
    for id in it: set.iter()
        invariant
            it.seq() == keys,
            ids@.len() == it.index(),
            forall|j: int| 0 <= j < ids@.len() ==> ids@[j] == *keys[j],
    {
        ids.push(*id);
    }
    assert(ids@ =~= keys.unref());
    ids
}

/// An id is in a run of cells of a column exactly if one of the cells holds
/// it.
pub proof fn lemma_column_union(g: GridView, ix: int, y_lo: int, y_hi: int, id: u64)
    ensures
        g.column_union(ix, y_lo, y_hi).contains(id) <==> exists|iy: int|
            y_lo <= iy < y_hi && #[trigger] g.cell(ix, iy).contains(id),
    decreases y_hi - y_lo,
{
    if y_hi > y_lo {
        lemma_column_union(g, ix, y_lo, y_hi - 1, id);
        if g.column_union(ix, y_lo, y_hi).contains(id) {
            if !g.cell(ix, y_hi - 1).contains(id) {
                let iy = choose|iy: int|
                    y_lo <= iy < y_hi - 1 && #[trigger] g.cell(ix, iy).contains(id);
                assert(y_lo <= iy < y_hi && g.cell(ix, iy).contains(id));
            }
        }
        if exists|iy: int| y_lo <= iy < y_hi && #[trigger] g.cell(ix, iy).contains(id) {
            let iy = choose|iy: int| y_lo <= iy < y_hi && #[trigger] g.cell(ix, iy).contains(id);
            if iy < y_hi - 1 {
                assert(y_lo <= iy < y_hi - 1 && g.cell(ix, iy).contains(id));
            }
        }
    }
}

/// An id is in a block of cells exactly if one of the cells holds it.
pub proof fn lemma_block_union(g: GridView, x_lo: int, x_hi: int, y_lo: int, y_hi: int, id: u64)
    ensures
        g.block_union(x_lo, x_hi, y_lo, y_hi).contains(id) <==> exists|ix: int, iy: int|
            x_lo <= ix < x_hi && y_lo <= iy < y_hi && #[trigger] g.cell(ix, iy).contains(id),
    decreases x_hi - x_lo,
{
    if x_hi > x_lo {
        lemma_block_union(g, x_lo, x_hi - 1, y_lo, y_hi, id);
        lemma_column_union(g, x_hi - 1, y_lo, y_hi, id);
        if g.block_union(x_lo, x_hi, y_lo, y_hi).contains(id) {
            if g.column_union(x_hi - 1, y_lo, y_hi).contains(id) {
                let iy = choose|iy: int|
                    y_lo <= iy < y_hi && #[trigger] g.cell(x_hi - 1, iy).contains(id);
                assert(x_lo <= x_hi - 1 < x_hi && y_lo <= iy < y_hi && g.cell(
                    x_hi - 1,
                    iy,
                ).contains(id));
            } else {
                let (ix, iy) = choose|ix: int, iy: int|
                    x_lo <= ix < x_hi - 1 && y_lo <= iy < y_hi && #[trigger] g.cell(
                        ix,
                        iy,
                    ).contains(id);
                assert(x_lo <= ix < x_hi && y_lo <= iy < y_hi && g.cell(ix, iy).contains(id));
            }
        }
        if exists|ix: int, iy: int|
            x_lo <= ix < x_hi && y_lo <= iy < y_hi && #[trigger] g.cell(ix, iy).contains(id) {
            let (ix, iy) = choose|ix: int, iy: int|
                x_lo <= ix < x_hi && y_lo <= iy < y_hi && #[trigger] g.cell(ix, iy).contains(id);
            if ix < x_hi - 1 {
                assert(x_lo <= ix < x_hi - 1 && y_lo <= iy < y_hi && g.cell(ix, iy).contains(id));
            } else {
                assert(y_lo <= iy < y_hi && g.cell(x_hi - 1, iy).contains(id));
            }
        }
    }
}

/// Whether the grid `g` holds exactly the entities of `entities`, each in
/// exactly the cells of its occupancy: a cell holds an id if and only if the
/// id is that of a present entity whose occupancy holds the cell.
pub open spec fn tracks(g: GridView, entities: Map<u64, Seq<u32>>) -> bool {
    forall|id: u64, ix: int, iy: int|
        g.in_grid(ix, iy) ==> (#[trigger] g.cell(ix, iy).contains(id) <==> entities.dom().contains(
            id,
        ) && occupies(entities[id], ix, iy))
}

/// A grid of empty cells holds exactly no entities.
pub proof fn lemma_empty_grid_tracks(g: GridView)
    requires
        g.wf(),
        forall|ix: int, iy: int| g.in_grid(ix, iy) ==> g.cell(ix, iy) == Set::<u64>::empty(),
    ensures
        tracks(g, Map::<u64, Seq<u32>>::empty()),
{
}

/// Entering an entity that is not present keeps the grid and the entities
/// in step.
pub proof fn lemma_insert_keeps_track(
    g: GridView,
    entities: Map<u64, Seq<u32>>,
    occ: Seq<u32>,
    id: u64,
)
    requires
        g.wf(),
        tracks(g, entities),
        !entities.dom().contains(id),
    ensures
        g.inserted(occ, id).wf(),
        tracks(g.inserted(occ, id), entities.insert(id, occ)),
{
    let after = g.inserted(occ, id);
    let now = entities.insert(id, occ);
    assert forall|other: u64, ix: int, iy: int| after.in_grid(ix, iy) implies (
    #[trigger] after.cell(ix, iy).contains(other) <==> now.dom().contains(other) && occupies(
        now[other],
        ix,
        iy,
    )) by {
        assert(g.in_grid(ix, iy));
        assert(g.cell(ix, iy).contains(other) <==> entities.dom().contains(other) && occupies(
            entities[other],
            ix,
            iy,
        ));
    }
}

/// Taking out a present entity by its occupancy keeps the grid and the
/// entities in step.
pub proof fn lemma_remove_keeps_track(g: GridView, entities: Map<u64, Seq<u32>>, id: u64)
    requires
        g.wf(),
        tracks(g, entities),
        entities.dom().contains(id),
    ensures
        g.removed(entities[id], id).wf(),
        tracks(g.removed(entities[id], id), entities.remove(id)),
{
    let after = g.removed(entities[id], id);
    let now = entities.remove(id);
    assert forall|other: u64, ix: int, iy: int| after.in_grid(ix, iy) implies (
    #[trigger] after.cell(ix, iy).contains(other) <==> now.dom().contains(other) && occupies(
        now[other],
        ix,
        iy,
    )) by {
        assert(g.in_grid(ix, iy));
        assert(g.cell(ix, iy).contains(other) <==> entities.dom().contains(other) && occupies(
            entities[other],
            ix,
            iy,
        ));
    }
}

/// Moving a present entity from its occupancy to another keeps the grid and
/// the entities in step.
pub proof fn lemma_update_keeps_track(
    g: GridView,
    entities: Map<u64, Seq<u32>>,
    occ: Seq<u32>,
    id: u64,
)
    requires
        g.wf(),
        tracks(g, entities),
        entities.dom().contains(id),
    ensures
        tracks(g.removed(entities[id], id).inserted(occ, id), entities.insert(id, occ)),
{
    lemma_remove_keeps_track(g, entities, id);
    lemma_insert_keeps_track(g.removed(entities[id], id), entities.remove(id), occ, id);
    assert(entities.remove(id).insert(id, occ) =~= entities.insert(id, occ));
}

/// Whether the occupancy `occ` shares a cell of the grid with the rectangle
/// between the corner cells `i1` and `i2`.
pub open spec fn overlaps(g: GridView, occ: Seq<u32>, i1: [u32; 2], i2: [u32; 2]) -> bool {
    exists|ix: int, iy: int|
        g.in_grid(ix, iy) && i1[0] <= ix <= i2[0] && i1[1] <= iy <= i2[1] && #[trigger] occupies(
            occ,
            ix,
            iy,
        )
}

/// A query finds exactly the present entities whose occupancy shares a cell
/// of the grid with the rectangle of the query. So it finds every entity
/// whose own cell lies between the corner cells of the query, and with it
/// every entity whose position lies within the range of the query, as long
/// as cell indices grow with positions.
pub proof fn lemma_nearby_finds_overlapping(
    g: GridView,
    entities: Map<u64, Seq<u32>>,
    i1: [u32; 2],
    i2: [u32; 2],
    id: u64,
)
    requires
        g.wf(),
        tracks(g, entities),
    ensures
        g.nearby(i1, i2).contains(id) <==> entities.dom().contains(id) && overlaps(
            g,
            entities[id],
            i1,
            i2,
        ),
{
    let x_lo = i1[0] as int;
    let y_lo = i1[1] as int;
    let x_end = GridView::query_end(i2[0], g.nx);
    let y_end = GridView::query_end(i2[1], g.ny);
    lemma_block_union(g, x_lo, x_end, y_lo, y_end, id);
    if g.nearby(i1, i2).contains(id) {
        let (ix, iy) = choose|ix: int, iy: int|
            x_lo <= ix < x_end && y_lo <= iy < y_end && #[trigger] g.cell(ix, iy).contains(id);
        assert(g.in_grid(ix, iy));
        assert(occupies(entities[id], ix, iy));
    }
    if entities.dom().contains(id) && exists|ix: int, iy: int|
        g.in_grid(ix, iy) && i1[0] <= ix <= i2[0] && i1[1] <= iy <= i2[1] && #[trigger] occupies(
            entities[id],
            ix,
            iy,
        ) {
        let (ix, iy) = choose|ix: int, iy: int|
            g.in_grid(ix, iy) && i1[0] <= ix <= i2[0] && i1[1] <= iy <= i2[1]
                && #[trigger] occupies(entities[id], ix, iy);
        assert(g.cell(ix, iy).contains(id));
        assert(x_lo <= ix < x_end && y_lo <= iy < y_end && g.cell(ix, iy).contains(id));
    }
}

/// Whether `cell` never maps the greater of two coordinates to the lesser
/// cell index, and maps every coordinate to one of `n` cells.
pub open spec fn grows_with_position(cell: spec_fn(int) -> int, n: nat) -> bool {
    &&& forall|a: int, b: int| a <= b ==> #[trigger] cell(a) <= #[trigger] cell(b)
    &&& forall|a: int| 0 <= #[trigger] cell(a) < n
}

/// A query finds every entity whose position lies within its range. Stated
/// for coordinates on any scale of whole numbers and any map from
/// coordinates to cell indices that grows with them: the entity occupies the
/// cells between those of the corners of its extent, the query covers the
/// cells between those of the corners of its range, and the position lies in
/// both.
pub proof fn lemma_nearby_covers_range(
    g: GridView,
    entities: Map<u64, Seq<u32>>,
    id: u64,
    cell_x: spec_fn(int) -> int,
    cell_y: spec_fn(int) -> int,
    position: (int, int),
    extent: ((int, int), (int, int)),
    range: ((int, int), (int, int)),
    i1: [u32; 2],
    i2: [u32; 2],
)
    requires
        g.wf(),
        tracks(g, entities),
        grows_with_position(cell_x, g.nx),
        grows_with_position(cell_y, g.ny),
        entities.dom().contains(id),
        entities[id].len() == 4,
        entities[id][0] == cell_x(extent.0.0),
        entities[id][1] == cell_y(extent.0.1),
        entities[id][2] == cell_x(extent.1.0),
        entities[id][3] == cell_y(extent.1.1),
        extent.0.0 <= position.0 <= extent.1.0,
        extent.0.1 <= position.1 <= extent.1.1,
        i1[0] == cell_x(range.0.0),
        i1[1] == cell_y(range.0.1),
        i2[0] == cell_x(range.1.0),
        i2[1] == cell_y(range.1.1),
        range.0.0 <= position.0 <= range.1.0,
        range.0.1 <= position.1 <= range.1.1,
    ensures
        g.nearby(i1, i2).contains(id),
{
    let ix = cell_x(position.0);
    let iy = cell_y(position.1);
    assert(g.in_grid(ix, iy));
    assert(occupies(entities[id], ix, iy));
    lemma_nearby_finds_overlapping(g, entities, i1, i2, id);
}

} // verus!
