//! The level grid of the world: levels tile the plane in cells of one level
//! size each, the cell (0, 0) having its upper left corner at the origin.
//! World positions have y pointing up; level data has y pointing down.
use vstd::prelude::*;

verus! {

/// Width of a level, in pixels.
pub const LEVEL_WIDTH: i64 = 512;

/// Height of a level, in pixels.
pub const LEVEL_HEIGHT: i64 = 288;

/// The cell that holds the point `(x, y)` of level data (y down).
pub open spec fn cell_of_level_point(x: int, y: int) -> (int, int) {
    (x / LEVEL_WIDTH as int, y / LEVEL_HEIGHT as int)
}

/// The cell that holds the world point `(x, y)` (y up).
pub open spec fn cell_of_world_point(x: int, y: int) -> (int, int) {
    cell_of_level_point(x, -y)
}

/// The world position of the center of cell `(cx, cy)`.
pub open spec fn cell_center(cx: int, cy: int) -> (int, int) {
    (cx * LEVEL_WIDTH + LEVEL_WIDTH / 2, -(cy * LEVEL_HEIGHT + LEVEL_HEIGHT / 2))
}

/// `v / d`, rounded down.
fn floor_div(v: i64, d: i64) -> (r: i64)
    requires
        d > 0,
        v > i64::MIN,
    ensures
        r == v as int / d as int,
{
    if v >= 0 {
        v / d
    } else {
        let m = (-(v + 1)) / d;
        proof {
            let x = -(v + 1);
            vstd::arithmetic::div_mod::lemma_fundamental_div_mod(x as int, d as int);
            let q = x as int / d as int;
            let rem = x as int % d as int;
            assert(v == (-q - 1) * d + (d - rem - 1)) by (nonlinear_arith)
                requires
                    x == q * d + rem,
                    x == -(v + 1),
            ;
            vstd::arithmetic::div_mod::lemma_fundamental_div_mod_converse(
                v as int,
                d as int,
                -q - 1,
                d - rem - 1,
            );
        }
        -m - 1
    }
}

/// Position of a level in the grid.
#[derive(Debug, Clone, Copy, PartialEq, Eq, Hash, Default, Structural)]
pub struct GridCoords {
    pub x: i32,
    pub y: i32,
}

impl GridCoords {
    pub open spec fn spec_cell(self) -> (int, int) {
        (self.x as int, self.y as int)
    }

    pub fn new(coords: (i32, i32)) -> (r: GridCoords)
        ensures
            r.x == coords.0,
            r.y == coords.1,
    {
        GridCoords { x: coords.0, y: coords.1 }
    }

    pub fn get(&self) -> (r: (i32, i32))
        ensures
            r == (self.x, self.y),
    {
        (self.x, self.y)
    }

    /// The cell that holds a point of level data (y down), in whole pixels.
    pub fn from_level_position(x: i32, y: i32) -> (r: GridCoords)
        ensures
            r.spec_cell() == cell_of_level_point(x as int, y as int),
    {
        let cx = floor_div(x as i64, LEVEL_WIDTH);
        let cy = floor_div(y as i64, LEVEL_HEIGHT);
        proof {
            vstd::arithmetic::div_mod::lemma_div_is_ordered(i32::MIN as int, x as int, 512);
            vstd::arithmetic::div_mod::lemma_div_is_ordered(x as int, i32::MAX as int, 512);
            vstd::arithmetic::div_mod::lemma_div_is_ordered(i32::MIN as int, y as int, 288);
            vstd::arithmetic::div_mod::lemma_div_is_ordered(y as int, i32::MAX as int, 288);
        }
        GridCoords { x: cx as i32, y: cy as i32 }
    }

    /// The cell that holds a world position (y up), in whole pixels; a
    /// fractional position is first rounded down on both axes.
    pub fn from_world_position(position: (i32, i32)) -> (r: GridCoords)
        ensures
            r.spec_cell() == cell_of_world_point(position.0 as int, position.1 as int),
    {
        let x = floor_div(position.0 as i64, LEVEL_WIDTH);
        let y = floor_div(-(position.1 as i64), LEVEL_HEIGHT);
        proof {
            let px = position.0 as int;
            let py = -(position.1 as int);
            vstd::arithmetic::div_mod::lemma_div_is_ordered(i32::MIN as int, px, 512);
            vstd::arithmetic::div_mod::lemma_div_is_ordered(px, i32::MAX as int, 512);
            vstd::arithmetic::div_mod::lemma_div_is_ordered(-(i32::MAX as int), py, 288);
            vstd::arithmetic::div_mod::lemma_div_is_ordered(py, i32::MAX as int + 1, 288);
        }
        GridCoords { x: x as i32, y: y as i32 }
    }

    /// The world position of the center of the level at these coordinates.
    pub fn center(&self) -> (r: (i64, i64))
        ensures
            (r.0 as int, r.1 as int) == cell_center(self.x as int, self.y as int),
    {
        let x = self.x as i64 * LEVEL_WIDTH + LEVEL_WIDTH / 2;
        let y = self.y as i64 * LEVEL_HEIGHT + LEVEL_HEIGHT / 2;
        (x, -y)
    }
}

/// The grid cell of the level whose data the world shows: it follows the
/// player from cell to cell.
#[derive(Debug, Clone, Copy, PartialEq, Eq, Default, Structural)]
pub struct GridLevelSelection(pub GridCoords);

impl GridLevelSelection {
    pub fn new(coords: GridCoords) -> (r: GridLevelSelection)
        ensures
            r.0 == coords,
    {
        GridLevelSelection(coords)
    }

    /// Moves the selection to the cell of the player's world position, and
    /// tells whether it changed.
    pub fn follow_player(&mut self, position: (i32, i32)) -> (changed: bool)
        ensures
            final(self).0.spec_cell() == cell_of_world_point(position.0 as int, position.1 as int),
            changed == (final(self).0 != old(self).0),
    {
        let cell = GridCoords::from_world_position(position);
        if cell != self.0 {
            self.0 = cell;
            true
        } else {
            false
        }
    }
}

/// A level as the level data lists it: the position of its upper left
/// corner (y down) and its identifier.
#[derive(Debug, Clone)]
pub struct RawLevel {
    pub world_x: i32,
    pub world_y: i32,
    pub iid: String,
}

/// The cell of a listed level.
pub open spec fn raw_level_cell(l: RawLevel) -> GridCoords {
    let c = cell_of_level_point(l.world_x as int, l.world_y as int);
    GridCoords { x: c.0 as i32, y: c.1 as i32 }
}

/// The map from cells to level identifiers that a list of levels gives;
/// where two levels share a cell, the later one wins.
pub open spec fn raw_levels_map(levels: Seq<RawLevel>) -> Map<GridCoords, Seq<char>>
    decreases levels.len(),
{
    if levels.len() == 0 {
        Map::empty()
    } else {
        let last = levels.last();
        raw_levels_map(levels.drop_last()).insert(raw_level_cell(last), last.iid@)
    }
}

/// The map that a list of distinct cells with their identifiers stands for.
pub closed spec fn entries_map(entries: Seq<(GridCoords, String)>) -> Map<GridCoords, Seq<char>> {
    Map::new(
        |k: GridCoords| exists|i: int| 0 <= i < entries.len() && entries[i].0 == k,
        |k: GridCoords|
            {
                let i = choose|i: int| 0 <= i < entries.len() && entries[i].0 == k;
                entries[i].1@
            },
    )
}

/// No two entries share a cell.
pub closed spec fn cells_distinct(entries: Seq<(GridCoords, String)>) -> bool {
    forall|i: int, j: int| 0 <= i < j < entries.len() ==> entries[i].0 != entries[j].0
}

/// Index of the entry of `coords`, if any.
fn find_cell(entries: &Vec<(GridCoords, String)>, coords: GridCoords) -> (r: Option<usize>)
    ensures
        match r {
            Some(i) => i < entries@.len() && entries@[i as int].0 == coords,
            None => forall|i: int| 0 <= i < entries@.len() ==> entries@[i].0 != coords,
        },
{
    let mut i: usize = 0;
    while i < entries.len()
        invariant
            i <= entries@.len(),
            forall|k: int| 0 <= k < i ==> entries@[k].0 != coords,
        decreases entries@.len() - i,
    {
        if entries[i].0 == coords {
            return Some(i);
        }
        i = i + 1;
    }
    None
}

/// Sets the identifier of a cell in a list of distinct cells.
fn set_cell(entries: &mut Vec<(GridCoords, String)>, coords: GridCoords, iid: String)
    requires
        cells_distinct(old(entries)@),
    ensures
        cells_distinct(final(entries)@),
        entries_map(final(entries)@) == entries_map(old(entries)@).insert(coords, iid@),
{
    let ghost old_entries = entries@;
    let ghost val = iid@;
    match find_cell(entries, coords) {
        Some(i) => {
            entries.set(i, (coords, iid));
            assert forall|k: GridCoords| #[trigger] entries_map(entries@).contains_key(k) implies entries_map(entries@)[k]
                == entries_map(old_entries).insert(coords, val)[k] by {
                let j = choose|j: int| 0 <= j < entries@.len() && entries@[j].0 == k;
                if k != coords {
                    assert(old_entries[j].0 == k);
                }
            }
            assert forall|k: GridCoords| #[trigger] entries_map(old_entries).contains_key(k) implies entries_map(entries@).contains_key(k) by {
                let j = choose|j: int| 0 <= j < old_entries.len() && old_entries[j].0 == k;
                assert(entries@[j].0 == k);
            }
            assert(entries_map(entries@).contains_key(coords)) by {
                assert(entries@[i as int].0 == coords);
            }
            assert forall|k: GridCoords| #[trigger] entries_map(entries@).contains_key(k) implies entries_map(old_entries).insert(coords, val).contains_key(k) by {
                let j = choose|j: int| 0 <= j < entries@.len() && entries@[j].0 == k;
                if k != coords {
                    assert(old_entries[j].0 == k);
                }
            }
        },
        None => {
            entries.push((coords, iid));
            let ghost n = old_entries.len() as int;
            assert forall|k: GridCoords| #[trigger] entries_map(entries@).contains_key(k) implies entries_map(entries@)[k]
                == entries_map(old_entries).insert(coords, val)[k] by {
                let j = choose|j: int| 0 <= j < entries@.len() && entries@[j].0 == k;
                if k != coords {
                    assert(old_entries[j].0 == k);
                } else {
                    assert(j == n);
                }
            }
            assert forall|k: GridCoords| #[trigger] entries_map(old_entries).contains_key(k) implies entries_map(entries@).contains_key(k) by {
                let j = choose|j: int| 0 <= j < old_entries.len() && old_entries[j].0 == k;
                assert(entries@[j].0 == k);
            }
            assert(entries_map(entries@).contains_key(coords)) by {
                assert(entries@[n].0 == coords);
            }
            assert forall|k: GridCoords| #[trigger] entries_map(entries@).contains_key(k) implies entries_map(old_entries).insert(coords, val).contains_key(k) by {
                let j = choose|j: int| 0 <= j < entries@.len() && entries@[j].0 == k;
                if k != coords {
                    assert(old_entries[j].0 == k);
                }
            }
        },
    }
    assert(entries_map(entries@) =~= entries_map(old_entries).insert(coords, val));
}

/// The identifier of the level at each cell of the grid.
#[derive(Debug)]
pub struct GridvaniaLevels {
    entries: Vec<(GridCoords, String)>,
}

impl View for GridvaniaLevels {
    type V = Map<GridCoords, Seq<char>>;

    closed spec fn view(&self) -> Map<GridCoords, Seq<char>> {
        entries_map(self.entries@)
    }
}

impl GridvaniaLevels {
    /// No two entries share a cell.
    #[verifier::type_invariant]
    closed spec fn inv(&self) -> bool {
        cells_distinct(self.entries@)
    }

    /// The map without any level.
    pub fn new() -> (r: GridvaniaLevels)
        ensures
            r@ == Map::<GridCoords, Seq<char>>::empty(),
    {
        let r = GridvaniaLevels { entries: Vec::new() };
        assert(r@ =~= Map::<GridCoords, Seq<char>>::empty());
        r
    }

    /// Sets the level of a cell, in place of any level it had.
    pub fn insert(&mut self, coords: GridCoords, iid: String)
        ensures
            final(self)@ == old(self)@.insert(coords, iid@),
    {
        proof {
            use_type_invariant(&*self);
        }
        let mut entries: Vec<(GridCoords, String)> = Vec::new();
        std::mem::swap(&mut entries, &mut self.entries);
        set_cell(&mut entries, coords, iid);
        self.entries = entries;
    }

    /// The identifier of the level at `coords`, if there is one.
    pub fn get_level_at(&self, coords: GridCoords) -> (r: Option<String>)
        ensures
            match r {
                Some(iid) => self@.contains_key(coords) && iid@ == self@[coords],
                None => !self@.contains_key(coords),
            },
    {
        proof {
            use_type_invariant(self);
        }
        match find_cell(&self.entries, coords) {
            Some(i) => {
                let iid = self.entries[i].1.clone();
                proof {
                    let j = choose|j: int| 0 <= j < self.entries@.len() && self.entries@[j].0 == coords;
                    assert(j == i as int);
                }
                Some(iid)
            },
            None => None,
        }
    }

    /// The map of a list of levels, each at the cell of its upper left
    /// corner; where two levels share a cell, the later one wins.
    pub fn from_raw_levels(levels: &Vec<RawLevel>) -> (r: GridvaniaLevels)
        ensures
            r@ == raw_levels_map(levels@),
    {
        let mut r = GridvaniaLevels::new();
        let mut i: usize = 0;
        while i < levels.len()
            invariant
                i <= levels@.len(),
                r@ == raw_levels_map(levels@.subrange(0, i as int)),
            decreases levels@.len() - i,
        {
            let level = &levels[i];
            let cell = GridCoords::from_level_position(level.world_x, level.world_y);
            r.insert(cell, level.iid.clone());
            assert(levels@.subrange(0, i + 1).drop_last() =~= levels@.subrange(0, i as int));
            i = i + 1;
        }
        assert(levels@.subrange(0, i as int) =~= levels@);
        r
    }
}

/// In the map of a list of levels, a level is found at its cell unless a
/// later level of the list has the same cell.
pub proof fn lemma_raw_levels_lookup(levels: Seq<RawLevel>, i: int)
    requires
        0 <= i < levels.len(),
        forall|j: int| i < j < levels.len() ==> raw_level_cell(levels[j]) != raw_level_cell(levels[i]),
    ensures
        raw_levels_map(levels).contains_key(raw_level_cell(levels[i])),
        raw_levels_map(levels)[raw_level_cell(levels[i])] == levels[i].iid@,
    decreases levels.len(),
{
    if i < levels.len() - 1 {
        let init = levels.drop_last();
        assert forall|j: int| i < j < init.len() implies raw_level_cell(init[j]) != raw_level_cell(
            init[i],
        ) by {
            assert(init[j] == levels[j]);
        }
        lemma_raw_levels_lookup(init, i);
    }
}

/// The center of a cell lies in that cell.
pub proof fn lemma_center_in_own_cell(cx: int, cy: int)
    ensures
        cell_of_world_point(cell_center(cx, cy).0, cell_center(cx, cy).1) == (cx, cy),
{
    vstd::arithmetic::div_mod::lemma_fundamental_div_mod_converse(
        cx * LEVEL_WIDTH + LEVEL_WIDTH / 2,
        LEVEL_WIDTH as int,
        cx,
        LEVEL_WIDTH / 2,
    );
    vstd::arithmetic::div_mod::lemma_fundamental_div_mod_converse(
        cy * LEVEL_HEIGHT + LEVEL_HEIGHT / 2,
        LEVEL_HEIGHT as int,
        cy,
        LEVEL_HEIGHT / 2,
    );
}

/// Every world point lies within half a level of the center of its cell,
/// on each axis.
pub proof fn lemma_point_near_center(x: int, y: int)
    ensures
        ({
            let c = cell_of_world_point(x, y);
            let m = cell_center(c.0, c.1);
            -(LEVEL_WIDTH / 2) <= x - m.0 < LEVEL_WIDTH / 2 && -(LEVEL_HEIGHT / 2) < y - m.1
                <= LEVEL_HEIGHT / 2
        }),
{
    vstd::arithmetic::div_mod::lemma_fundamental_div_mod(x, LEVEL_WIDTH as int);
    vstd::arithmetic::div_mod::lemma_fundamental_div_mod(-y, LEVEL_HEIGHT as int);
    vstd::arithmetic::div_mod::lemma_mod_bound(x, LEVEL_WIDTH as int);
    vstd::arithmetic::div_mod::lemma_mod_bound(-y, LEVEL_HEIGHT as int);
}

} // verus!
