//! The voxel height-map grid and its placement / pick-up rule engine.
//!
//! The grid owns one [`TileStack`] per `(x, y)` column: the stacked tile
//! contents from `z = 0` upward, a `civilized` flag (the top tile is a
//! structure) and a `flooded` flag (the column has been converted to water
//! by a flood pass).  All player actions are gated by the decision
//! procedures [`Grid::can_place`] and [`Grid::can_pick`], whose results are
//! pinned exactly by the spec functions [`Grid::spec_can_place`] and
//! [`Grid::spec_can_pick`].

use vstd::prelude::*;

use crate::tile::{TilePosition, TileType, MAX_DIM};

verus! {

/// Why a placement request was refused; surfaced to the player as tooltip
/// text, never fatal.
#[derive(Clone, Copy, PartialEq, Eq, Structural, Debug)]
pub enum PlaceRejectionReason {
    Invalid,
    Flooded,
    TooFar,
    TooHigh,
    NotShore,
    Occupied,
}

impl PlaceRejectionReason {
    /// The tooltip text shown for this rejection.
    pub open spec fn spec_text(self) -> Seq<char> {
        match self {
            PlaceRejectionReason::Invalid => "something is horribly wrong"@,
            PlaceRejectionReason::Flooded => "flooded"@,
            PlaceRejectionReason::TooFar => "too far from city"@,
            PlaceRejectionReason::TooHigh => "practically in space"@,
            PlaceRejectionReason::NotShore => "not a shore"@,
            PlaceRejectionReason::Occupied => "occupied"@,
        }
    }

    /// Executable twin of [`PlaceRejectionReason::spec_text`].
    pub fn text(&self) -> (r: &'static str)
        ensures
            r@ == self.spec_text(),
    {
        match self {
            PlaceRejectionReason::Invalid => "something is horribly wrong",
            PlaceRejectionReason::Flooded => "flooded",
            PlaceRejectionReason::TooFar => "too far from city",
            PlaceRejectionReason::TooHigh => "practically in space",
            PlaceRejectionReason::NotShore => "not a shore",
            PlaceRejectionReason::Occupied => "occupied",
        }
    }
}

/// Why a pick-up request was refused.
#[derive(Clone, Copy, PartialEq, Eq, Structural, Debug)]
pub enum PickRejectionReason {
    Invalid,
    Flooded,
    TooFar,
    TooDeep,
    Occupied,
}

impl PickRejectionReason {
    /// The tooltip text shown for this rejection.
    pub open spec fn spec_text(self) -> Seq<char> {
        match self {
            PickRejectionReason::Invalid => "something is horribly wrong"@,
            PickRejectionReason::Flooded => "flooded"@,
            PickRejectionReason::TooFar => "too far from city"@,
            PickRejectionReason::TooDeep => "can't dig deeper"@,
            PickRejectionReason::Occupied => "can't pick up more"@,
        }
    }

    /// Executable twin of [`PickRejectionReason::spec_text`].
    pub fn text(&self) -> (r: &'static str)
        ensures
            r@ == self.spec_text(),
    {
        match self {
            PickRejectionReason::Invalid => "something is horribly wrong",
            PickRejectionReason::Flooded => "flooded",
            PickRejectionReason::TooFar => "too far from city",
            PickRejectionReason::TooDeep => "can't dig deeper",
            PickRejectionReason::Occupied => "can't pick up more",
        }
    }
}

/// One column of the grid: the tiles stacked from `z = 0` upward and the
/// two per-column flags.  The column height is the length of `tiles`.
pub struct TileStack {
    pub tiles: Vec<TileType>,
    pub civilized: bool,
    pub flooded: bool,
}

impl TileStack {
    pub fn new() -> (s: TileStack)
        ensures
            s.tiles@ =~= Seq::<TileType>::empty(),
            !s.civilized,
            !s.flooded,
    {
        TileStack { tiles: Vec::new(), civilized: false, flooded: false }
    }

    pub fn height(&self) -> (h: usize)
        ensures
            h == self.tiles.len(),
    {
        self.tiles.len()
    }
}

/// The session-scoped voxel height-map.  `map[y][x]` is the column at
/// `(x, y)`; `dimensions` is `(width, height, depth)` and is immutable for
/// the grid's lifetime; `held_tile` is the single global buffer for a tile
/// the player has picked up and not yet placed back.
pub struct Grid {
    pub sea_level: usize,
    pub dimensions: (usize, usize, usize),
    pub map: Vec<Vec<TileStack>>,
    pub held_tile: Option<TileType>,
}

impl Grid {
    pub open spec fn spec_width(&self) -> int {
        self.dimensions.0 as int
    }

    pub open spec fn spec_height_dim(&self) -> int {
        self.dimensions.1 as int
    }

    pub open spec fn spec_depth(&self) -> int {
        self.dimensions.2 as int
    }

    /// Shape invariant: the map is exactly `height` rows of `width` columns,
    /// every stack fits under the depth ceiling, the dimensions stay small
    /// enough for all derived arithmetic, and the sea level never passes the
    /// ceiling.
    pub open spec fn wf(&self) -> bool {
        &&& self.dimensions.0 <= MAX_DIM
        &&& self.dimensions.1 <= MAX_DIM
        &&& self.dimensions.2 <= MAX_DIM
        &&& self.map.len() == self.spec_height_dim()
        &&& forall|y: int|
            0 <= y < self.spec_height_dim() ==> (#[trigger] self.map[y]).len() == self.spec_width()
        &&& forall|x: int, y: int|
            self.spec_in_bounds(x, y) ==> (#[trigger] self.spec_col(x, y)).tiles.len()
                <= self.spec_depth()
        &&& self.sea_level <= self.spec_depth()
    }

    pub open spec fn spec_in_bounds(&self, x: int, y: int) -> bool {
        0 <= x < self.spec_width() && 0 <= y < self.spec_height_dim()
    }

    /// The column at `(x, y)`; meaningful only in bounds.
    pub open spec fn spec_col(&self, x: int, y: int) -> TileStack {
        self.map[y][x]
    }

    /// Current top-of-stack index (the number of stacked tiles).
    pub open spec fn spec_height_at(&self, x: int, y: int) -> int {
        self.spec_col(x, y).tiles.len() as int
    }

    pub open spec fn spec_civilized(&self, x: int, y: int) -> bool {
        self.spec_col(x, y).civilized
    }

    pub open spec fn spec_flooded(&self, x: int, y: int) -> bool {
        self.spec_col(x, y).flooded
    }

    /// The stored tile at one voxel; `None` when out of bounds or above the
    /// stack.
    pub open spec fn spec_tile(&self, x: int, y: int, z: int) -> Option<TileType> {
        if self.spec_in_bounds(x, y) && 0 <= z < self.spec_height_at(x, y) {
            Some(self.spec_col(x, y).tiles[z])
        } else {
            None
        }
    }

    /// The single adjacency-to-civilization predicate shared by the
    /// placement validator and the build-menu enablement check: some
    /// 4-orthogonal neighbor column is civilized.  False whenever `(x, y)`
    /// itself is out of bounds.
    pub open spec fn spec_adjacent_civilized(&self, x: int, y: int) -> bool {
        &&& self.spec_in_bounds(x, y)
        &&& {
            ||| x + 1 < self.spec_width() && self.spec_civilized(x + 1, y)
            ||| 0 < x && self.spec_civilized(x - 1, y)
            ||| y + 1 < self.spec_height_dim() && self.spec_civilized(x, y + 1)
            ||| 0 < y && self.spec_civilized(x, y - 1)
        }
    }

    /// The placement decision, in precedence order: out of bounds, height
    /// ceiling, flooded (water only), already occupied by a structure, not
    /// adjacent to civilization.
    pub open spec fn spec_can_place(&self, x: int, y: int, tile: TileType) -> Result<
        (),
        PlaceRejectionReason,
    > {
        if !self.spec_in_bounds(x, y) {
            Err(PlaceRejectionReason::Invalid)
        } else if self.spec_height_at(x, y) >= self.spec_depth() {
            Err(PlaceRejectionReason::TooHigh)
        } else if self.spec_flooded(x, y) {
            if tile == TileType::Water {
                Ok(())
            } else {
                Err(PlaceRejectionReason::Flooded)
            }
        } else if self.spec_civilized(x, y) {
            Err(PlaceRejectionReason::Occupied)
        } else if self.spec_adjacent_civilized(x, y) {
            Ok(())
        } else {
            Err(PlaceRejectionReason::TooFar)
        }
    }

    /// The pick-up decision, in precedence order: a tile is already held,
    /// out of bounds, flooded, not adjacent to civilization, nothing left to
    /// remove; otherwise the top tile's kind.
    pub open spec fn spec_can_pick(&self, x: int, y: int) -> Result<
        TileType,
        PickRejectionReason,
    > {
        if self.held_tile is Some {
            Err(PickRejectionReason::Occupied)
        } else if !self.spec_in_bounds(x, y) {
            Err(PickRejectionReason::Invalid)
        } else if self.spec_flooded(x, y) {
            Err(PickRejectionReason::Flooded)
        } else if !self.spec_adjacent_civilized(x, y) {
            Err(PickRejectionReason::TooFar)
        } else if self.spec_height_at(x, y) == 0 {
            Err(PickRejectionReason::TooDeep)
        } else {
            Ok(self.spec_col(x, y).tiles[self.spec_height_at(x, y) - 1])
        }
    }

    pub fn new(width: usize, height: usize, depth: usize) -> (g: Grid)
        requires
            width <= MAX_DIM,
            height <= MAX_DIM,
            depth <= MAX_DIM,
        ensures
            g.wf(),
            g.dimensions == (width, height, depth),
            g.sea_level == 0,
            g.held_tile is None,
            forall|x: int, y: int|
                g.spec_in_bounds(x, y) ==> (#[trigger] g.spec_col(x, y)).tiles.len() == 0 && !g.spec_col(
                    x,
                    y,
                ).civilized && !g.spec_col(x, y).flooded,
    {
        let mut map: Vec<Vec<TileStack>> = Vec::new();
        let mut i: usize = 0;
        while i < height
            invariant
                i <= height,
                map.len() == i,
                forall|y: int| 0 <= y < i ==> (#[trigger] map[y]).len() == width,
                forall|y: int, x: int|
                    0 <= y < i && 0 <= x < width ==> {
                        &&& (#[trigger] map[y][x]).tiles.len() == 0
                        &&& !map[y][x].civilized
                        &&& !map[y][x].flooded
                    },
            decreases height - i,
        {
            let mut column: Vec<TileStack> = Vec::new();
            let mut j: usize = 0;
            while j < width
                invariant
                    j <= width,
                    column.len() == j,
                    forall|x: int|
                        0 <= x < j ==> {
                            &&& (#[trigger] column[x]).tiles.len() == 0
                            &&& !column[x].civilized
                            &&& !column[x].flooded
                        },
                decreases width - j,
            {
                column.push(TileStack::new());
                j = j + 1;
            }
            map.push(column);
            i = i + 1;
        }
        Grid { sea_level: 0, dimensions: (width, height, depth), map, held_tile: None }
    }

    pub fn dimensions(&self) -> (r: (usize, usize, usize))
        ensures
            r == self.dimensions,
    {
        self.dimensions
    }

    /// Shared read access to one column.
    fn col(&self, x: usize, y: usize) -> (c: &TileStack)
        requires
            self.wf(),
            self.spec_in_bounds(x as int, y as int),
        ensures
            *c == self.spec_col(x as int, y as int),
    {
        &self.map[y][x]
    }

    /// Current top-of-stack index for a column; the sentinel `usize::MAX`
    /// for an out-of-bounds column.
    pub fn height(&self, x: usize, y: usize) -> (h: usize)
        requires
            self.wf(),
        ensures
            self.spec_in_bounds(x as int, y as int) ==> h == self.spec_height_at(x as int, y as int),
            !self.spec_in_bounds(x as int, y as int) ==> h == usize::MAX,
    {
        if x < self.dimensions.0 && y < self.dimensions.1 {
            self.col(x, y).tiles.len()
        } else {
            usize::MAX
        }
    }

    /// The stored tile at a voxel, `None` if unset or out of bounds.
    pub fn tile(&self, x: usize, y: usize, z: usize) -> (t: Option<TileType>)
        requires
            self.wf(),
        ensures
            t == self.spec_tile(x as int, y as int, z as int),
    {
        if x < self.dimensions.0 && y < self.dimensions.1 {
            let col = self.col(x, y);
            if z < col.tiles.len() {
                Some(col.tiles[z])
            } else {
                None
            }
        } else {
            None
        }
    }

    /// True if some 4-orthogonal neighbor column is civilized; gates the
    /// build menu and the placement / pick-up validators alike.
    pub fn is_civilizable(&self, x: usize, y: usize) -> (r: bool)
        requires
            self.wf(),
        ensures
            r == self.spec_adjacent_civilized(x as int, y as int),
    {
        let (w, h, _) = self.dimensions;
        if !(x < w && y < h) {
            return false;
        }
        if x + 1 < w && self.col(x + 1, y).civilized {
            return true;
        }
        if x > 0 && self.col(x - 1, y).civilized {
            return true;
        }
        if y + 1 < h && self.col(x, y + 1).civilized {
            return true;
        }
        if y > 0 && self.col(x, y - 1).civilized {
            return true;
        }
        false
    }

    /// Decision procedure for placing `tile` on column `(x, y)`; returns
    /// exactly [`Grid::spec_can_place`] and never mutates.
    pub fn can_place(&self, x: usize, y: usize, tile: TileType) -> (r: Result<
        (),
        PlaceRejectionReason,
    >)
        requires
            self.wf(),
        ensures
            r == self.spec_can_place(x as int, y as int, tile),
    {
        if !(x < self.dimensions.0 && y < self.dimensions.1) {
            return Err(PlaceRejectionReason::Invalid);
        }
        let col = self.col(x, y);
        if col.tiles.len() >= self.dimensions.2 {
            return Err(PlaceRejectionReason::TooHigh);
        }
        if col.flooded {
            if tile == TileType::Water {
                return Ok(());
            }
            return Err(PlaceRejectionReason::Flooded);
        }
        if col.civilized {
            return Err(PlaceRejectionReason::Occupied);
        }
        if self.is_civilizable(x, y) {
            return Ok(());
        }
        Err(PlaceRejectionReason::TooFar)
    }

    /// Decision procedure for picking up the top tile of column `(x, y)`;
    /// returns exactly [`Grid::spec_can_pick`] and never mutates.
    pub fn can_pick(&self, x: usize, y: usize) -> (r: Result<TileType, PickRejectionReason>)
        requires
            self.wf(),
        ensures
            r == self.spec_can_pick(x as int, y as int),
    {
        if self.held_tile.is_some() {
            return Err(PickRejectionReason::Occupied);
        }
        if !(x < self.dimensions.0 && y < self.dimensions.1) {
            return Err(PickRejectionReason::Invalid);
        }
        if self.col(x, y).flooded {
            return Err(PickRejectionReason::Flooded);
        }
        if !self.is_civilizable(x, y) {
            return Err(PickRejectionReason::TooFar);
        }
        let col = self.col(x, y);
        if col.tiles.len() == 0 {
            return Err(PickRejectionReason::TooDeep);
        }
        Ok(col.tiles[col.tiles.len() - 1])
    }

    /// The grids agree everywhere except possibly at column `(x, y)` and in
    /// the held-tile buffer: same dimensions, sea level and map shape, and
    /// every other column unchanged.
    pub open spec fn same_outside_col(&self, other: Grid, x: int, y: int) -> bool {
        &&& other.dimensions == self.dimensions
        &&& other.sea_level == self.sea_level
        &&& other.map.len() == self.map.len()
        &&& forall|yy: int|
            0 <= yy < self.map.len() ==> (#[trigger] other.map[yy]).len() == self.map[yy].len()
        &&& forall|xx: int, yy: int|
            self.spec_in_bounds(xx, yy) && !(xx == x && yy == y) ==> (#[trigger] other.spec_col(
                xx,
                yy,
            )) == self.spec_col(xx, yy)
    }

    /// Exclusive access to one column; the rest of the grid is unchanged by
    /// whatever the caller writes through the reference.
    pub(crate) fn col_mut(&mut self, x: usize, y: usize) -> (c: &mut TileStack)
        requires
            old(self).wf(),
            old(self).spec_in_bounds(x as int, y as int),
        ensures
            *c == old(self).spec_col(x as int, y as int),
            old(self).same_outside_col(*final(self), x as int, y as int),
            final(self).held_tile == old(self).held_tile,
            final(self).spec_col(x as int, y as int) == *final(c),
    {
        let row = &mut self.map[y];
        &mut row[x]
    }

    /// Unconditional placement: appends `tile` to the column stack, bumping
    /// its height by one and re-deriving the civilized flag from the new top
    /// tile.  Performs no validation — callers gate it with
    /// [`Grid::can_place`] — but silently does nothing when the column is
    /// out of bounds or already at the depth ceiling, so heights never pass
    /// the ceiling (height monotonicity: across any sequence of placements a
    /// column's height never decreases and never exceeds the depth).
    pub fn place(&mut self, tile: TileType, x: usize, y: usize)
        requires
            old(self).wf(),
        ensures
            final(self).wf(),
            old(self).same_outside_col(*final(self), x as int, y as int),
            final(self).held_tile == old(self).held_tile,
            old(self).spec_in_bounds(x as int, y as int) && old(self).spec_height_at(
                x as int,
                y as int,
            ) < old(self).spec_depth() ==> {
                &&& final(self).spec_col(x as int, y as int).tiles@ == old(self).spec_col(
                    x as int,
                    y as int,
                ).tiles@.push(tile)
                &&& final(self).spec_civilized(x as int, y as int) == tile.spec_is_structure()
                &&& final(self).spec_flooded(x as int, y as int) == old(self).spec_flooded(
                    x as int,
                    y as int,
                )
            },
            old(self).spec_in_bounds(x as int, y as int) && old(self).spec_height_at(
                x as int,
                y as int,
            ) >= old(self).spec_depth() ==> final(self).spec_col(x as int, y as int) == old(
                self,
            ).spec_col(x as int, y as int),
            forall|xx: int, yy: int|
                final(self).spec_in_bounds(xx, yy) ==> old(self).spec_height_at(xx, yy) <= (
                #[trigger] final(self).spec_height_at(xx, yy)) <= final(self).spec_depth(),
    {
        let ceiling = self.dimensions.2;
        if y < self.dimensions.1 && x < self.dimensions.0 {
            let col = self.col_mut(x, y);
            if col.tiles.len() < ceiling {
                col.tiles.push(tile);
                col.civilized = tile.is_structure();
            }
        }
    }

    /// Unconditional removal of the voxel at exactly depth `z` (not
    /// necessarily the top); tiles above shift down one level.  Returns the
    /// removed tile, or `None` when nothing is stored there.  The column
    /// flags are untouched: callers clearing a civilized top also call
    /// [`Grid::uncivilize`].
    pub fn remove(&mut self, x: usize, y: usize, z: usize) -> (r: Option<TileType>)
        requires
            old(self).wf(),
        ensures
            final(self).wf(),
            old(self).same_outside_col(*final(self), x as int, y as int),
            final(self).held_tile == old(self).held_tile,
            r == old(self).spec_tile(x as int, y as int, z as int),
            old(self).spec_tile(x as int, y as int, z as int) is Some ==> {
                &&& final(self).spec_col(x as int, y as int).tiles@ == old(self).spec_col(
                    x as int,
                    y as int,
                ).tiles@.remove(z as int)
                &&& final(self).spec_civilized(x as int, y as int) == old(self).spec_civilized(
                    x as int,
                    y as int,
                )
                &&& final(self).spec_flooded(x as int, y as int) == old(self).spec_flooded(
                    x as int,
                    y as int,
                )
            },
            old(self).spec_tile(x as int, y as int, z as int) is None && old(self).spec_in_bounds(
                x as int,
                y as int,
            ) ==> final(self).spec_col(x as int, y as int) == old(self).spec_col(x as int, y as int),
    {
        if y < self.dimensions.1 && x < self.dimensions.0 {
            let col = self.col_mut(x, y);
            if z < col.tiles.len() {
                return Some(col.tiles.remove(z));
            }
        }
        None
    }

    /// In-place kind change of one stored voxel (a build action replacing
    /// trees with a structure keeps the tile in place); re-derives the
    /// civilized flag when the changed voxel is the column's top.  Does
    /// nothing when no tile is stored at `(x, y, z)`.
    pub fn replace_tile(&mut self, x: usize, y: usize, z: usize, tile: TileType)
        requires
            old(self).wf(),
        ensures
            final(self).wf(),
            old(self).same_outside_col(*final(self), x as int, y as int),
            final(self).held_tile == old(self).held_tile,
            old(self).spec_tile(x as int, y as int, z as int) is Some ==> {
                &&& final(self).spec_col(x as int, y as int).tiles@ == old(self).spec_col(
                    x as int,
                    y as int,
                ).tiles@.update(z as int, tile)
                &&& final(self).spec_civilized(x as int, y as int) == (if z as int + 1 == old(
                    self,
                ).spec_height_at(x as int, y as int) {
                    tile.spec_is_structure()
                } else {
                    old(self).spec_civilized(x as int, y as int)
                })
                &&& final(self).spec_flooded(x as int, y as int) == old(self).spec_flooded(
                    x as int,
                    y as int,
                )
            },
            old(self).spec_tile(x as int, y as int, z as int) is None && old(self).spec_in_bounds(
                x as int,
                y as int,
            ) ==> final(self).spec_col(x as int, y as int) == old(self).spec_col(x as int, y as int),
    {
        if y < self.dimensions.1 && x < self.dimensions.0 {
            let col = self.col_mut(x, y);
            if z < col.tiles.len() {
                let is_top = z + 1 == col.tiles.len();
                let slot = &mut col.tiles[z];
                *slot = tile;
                if is_top {
                    col.civilized = tile.is_structure();
                }
            }
        }
    }

    /// Decrements the stored column height by one by dropping the top
    /// voxel; used after a pick-up to keep the column's top consistent.
    /// Does nothing on an empty or out-of-bounds column.
    pub fn lower_heightmap(&mut self, x: usize, y: usize)
        requires
            old(self).wf(),
        ensures
            final(self).wf(),
            old(self).same_outside_col(*final(self), x as int, y as int),
            final(self).held_tile == old(self).held_tile,
            old(self).spec_in_bounds(x as int, y as int) && old(self).spec_height_at(
                x as int,
                y as int,
            ) > 0 ==> {
                &&& final(self).spec_col(x as int, y as int).tiles@ == old(self).spec_col(
                    x as int,
                    y as int,
                ).tiles@.drop_last()
                &&& final(self).spec_civilized(x as int, y as int) == old(self).spec_civilized(
                    x as int,
                    y as int,
                )
                &&& final(self).spec_flooded(x as int, y as int) == old(self).spec_flooded(
                    x as int,
                    y as int,
                )
            },
            old(self).spec_in_bounds(x as int, y as int) && old(self).spec_height_at(
                x as int,
                y as int,
            ) == 0 ==> final(self).spec_col(x as int, y as int) == old(self).spec_col(x as int, y as int),
    {
        if y < self.dimensions.1 && x < self.dimensions.0 {
            let col = self.col_mut(x, y);
            if col.tiles.len() > 0 {
                col.tiles.pop();
            }
        }
    }

    /// Clears the civilized flag of a column, e.g. after its structure was
    /// picked up or destroyed by a flood.
    pub fn uncivilize(&mut self, x: usize, y: usize)
        requires
            old(self).wf(),
        ensures
            final(self).wf(),
            old(self).same_outside_col(*final(self), x as int, y as int),
            final(self).held_tile == old(self).held_tile,
            old(self).spec_in_bounds(x as int, y as int) ==> {
                &&& final(self).spec_col(x as int, y as int).tiles == old(self).spec_col(
                    x as int,
                    y as int,
                ).tiles
                &&& !final(self).spec_civilized(x as int, y as int)
                &&& final(self).spec_flooded(x as int, y as int) == old(self).spec_flooded(
                    x as int,
                    y as int,
                )
            },
    {
        if y < self.dimensions.1 && x < self.dimensions.0 {
            let col = self.col_mut(x, y);
            col.civilized = false;
        }
    }

    /// The pick-up command: on success moves the top tile of `(x, y)` into
    /// the held buffer, lowers the column by one and uncivilizes it; any
    /// rejection (including `Occupied` while a tile is already held) leaves
    /// the grid untouched.
    pub fn pick_up(&mut self, x: usize, y: usize) -> (r: Result<TileType, PickRejectionReason>)
        requires
            old(self).wf(),
        ensures
            final(self).wf(),
            r == old(self).spec_can_pick(x as int, y as int),
            r is Err ==> *final(self) == *old(self),
            r is Ok ==> {
                &&& final(self).held_tile == Some(r->Ok_0)
                &&& old(self).same_outside_col(*final(self), x as int, y as int)
                &&& final(self).spec_col(x as int, y as int).tiles@ == old(self).spec_col(
                    x as int,
                    y as int,
                ).tiles@.drop_last()
                &&& !final(self).spec_civilized(x as int, y as int)
                &&& final(self).spec_flooded(x as int, y as int) == old(self).spec_flooded(
                    x as int,
                    y as int,
                )
            },
    {
        match self.can_pick(x, y) {
            Ok(t) => {
                self.held_tile = Some(t);
                proof {
                    lemma_same_map(*old(self), *self);
                }
                self.lower_heightmap(x, y);
                self.uncivilize(x, y);
                Ok(t)
            },
            Err(e) => Err(e),
        }
    }

    /// The placement command for the held tile: validated by
    /// [`Grid::can_place`]; on success the tile is appended to the column
    /// and the held buffer is emptied.  With nothing held it refuses as
    /// `Invalid`; any rejection leaves the grid untouched.
    pub fn place_held(&mut self, x: usize, y: usize) -> (r: Result<(), PlaceRejectionReason>)
        requires
            old(self).wf(),
        ensures
            final(self).wf(),
            old(self).held_tile is None ==> r == Err::<(), PlaceRejectionReason>(
                PlaceRejectionReason::Invalid,
            ) && *final(self) == *old(self),
            old(self).held_tile matches Some(t) ==> r == old(self).spec_can_place(
                x as int,
                y as int,
                t,
            ),
            r is Err ==> *final(self) == *old(self),
            old(self).held_tile is Some && r is Ok ==> {
                &&& final(self).held_tile is None
                &&& old(self).same_outside_col(*final(self), x as int, y as int)
                &&& final(self).spec_col(x as int, y as int).tiles@ == old(self).spec_col(
                    x as int,
                    y as int,
                ).tiles@.push(old(self).held_tile->Some_0)
                &&& final(self).spec_civilized(x as int, y as int) == old(
                    self,
                ).held_tile->Some_0.spec_is_structure()
                &&& final(self).spec_flooded(x as int, y as int) == old(self).spec_flooded(
                    x as int,
                    y as int,
                )
            },
    {
        match self.held_tile {
            None => Err(PlaceRejectionReason::Invalid),
            Some(t) => {
                match self.can_place(x, y, t) {
                    Ok(_) => {
                        self.place(t, x, y);
                        let ghost mid = *self;
                        self.held_tile = None;
                        proof {
                            lemma_same_map(mid, *self);
                        }
                        Ok(())
                    },
                    Err(e) => Err(e),
                }
            },
        }
    }

    /// How one marked column looks after a flood at `plane`: flooded and
    /// uncivilized; if the stack reaches past the plane only the plane voxel
    /// is overwritten with water, otherwise every stored non-terrain voxel
    /// turns to water and the stack is filled with water up to the plane.
    /// Terrain voxels are never overwritten.
    pub open spec fn spec_col_after_flood(before: TileStack, after: TileStack, plane: int) -> bool {
        &&& after.flooded
        &&& !after.civilized
        &&& if before.tiles.len() > plane {
            after.tiles@ == before.tiles@.update(plane, TileType::Water)
        } else {
            &&& after.tiles@.len() == plane + 1
            &&& (forall|z: int|
                0 <= z < before.tiles.len() ==> after.tiles@[z] == (
                if before.tiles@[z] == TileType::Terrain {
                    TileType::Terrain
                } else {
                    TileType::Water
                }))
            &&& (forall|z: int|
                before.tiles.len() <= z <= plane ==> after.tiles@[z] == TileType::Water)
        }
    }

    /// Converts one column caught by a flood at `plane`: marks it flooded,
    /// uncivilizes it, and rewrites its stack as
    /// [`Grid::spec_col_after_flood`] describes.
    pub fn flood_column(&mut self, x: usize, y: usize, plane: usize)
        requires
            old(self).wf(),
            old(self).spec_in_bounds(x as int, y as int),
            plane + 1 <= old(self).spec_depth(),
        ensures
            final(self).wf(),
            old(self).same_outside_col(*final(self), x as int, y as int),
            final(self).held_tile == old(self).held_tile,
            Grid::spec_col_after_flood(
                old(self).spec_col(x as int, y as int),
                final(self).spec_col(x as int, y as int),
                plane as int,
            ),
    {
        let before_len = self.col(x, y).tiles.len();
        let mut new_tiles: Vec<TileType> = Vec::new();
        if before_len > plane {
            let mut z: usize = 0;
            while z < before_len
                invariant
                    self == old(self),
                    old(self).wf(),
                    old(self).spec_in_bounds(x as int, y as int),
                    before_len == old(self).spec_height_at(x as int, y as int),
                    plane < before_len,
                    z <= before_len,
                    new_tiles@.len() == z,
                    forall|i: int|
                        0 <= i < z ==> new_tiles@[i] == (if i == plane {
                            TileType::Water
                        } else {
                            old(self).spec_col(x as int, y as int).tiles@[i]
                        }),
                decreases before_len - z,
            {
                if z == plane {
                    new_tiles.push(TileType::Water);
                } else {
                    new_tiles.push(self.col(x, y).tiles[z]);
                }
                z = z + 1;
            }
            proof {
                assert(new_tiles@ =~= old(self).spec_col(x as int, y as int).tiles@.update(
                    plane as int,
                    TileType::Water,
                ));
            }
        } else {
            let mut z: usize = 0;
            while z < before_len
                invariant
                    self == old(self),
                    old(self).wf(),
                    old(self).spec_in_bounds(x as int, y as int),
                    before_len == old(self).spec_height_at(x as int, y as int),
                    z <= before_len,
                    new_tiles@.len() == z,
                    forall|i: int|
                        0 <= i < z ==> new_tiles@[i] == (if old(self).spec_col(
                            x as int,
                            y as int,
                        ).tiles@[i] == TileType::Terrain {
                            TileType::Terrain
                        } else {
                            TileType::Water
                        }),
                decreases before_len - z,
            {
                let t = self.col(x, y).tiles[z];
                let keep = match t {
                    TileType::Terrain => true,
                    _ => false,
                };
                if keep {
                    new_tiles.push(TileType::Terrain);
                } else {
                    new_tiles.push(TileType::Water);
                }
                z = z + 1;
            }
            while new_tiles.len() < plane + 1
                invariant
                    plane <= 127,
                    before_len <= new_tiles@.len() <= plane + 1,
                    forall|i: int|
                        0 <= i < before_len ==> new_tiles@[i] == (if old(self).spec_col(
                            x as int,
                            y as int,
                        ).tiles@[i] == TileType::Terrain {
                            TileType::Terrain
                        } else {
                            TileType::Water
                        }),
                    forall|i: int| before_len <= i < new_tiles@.len() ==> new_tiles@[i]
                        == TileType::Water,
                decreases plane + 1 - new_tiles@.len(),
            {
                new_tiles.push(TileType::Water);
            }
        }
        let col = self.col_mut(x, y);
        col.tiles = new_tiles;
        col.flooded = true;
        col.civilized = false;
    }

    /// True iff `pos` names the topmost stacked tile of its column; decides
    /// tooltip and hit-test eligibility for the rendering consumer.
    pub fn is_top_tile(&self, pos: &TilePosition) -> (r: bool)
        requires
            self.wf(),
        ensures
            r == (self.spec_in_bounds(pos.x as int, pos.y as int) && pos.z as int + 1
                == self.spec_height_at(pos.x as int, pos.y as int)),
    {
        let x = pos.x();
        let y = pos.y();
        if x < self.dimensions.0 && y < self.dimensions.1 {
            let len = self.col(x, y).tiles.len();
            len > 0 && pos.z() == len - 1
        } else {
            false
        }
    }
}

/// Two grids with the same map and dimensions agree on every column, and
/// the second is well-formed whenever the first is (its sea level permitting):
/// changing only the held-tile buffer or the sea level never disturbs the
/// columns.
pub proof fn lemma_same_map(a: Grid, b: Grid)
    requires
        a.wf(),
        b.map == a.map,
        b.dimensions == a.dimensions,
        b.sea_level <= b.dimensions.2,
    ensures
        b.wf(),
        forall|x: int, y: int| #[trigger] b.spec_col(x, y) == a.spec_col(x, y),
{
    assert forall|x: int, y: int| #[trigger] b.spec_col(x, y) == a.spec_col(x, y) by {
        assert(b.map[y] == a.map[y]);
    }
    assert forall|y: int|
        0 <= y < b.spec_height_dim() implies (#[trigger] b.map[y]).len() == b.spec_width() by {
        assert(b.map[y] == a.map[y]);
    }
    assert forall|x: int, y: int|
        b.spec_in_bounds(x, y) implies (#[trigger] b.spec_col(x, y)).tiles.len()
            <= b.spec_depth() by {
        assert(b.spec_col(x, y) == a.spec_col(x, y));
        assert(a.spec_in_bounds(x, y));
        assert(a.spec_col(x, y).tiles.len() <= a.spec_depth());
    }
}

impl Default for Grid {
    /// The standard session grid: 8 by 8 columns, 16 levels deep.
    fn default() -> (g: Grid)
        ensures
            g.wf(),
            g.dimensions == (8usize, 8usize, 16usize),
            g.sea_level == 0,
            g.held_tile is None,
            forall|x: int, y: int|
                g.spec_in_bounds(x, y) ==> (#[trigger] g.spec_col(x, y)).tiles.len() == 0
                    && !g.spec_col(x, y).civilized && !g.spec_col(x, y).flooded,
    {
        Grid::new(8, 8, 16)
    }
}

/// Placement is possible only into a flooded column with water, or next to
/// civilization: whenever `can_place` answers `Ok`, the column is either
/// flooded (and the tile water) or 4-adjacent to a civilized column.
pub proof fn lemma_place_adjacency_invariant(g: Grid, x: int, y: int, tile: TileType)
    requires
        g.spec_can_place(x, y, tile) is Ok,
    ensures
        (g.spec_flooded(x, y) && tile == TileType::Water) || g.spec_adjacent_civilized(x, y),
{
}

/// At most one tile is ever held: while a tile is held, every pick-up
/// request is refused as `Occupied`, and a pick-up can succeed only with the
/// buffer empty.
pub proof fn lemma_single_held_tile(g: Grid, x: int, y: int)
    ensures
        g.held_tile is Some ==> g.spec_can_pick(x, y) == Err::<
            TileType,
            PickRejectionReason,
        >(PickRejectionReason::Occupied),
        g.spec_can_pick(x, y) is Ok ==> g.held_tile is None,
{
}

} // verus!
