//! Global turn counters and the once-per-turn economy recomputation.
//!
//! [`Time`] is the session-scoped counter block; [`AllThingsDoer::run`]
//! recomputes it from the current [`Census`] of structures.  The update is a
//! pure function of the prior counters and the census — every output field
//! is pinned exactly by a spec function of the inputs, so two runs from the
//! same state always agree.

use vstd::prelude::*;

use crate::grid::Grid;
use crate::tile::{Structure, TileType};

verus! {

/// All per-field counter magnitudes the turn simulator accepts; keeps every
/// intermediate of one turn update well inside `i32`.
pub const TIME_BOUND: i32 = 0x0800_0000;

/// Largest census count the turn simulator accepts: no grid this library
/// builds holds more voxels than this.
pub const CENSUS_BOUND: usize = 0x0020_0000;

/// The session-scoped global counters, created fresh at the start of each
/// game session and mutated exactly once per player-issued end of turn.
#[derive(Clone, Copy, PartialEq, Eq, Structural, Debug)]
pub struct Time {
    pub game_over: bool,
    pub score: i32,
    pub turn_passed: bool,
    pub turn: i32,
    pub flood_timer: i32,
    pub population: i32,
    pub population_timer: i32,
    pub nature: i32,
    pub power: i32,
    pub homeless: i32,
    pub food: i32,
}

impl Time {
    pub fn new() -> (t: Time)
        ensures
            t == (Time {
                game_over: false,
                score: 0i32,
                turn_passed: false,
                turn: 0i32,
                flood_timer: 8i32,
                population: 3i32,
                population_timer: 3i32,
                nature: -1i32,
                power: 0i32,
                homeless: 0i32,
                food: 0i32,
            }),
    {
        Time {
            game_over: false,
            score: 0,
            turn_passed: false,
            turn: 0,
            flood_timer: 8,
            population: 3,
            population_timer: 3,
            nature: -1,
            power: 0,
            homeless: 0,
            food: 0,
        }
    }
}

impl Default for Time {
    fn default() -> (t: Time)
        ensures
            t == (Time {
                game_over: false,
                score: 0i32,
                turn_passed: false,
                turn: 0i32,
                flood_timer: 8i32,
                population: 3i32,
                population_timer: 3i32,
                nature: -1i32,
                power: 0i32,
                homeless: 0i32,
                food: 0i32,
            }),
    {
        Time::new()
    }
}

/// Counts of each structure kind currently standing in the grid: the input
/// of one turn of the economy.
#[derive(Clone, Copy, PartialEq, Eq, Structural, Debug)]
pub struct Census {
    pub housing: usize,
    pub sanctuary: usize,
    pub powerplant: usize,
    pub renewables: usize,
    pub farm: usize,
    pub fishery: usize,
}

/// Number of tiles of structure kind `k` in one column stack.
pub open spec fn spec_count_stack(s: Seq<TileType>, k: Structure) -> int
    decreases s.len(),
{
    if s.len() == 0 {
        0
    } else {
        spec_count_stack(s.drop_last(), k) + if s.last() == TileType::Structure(k) {
            1int
        } else {
            0int
        }
    }
}

/// Number of tiles of structure kind `k` in one row of column stacks.
pub open spec fn spec_count_row(r: Seq<crate::grid::TileStack>, k: Structure) -> int
    decreases r.len(),
{
    if r.len() == 0 {
        0
    } else {
        spec_count_row(r.drop_last(), k) + spec_count_stack(r.last().tiles@, k)
    }
}

/// Number of tiles of structure kind `k` in a whole map.
pub open spec fn spec_count_map(m: Seq<Vec<crate::grid::TileStack>>, k: Structure) -> int
    decreases m.len(),
{
    if m.len() == 0 {
        0
    } else {
        spec_count_map(m.drop_last(), k) + spec_count_row(m.last()@, k)
    }
}

/// Number of tiles of structure kind `k` standing anywhere in the grid.
pub open spec fn spec_count_grid(g: Grid, k: Structure) -> int {
    spec_count_map(g.map@, k)
}

/// Appending one tile raises the stack count by one exactly when the tile
/// is the counted structure.
pub proof fn lemma_count_stack_push(s: Seq<TileType>, t: TileType, k: Structure)
    ensures
        spec_count_stack(s.push(t), k) == spec_count_stack(s, k) + (if t == TileType::Structure(k) {
            1int
        } else {
            0int
        }),
{
    assert(s.push(t).drop_last() =~= s);
    assert(s.push(t).last() == t);
}

/// Overwriting one voxel shifts the stack count by the difference of the
/// old and new tiles.
pub proof fn lemma_count_stack_update(s: Seq<TileType>, i: int, t: TileType, k: Structure)
    requires
        0 <= i < s.len(),
    ensures
        spec_count_stack(s.update(i, t), k) == spec_count_stack(s, k) - (if s[i]
            == TileType::Structure(k) {
            1int
        } else {
            0int
        }) + (if t == TileType::Structure(k) {
            1int
        } else {
            0int
        }),
    decreases s.len(),
{
    if i == s.len() - 1 {
        assert(s.update(i, t).drop_last() =~= s.drop_last());
        assert(s.update(i, t).last() == t);
    } else {
        lemma_count_stack_update(s.drop_last(), i, t, k);
        assert(s.update(i, t).drop_last() =~= s.drop_last().update(i, t));
        assert(s.update(i, t).last() == s.last());
    }
}

/// A stack holding no structure at all counts zero.
pub proof fn lemma_count_stack_no_structures(s: Seq<TileType>, k: Structure)
    requires
        forall|z: int| 0 <= z < s.len() ==> !(#[trigger] s[z]).spec_is_structure(),
    ensures
        spec_count_stack(s, k) == 0,
    decreases s.len(),
{
    if s.len() > 0 {
        assert(!s[s.len() - 1].spec_is_structure());
        lemma_count_stack_no_structures(s.drop_last(), k);
    }
}

/// Counts are never negative.
pub proof fn lemma_count_stack_nonneg(s: Seq<TileType>, k: Structure)
    ensures
        spec_count_stack(s, k) >= 0,
    decreases s.len(),
{
    if s.len() > 0 {
        lemma_count_stack_nonneg(s.drop_last(), k);
    }
}

pub proof fn lemma_count_row_nonneg(r: Seq<crate::grid::TileStack>, k: Structure)
    ensures
        spec_count_row(r, k) >= 0,
    decreases r.len(),
{
    if r.len() > 0 {
        lemma_count_row_nonneg(r.drop_last(), k);
        lemma_count_stack_nonneg(r.last().tiles@, k);
    }
}

pub proof fn lemma_count_map_nonneg(m: Seq<Vec<crate::grid::TileStack>>, k: Structure)
    ensures
        spec_count_map(m, k) >= 0,
    decreases m.len(),
{
    if m.len() > 0 {
        lemma_count_map_nonneg(m.drop_last(), k);
        lemma_count_row_nonneg(m.last()@, k);
    }
}

/// A stack that holds the counted structure somewhere counts at least one.
pub proof fn lemma_count_stack_at_least_one(s: Seq<TileType>, z: int, k: Structure)
    requires
        0 <= z < s.len(),
        s[z] == TileType::Structure(k),
    ensures
        spec_count_stack(s, k) >= 1,
    decreases s.len(),
{
    lemma_count_stack_nonneg(s.drop_last(), k);
    if z < s.len() - 1 {
        lemma_count_stack_at_least_one(s.drop_last(), z, k);
    }
}

/// A map that holds the counted structure somewhere counts at least one.
pub proof fn lemma_count_map_at_least_one(
    m: Seq<Vec<crate::grid::TileStack>>,
    x: int,
    y: int,
    z: int,
    k: Structure,
)
    requires
        0 <= y < m.len(),
        0 <= x < m[y]@.len(),
        0 <= z < m[y]@[x].tiles@.len(),
        m[y]@[x].tiles@[z] == TileType::Structure(k),
    ensures
        spec_count_map(m, k) >= 1,
    decreases m.len(),
{
    if y == m.len() - 1 {
        lemma_count_map_nonneg(m.drop_last(), k);
        lemma_count_row_at_least_one(m[y]@, x, z, k);
    } else {
        lemma_count_map_at_least_one(m.drop_last(), x, y, z, k);
        lemma_count_row_nonneg(m.last()@, k);
    }
}

/// A row that holds the counted structure somewhere counts at least one.
pub proof fn lemma_count_row_at_least_one(
    r: Seq<crate::grid::TileStack>,
    x: int,
    z: int,
    k: Structure,
)
    requires
        0 <= x < r.len(),
        0 <= z < r[x].tiles@.len(),
        r[x].tiles@[z] == TileType::Structure(k),
    ensures
        spec_count_row(r, k) >= 1,
    decreases r.len(),
{
    if x == r.len() - 1 {
        lemma_count_row_nonneg(r.drop_last(), k);
        lemma_count_stack_at_least_one(r[x].tiles@, z, k);
    } else {
        lemma_count_row_at_least_one(r.drop_last(), x, z, k);
        lemma_count_stack_nonneg(r.last().tiles@, k);
    }
}

/// Two rows whose stacks hold the same tiles count the same.
pub proof fn lemma_count_row_ext(
    r1: Seq<crate::grid::TileStack>,
    r2: Seq<crate::grid::TileStack>,
    k: Structure,
)
    requires
        r1.len() == r2.len(),
        forall|x: int| 0 <= x < r1.len() ==> (#[trigger] r2[x]).tiles@ == r1[x].tiles@,
    ensures
        spec_count_row(r2, k) == spec_count_row(r1, k),
    decreases r1.len(),
{
    if r1.len() > 0 {
        lemma_count_row_ext(r1.drop_last(), r2.drop_last(), k);
        assert(r2[r1.len() - 1].tiles@ == r1[r1.len() - 1].tiles@);
    }
}

/// A row whose stacks agree everywhere but at column `x` counts the same up
/// to the difference of the two stacks there.
pub proof fn lemma_count_row_update_at(
    r1: Seq<crate::grid::TileStack>,
    r2: Seq<crate::grid::TileStack>,
    x: int,
    k: Structure,
)
    requires
        r1.len() == r2.len(),
        0 <= x < r1.len(),
        forall|xx: int|
            0 <= xx < r1.len() && xx != x ==> (#[trigger] r2[xx]).tiles@ == r1[xx].tiles@,
    ensures
        spec_count_row(r2, k) == spec_count_row(r1, k) - spec_count_stack(r1[x].tiles@, k)
            + spec_count_stack(r2[x].tiles@, k),
    decreases r1.len(),
{
    if x == r1.len() - 1 {
        lemma_count_row_ext(r1.drop_last(), r2.drop_last(), k);
    } else {
        lemma_count_row_update_at(r1.drop_last(), r2.drop_last(), x, k);
        assert(r2[r1.len() - 1].tiles@ == r1[r1.len() - 1].tiles@);
    }
}

/// A map whose columns agree everywhere but at `(x, y)` counts the same up
/// to the difference of the two stacks there.
pub proof fn lemma_count_map_update_at(
    m1: Seq<Vec<crate::grid::TileStack>>,
    m2: Seq<Vec<crate::grid::TileStack>>,
    x: int,
    y: int,
    k: Structure,
)
    requires
        m1.len() == m2.len(),
        forall|yy: int| 0 <= yy < m1.len() ==> (#[trigger] m2[yy])@.len() == m1[yy]@.len(),
        0 <= y < m1.len(),
        0 <= x < m1[y]@.len(),
        forall|xx: int, yy: int|
            0 <= yy < m1.len() && 0 <= xx < m1[yy]@.len() && !(xx == x && yy == y) ==> (
            #[trigger] m2[yy]@[xx]).tiles@ == m1[yy]@[xx].tiles@,
    ensures
        spec_count_map(m2, k) == spec_count_map(m1, k) - spec_count_stack(m1[y]@[x].tiles@, k)
            + spec_count_stack(m2[y]@[x].tiles@, k),
    decreases m1.len(),
{
    let n = m1.len() - 1;
    if y == n {
        lemma_count_map_ext_rows(m1.drop_last(), m2.drop_last(), k);
        lemma_count_row_update_at(m1[n]@, m2[n]@, x, k);
    } else {
        lemma_count_map_update_at(m1.drop_last(), m2.drop_last(), x, y, k);
        lemma_count_row_ext(m1[n]@, m2[n]@, k);
    }
}

/// Two maps whose stacks hold the same tiles everywhere count the same.
pub proof fn lemma_count_map_ext_rows(
    m1: Seq<Vec<crate::grid::TileStack>>,
    m2: Seq<Vec<crate::grid::TileStack>>,
    k: Structure,
)
    requires
        m1.len() == m2.len(),
        forall|yy: int| 0 <= yy < m1.len() ==> (#[trigger] m2[yy])@.len() == m1[yy]@.len(),
        forall|xx: int, yy: int|
            0 <= yy < m1.len() && 0 <= xx < m1[yy]@.len() ==> (#[trigger] m2[yy]@[xx]).tiles@
                == m1[yy]@[xx].tiles@,
    ensures
        spec_count_map(m2, k) == spec_count_map(m1, k),
    decreases m1.len(),
{
    if m1.len() > 0 {
        lemma_count_map_ext_rows(m1.drop_last(), m2.drop_last(), k);
        lemma_count_row_ext(m1[m1.len() - 1]@, m2[m1.len() - 1]@, k);
    }
}

/// A map holding no structure at all counts zero.
pub proof fn lemma_count_map_no_structures(m: Seq<Vec<crate::grid::TileStack>>, k: Structure)
    requires
        forall|xx: int, yy: int, z: int|
            0 <= yy < m.len() && 0 <= xx < m[yy]@.len() && 0 <= z < m[yy]@[xx].tiles@.len() ==> !(
            #[trigger] m[yy]@[xx].tiles@[z]).spec_is_structure(),
    ensures
        spec_count_map(m, k) == 0,
    decreases m.len(),
{
    if m.len() > 0 {
        lemma_count_map_no_structures(m.drop_last(), k);
        lemma_count_row_no_structures(m[m.len() - 1]@, k);
    }
}

/// A row holding no structure at all counts zero.
pub proof fn lemma_count_row_no_structures(r: Seq<crate::grid::TileStack>, k: Structure)
    requires
        forall|xx: int, z: int|
            0 <= xx < r.len() && 0 <= z < r[xx].tiles@.len() ==> !(
            #[trigger] r[xx].tiles@[z]).spec_is_structure(),
    ensures
        spec_count_row(r, k) == 0,
    decreases r.len(),
{
    if r.len() > 0 {
        lemma_count_row_no_structures(r.drop_last(), k);
        lemma_count_stack_no_structures(r[r.len() - 1].tiles@, k);
    }
}

/// Count of one structure kind in a single column stack.
fn count_kind_in_stack(tiles: &Vec<TileType>, k: Structure) -> (n: usize)
    ensures
        n as int == spec_count_stack(tiles@, k),
        n <= tiles.len(),
{
    let mut n: usize = 0;
    let mut i: usize = 0;
    while i < tiles.len()
        invariant
            i <= tiles.len(),
            n <= i,
            n as int == spec_count_stack(tiles@.take(i as int), k),
        decreases tiles.len() - i,
    {
        let hit = match tiles[i] {
            TileType::Structure(s) => {
                match (s, k) {
                    (Structure::Housing, Structure::Housing) => true,
                    (Structure::Sanctuary, Structure::Sanctuary) => true,
                    (Structure::Powerplant, Structure::Powerplant) => true,
                    (Structure::Renewables, Structure::Renewables) => true,
                    (Structure::Farm, Structure::Farm) => true,
                    (Structure::Fishery, Structure::Fishery) => true,
                    _ => false,
                }
            },
            _ => false,
        };
        proof {
            assert(tiles@.take(i + 1).drop_last() =~= tiles@.take(i as int));
            assert(tiles@.take(i + 1).last() == tiles@[i as int]);
        }
        if hit {
            n = n + 1;
        }
        i = i + 1;
    }
    proof {
        assert(tiles@.take(tiles@.len() as int) =~= tiles@);
    }
    n
}

/// Count of one structure kind standing anywhere in the grid.
fn count_kind(g: &Grid, k: Structure) -> (n: usize)
    requires
        g.wf(),
    ensures
        n as int == spec_count_grid(*g, k),
        n <= CENSUS_BOUND,
{
    let mut n: usize = 0;
    let mut y: usize = 0;
    while y < g.map.len()
        invariant
            g.wf(),
            y <= g.map.len(),
            n <= y * 16384,
            n as int == spec_count_map(g.map@.take(y as int), k),
        decreases g.map.len() - y,
    {
        let row = &g.map[y];
        proof {
            assert forall|i: int|
                0 <= i < row@.len() implies (#[trigger] row@[i]).tiles.len() <= 128 by {
                assert(g.spec_in_bounds(i, y as int));
                assert(g.spec_col(i, y as int) == row@[i]);
            }
        }
        let mut x: usize = 0;
        let mut row_n: usize = 0;
        while x < row.len()
            invariant
                x <= row.len(),
                row.len() <= 128,
                forall|i: int| 0 <= i < row@.len() ==> (#[trigger] row@[i]).tiles.len() <= 128,
                row_n <= x * 128,
                row_n as int == spec_count_row(row@.take(x as int), k),
            decreases row.len() - x,
        {
            let stack_n = count_kind_in_stack(&row[x].tiles, k);
            proof {
                assert(row@.take(x + 1).drop_last() =~= row@.take(x as int));
                assert(row@.take(x + 1).last() == row@[x as int]);
            }
            row_n = row_n + stack_n;
            x = x + 1;
        }
        proof {
            assert(row@.take(row@.len() as int) =~= row@);
            assert(g.map@.take(y + 1).drop_last() =~= g.map@.take(y as int));
            assert(g.map@.take(y + 1).last() == g.map@[y as int]);
        }
        n = n + row_n;
        y = y + 1;
    }
    proof {
        assert(g.map@.take(g.map@.len() as int) =~= g.map@);
    }
    n
}

impl Census {
    /// The census with no structures at all.
    pub fn empty() -> (c: Census)
        ensures
            c == (Census {
                housing: 0,
                sanctuary: 0,
                powerplant: 0,
                renewables: 0,
                farm: 0,
                fishery: 0,
            }),
    {
        Census { housing: 0, sanctuary: 0, powerplant: 0, renewables: 0, farm: 0, fishery: 0 }
    }

    /// True when every count is small enough for the turn simulator.
    pub open spec fn bounded(&self) -> bool {
        &&& self.housing <= CENSUS_BOUND
        &&& self.sanctuary <= CENSUS_BOUND
        &&& self.powerplant <= CENSUS_BOUND
        &&& self.renewables <= CENSUS_BOUND
        &&& self.farm <= CENSUS_BOUND
        &&& self.fishery <= CENSUS_BOUND
    }

    /// Counts every structure kind standing in the grid.
    pub fn of_grid(g: &Grid) -> (c: Census)
        requires
            g.wf(),
        ensures
            c.housing as int == spec_count_grid(*g, Structure::Housing),
            c.sanctuary as int == spec_count_grid(*g, Structure::Sanctuary),
            c.powerplant as int == spec_count_grid(*g, Structure::Powerplant),
            c.renewables as int == spec_count_grid(*g, Structure::Renewables),
            c.farm as int == spec_count_grid(*g, Structure::Farm),
            c.fishery as int == spec_count_grid(*g, Structure::Fishery),
            c.bounded(),
    {
        Census {
            housing: count_kind(g, Structure::Housing),
            sanctuary: count_kind(g, Structure::Sanctuary),
            powerplant: count_kind(g, Structure::Powerplant),
            renewables: count_kind(g, Structure::Renewables),
            farm: count_kind(g, Structure::Farm),
            fishery: count_kind(g, Structure::Fishery),
        }
    }
}

/// Homeless population after the census pass: everyone not housed.
pub open spec fn spec_homeless(t: Time, c: Census) -> int {
    t.population as int - c.housing as int
}

/// Food balance after the census pass: the population eats one each, farms
/// yield two, fisheries three.
pub open spec fn spec_food(t: Time, c: Census) -> int {
    2 * c.farm as int + 3 * c.fishery as int - t.population as int
}

/// Power balance: housing and sanctuaries draw one each, power plants yield
/// three, renewables two.
pub open spec fn spec_power(c: Census) -> int {
    3 * c.powerplant as int + 2 * c.renewables as int - c.housing as int - c.sanctuary as int
}

/// Nature balance: each power plant costs one; sanctuaries count only while
/// the power balance is non-negative.
pub open spec fn spec_nature(c: Census) -> int {
    (if spec_power(c) >= 0 {
        c.sanctuary as int
    } else {
        0int
    }) - c.powerplant as int
}

/// The growth countdown after one turn: it ticks down while food lasts and
/// resets to 3 when it lapses.
pub open spec fn spec_population_timer_after(t: Time, c: Census) -> int {
    let ticked = if spec_food(t, c) >= 0 {
        t.population_timer as int - 1
    } else {
        t.population_timer as int
    };
    if ticked < 1 {
        3int
    } else {
        ticked
    }
}

/// Population after growth but before the food-deficit losses.
pub open spec fn spec_grown_population(t: Time, c: Census) -> int {
    let ticked = if spec_food(t, c) >= 0 {
        t.population_timer as int - 1
    } else {
        t.population_timer as int
    };
    if ticked < 1 {
        t.population as int + 1
    } else {
        t.population as int
    }
}

/// Population lost to a food deficit this turn: the shortfall, clamped so
/// that it never exceeds the homeless count (housed population is safe).
pub open spec fn spec_deficit(t: Time, c: Census) -> int {
    if spec_food(t, c) < 0 && spec_homeless(t, c) > 0 {
        if -spec_food(t, c) < spec_homeless(t, c) {
            -spec_food(t, c)
        } else {
            spec_homeless(t, c)
        }
    } else {
        0
    }
}

/// Population at the end of the turn.
pub open spec fn spec_population_after(t: Time, c: Census) -> int {
    spec_grown_population(t, c) - spec_deficit(t, c)
}

/// Flood countdown at the end of the turn: one tick per turn, plus one extra
/// tick for every point of negative nature.
pub open spec fn spec_flood_timer_after(t: Time, c: Census) -> int {
    t.flood_timer as int - 1 + (if spec_nature(c) < 0 {
        spec_nature(c)
    } else {
        0int
    })
}

/// Score at the end of the turn.
pub open spec fn spec_score_after(t: Time, c: Census) -> int {
    t.score as int + spec_population_after(t, c) - spec_homeless(t, c) + t.turn as int + (if
        spec_food(t, c) < 0 {
        spec_food(t, c)
    } else {
        0int
    }) + (if spec_nature(c) < 0 {
        spec_nature(c)
    } else {
        0int
    })
}

/// The once-per-turn recomputation pass over the structure census.
pub struct AllThingsDoer;

impl AllThingsDoer {
    /// Recomputes every counter from the prior counters and the current
    /// structure census, exactly once per player-issued end of turn.  Every
    /// output field equals the corresponding spec function of the inputs:
    /// the update is a pure function with no hidden state, and the game is
    /// over exactly when the resulting population is zero.
    pub fn run(time: &mut Time, census: &Census)
        requires
            -TIME_BOUND <= old(time).population <= TIME_BOUND,
            -TIME_BOUND <= old(time).population_timer <= TIME_BOUND,
            -TIME_BOUND <= old(time).flood_timer <= TIME_BOUND,
            -TIME_BOUND <= old(time).score <= TIME_BOUND,
            -TIME_BOUND <= old(time).turn <= TIME_BOUND,
            census.bounded(),
        ensures
            final(time).homeless as int == spec_homeless(*old(time), *census),
            final(time).food as int == spec_food(*old(time), *census),
            final(time).power as int == spec_power(*census),
            final(time).nature as int == spec_nature(*census),
            final(time).population_timer as int == spec_population_timer_after(
                *old(time),
                *census,
            ),
            final(time).population as int == spec_population_after(*old(time), *census),
            final(time).flood_timer as int == spec_flood_timer_after(*old(time), *census),
            final(time).score as int == spec_score_after(*old(time), *census),
            final(time).turn as int == old(time).turn as int + 1,
            final(time).game_over == (spec_population_after(*old(time), *census) == 0),
            final(time).turn_passed == old(time).turn_passed,
    {
        let housing = census.housing as i32;
        let sanctuary = census.sanctuary as i32;
        let powerplant = census.powerplant as i32;
        let renewables = census.renewables as i32;
        let farm = census.farm as i32;
        let fishery = census.fishery as i32;

        time.homeless = time.population - housing;
        time.food = 2 * farm + 3 * fishery - time.population;
        time.power = 3 * powerplant + 2 * renewables - housing - sanctuary;
        let sanctuary_bonus = sanctuary;
        time.nature = -powerplant;
        if time.power >= 0 {
            time.nature = time.nature + sanctuary_bonus;
        }
        if time.food >= 0 {
            time.population_timer = time.population_timer - 1;
        }
        if time.population_timer < 1 {
            time.population = time.population + 1;
            time.population_timer = 3;
        }
        if time.food < 0 && time.homeless > 0 {
            let shortfall = -time.food;
            let delta = if shortfall < time.homeless {
                shortfall
            } else {
                time.homeless
            };
            time.population = time.population - delta;
        }
        let nature_penalty = if time.nature < 0 {
            time.nature
        } else {
            0
        };
        time.flood_timer = time.flood_timer - 1 + nature_penalty;
        let food_penalty = if time.food < 0 {
            time.food
        } else {
            0
        };
        time.score = time.score + time.population - time.homeless + time.turn + food_penalty
            + nature_penalty;
        time.turn = time.turn + 1;
        time.game_over = time.population == 0;
    }

    /// Convenience pass mirroring one whole turn step: takes the census of
    /// the grid and recomputes the counters from it.
    pub fn run_on_grid(time: &mut Time, grid: &Grid)
        requires
            grid.wf(),
            -TIME_BOUND <= old(time).population <= TIME_BOUND,
            -TIME_BOUND <= old(time).population_timer <= TIME_BOUND,
            -TIME_BOUND <= old(time).flood_timer <= TIME_BOUND,
            -TIME_BOUND <= old(time).score <= TIME_BOUND,
            -TIME_BOUND <= old(time).turn <= TIME_BOUND,
        ensures
            ({
                let c = Census {
                    housing: spec_count_grid(*grid, Structure::Housing) as usize,
                    sanctuary: spec_count_grid(*grid, Structure::Sanctuary) as usize,
                    powerplant: spec_count_grid(*grid, Structure::Powerplant) as usize,
                    renewables: spec_count_grid(*grid, Structure::Renewables) as usize,
                    farm: spec_count_grid(*grid, Structure::Farm) as usize,
                    fishery: spec_count_grid(*grid, Structure::Fishery) as usize,
                };
                &&& final(time).homeless as int == spec_homeless(*old(time), c)
                &&& final(time).food as int == spec_food(*old(time), c)
                &&& final(time).power as int == spec_power(c)
                &&& final(time).nature as int == spec_nature(c)
                &&& final(time).population_timer as int == spec_population_timer_after(
                    *old(time),
                    c,
                )
                &&& final(time).population as int == spec_population_after(*old(time), c)
                &&& final(time).flood_timer as int == spec_flood_timer_after(*old(time), c)
                &&& final(time).score as int == spec_score_after(*old(time), c)
                &&& final(time).turn as int == old(time).turn as int + 1
                &&& final(time).game_over == (spec_population_after(*old(time), c) == 0)
                &&& final(time).turn_passed == old(time).turn_passed
            }),
    {
        let census = Census::of_grid(grid);
        AllThingsDoer::run(time, &census);
    }
}

/// Economy purity: the turn update has no hidden state — from equal counters
/// and equal censuses, the recomputation yields equal results in every
/// field.
pub proof fn lemma_turn_deterministic(t1: Time, t2: Time, c1: Census, c2: Census)
    requires
        t1 == t2,
        c1 == c2,
    ensures
        spec_homeless(t1, c1) == spec_homeless(t2, c2),
        spec_food(t1, c1) == spec_food(t2, c2),
        spec_power(c1) == spec_power(c2),
        spec_nature(c1) == spec_nature(c2),
        spec_population_timer_after(t1, c1) == spec_population_timer_after(t2, c2),
        spec_population_after(t1, c1) == spec_population_after(t2, c2),
        spec_flood_timer_after(t1, c1) == spec_flood_timer_after(t2, c2),
        spec_score_after(t1, c1) == spec_score_after(t2, c2),
{
}

/// Game-over boundary: the food-deficit clamp removes at most the homeless
/// count, so a population with at least one housed member survives the turn
/// no matter how deep the deficit, and the game ends exactly on zero.
pub proof fn lemma_game_over_boundary(t: Time, c: Census)
    requires
        t.population >= 1,
        c.housing >= 1,
    ensures
        spec_deficit(t, c) <= spec_homeless(t, c) || spec_deficit(t, c) == 0,
        spec_population_after(t, c) >= 1,
{
}

} // verus!
