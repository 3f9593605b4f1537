use ld42::grid::Grid;
use ld42::tile::{Structure, TileType};
use ld42::time::{AllThingsDoer, Census, Time};

fn census(
    housing: usize,
    sanctuary: usize,
    powerplant: usize,
    renewables: usize,
    farm: usize,
    fishery: usize,
) -> Census {
    Census { housing, sanctuary, powerplant, renewables, farm, fishery }
}

#[test]
fn fresh_time_counters() {
    let t = Time::new();
    assert_eq!(t.population, 3);
    assert_eq!(t.population_timer, 3);
    assert_eq!(t.flood_timer, 8);
    assert_eq!(t.nature, -1);
    assert_eq!(t.power, 0);
    assert_eq!(t.food, 0);
    assert_eq!(t.homeless, 0);
    assert_eq!(t.score, 0);
    assert_eq!(t.turn, 0);
    assert!(!t.game_over);
    assert!(!t.turn_passed);
    assert_eq!(Time::default(), t);
}

#[test]
fn starvation_scenario_ends_the_game() {
    // One turn from population=3, food=0, power=0, nature=-1, flood_timer=8,
    // population_timer=3 with zero structures: the whole population is
    // homeless, the food deficit removes min(3, 3) = 3, and the game is
    // over.
    let mut t = Time::new();
    AllThingsDoer::run(&mut t, &Census::empty());
    assert_eq!(t.homeless, 3);
    assert_eq!(t.food, -3);
    assert_eq!(t.power, 0);
    assert_eq!(t.nature, 0);
    assert_eq!(t.population, 0);
    assert!(t.game_over);
    assert_eq!(t.turn, 1);
    assert_eq!(t.flood_timer, 7);
    assert_eq!(t.population_timer, 3);
    assert_eq!(t.score, 0 + 0 - 3 + 0 + (-3) + 0);
}

#[test]
fn turn_is_deterministic() {
    // Economy purity: the same census and the same prior counters give the
    // same result, run after run.
    let c = census(2, 1, 1, 1, 2, 1);
    let t0 = Time::new();
    let mut t1 = t0;
    let mut t2 = t0;
    AllThingsDoer::run(&mut t1, &c);
    AllThingsDoer::run(&mut t2, &c);
    assert_eq!(t1, t2);
}

#[test]
fn housed_population_survives_any_deficit() {
    // Game-over boundary: with one house, a population of 1 is fully housed,
    // so the deficit clamp removes nobody and the game goes on.
    let mut t = Time::new();
    t.population = 1;
    AllThingsDoer::run(&mut t, &census(1, 0, 0, 0, 0, 0));
    assert_eq!(t.homeless, 0);
    assert_eq!(t.food, -1);
    assert_eq!(t.population, 1);
    assert!(!t.game_over);
}

#[test]
fn structure_contributions() {
    // Each structure kind contributes exactly its documented balance.
    let mut t = Time::new();
    t.population = 4;
    AllThingsDoer::run(&mut t, &census(2, 1, 1, 1, 2, 1));
    // homeless = 4 - 2; food = -4 + 2*2 + 3*1; power = 3 + 2 - 2 - 1.
    assert_eq!(t.homeless, 2);
    assert_eq!(t.food, 3);
    assert_eq!(t.power, 2);
    // nature = -1 (powerplant) + 1 (sanctuary, powered).
    assert_eq!(t.nature, 0);
}

#[test]
fn sanctuary_needs_power() {
    let mut t = Time::new();
    AllThingsDoer::run(&mut t, &census(0, 2, 0, 0, 0, 2));
    // power = -2 < 0: the sanctuary bonus is lost; nature stays 0.
    assert_eq!(t.power, -2);
    assert_eq!(t.nature, 0);
    let mut t2 = Time::new();
    AllThingsDoer::run(&mut t2, &census(0, 2, 0, 1, 0, 2));
    // power = -2 + 2 = 0: both sanctuaries count.
    assert_eq!(t2.power, 0);
    assert_eq!(t2.nature, 2);
}

#[test]
fn population_grows_when_fed() {
    let mut t = Time::new();
    t.population_timer = 1;
    // Food balance: -3 + 2*2 = 1 >= 0, so the timer ticks 1 -> 0 and lapses:
    // population grows and the timer resets to 3.
    AllThingsDoer::run(&mut t, &census(0, 0, 0, 0, 2, 0));
    assert_eq!(t.population, 4);
    assert_eq!(t.population_timer, 3);
    assert!(!t.game_over);
}

#[test]
fn negative_nature_accelerates_flooding() {
    let mut t = Time::new();
    AllThingsDoer::run(&mut t, &census(0, 0, 2, 0, 0, 1));
    // nature = -2; flood_timer -= 1 - (-2) = 3.
    assert_eq!(t.nature, -2);
    assert_eq!(t.flood_timer, 5);
}

#[test]
fn score_accumulates_documented_terms() {
    let mut t = Time::new();
    t.population = 4;
    t.turn = 5;
    t.score = 10;
    AllThingsDoer::run(&mut t, &census(1, 0, 1, 0, 0, 2));
    // homeless = 3; food = -4 + 6 = 2; power = 3 - 1 = 2; nature = -1.
    // population: food >= 0 ticks timer 3 -> 2, no growth, no deficit: 4.
    // score += 4 - 3 + 5 + 0 + (-1) = 5.
    assert_eq!(t.score, 15);
    assert_eq!(t.turn, 6);
}

#[test]
fn census_of_grid_counts_structures() {
    let mut g = Grid::new(8, 8, 16);
    g.place(TileType::Terrain, 0, 0);
    g.place(TileType::Structure(Structure::Housing), 0, 0);
    g.place(TileType::Structure(Structure::Housing), 1, 0);
    g.place(TileType::Structure(Structure::Farm), 2, 0);
    g.place(TileType::Structure(Structure::Fishery), 3, 4);
    g.place(TileType::Trees, 5, 5);
    let c = Census::of_grid(&g);
    assert_eq!(c.housing, 2);
    assert_eq!(c.farm, 1);
    assert_eq!(c.fishery, 1);
    assert_eq!(c.sanctuary, 0);
    assert_eq!(c.powerplant, 0);
    assert_eq!(c.renewables, 0);
}

#[test]
fn run_on_grid_matches_run_on_census() {
    let mut g = Grid::new(8, 8, 16);
    g.place(TileType::Structure(Structure::Farm), 1, 1);
    g.place(TileType::Structure(Structure::Fishery), 2, 2);
    let c = Census::of_grid(&g);
    let mut t1 = Time::new();
    let mut t2 = Time::new();
    AllThingsDoer::run(&mut t1, &c);
    AllThingsDoer::run_on_grid(&mut t2, &g);
    assert_eq!(t1, t2);
}
