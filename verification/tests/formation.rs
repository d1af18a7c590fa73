use space_invaders::delay::{DelayPolicy, UNIT_DELAY_BASE};
use space_invaders::direction::Direction;
use space_invaders::error::ConfigError;
use space_invaders::formation::{Config, Formation};
use space_invaders::geometry::{Position, Step};
use space_invaders::pool::WaveState;
use space_invaders::timer::WAVE_PERIOD;
use space_invaders::unit::Placement;

const SECOND: u64 = 1_000_000_000;
const MS: u64 = 1_000_000;

fn place(row: u32, column: u32, x: i64, y: i64) -> Placement {
    Placement { row, column, position: Position { x, y } }
}

fn grid(rows: u32, columns: u32) -> Vec<Placement> {
    let mut placements = Vec::new();
    for row in 0..rows {
        for column in 0..columns {
            placements.push(place(row, column, 100 * column as i64, -60 * row as i64));
        }
    }
    placements
}

fn config(period: i64, policy: DelayPolicy) -> Config {
    Config { period, step: Step { dx: 4, dy: 8 }, policy }
}

fn positions(formation: &Formation) -> Vec<Option<(i64, i64)>> {
    (0..formation.len()).map(|i| formation.position(i).map(|p| (p.x, p.y))).collect()
}

#[test]
fn new_formation_is_stopped_and_empty() {
    let mut formation = Formation::new();
    assert!(!formation.is_running());
    assert!(formation.is_empty());
    assert_eq!(formation.len(), 0);
    assert_eq!(formation.outstanding(), 0);
    assert_eq!(formation.direction(), None);
    assert!(formation.scheduler().is_none());
    assert!(!formation.update(10 * SECOND));
    assert!(!formation.remove_unit(0));
}

#[test]
fn start_assigns_delays_by_the_diagonal_stagger() {
    let mut formation = Formation::new();
    let placements = grid(3, 5);
    assert_eq!(formation.start(&placements, &config(WAVE_PERIOD, DelayPolicy::per_unit())), Ok(()));
    assert!(formation.is_running());
    assert_eq!(formation.len(), 15);
    assert_eq!(formation.direction(), Some(Direction::Right));
    for row in 0..3u32 {
        for column in 0..5u32 {
            let unit = formation.unit((row * 5 + column) as usize).unwrap();
            assert_eq!((unit.row, unit.column), (row, column));
            assert_eq!(unit.delay, 50 * MS * (row + column / 2) as u64);
            assert_eq!(unit.position, Position { x: 100 * column as i64, y: -60 * row as i64 });
        }
    }
    assert_eq!(formation.unit(11).unwrap().delay, 100 * MS);
    assert_eq!(formation.unit(13).unwrap().delay, 150 * MS);
    assert_eq!(formation.unit(15), None);
}

#[test]
fn start_assigns_delays_by_row_table() {
    let mut formation = Formation::new();
    let placements = grid(5, 2);
    assert_eq!(formation.start(&placements, &config(WAVE_PERIOD, DelayPolicy::per_row())), Ok(()));
    let delays: Vec<u64> = (0..10).map(|i| formation.unit(i).unwrap().delay).collect();
    assert_eq!(
        delays,
        vec![
            800 * MS,
            800 * MS,
            600 * MS,
            600 * MS,
            400 * MS,
            400 * MS,
            200 * MS,
            200 * MS,
            0,
            0
        ]
    );
}

#[test]
fn start_refuses_bad_configurations_and_keeps_the_formation() {
    let mut formation = Formation::new();
    let placements = grid(2, 3);
    assert_eq!(formation.start(&placements, &config(SECOND as i64, DelayPolicy::per_unit())), Ok(()));
    assert!(formation.update(SECOND));

    let cases: Vec<(Config, Vec<Placement>, ConfigError)> = vec![
        (config(0, DelayPolicy::per_unit()), grid(1, 1), ConfigError::NonPositivePeriod),
        (config(-3, DelayPolicy::per_unit()), grid(1, 1), ConfigError::NonPositivePeriod),
        // A bad period is reported before a bad delay.
        (
            config(0, DelayPolicy::PerUnit { base: -1 }),
            grid(2, 2),
            ConfigError::NonPositivePeriod,
        ),
        (config(5, DelayPolicy::PerUnit { base: -1 }), grid(2, 2), ConfigError::NegativeDelay),
        (
            config(5, DelayPolicy::PerUnit { base: i64::MAX }),
            grid(4, 1),
            ConfigError::DelayOverflow,
        ),
        (config(5, DelayPolicy::per_row()), grid(6, 1), ConfigError::RowOutOfTable),
        (
            config(5, DelayPolicy::PerRow { table: vec![1, -1, 2] }),
            grid(3, 1),
            ConfigError::NegativeDelay,
        ),
        // The first unit without a delay decides: row 1 is negative, row 3 is missing.
        (
            config(5, DelayPolicy::PerRow { table: vec![1, -1, 2] }),
            grid(4, 1),
            ConfigError::NegativeDelay,
        ),
        (
            config(5, DelayPolicy::PerRow { table: vec![1, 1, 2] }),
            vec![place(3, 0, 0, 0), place(1, 0, 0, 0)],
            ConfigError::RowOutOfTable,
        ),
    ];
    for (cfg, placements, error) in cases {
        assert_eq!(formation.start(&placements, &cfg), Err(error));
        assert!(formation.is_running());
        assert_eq!(formation.len(), 6);
        assert_eq!(formation.direction(), Some(Direction::Down));
        assert_eq!(formation.position(0), Some(Position { x: 4, y: 0 }));
    }
}

#[test]
fn negative_base_is_accepted_where_no_delay_is_negative() {
    // Every unit has weight zero, so every delay is zero.
    let mut formation = Formation::new();
    let placements = vec![place(0, 0, 0, 0), place(0, 1, 0, 0)];
    assert_eq!(formation.start(&placements, &config(5, DelayPolicy::PerUnit { base: -7 })), Ok(()));
    assert_eq!(formation.unit(1).unwrap().delay, 0);
}

#[test]
fn formation_scenario_with_diagonal_stagger() {
    // Columns 0 and 2 of the top row: delays 0 and 50 ms.
    let mut formation = Formation::new();
    let placements = vec![place(0, 0, 100, 50), place(0, 2, 200, 50)];
    let cfg = Config {
        period: WAVE_PERIOD,
        step: Step { dx: 4, dy: 8 },
        policy: DelayPolicy::PerUnit { base: UNIT_DELAY_BASE },
    };
    assert_eq!(formation.start(&placements, &cfg), Ok(()));
    assert!(!formation.update(2 * SECOND));
    assert_eq!(formation.wave_state(), WaveState::Idle);
    assert!(formation.update(SECOND));
    assert_eq!(positions(&formation), vec![Some((104, 50)), Some((200, 50))]);
    assert_eq!(formation.wave_state(), WaveState::InProgress);
    assert_eq!(formation.outstanding(), 1);
    assert!(!formation.update(50 * MS));
    assert_eq!(positions(&formation), vec![Some((104, 50)), Some((204, 50))]);
    assert_eq!(formation.wave_state(), WaveState::Idle);
    assert!(!formation.update(2950 * MS));
    assert!(formation.update(50 * MS));
    assert_eq!(positions(&formation), vec![Some((104, 42)), Some((200 + 4, 50))]);
}

#[test]
fn stop_drops_outstanding_tasks_without_applying_them() {
    let mut formation = Formation::new();
    let placements = grid(4, 4);
    assert_eq!(formation.start(&placements, &config(SECOND as i64, DelayPolicy::per_unit())), Ok(()));
    assert!(formation.update(SECOND));
    assert!(formation.outstanding() > 0);
    let before = positions(&formation);
    formation.stop();
    assert!(!formation.is_running());
    assert_eq!(formation.outstanding(), 0);
    assert_eq!(formation.wave_state(), WaveState::Idle);
    assert_eq!(formation.direction(), None);
    assert_eq!(positions(&formation), before);
    for _ in 0..20 {
        assert!(!formation.update(SECOND));
        assert_eq!(positions(&formation), before);
        assert_eq!(formation.outstanding(), 0);
    }
    // Stopping again changes nothing.
    formation.stop();
    assert!(!formation.is_running());
    assert_eq!(positions(&formation), before);
    assert_eq!(formation.len(), 16);
}

#[test]
fn restart_begins_the_pattern_anew() {
    let mut formation = Formation::new();
    let cfg = config(SECOND as i64, DelayPolicy::per_unit());
    assert_eq!(formation.start(&grid(1, 1), &cfg), Ok(()));
    assert!(formation.update(SECOND));
    assert!(formation.update(SECOND));
    assert_eq!(formation.direction(), Some(Direction::Left));
    formation.stop();
    assert_eq!(formation.start(&grid(2, 2), &cfg), Ok(()));
    assert_eq!(formation.direction(), Some(Direction::Right));
    assert_eq!(formation.len(), 4);
    assert_eq!(formation.outstanding(), 0);
    assert_eq!(formation.scheduler().unwrap().timer().elapsed(), 0);
    assert_eq!(formation.scheduler().unwrap().timer().period(), SECOND);
    assert_eq!(formation.scheduler().unwrap().step(), Step { dx: 4, dy: 8 });
}

#[test]
fn unit_destroyed_while_its_task_waits() {
    let mut formation = Formation::new();
    let placements = vec![place(0, 0, 0, 0), place(1, 0, 0, -60), place(1, 1, 100, -60)];
    assert_eq!(formation.start(&placements, &config(SECOND as i64, DelayPolicy::per_unit())), Ok(()));
    assert!(formation.update(SECOND));
    assert_eq!(formation.outstanding(), 2);
    assert!(formation.remove_unit(1));
    assert!(!formation.remove_unit(1));
    assert!(!formation.remove_unit(7));
    assert_eq!(formation.outstanding(), 2);
    assert!(!formation.update(50 * MS));
    assert_eq!(positions(&formation), vec![Some((4, 0)), None, Some((104, -60))]);
    assert_eq!(formation.outstanding(), 0);
    // The next wave has no task for the destroyed unit.
    assert!(!formation.update(950 * MS));
    assert!(formation.update(50 * MS));
    assert_eq!(formation.outstanding(), 1);
    assert_eq!(positions(&formation), vec![Some((4, -8)), None, Some((104, -60))]);
    assert!(!formation.is_empty());
    assert_eq!(formation.units().len(), 3);
    assert_eq!(formation.units()[1], None);
    assert_eq!(formation.units()[2], formation.unit(2));
    formation.remove_unit(0);
    formation.remove_unit(2);
    assert!(formation.is_empty());
    assert_eq!(formation.len(), 3);
}

#[test]
fn canonical_configuration() {
    let cfg = Config::canonical(116, 65);
    assert_eq!(cfg.period, 3_000_000_000);
    assert_eq!(cfg.step, Step { dx: 29, dy: 32 });
    assert_eq!(cfg.policy.delay_for(4, 10), Ok(450 * MS));
}

#[test]
fn positions_stop_at_the_end_of_the_range() {
    let mut formation = Formation::new();
    let placements = vec![place(0, 0, i64::MAX - 2, i64::MIN + 3)];
    let cfg = config(1, DelayPolicy::per_unit());
    assert_eq!(formation.start(&placements, &cfg), Ok(()));
    assert!(formation.update(1)); // right
    assert_eq!(formation.position(0), Some(Position { x: i64::MAX, y: i64::MIN + 3 }));
    assert!(formation.update(1)); // down
    assert_eq!(formation.position(0), Some(Position { x: i64::MAX, y: i64::MIN }));
    assert!(formation.update(1)); // left
    assert_eq!(formation.position(0), Some(Position { x: i64::MAX - 4, y: i64::MIN }));
}

#[test]
fn formation_reaching_the_bottom() {
    let mut formation = Formation::new();
    assert!(!formation.any_below(i64::MAX));
    let placements = vec![place(0, 0, 0, 10), place(1, 0, 0, -50), place(2, 0, 0, -20)];
    assert_eq!(formation.start(&placements, &config(1, DelayPolicy::PerUnit { base: 0 })), Ok(()));
    assert!(!formation.any_below(-50));
    assert!(formation.any_below(-49));
    assert!(formation.remove_unit(1));
    assert!(!formation.any_below(-20));
    assert!(formation.any_below(-19));
    assert!(formation.update(1)); // right
    assert!(!formation.any_below(-20));
    assert!(formation.update(1)); // down by 8
    assert!(formation.any_below(-27));
    assert!(!formation.any_below(-28));
}
