use rand::SeedableRng;
use rand_chacha::ChaCha8Rng;
use space_invaders::collision::{outcome, Outcome, Party};
use space_invaders::game::{clock_face, Score, ScoreBand, State};
use space_invaders::invader::{
    get_type, group_of_row, kind_of_row, Kind, Type, KINDS, ROWS_TO_POPULATE, ROWS_TO_SKIP,
};
use space_invaders::leaderboard::{sort_by_score, top_scores, Entry, TOP_N_SCORES};
use space_invaders::level::{self, Level};
use space_invaders::projectile::{Direction, Projectile};
use space_invaders::ufo::{
    entrance, get_random_points, points_at, random_entrance, Entrance, POINT_VALUES, SPEED,
    X_OFFSET,
};

fn entry(name: &str, score: i64) -> Entry {
    Entry { name: name.to_string(), score }
}

fn names(entries: &Vec<Entry>) -> Vec<&str> {
    entries.iter().map(|e| e.name.as_str()).collect()
}

#[test]
fn sort_by_score_orders_descending_and_is_stable() {
    let mut entries = vec![
        entry("a", 10),
        entry("b", 30),
        entry("c", 20),
        entry("d", 30),
        entry("e", -5),
        entry("f", 20),
    ];
    sort_by_score(&mut entries);
    assert_eq!(names(&entries), vec!["b", "d", "c", "f", "a", "e"]);
    let scores: Vec<i64> = entries.iter().map(|e| e.score).collect();
    assert_eq!(scores, vec![30, 30, 20, 20, 10, -5]);
    let mut none: Vec<Entry> = vec![];
    sort_by_score(&mut none);
    assert!(none.is_empty());
    let mut one = vec![entry("x", i64::MIN)];
    sort_by_score(&mut one);
    assert_eq!(names(&one), vec!["x"]);
}

#[test]
fn top_scores_keeps_the_best() {
    assert_eq!(TOP_N_SCORES, 8);
    let entries: Vec<Entry> =
        (0..12).map(|i| entry(&format!("player{i}"), (i * 7 % 12) as i64)).collect();
    let top = top_scores(entries.clone(), TOP_N_SCORES);
    let scores: Vec<i64> = top.iter().map(|e| e.score).collect();
    assert_eq!(scores, vec![11, 10, 9, 8, 7, 6, 5, 4]);
    assert_eq!(top[0].name, "player5");
    let all = top_scores(entries.clone(), 100);
    assert_eq!(all.len(), 12);
    assert_eq!(all[11].score, 0);
    assert!(top_scores(entries.clone(), 0).is_empty());
    assert!(top_scores(vec![], 3).is_empty());
    let ties = top_scores(vec![entry("a", 1), entry("b", 1), entry("c", 1)], 2);
    assert_eq!(names(&ties), vec!["a", "b"]);
}

#[test]
fn invader_sprites_alternate() {
    let all = [
        Type::Squid1,
        Type::Squid2,
        Type::Crab1,
        Type::Crab2,
        Type::Octopus1,
        Type::Octopus2,
    ];
    for t in all {
        assert_ne!(t.next(), t);
        assert_eq!(t.next().next(), t);
    }
    assert_eq!(Type::Squid1.next(), Type::Squid2);
    assert_eq!(Type::Crab2.next(), Type::Crab1);
    assert_eq!(Type::Octopus1.next(), Type::Octopus2);
    assert_eq!(Type::Squid1.asset_path(), "sprites/invaders/squid_1.png");
    assert_eq!(Type::Squid2.asset_path(), "sprites/invaders/squid_2.png");
    assert_eq!(Type::Crab1.asset_path(), "sprites/invaders/crab_1.png");
    assert_eq!(Type::Crab2.asset_path(), "sprites/invaders/crab_2.png");
    assert_eq!(Type::Octopus1.asset_path(), "sprites/invaders/octopus_1.png");
    assert_eq!(Type::Octopus2.asset_path(), "sprites/invaders/octopus_2.png");
}

#[test]
fn invader_kinds_by_row() {
    assert_eq!((ROWS_TO_POPULATE, ROWS_TO_SKIP, KINDS), (5, 2, 3));
    assert_eq!(get_type(0), Kind { sprite: Type::Squid1, width: 16, height: 16, points: 30 });
    assert_eq!(get_type(1), Kind { sprite: Type::Crab1, width: 22, height: 16, points: 20 });
    assert_eq!(get_type(2), Kind { sprite: Type::Octopus1, width: 24, height: 16, points: 10 });
    let groups: Vec<usize> = (0..5).map(group_of_row).collect();
    assert_eq!(groups, vec![0, 0, 1, 1, 2]);
    let points: Vec<usize> = (0..5).map(|r| kind_of_row(r).unwrap().points).collect();
    assert_eq!(points, vec![30, 30, 20, 20, 10]);
    assert_eq!(kind_of_row(5), None);
    assert_eq!(kind_of_row(usize::MAX), None);
}

#[test]
fn level_kinds() {
    let kinds: Vec<level::Type> = (1..=20).map(|n| level::Type::from_level(Level(n))).collect();
    for (i, kind) in kinds.iter().enumerate() {
        let n = i + 1;
        let expected = if n % 10 == 0 {
            level::Type::Bonus
        } else if n % 5 == 0 {
            level::Type::Boss
        } else {
            level::Type::Normal
        };
        assert_eq!(*kind, expected, "level {n}");
    }
    assert!(level::Type::is_normal(Level(1)));
    assert!(level::Type::is_boss(Level(5)));
    assert!(!level::Type::is_bonus(Level(5)));
    assert!(level::Type::is_bonus(Level(10)));
    assert!(!level::Type::is_boss(Level(10)));
    assert!(level::Type::is_bonus(Level(0)));
    let mut level = Level::first();
    assert_eq!(level, Level(1));
    for _ in 0..4 {
        level.level_up();
    }
    assert_eq!(level, Level(5));
    let mut last = Level(usize::MAX);
    last.level_up();
    assert_eq!(last, Level(usize::MAX));
}

#[test]
fn pause_toggles_between_playing_and_paused() {
    assert_eq!(State::Playing.toggle_pause(), Some(State::Paused));
    assert_eq!(State::Paused.toggle_pause(), Some(State::Playing));
    for state in [
        State::Empty,
        State::Setup,
        State::LvlStartup,
        State::LvlFinished,
        State::GameOver,
        State::Leaderboard,
        State::Exit,
    ] {
        assert_eq!(state.toggle_pause(), None);
    }
}

#[test]
fn score_award_and_band() {
    let mut score = Score(0);
    assert_eq!(score.band(), ScoreBand::Plain);
    score.award(&vec![30, 20, 10, 30]);
    assert_eq!(score, Score(90));
    score.award(&vec![]);
    assert_eq!(score, Score(90));
    score.award(&vec![9]);
    assert_eq!(score.band(), ScoreBand::Plain);
    score.award(&vec![1]);
    assert_eq!(score.band(), ScoreBand::Light);
    assert_eq!(Score(499).band(), ScoreBand::Light);
    assert_eq!(Score(500).band(), ScoreBand::Dim);
    assert_eq!(Score(999).band(), ScoreBand::Dim);
    assert_eq!(Score(1000).band(), ScoreBand::Highlight);
    assert_eq!(Score(usize::MAX).band(), ScoreBand::Highlight);
    let mut full = Score(usize::MAX - 5);
    full.award(&vec![3, 300, 2]);
    assert_eq!(full, Score(usize::MAX));
}

#[test]
fn clock_face_splits_minutes_and_seconds() {
    assert_eq!(clock_face(0), (0, 0));
    assert_eq!(clock_face(59), (0, 59));
    assert_eq!(clock_face(60), (1, 0));
    assert_eq!(clock_face(3725), (62, 5));
    assert_eq!(clock_face(u64::MAX), (u64::MAX / 60, u64::MAX % 60));
}

#[test]
fn projectile_directions() {
    assert!(Direction::Down.is_downwards());
    assert!(!Direction::Down.is_upwards());
    assert!(Direction::Up.is_upwards());
    assert!(!Direction::Up.is_downwards());
    assert_eq!(Projectile::new(Direction::Up).direction, Direction::Up);
    assert_eq!(Projectile::new(Direction::Down), Projectile { direction: Direction::Down });
}

#[test]
fn saucer_points_come_from_the_table() {
    assert_eq!(POINT_VALUES, 5);
    let table: Vec<usize> = (0..5).map(points_at).collect();
    assert_eq!(table, vec![50, 100, 150, 200, 300]);
    let mut rng = ChaCha8Rng::seed_from_u64(42);
    let mut seen = [false; 5];
    for _ in 0..400 {
        let points = get_random_points(&mut rng);
        let place = table.iter().position(|p| *p == points);
        assert!(place.is_some(), "{points} is not in the table");
        seen[place.unwrap()] = true;
    }
    // A draw that always gave the same place would leave four unseen.
    assert_eq!(seen, [true; 5]);
}

#[test]
fn saucer_enters_at_either_edge() {
    assert_eq!((X_OFFSET, SPEED), (688, 200));
    assert_eq!(entrance(true), Entrance { x: -688, speed: 200 });
    assert_eq!(entrance(false), Entrance { x: 688, speed: -200 });
    let mut rng = ChaCha8Rng::seed_from_u64(7);
    let mut left = 0;
    let mut right = 0;
    for _ in 0..200 {
        let e = random_entrance(&mut rng);
        if e == entrance(true) {
            left += 1;
        } else {
            assert_eq!(e, entrance(false));
            right += 1;
        }
    }
    assert!(left > 0 && right > 0);
}

#[test]
fn collision_outcomes() {
    let parties = [Party::Player, Party::Enemy, Party::PlayerShot, Party::EnemyShot];
    for other in parties {
        assert_eq!(outcome(Party::Player, None, other, None), Outcome::PlayerDeath);
        assert_eq!(outcome(other, Some(30), Party::Player, None), Outcome::PlayerDeath);
    }
    assert_eq!(
        outcome(Party::Enemy, Some(30), Party::PlayerShot, None),
        Outcome::EnemyDeath { points: 30 }
    );
    assert_eq!(
        outcome(Party::PlayerShot, None, Party::Enemy, Some(300)),
        Outcome::EnemyDeath { points: 300 }
    );
    assert_eq!(
        outcome(Party::Enemy, None, Party::EnemyShot, None),
        Outcome::EnemyDeath { points: 0 }
    );
    assert_eq!(outcome(Party::Enemy, None, Party::Enemy, None), Outcome::EnemyDeath { points: 0 });
    assert_eq!(outcome(Party::PlayerShot, None, Party::EnemyShot, None), Outcome::ShotsCollide);
    assert_eq!(outcome(Party::EnemyShot, None, Party::EnemyShot, None), Outcome::ShotsCollide);
    assert_eq!(outcome(Party::PlayerShot, Some(5), Party::PlayerShot, Some(6)), Outcome::ShotsCollide);
}
