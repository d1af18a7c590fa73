use bevy::time::{Timer, TimerMode};
use space_invaders::leaderboard::{top_scores, Entry};
use space_invaders::timer::WaveTimer;
use std::time::Duration;

/// A small generator of numbers that look random and are the same in every run.
struct Lcg(u64);

impl Lcg {
    fn next(&mut self) -> u64 {
        self.0 = self.0.wrapping_mul(6364136223846793005).wrapping_add(1442695040888963407);
        self.0 >> 33
    }
}

#[test]
fn wave_timer_agrees_with_the_engine_timer() {
    let mut lcg = Lcg(2024);
    for period in [1u64, 7, 1000, 16_666_667, 3_000_000_000] {
        let mut ours = WaveTimer::new(period as i64).ok().unwrap();
        let mut theirs = Timer::new(Duration::from_nanos(period), TimerMode::Repeating);
        for step in 0..2000 {
            match lcg.next() % 12 {
                0 => {
                    ours.pause();
                    theirs.pause();
                }
                1 | 2 => {
                    ours.unpause();
                    theirs.unpause();
                }
                3 => {
                    ours.reset();
                    theirs.reset();
                }
                _ => {
                    let delta = lcg.next() % (3 * period + 1);
                    let fired = ours.tick(delta);
                    let finished = theirs.tick(Duration::from_nanos(delta)).finished();
                    assert_eq!(fired, finished, "period {period}, step {step}");
                    assert_eq!(fired, theirs.just_finished());
                }
            }
            assert_eq!(ours.finished(), theirs.finished(), "period {period}, step {step}");
            assert_eq!(ours.paused(), theirs.paused());
            assert_eq!(u128::from(ours.elapsed()), theirs.elapsed().as_nanos());
            assert_eq!(u128::from(ours.period()), theirs.duration().as_nanos());
        }
    }
}

#[test]
fn top_scores_agrees_with_sorting_and_truncating() {
    let mut lcg = Lcg(7);
    for round in 0..200 {
        let len = (lcg.next() % 20) as usize;
        let limit = (lcg.next() % 12) as usize;
        let entries: Vec<Entry> = (0..len)
            .map(|i| Entry { name: format!("n{i}"), score: (lcg.next() % 9) as i64 - 4 })
            .collect();
        let mut expected = entries.clone();
        expected.sort_by(|a, b| b.score.cmp(&a.score));
        expected.truncate(limit);
        let top = top_scores(entries, limit);
        let got: Vec<(&str, i64)> = top.iter().map(|e| (e.name.as_str(), e.score)).collect();
        let want: Vec<(&str, i64)> = expected.iter().map(|e| (e.name.as_str(), e.score)).collect();
        assert_eq!(got, want, "round {round}");
    }
}
