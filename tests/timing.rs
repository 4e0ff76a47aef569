use midi_player::clock::WaitClock;
use midi_player::play::{Dispatch, InstrumentCount, Step, TrackPlayer};
use midi_player::midi::{Event, EventKind, Timing};
use std::sync::Arc;
use std::time::{Duration, Instant};

#[test]
fn drift_correction_identity() {
    let mut c = WaitClock::new(500);
    assert!(c.begin_wait(480));
    assert_eq!(c.wake_us, 240_000);
    assert!(c.retime(100_000, 250));
    assert_eq!(c.remaining_ticks, 280);
    assert_eq!(c.wake_us, 170_000);
    assert_eq!(c.tick_us, 250);
}

#[test]
fn retime_to_longer_tick_moves_wake_later() {
    let mut c = WaitClock::new(500);
    assert!(c.begin_wait(480));
    assert!(c.retime(100_000, 1000));
    assert_eq!(c.wake_us, 240_000 + 280 * 500);
}

#[test]
fn retime_rounds_half_ticks_up() {
    let mut c = WaitClock::new(100);
    assert!(c.begin_wait(10));
    // 250 us at 100 us per tick is 2.5 ticks, counted as 3
    assert!(c.retime(250, 200));
    assert_eq!(c.remaining_ticks, 7);
    assert_eq!(c.wake_us, 1000 + 7 * 100);
    // 249 us is 2.49 ticks, counted as 2
    let mut d = WaitClock::new(100);
    assert!(d.begin_wait(10));
    assert!(d.retime(249, 200));
    assert_eq!(d.remaining_ticks, 8);
}

#[test]
fn retime_past_the_wait_owes_nothing() {
    let mut c = WaitClock::new(100);
    assert!(c.begin_wait(10));
    assert!(c.retime(5_000, 50));
    assert_eq!(c.remaining_ticks, 0);
    assert_eq!(c.wake_us, 1000);
}

#[test]
fn repeated_retimes_keep_tick_position() {
    let mut c = WaitClock::new(500);
    assert!(c.begin_wait(480));
    assert!(c.retime(100_000, 250)); // 200 done, 280 left, wake 170000
    assert!(c.retime(35_000, 1000)); // 140 done, 140 left
    assert_eq!(c.remaining_ticks, 140);
    assert_eq!(c.wake_us, 170_000 + 140 * 750);
}

#[test]
fn zero_tick_retime() {
    let mut c = WaitClock::new(0);
    assert!(c.begin_wait(10));
    assert_eq!(c.wake_us, 0);
    assert!(c.retime(0, 100));
    assert_eq!(c.remaining_ticks, 10);
    assert_eq!(c.wake_us, 1000);
    let mut d = WaitClock::new(0);
    assert!(d.begin_wait(10));
    assert!(d.retime(1, 100));
    assert_eq!(d.remaining_ticks, 0);
    assert_eq!(d.wake_us, 0);
}

#[test]
fn constant_tick_wakes_are_exact_sums() {
    let mut c = WaitClock::new(521);
    let deltas: [u32; 6] = [0, 1, 480, 7, 96_000, 3];
    let mut sum: u64 = 0;
    for d in deltas {
        assert!(c.begin_wait(d));
        sum += d as u64;
        assert_eq!(c.wake_us, 521 * sum);
    }
    for _ in 0..10_000 {
        assert!(c.begin_wait(333));
    }
    assert_eq!(c.wake_us, 521 * (sum + 333 * 10_000));
}

#[test]
fn wake_overflow_is_reported() {
    let mut c = WaitClock::new(u32::MAX);
    let mut ok = true;
    let mut n = 0;
    while ok && n < 10 {
        ok = c.begin_wait(u32::MAX);
        n += 1;
    }
    assert!(!ok);
    let before = c;
    assert!(!c.begin_wait(u32::MAX));
    assert_eq!(c, before);
}

#[test]
fn counter_tracks_current_and_max() {
    let mut c = InstrumentCount::new();
    let vels: [u8; 8] = [64, 64, 0, 64, 64, 0, 0, 0];
    let expect: [(usize, usize); 8] = [(1, 1), (2, 2), (1, 2), (2, 2), (3, 3), (2, 3), (1, 3), (0, 3)];
    let mut last_max = 0;
    for (v, e) in vels.iter().zip(expect.iter()) {
        c.record(*v);
        assert_eq!((c.current, c.max), *e);
        assert!(c.max >= c.current);
        assert!(c.max >= last_max);
        last_max = c.max;
    }
}

#[test]
fn counter_reports_new_maximum() {
    let mut c = InstrumentCount::new();
    assert!(c.record(1));
    assert!(!c.record(0));
    assert!(!c.record(1));
    assert!(c.record(1));
}

#[test]
fn unmatched_note_off_clamps_at_zero() {
    let mut c = InstrumentCount::new();
    assert!(!c.record(0));
    assert_eq!(c.current, 0);
    assert_eq!(c.max, 0);
    c.record(5);
    assert_eq!((c.current, c.max), (1, 1));
}

fn note(delta: u32, key: u8, vel: u8) -> Event {
    Event { delta, kind: Some(EventKind::NoteUpdate { key, vel }) }
}

#[test]
fn player_waits_for_start() {
    let mut p = TrackPlayer::new(vec![note(0, 60, 1)], Timing { ticks_per_beat: 96, tick_us: 500 });
    assert_eq!(p.begin_next(), Step::AwaitStart);
    assert_eq!(p.begin_next(), Step::AwaitStart);
    assert!(!p.waiting);
    p.start();
    assert_eq!(p.begin_next(), Step::Wait { wake_us: 0 });
}

#[test]
fn player_walks_its_events() {
    let events = vec![
        note(10, 60, 100),
        Event { delta: 20, kind: Some(EventKind::TempoUpdate(600_000)) },
        Event { delta: 0, kind: None },
        Event { delta: 5, kind: Some(EventKind::TrackName("x".to_string())) },
        note(30, 60, 0),
    ];
    let mut p = TrackPlayer::new(events, Timing { ticks_per_beat: 96, tick_us: 100 });
    p.start();
    assert_eq!(p.begin_next(), Step::Wait { wake_us: 1000 });
    assert_eq!(p.begin_next(), Step::Wait { wake_us: 1000 });
    assert_eq!(p.wake_up(), Dispatch::Tone { key: 60, vel: 100 });
    assert_eq!(p.begin_next(), Step::Wait { wake_us: 3000 });
    assert_eq!(p.wake_up(), Dispatch::Tempo { us_per_beat: 600_000, ticks_per_beat: 96 });
    // its own tempo event leaves the track's rate alone
    assert_eq!(p.clock.tick_us, 100);
    assert_eq!(p.begin_next(), Step::Wait { wake_us: 3000 });
    assert_eq!(p.wake_up(), Dispatch::Nothing);
    assert_eq!(p.begin_next(), Step::Wait { wake_us: 3500 });
    assert_eq!(p.wake_up(), Dispatch::Nothing);
    assert_eq!(p.begin_next(), Step::Wait { wake_us: 6500 });
    // a tempo from another track, 1000 us into the wait: 10 ticks done, 20 repriced
    assert_eq!(p.tempo_arrived(1000, 200), Step::Wait { wake_us: 8500 });
    assert_eq!(p.clock.tick_us, 200);
    assert_eq!(p.wake_up(), Dispatch::Tone { key: 60, vel: 0 });
    assert_eq!(p.begin_next(), Step::Finished);
    assert_eq!(p.begin_next(), Step::Finished);
}

#[test]
fn player_reports_overflow() {
    let events = vec![note(u32::MAX, 1, 1); 3];
    let mut p = TrackPlayer::new(events, Timing { ticks_per_beat: 1, tick_us: u32::MAX });
    p.start();
    assert!(matches!(p.begin_next(), Step::Wait { .. }));
    p.wake_up();
    assert_eq!(p.begin_next(), Step::Overflow);
    assert!(!p.waiting);
    assert_eq!(p.next, 1);
    let mut q = TrackPlayer::new(vec![note(u32::MAX, 1, 1); 2], Timing { ticks_per_beat: 1, tick_us: u32::MAX });
    q.clock.wake_us = u64::MAX - 1;
    q.start();
    assert_eq!(q.begin_next(), Step::Overflow);
    assert!(!q.waiting);
}

#[test]
fn barrier_releases_all_tracks_together() {
    let rt = tokio::runtime::Builder::new_multi_thread().enable_all().build().unwrap();
    let arrivals: Vec<Instant> = rt.block_on(async {
        let barrier = Arc::new(tokio::sync::Barrier::new(3));
        let mut handles = Vec::new();
        for delay_ms in [40u64, 80, 0] {
            let b = barrier.clone();
            handles.push(tokio::spawn(async move {
                tokio::time::sleep(Duration::from_millis(delay_ms)).await;
                let arrived = Instant::now();
                let mut p = TrackPlayer::new(vec![note(0, 60, 1)], Timing { ticks_per_beat: 96, tick_us: 500 });
                assert_eq!(p.begin_next(), Step::AwaitStart);
                b.wait().await;
                p.start();
                let first_wait = Instant::now();
                assert_eq!(p.begin_next(), Step::Wait { wake_us: 0 });
                (arrived, first_wait)
            }));
        }
        let mut out = Vec::new();
        let mut waits = Vec::new();
        for h in handles {
            let (a, w) = h.await.unwrap();
            out.push(a);
            waits.push(w);
        }
        let last_arrival = *out.iter().max().unwrap();
        for w in &waits {
            assert!(*w >= last_arrival);
        }
        out
    });
    assert_eq!(arrivals.len(), 3);
}

#[test]
fn first_failure_after_all_outcomes() {
    let all_ok: Vec<Result<(), String>> = vec![Ok(()), Ok(())];
    assert_eq!(midi_player::play::first_failure(&all_ok), None);
    let mixed: Vec<Result<(), String>> = vec![Ok(()), Err("a".into()), Ok(()), Err("b".into())];
    assert_eq!(midi_player::play::first_failure(&mixed), Some(1));
    let none: Vec<Result<(), String>> = vec![];
    assert_eq!(midi_player::play::first_failure(&none), None);
}
