use nooku::cache::{CacheError, PrefetchCache, Step};
use nooku::clock::WallClock;
use nooku::index::ResourceIndex;
use nooku::key::CompositeKey;
use nooku::scheduler::RolloverScheduler;
use nooku::session::{current_key, play, HourChange, Rollover};
use nooku::weather::Weather;

fn listing(list: &[&str]) -> ResourceIndex {
    let names: Vec<String> = list.iter().map(|s| s.to_string()).collect();
    ResourceIndex::build(&names).unwrap()
}

fn clock(hour: u32, minute: u32) -> WallClock {
    WallClock { hour, minute, second: 0, nanosecond: 0 }
}

#[test]
fn the_current_key_joins_weather_and_hour() {
    assert_eq!(current_key(Weather::Snowy, clock(7, 30)), CompositeKey { code: 2, hour: 7 });
    assert_eq!(current_key(Weather::Unknown, clock(23, 59)), CompositeKey { code: 0, hour: 23 });
}

#[test]
fn a_play_request_is_decided_for_the_current_key() {
    let index = listing(&["109.mp3"]);
    let mut cache: PrefetchCache<u8> = PrefetchCache::new();
    assert_eq!(
        play(&cache, &index, Weather::Rainy, clock(9, 15)),
        Ok(Step::Prepare { key: CompositeKey { code: 1, hour: 9 }, locator: "109.mp3".to_string() })
    );
    assert_eq!(
        play(&cache, &index, Weather::Clear, clock(9, 15)),
        Err(CacheError::ResourceUnavailable(CompositeKey { code: 0, hour: 9 }))
    );
    assert_eq!(cache.len(), 0);
    cache.install_current(CompositeKey { code: 1, hour: 9 }, 1);
    assert_eq!(play(&cache, &index, Weather::Rainy, clock(9, 59)), Ok(Step::Ready));
    assert_eq!(
        play(&cache, &index, Weather::Rainy, clock(10, 0)),
        Err(CacheError::ResourceUnavailable(CompositeKey { code: 1, hour: 10 }))
    );
}

#[test]
fn a_live_tick_rotates_the_cache() {
    let index = listing(&["009.mp3", "010.mp3", "110.mp3"]);
    let mut cache: PrefetchCache<u8> = PrefetchCache::new();
    cache.install_current(CompositeKey { code: 0, hour: 9 }, 1);
    assert!(cache.install_next(CompositeKey { code: 0, hour: 10 }, 2));
    let mut scheduler = RolloverScheduler::new();
    let arming = scheduler.arm(clock(9, 20));
    let handler = HourChange { token: arming.token };

    let rollover = handler.act(&scheduler, &mut cache, &index, Weather::Clear, clock(10, 0));
    assert_eq!(
        rollover,
        Rollover::Swap {
            key: CompositeKey { code: 0, hour: 10 },
            step: Ok(Step::Ready),
            delay_nanos: 3_600_500_000_000,
        }
    );
    assert_eq!(cache.current(), Some(&(CompositeKey { code: 0, hour: 10 }, 2)));
    assert_eq!(cache.len(), 1);
}

#[test]
fn a_live_tick_after_a_weather_flip_asks_for_the_new_key() {
    let index = listing(&["009.mp3", "010.mp3", "110.mp3"]);
    let mut cache: PrefetchCache<u8> = PrefetchCache::new();
    cache.install_current(CompositeKey { code: 0, hour: 9 }, 1);
    assert!(cache.install_next(CompositeKey { code: 0, hour: 10 }, 2));
    let mut scheduler = RolloverScheduler::new();
    let handler = HourChange { token: scheduler.arm(clock(9, 20)).token };

    let rollover = handler.act(&scheduler, &mut cache, &index, Weather::Rainy, clock(10, 0));
    assert_eq!(
        rollover,
        Rollover::Swap {
            key: CompositeKey { code: 1, hour: 10 },
            step: Ok(Step::Prepare {
                key: CompositeKey { code: 1, hour: 10 },
                locator: "110.mp3".to_string(),
            }),
            delay_nanos: 3_600_500_000_000,
        }
    );
    assert_eq!(cache.len(), 0);
}

#[test]
fn a_tick_of_a_replaced_or_cancelled_timer_changes_nothing() {
    let index = listing(&["009.mp3", "010.mp3"]);
    let mut cache: PrefetchCache<u8> = PrefetchCache::new();
    cache.install_current(CompositeKey { code: 0, hour: 9 }, 1);
    assert!(cache.install_next(CompositeKey { code: 0, hour: 10 }, 2));
    let mut scheduler = RolloverScheduler::new();
    let old = HourChange { token: scheduler.arm(clock(9, 20)).token };
    let new = HourChange { token: scheduler.arm(clock(9, 40)).token };

    assert_eq!(
        old.act(&scheduler, &mut cache, &index, Weather::Clear, clock(10, 0)),
        Rollover::Ignore
    );
    assert_eq!(cache.len(), 2);
    assert_eq!(cache.current(), Some(&(CompositeKey { code: 0, hour: 9 }, 1)));

    scheduler.cancel();
    assert_eq!(
        new.act(&scheduler, &mut cache, &index, Weather::Clear, clock(10, 0)),
        Rollover::Ignore
    );
    assert_eq!(cache.len(), 2);
}
