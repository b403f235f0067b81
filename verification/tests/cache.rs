use nooku::cache::{CacheError, PrefetchCache, Step};
use nooku::index::ResourceIndex;
use nooku::key::CompositeKey;
use nooku::weather::Weather;

fn key(code: u8, hour: u32) -> CompositeKey {
    CompositeKey { code, hour }
}

fn index_of(list: &[&str]) -> ResourceIndex {
    let names: Vec<String> = list.iter().map(|s| s.to_string()).collect();
    ResourceIndex::build(&names).unwrap()
}

fn prepare(locator: &str) -> String {
    format!("prepared:{}", locator)
}

fn keys(cache: &PrefetchCache<String>) -> Vec<CompositeKey> {
    let mut out = Vec::new();
    if let Some(slot) = cache.current() {
        out.push(slot.0);
    }
    if let Some(slot) = cache.pending_next() {
        out.push(slot.0);
    }
    out
}

#[test]
fn a_new_cache_is_empty() {
    let cache: PrefetchCache<String> = PrefetchCache::new();
    assert_eq!(cache.len(), 0);
    assert!(cache.current().is_none());
    assert!(cache.pending_next().is_none());
}

#[test]
fn a_miss_names_the_locator_to_prepare() {
    let index = index_of(&["009 a.mp3", "010 b.mp3"]);
    let cache: PrefetchCache<String> = PrefetchCache::new();
    assert_eq!(
        cache.get_or_prepare(key(0, 9), &index),
        Ok(Step::Prepare { key: key(0, 9), locator: "009 a.mp3".to_string() })
    );
    assert_eq!(cache.len(), 0);
}

#[test]
fn a_served_key_is_a_hit_the_second_time() {
    let index = index_of(&["009 a.mp3", "010 b.mp3"]);
    let mut cache: PrefetchCache<String> = PrefetchCache::new();
    let mut prepared = 0;
    for _ in 0..3 {
        match cache.get_or_prepare(key(0, 9), &index).unwrap() {
            Step::Ready => {}
            Step::Prepare { key, locator } => {
                prepared += 1;
                cache.install_current(key, prepare(&locator));
            }
        }
        assert_eq!(cache.current(), Some(&(key(0, 9), "prepared:009 a.mp3".to_string())));
    }
    assert_eq!(prepared, 1);
}

#[test]
fn a_key_without_a_locator_is_unavailable_and_nothing_changes() {
    let index = index_of(&["009 a.mp3"]);
    let mut cache: PrefetchCache<String> = PrefetchCache::new();
    cache.install_current(key(0, 9), "A".to_string());
    assert_eq!(
        cache.get_or_prepare(key(1, 9), &index),
        Err(CacheError::ResourceUnavailable(key(1, 9)))
    );
    assert_eq!(keys(&cache), vec![key(0, 9)]);
    assert_eq!(cache.get_or_prepare(key(0, 9), &index), Ok(Step::Ready));
}

#[test]
fn installing_a_current_slot_keeps_a_next_slot_that_still_follows() {
    let mut cache: PrefetchCache<String> = PrefetchCache::new();
    cache.install_current(key(0, 9), "A".to_string());
    assert!(cache.install_next(key(0, 10), "B".to_string()));
    // the weather flipped within the hour: slot 1 still is for the next hour
    cache.install_current(key(1, 9), "C".to_string());
    assert_eq!(cache.current(), Some(&(key(1, 9), "C".to_string())));
    assert_eq!(cache.pending_next(), Some(&(key(0, 10), "B".to_string())));
    assert_eq!(cache.len(), 2);
}

#[test]
fn installing_a_current_slot_drops_a_next_slot_that_no_longer_follows() {
    let mut cache: PrefetchCache<String> = PrefetchCache::new();
    cache.install_current(key(0, 9), "A".to_string());
    assert!(cache.install_next(key(0, 10), "B".to_string()));
    cache.install_current(key(0, 14), "C".to_string());
    assert_eq!(keys(&cache), vec![key(0, 14)]);
    assert_eq!(cache.len(), 1);
}

#[test]
fn ensure_next_asks_for_the_following_hour_under_the_given_weather() {
    let index = index_of(&["009.mp3", "010.mp3", "110.mp3"]);
    let mut cache: PrefetchCache<String> = PrefetchCache::new();
    cache.install_current(key(0, 9), "A".to_string());
    assert_eq!(
        cache.ensure_next_prepared(Weather::Clear, &index),
        Ok(Step::Prepare { key: key(0, 10), locator: "010.mp3".to_string() })
    );
    assert_eq!(
        cache.ensure_next_prepared(Weather::Rainy, &index),
        Ok(Step::Prepare { key: key(1, 10), locator: "110.mp3".to_string() })
    );
    assert_eq!(
        cache.ensure_next_prepared(Weather::Unknown, &index),
        Ok(Step::Prepare { key: key(0, 10), locator: "010.mp3".to_string() })
    );
    assert_eq!(
        cache.ensure_next_prepared(Weather::Snowy, &index),
        Err(CacheError::ResourceUnavailable(key(2, 10)))
    );
}

#[test]
fn ensure_next_wraps_past_midnight() {
    let index = index_of(&["023.mp3", "000.mp3"]);
    let mut cache: PrefetchCache<String> = PrefetchCache::new();
    cache.install_current(key(0, 23), "late".to_string());
    assert_eq!(
        cache.ensure_next_prepared(Weather::Clear, &index),
        Ok(Step::Prepare { key: key(0, 0), locator: "000.mp3".to_string() })
    );
    assert!(cache.install_next(key(0, 0), "early".to_string()));
    assert_eq!(keys(&cache), vec![key(0, 23), key(0, 0)]);
}

#[test]
fn ensure_next_is_a_no_op_once_slot_one_is_filled() {
    let index = index_of(&["009.mp3", "010.mp3"]);
    let mut cache: PrefetchCache<String> = PrefetchCache::new();
    cache.install_current(key(0, 9), "A".to_string());
    assert!(cache.install_next(key(0, 10), "B".to_string()));
    assert_eq!(cache.ensure_next_prepared(Weather::Clear, &index), Ok(Step::Ready));
    assert_eq!(cache.ensure_next_prepared(Weather::Snowy, &index), Ok(Step::Ready));
    assert!(!cache.install_next(key(0, 10), "B again".to_string()));
    assert_eq!(cache.pending_next(), Some(&(key(0, 10), "B".to_string())));
    assert_eq!(cache.len(), 2);
}

#[test]
fn ensure_next_on_an_empty_cache_asks_for_nothing() {
    let index = index_of(&["009.mp3"]);
    let mut cache: PrefetchCache<String> = PrefetchCache::new();
    assert_eq!(cache.ensure_next_prepared(Weather::Clear, &index), Ok(Step::Ready));
    assert!(!cache.install_next(key(0, 10), "B".to_string()));
    assert_eq!(cache.len(), 0);
}

#[test]
fn install_next_refuses_a_key_that_does_not_follow_slot_zero() {
    let mut cache: PrefetchCache<String> = PrefetchCache::new();
    cache.install_current(key(0, 9), "A".to_string());
    assert!(!cache.install_next(key(0, 11), "X".to_string()));
    assert!(!cache.install_next(key(0, 9), "X".to_string()));
    assert_eq!(cache.len(), 1);
    assert!(cache.install_next(key(2, 10), "B".to_string()));
    assert_eq!(keys(&cache), vec![key(0, 9), key(2, 10)]);
}

#[test]
fn rotate_promotes_a_matching_next_slot_without_preparing() {
    let index = index_of(&["009.mp3", "010.mp3"]);
    let mut cache: PrefetchCache<String> = PrefetchCache::new();
    cache.install_current(key(0, 9), "A".to_string());
    assert!(cache.install_next(key(0, 10), "B".to_string()));
    assert_eq!(cache.rotate(key(0, 10), &index), Ok(Step::Ready));
    assert_eq!(cache.current(), Some(&(key(0, 10), "B".to_string())));
    assert!(cache.pending_next().is_none());
    assert_eq!(cache.len(), 1);
}

#[test]
fn rotate_without_a_next_slot_prepares_the_new_key() {
    let index = index_of(&["009.mp3", "010.mp3"]);
    let mut cache: PrefetchCache<String> = PrefetchCache::new();
    cache.install_current(key(0, 9), "A".to_string());
    assert_eq!(
        cache.rotate(key(0, 10), &index),
        Ok(Step::Prepare { key: key(0, 10), locator: "010.mp3".to_string() })
    );
    assert_eq!(cache.len(), 0);
    cache.install_current(key(0, 10), "B".to_string());
    assert_eq!(keys(&cache), vec![key(0, 10)]);
}

#[test]
fn rotate_on_an_empty_cache_prepares_the_new_key() {
    let index = index_of(&["010.mp3"]);
    let mut cache: PrefetchCache<String> = PrefetchCache::new();
    assert_eq!(
        cache.rotate(key(0, 10), &index),
        Ok(Step::Prepare { key: key(0, 10), locator: "010.mp3".to_string() })
    );
    assert_eq!(cache.len(), 0);
}

#[test]
fn rotate_to_an_unavailable_key_fails_and_keeps_nothing() {
    let index = index_of(&["009.mp3", "010.mp3"]);
    let mut cache: PrefetchCache<String> = PrefetchCache::new();
    cache.install_current(key(0, 9), "A".to_string());
    assert!(cache.install_next(key(0, 10), "B".to_string()));
    assert_eq!(
        cache.rotate(key(2, 10), &index),
        Err(CacheError::ResourceUnavailable(key(2, 10)))
    );
    assert_eq!(cache.len(), 0);
    assert!(cache.current().is_none());
}

#[test]
fn invalidate_empties_the_cache() {
    let mut cache: PrefetchCache<String> = PrefetchCache::new();
    cache.install_current(key(0, 9), "A".to_string());
    assert!(cache.install_next(key(0, 10), "B".to_string()));
    cache.invalidate();
    assert_eq!(cache.len(), 0);
    assert!(cache.current().is_none());
}

#[test]
fn the_cache_never_holds_more_than_two_slots() {
    let mut cache: PrefetchCache<u32> = PrefetchCache::new();
    let index = index_of(&["000.mp3"]);
    // a fixed, varied sequence of operations
    let mut seed: u32 = 12345;
    for step in 0..2000u32 {
        seed = seed.wrapping_mul(1_103_515_245).wrapping_add(12_345);
        let k = key(((seed >> 8) % 3) as u8, (seed >> 16) % 24);
        match (seed >> 4) % 5 {
            0 => cache.install_current(k, step),
            1 => {
                cache.install_next(k, step);
            }
            2 => {
                let _ = cache.rotate(k, &index);
            }
            3 => {
                if let Some(slot) = cache.current() {
                    let follow = slot.0.following(Weather::Rainy);
                    assert!(cache.install_next(follow, step) || cache.len() == 2);
                }
            }
            _ => {
                if step % 97 == 0 {
                    cache.invalidate();
                }
            }
        }
        assert!(cache.len() <= 2);
        assert_eq!(cache.current().is_some(), cache.len() >= 1);
        assert_eq!(cache.pending_next().is_some(), cache.len() == 2);
        if let (Some(now), Some(next)) = (cache.current(), cache.pending_next()) {
            assert_eq!(next.0.hour, (now.0.hour + 1) % 24);
        }
    }
}

#[test]
fn a_steady_day_prepares_each_hour_once() {
    let names: Vec<String> = (0..24).map(|h| format!("0{:02}.mp3", h)).collect();
    let index = ResourceIndex::build(&names).unwrap();
    let mut cache: PrefetchCache<String> = PrefetchCache::new();
    let mut prepared: Vec<String> = Vec::new();
    // first play at nine
    match cache.get_or_prepare(key(0, 9), &index).unwrap() {
        Step::Prepare { key, locator } => {
            prepared.push(locator.clone());
            cache.install_current(key, locator);
        }
        Step::Ready => panic!("an empty cache cannot serve"),
    }
    for tick in 0..48u32 {
        if let Step::Prepare { key, locator } = cache.ensure_next_prepared(Weather::Clear, &index).unwrap() {
            prepared.push(locator.clone());
            assert!(cache.install_next(key, locator));
        }
        let now = key(0, (10 + tick) % 24);
        // every rollover is served from slot 1
        assert_eq!(cache.rotate(now, &index), Ok(Step::Ready));
        assert_eq!(cache.current().unwrap().0, now);
    }
    assert_eq!(prepared.len(), 49);
    assert_eq!(prepared[0], "009.mp3");
    assert_eq!(prepared[1], "010.mp3");
    assert_eq!(prepared[15], "000.mp3");
}

#[test]
fn scenario_prefetch_then_rollover_then_missing_hour() {
    // the index knows clear weather at nine and at ten only
    let index = index_of(&["009 A.mp3", "010 B.mp3"]);
    let mut cache: PrefetchCache<String> = PrefetchCache::new();
    let mut prepared = 0;

    // nine o'clock, clear: the first request prepares A
    match cache.get_or_prepare(CompositeKey::from_prefix("009").unwrap(), &index) {
        Ok(Step::Prepare { key, locator }) => {
            assert_eq!(locator, "009 A.mp3");
            prepared += 1;
            cache.install_current(key, "A".to_string());
        }
        other => panic!("unexpected: {:?}", other),
    }
    assert_eq!(cache.current(), Some(&(key(0, 9), "A".to_string())));

    // the next slot is filled with B for ten o'clock
    match cache.ensure_next_prepared(Weather::Clear, &index) {
        Ok(Step::Prepare { key, locator }) => {
            assert_eq!(key.text(), "010");
            assert_eq!(locator, "010 B.mp3");
            prepared += 1;
            assert!(cache.install_next(key, "B".to_string()));
        }
        other => panic!("unexpected: {:?}", other),
    }
    assert_eq!(prepared, 2);

    // at the hour boundary B moves up and nothing is prepared
    assert_eq!(cache.rotate(key(0, 10), &index), Ok(Step::Ready));
    assert_eq!(cache.current(), Some(&(key(0, 10), "B".to_string())));
    assert_eq!(prepared, 2);

    // eleven o'clock is not in the index: exactly this error, no fallback
    assert_eq!(
        cache.ensure_next_prepared(Weather::Clear, &index),
        Err(CacheError::ResourceUnavailable(key(0, 11)))
    );
    assert_eq!(keys(&cache), vec![key(0, 10)]);
}

#[test]
fn scenario_weather_flips_between_prefetch_and_rollover() {
    let index = index_of(&["009.mp3", "010.mp3", "110.mp3"]);
    let mut cache: PrefetchCache<String> = PrefetchCache::new();
    cache.install_current(key(0, 9), "clear at nine".to_string());
    assert!(cache.install_next(key(0, 10), "clear at ten".to_string()));

    // at ten the oracle reports rain
    let now = CompositeKey::new(Weather::Rainy, 10).unwrap();
    assert_eq!(now.text(), "110");
    let step = cache.rotate(now, &index);
    assert_eq!(step, Ok(Step::Prepare { key: now, locator: "110.mp3".to_string() }));
    // the stale slot is gone before anything could play it
    assert!(cache.current().is_none());
    assert_eq!(cache.len(), 0);

    cache.install_current(now, "rain at ten".to_string());
    assert_eq!(cache.current(), Some(&(now, "rain at ten".to_string())));
    assert_eq!(cache.get_or_prepare(now, &index), Ok(Step::Ready));
    assert_eq!(cache.len(), 1);
}
