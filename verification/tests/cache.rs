use sniper_core::BlockhashCache;
use sniper_core::BlockhashSnapshot;

fn snap(fill: u8, at: u64) -> BlockhashSnapshot {
    BlockhashSnapshot { blockhash: vec![fill; 32], obtained_at_ms: at }
}

#[test]
fn read_returns_seeded_snapshot() {
    let cache = BlockhashCache::new(snap(1, 10));
    let s = cache.read();
    assert_eq!(s.blockhash, vec![1u8; 32]);
    assert_eq!(s.obtained_at_ms, 10);
}

#[test]
fn successful_refresh_replaces_snapshot() {
    let mut cache = BlockhashCache::new(snap(1, 10));
    cache.apply_refresh(Some(snap(2, 20)));
    let s = cache.read();
    assert_eq!(s.blockhash, vec![2u8; 32]);
    assert_eq!(s.obtained_at_ms, 20);
}

#[test]
fn failed_refresh_keeps_last_good_snapshot() {
    let mut cache = BlockhashCache::new(snap(1, 10));
    cache.apply_refresh(Some(snap(2, 20)));
    cache.apply_refresh(None);
    let s = cache.read();
    assert_eq!(s.blockhash, vec![2u8; 32]);
    assert_eq!(s.obtained_at_ms, 20);
}

#[test]
fn reads_are_repeatable_between_refreshes() {
    let cache = BlockhashCache::new(snap(3, 30));
    let a = cache.read();
    let b = cache.read();
    assert_eq!(a.blockhash, b.blockhash);
    assert_eq!(a.obtained_at_ms, b.obtained_at_ms);
}
