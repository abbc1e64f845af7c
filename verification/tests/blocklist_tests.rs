use advoid::blocklist::BlockedDomainSet;
use advoid::cache::{is_blocked, DomainVerdictCache};

fn set_of(entries: &[&str]) -> BlockedDomainSet {
    let v: Vec<Vec<u8>> = entries.iter().map(|e| e.as_bytes().to_vec()).collect();
    BlockedDomainSet::new(v)
}

#[test]
fn label_boundary_matching() {
    let set = set_of(&["ad.com."]);
    assert!(!set.matches(b"bad.com."));
    assert!(set.matches(b"sub.ad.com."));
    assert!(set.matches(b"ad.com."));
    assert!(!set.matches(b"mad.com."));
    assert!(!set.matches(b"ad.com.evil."));
    assert!(set.matches(b"a.b.ad.com."));
}

#[test]
fn blocked_iff_some_entry_matches() {
    let set = set_of(&["ads.example.", "tracker.net."]);
    assert!(set.matches(b"ads.example."));
    assert!(set.matches(b"x.tracker.net."));
    assert!(!set.matches(b"example."));
    assert!(!set.matches(b"net."));
    let empty = set_of(&[]);
    assert!(!empty.matches(b"anything.at-all."));
}

#[test]
fn overlapping_entries_both_block() {
    let set = set_of(&["example.", "ads.example."]);
    assert!(set.matches(b"ads.example."));
    assert!(set.matches(b"sub.ads.example."));
    assert!(set.matches(b"other.example."));
}

#[test]
fn matching_is_case_sensitive() {
    let set = set_of(&["ad.com."]);
    assert!(!set.matches(b"sub.AD.COM."));
}

#[test]
fn parse_skips_blanks_and_comments() {
    let text = b"ads.example\n\n# comment line\n  \t\ntracker.net\n";
    let set = BlockedDomainSet::parse(text);
    assert_eq!(set.len(), 2);
    assert!(set.matches(b"ads.example."));
    assert!(set.matches(b"tracker.net."));
}

#[test]
fn parse_trims_and_normalizes_trailing_dot() {
    let text = b"  ads.example  \r\nalready.dotted.\nlast.one";
    let set = BlockedDomainSet::parse(text);
    assert_eq!(set.len(), 3);
    assert!(set.matches(b"ads.example."));
    assert!(set.matches(b"already.dotted."));
    assert!(set.matches(b"sub.last.one."));
}

#[test]
fn parse_empty_input() {
    let set = BlockedDomainSet::parse(b"");
    assert_eq!(set.len(), 0);
    let set = BlockedDomainSet::parse(b"\n\n# only comments\n");
    assert_eq!(set.len(), 0);
}

#[test]
fn cache_hit_returns_memoized_verdict() {
    let set = set_of(&["ad.com."]);
    let mut cache = DomainVerdictCache::new(8);
    assert!(is_blocked(&mut cache, &set, b"sub.ad.com."));
    assert_eq!(cache.len(), 1);
    assert!(is_blocked(&mut cache, &set, b"sub.ad.com."));
    assert_eq!(cache.len(), 1);
    assert!(!is_blocked(&mut cache, &set, b"ok.org."));
    assert_eq!(cache.len(), 2);
}

#[test]
fn eviction_recomputes_same_verdict() {
    // Capacity 2; three distinct names evict the least recently used one,
    // and re-querying the evicted name recomputes the same verdict.
    let set = set_of(&["ad.com."]);
    let mut cache = DomainVerdictCache::new(2);
    let first = is_blocked(&mut cache, &set, b"one.ad.com.");
    assert!(first);
    assert!(!is_blocked(&mut cache, &set, b"two.org."));
    assert!(!is_blocked(&mut cache, &set, b"three.org."));
    assert_eq!(cache.len(), 2);
    let again = is_blocked(&mut cache, &set, b"one.ad.com.");
    assert_eq!(first, again);
    assert_eq!(cache.len(), 2);
}

#[test]
fn lru_get_refreshes_recency() {
    let set = set_of(&["ad.com."]);
    let mut cache = DomainVerdictCache::new(2);
    assert!(is_blocked(&mut cache, &set, b"a.ad.com."));
    assert!(!is_blocked(&mut cache, &set, b"b.org."));
    // Touch the older entry, making "b.org." the least recently used.
    assert_eq!(cache.get(b"a.ad.com."), Some(true));
    assert!(!is_blocked(&mut cache, &set, b"c.org."));
    // "a.ad.com." survived the eviction, "b.org." did not.
    assert_eq!(cache.get(b"a.ad.com."), Some(true));
    assert_eq!(cache.get(b"b.org."), None);
}

#[test]
fn zero_capacity_cache_still_answers() {
    let set = set_of(&["ad.com."]);
    let mut cache = DomainVerdictCache::new(0);
    assert!(is_blocked(&mut cache, &set, b"x.ad.com."));
    assert!(!is_blocked(&mut cache, &set, b"y.org."));
    assert_eq!(cache.len(), 0);
}
