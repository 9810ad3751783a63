use seer::auth::{is_authorized, refused};
use seer::resp::{after_kv_read, cache_hit_reply, error, error_with_detail, not_found, ok, CacheStep, Reply};
use seer::text::{decimal, has_prefix, join2, same_text};

#[test]
fn decimal_renders_numbers() {
    assert_eq!(decimal(0), "0");
    assert_eq!(decimal(7), "7");
    assert_eq!(decimal(10), "10");
    assert_eq!(decimal(8080), "8080");
    assert_eq!(decimal(u64::MAX), u64::MAX.to_string());
}

#[test]
fn text_comparisons() {
    assert!(same_text("abc", "abc"));
    assert!(!same_text("abc", "abd"));
    assert!(!same_text("abc", "ab"));
    assert!(has_prefix("https://x", "https://"));
    assert!(!has_prefix("http://x", "https://"));
    assert!(!has_prefix("htt", "https://"));
    assert!(has_prefix("", ""));
    assert_eq!(join2("ab", "cd"), "abcd");
}

#[test]
fn reply_constructors() {
    let r: Reply<u32> = ok("success", Some(3));
    assert_eq!(r.status, 200);
    assert_eq!(r.message, "success");
    assert_eq!(r.data, Some(3));
    let e: Reply<u32> = error("boom");
    assert_eq!(e.status, 500);
    assert_eq!(e.message, "boom");
    assert_eq!(e.data, None);
    let n: Reply<u32> = not_found("gone");
    assert_eq!(n.status, 404);
    assert_eq!(n.message, "gone");
    assert_eq!(n.data, None);
    let d: Reply<u32> = error_with_detail("failed: ", "Io");
    assert_eq!(d.status, 500);
    assert_eq!(d.message, "failed: Io");
}

#[test]
fn shared_cache_errors_are_misses() {
    let hit = cache_hit_reply::<u32, String>(Ok(Some(5))).unwrap();
    assert_eq!(hit.status, 200);
    assert_eq!(hit.message, "success");
    assert_eq!(hit.data, Some(5));
    assert!(cache_hit_reply::<u32, String>(Ok(None)).is_none());
    assert!(cache_hit_reply::<u32, String>(Err("down".to_string())).is_none());
}

#[test]
fn kv_cache_errors_are_failures() {
    match after_kv_read::<u32, ()>(Ok(Some(1))) {
        CacheStep::Answer(r) => {
            assert_eq!(r.status, 200);
            assert_eq!(r.data, Some(1));
        }
        CacheStep::Fetch => panic!("a cached value is served"),
    }
    assert!(matches!(after_kv_read::<u32, ()>(Ok(None)), CacheStep::Fetch));
    match after_kv_read::<u32, ()>(Err(())) {
        CacheStep::Answer(r) => {
            assert_eq!(r.status, 500);
            assert_eq!(r.message, "error while getting from seer_cache");
            assert_eq!(r.data, None);
        }
        CacheStep::Fetch => panic!("a failed read is answered"),
    }
}

#[test]
fn authorization_needs_the_exact_secret() {
    assert!(is_authorized("s3cret", "s3cret"));
    assert!(!is_authorized("s3cret", "s3cre"));
    assert!(!is_authorized("s3cret", "S3cret"));
    let r: Reply<()> = refused();
    assert_eq!(r.status, 500);
    assert_eq!(r.message, "service authorization failed");
}
