use rss_reader::CacheDecision;
use rss_reader::CacheError;
use rss_reader::cache::cache_decision;
use rss_reader::cache::cache_path;
use rss_reader::cache::derive_filename;
use rss_reader::cache::fetch_outcome;

#[test]
fn filename_is_trailing_segment() {
    assert_eq!(derive_filename("http://host/a/b.png"), "b.png");
}

#[test]
fn filename_of_single_slash() {
    assert_eq!(derive_filename("a/b"), "b");
}

#[test]
fn filename_fallback_without_slash() {
    assert_eq!(derive_filename("abc"), "couldnt find name of image");
}

#[test]
fn filename_fallback_on_empty() {
    assert_eq!(derive_filename(""), "couldnt find name of image");
}

#[test]
fn filename_of_trailing_slash_is_empty() {
    assert_eq!(derive_filename("http://host/dir/"), "");
}

#[test]
fn path_is_under_cache_dir() {
    assert_eq!(cache_path("http://host/a/b.png"), "/tmp/raspi-pi-reader/b.png");
}

#[test]
fn decision_hit_returns_path_without_fetch() {
    match cache_decision("http://host/i.png", true) {
        CacheDecision::Hit(p) => assert_eq!(p, "/tmp/raspi-pi-reader/i.png"),
        CacheDecision::Fetch(_) => panic!("a present file must be a hit"),
    }
}

#[test]
fn decision_miss_asks_for_fetch() {
    match cache_decision("http://host/i.png", false) {
        CacheDecision::Fetch(p) => assert_eq!(p, "/tmp/raspi-pi-reader/i.png"),
        CacheDecision::Hit(_) => panic!("a missing file cannot be a hit"),
    }
}

// Resolving the same URL twice fetches once: the first resolution stores the
// file, so the second finds it and is a hit at the same path.
#[test]
fn second_resolution_is_a_hit() {
    let url = "http://host/once.png";
    let mut fetches: u32 = 0;
    let mut file_exists = false;

    let first = match cache_decision(url, file_exists) {
        CacheDecision::Hit(p) => Ok(p),
        CacheDecision::Fetch(p) => {
            fetches += 1;
            file_exists = true;
            fetch_outcome(p, true)
        }
    };
    let second = match cache_decision(url, file_exists) {
        CacheDecision::Hit(p) => Ok(p),
        CacheDecision::Fetch(p) => {
            fetches += 1;
            file_exists = true;
            fetch_outcome(p, true)
        }
    };
    assert_eq!(fetches, 1);
    assert_eq!(first.as_ref().unwrap(), "/tmp/raspi-pi-reader/once.png");
    assert_eq!(second.unwrap(), *first.unwrap());
}

#[test]
fn failed_fetch_is_the_cache_error() {
    let r = fetch_outcome("/tmp/raspi-pi-reader/x.png".to_string(), false);
    assert_eq!(r.unwrap_err(), CacheError::FetchFailed);
}

#[test]
fn successful_fetch_returns_the_path() {
    let r = fetch_outcome("/tmp/raspi-pi-reader/x.png".to_string(), true);
    assert_eq!(r.unwrap(), "/tmp/raspi-pi-reader/x.png");
}
