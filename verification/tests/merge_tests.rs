use rss_reader::Entry;
use rss_reader::MergeError;
use rss_reader::merge::unify;

fn titled(t: &str) -> Entry {
    Entry {
        title: Some(t.to_string()),
        description: Some("d".to_string()),
        link: Some("http://x/e".to_string()),
        author: None,
        enclosure_url: None,
        media: None,
    }
}

fn titles(v: &[Entry]) -> Vec<String> {
    v.iter().map(|e| e.title.clone().unwrap()).collect()
}

#[test]
fn unify_interleaves_two_sources() {
    let a = vec![titled("a1"), titled("a2")];
    let b = vec![titled("b1"), titled("b2")];
    let out = unify(vec![a, b]).unwrap();
    assert_eq!(titles(&out), vec!["a1", "b1", "a2", "b2"]);
}

#[test]
fn unify_interleaves_three_sources() {
    let a = vec![titled("a1"), titled("a2")];
    let b = vec![titled("b1"), titled("b2")];
    let c = vec![titled("c1"), titled("c2")];
    let out = unify(vec![a, b, c]).unwrap();
    assert_eq!(titles(&out), vec!["a1", "b1", "c1", "a2", "b2", "c2"]);
}

#[test]
fn unify_single_source_is_identity() {
    let a = vec![titled("a1"), titled("a2"), titled("a3")];
    let out = unify(vec![a]).unwrap();
    assert_eq!(titles(&out), vec!["a1", "a2", "a3"]);
}

#[test]
fn unify_no_sources_is_empty() {
    let out = unify(Vec::new()).unwrap();
    assert!(out.is_empty());
}

#[test]
fn unify_empty_sources_are_equal() {
    let out = unify(vec![Vec::new(), Vec::new()]).unwrap();
    assert!(out.is_empty());
}

#[test]
fn unify_rejects_unequal_lengths() {
    let a = vec![titled("a1"), titled("a2")];
    let b = vec![titled("b1")];
    let r = unify(vec![a, b]);
    assert_eq!(r.unwrap_err(), MergeError::UnequalLengths);
}
