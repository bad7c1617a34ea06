use iotd_wallpaper::feed::{Entry, Feed};
use iotd_wallpaper::urlnorm::normalize_scheme;

#[test]
fn first_entry_of_empty_feed_is_none() {
    let feed = Feed { entries: Vec::new() };
    assert!(feed.first_entry().is_none());
}

#[test]
fn first_entry_is_index_zero() {
    let feed = Feed {
        entries: vec![
            Entry { enclosure_url: String::from("https://example.com/a.jpg") },
            Entry { enclosure_url: String::from("https://example.com/b.jpg") },
        ],
    };
    let e = feed.first_entry().unwrap();
    assert_eq!(e.enclosure_url, "https://example.com/a.jpg");
}

#[test]
fn first_entry_of_single_entry_feed() {
    let feed = Feed {
        entries: vec![Entry { enclosure_url: String::from("https://example.com/only.jpg") }],
    };
    let e = feed.first_entry().unwrap();
    assert_eq!(e.enclosure_url, "https://example.com/only.jpg");
}

#[test]
fn normalize_rewrites_insecure_scheme() {
    assert_eq!(
        normalize_scheme("http://example.com/img.jpg"),
        "https://example.com/img.jpg"
    );
}

#[test]
fn normalize_keeps_secure_scheme() {
    assert_eq!(
        normalize_scheme("https://example.com/img.jpg"),
        "https://example.com/img.jpg"
    );
}

#[test]
fn normalize_keeps_other_schemes() {
    assert_eq!(
        normalize_scheme("ftp://example.com/img.jpg"),
        "ftp://example.com/img.jpg"
    );
}

#[test]
fn normalize_keeps_short_strings() {
    assert_eq!(normalize_scheme(""), "");
    assert_eq!(normalize_scheme("http:/"), "http:/");
}

#[test]
fn normalize_rewrites_bare_prefix() {
    assert_eq!(normalize_scheme("http://"), "https://");
}
