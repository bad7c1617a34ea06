use iotd_wallpaper::cycle::{CycleAction, CycleError, CycleEvent, CycleMachine, CyclePhase};
use iotd_wallpaper::feed::{Entry, Feed};

const FEED_URL: &str = "https://feeds.example.org/image_of_the_day.rss";
const USER_AGENT: &str = "Daily Image Wallpaper";

fn machine() -> CycleMachine {
    CycleMachine::new(String::from(FEED_URL), String::from(USER_AGENT))
}

fn feed_of(urls: &[&str]) -> Feed {
    Feed {
        entries: urls
            .iter()
            .map(|u| Entry { enclosure_url: String::from(*u) })
            .collect(),
    }
}

/// Drives a fresh machine up to the point where the image request is out.
fn drive_to_awaiting_image(m: &mut CycleMachine, enclosure: &str) -> String {
    let a = m.begin();
    match a {
        CycleAction::FetchFeed { url, user_agent } => {
            assert_eq!(url, FEED_URL);
            assert_eq!(user_agent, USER_AGENT);
        }
        other => panic!("unexpected action: {:?}", other),
    }
    let a = m.step(CycleEvent::FeedResponse {
        status: 200,
        body: String::from("<rss>...</rss>"),
    });
    assert!(matches!(a, CycleAction::ParseFeed { .. }));
    let a = m.step(CycleEvent::FeedParsed {
        feed: feed_of(&[enclosure]),
    });
    match a {
        CycleAction::FetchImage { url, user_agent } => {
            assert_eq!(user_agent, USER_AGENT);
            url
        }
        other => panic!("unexpected action: {:?}", other),
    }
}

#[test]
fn begin_requests_the_fixed_feed() {
    let mut m = machine();
    match m.begin() {
        CycleAction::FetchFeed { url, user_agent } => {
            assert_eq!(url, FEED_URL);
            assert_eq!(user_agent, USER_AGENT);
        }
        other => panic!("unexpected action: {:?}", other),
    }
}

#[test]
fn selects_first_entry_of_many() {
    let mut m = machine();
    let a = m.begin();
    assert!(matches!(a, CycleAction::FetchFeed { .. }));
    let a = m.step(CycleEvent::FeedResponse {
        status: 200,
        body: String::from("<rss>...</rss>"),
    });
    assert!(matches!(a, CycleAction::ParseFeed { .. }));
    let a = m.step(CycleEvent::FeedParsed {
        feed: feed_of(&[
            "https://example.com/newest.jpg",
            "https://example.com/older.jpg",
            "https://example.com/oldest.jpg",
        ]),
    });
    match a {
        CycleAction::FetchImage { url, .. } => {
            assert_eq!(url, "https://example.com/newest.jpg");
        }
        other => panic!("unexpected action: {:?}", other),
    }
}

#[test]
fn empty_feed_is_absence_error() {
    let mut m = machine();
    m.begin();
    m.step(CycleEvent::FeedResponse {
        status: 200,
        body: String::from("<rss></rss>"),
    });
    let a = m.step(CycleEvent::FeedParsed { feed: feed_of(&[]) });
    assert!(matches!(
        a,
        CycleAction::Finish { outcome: Err(CycleError::Absence) }
    ));
    assert!(matches!(
        m.phase,
        CyclePhase::Finished { outcome: Err(CycleError::Absence) }
    ));
}

#[test]
fn insecure_enclosure_scheme_is_rewritten() {
    let mut m = machine();
    let url = drive_to_awaiting_image(&mut m, "http://example.com/img.jpg");
    assert_eq!(url, "https://example.com/img.jpg");
}

#[test]
fn secure_enclosure_scheme_is_kept() {
    let mut m = machine();
    let url = drive_to_awaiting_image(&mut m, "https://example.com/img.jpg");
    assert_eq!(url, "https://example.com/img.jpg");
}

#[test]
fn other_enclosure_scheme_is_kept() {
    let mut m = machine();
    let url = drive_to_awaiting_image(&mut m, "ftp://example.com/img.jpg");
    assert_eq!(url, "ftp://example.com/img.jpg");
}

#[test]
fn feed_status_error_stops_cycle() {
    let mut m = machine();
    m.begin();
    let a = m.step(CycleEvent::FeedResponse {
        status: 404,
        body: String::from("not found"),
    });
    assert!(matches!(
        a,
        CycleAction::Finish { outcome: Err(CycleError::Status(404)) }
    ));
    assert!(matches!(
        m.phase,
        CyclePhase::Finished { outcome: Err(CycleError::Status(404)) }
    ));
}

#[test]
fn feed_transport_error_stops_cycle() {
    let mut m = machine();
    m.begin();
    let a = m.step(CycleEvent::FeedTransportFailed);
    assert!(matches!(
        a,
        CycleAction::Finish { outcome: Err(CycleError::Transport) }
    ));
}

#[test]
fn malformed_feed_is_parse_error() {
    let mut m = machine();
    m.begin();
    m.step(CycleEvent::FeedResponse {
        status: 200,
        body: String::from("this is no feed"),
    });
    let a = m.step(CycleEvent::FeedParseFailed);
    assert!(matches!(
        a,
        CycleAction::Finish { outcome: Err(CycleError::Parse) }
    ));
}

#[test]
fn malformed_enclosure_url_is_parse_error() {
    let mut m = machine();
    m.begin();
    m.step(CycleEvent::FeedResponse {
        status: 200,
        body: String::from("<rss>...</rss>"),
    });
    // No scheme at all: the URL parser refuses this.
    let a = m.step(CycleEvent::FeedParsed {
        feed: feed_of(&["example.com/img.jpg"]),
    });
    assert!(matches!(
        a,
        CycleAction::Finish { outcome: Err(CycleError::Parse) }
    ));
}

#[test]
fn image_status_error_stops_cycle() {
    let mut m = machine();
    drive_to_awaiting_image(&mut m, "https://example.com/img.jpg");
    let a = m.step(CycleEvent::ImageResponse {
        status: 500,
        bytes: vec![1, 2, 3],
    });
    assert!(matches!(
        a,
        CycleAction::Finish { outcome: Err(CycleError::Status(500)) }
    ));
}

#[test]
fn image_transport_error_stops_cycle() {
    let mut m = machine();
    drive_to_awaiting_image(&mut m, "https://example.com/img.jpg");
    let a = m.step(CycleEvent::ImageTransportFailed);
    assert!(matches!(
        a,
        CycleAction::Finish { outcome: Err(CycleError::Transport) }
    ));
}

#[test]
fn written_bytes_equal_response_body() {
    let mut m = machine();
    drive_to_awaiting_image(&mut m, "https://example.com/img.jpg");
    let body = vec![0xffu8, 0xd8, 0xff, 0xe0, 0x00, 0x10, 0x4a, 0x46];
    let a = m.step(CycleEvent::ImageResponse {
        status: 200,
        bytes: body.clone(),
    });
    match a {
        CycleAction::WriteFile { bytes } => assert_eq!(bytes, body),
        other => panic!("unexpected action: {:?}", other),
    }
}

#[test]
fn file_write_error_stops_cycle() {
    let mut m = machine();
    drive_to_awaiting_image(&mut m, "https://example.com/img.jpg");
    m.step(CycleEvent::ImageResponse {
        status: 200,
        bytes: vec![9, 9, 9],
    });
    let a = m.step(CycleEvent::FileWriteFailed);
    assert!(matches!(
        a,
        CycleAction::Finish { outcome: Err(CycleError::Io) }
    ));
}

#[test]
fn full_cycle_succeeds() {
    let mut m = machine();
    drive_to_awaiting_image(&mut m, "http://example.com/img.jpg");
    m.step(CycleEvent::ImageResponse {
        status: 200,
        bytes: vec![1, 2, 3],
    });
    let a = m.step(CycleEvent::FileWritten);
    assert!(matches!(a, CycleAction::SetWallpaper));
    let a = m.step(CycleEvent::WallpaperSet);
    assert!(matches!(a, CycleAction::Finish { outcome: Ok(()) }));
    assert!(matches!(m.phase, CyclePhase::Finished { outcome: Ok(()) }));
}

#[test]
fn wallpaper_failure_still_succeeds() {
    let mut m = machine();
    drive_to_awaiting_image(&mut m, "https://example.com/img.jpg");
    m.step(CycleEvent::ImageResponse {
        status: 200,
        bytes: vec![1, 2, 3],
    });
    let a = m.step(CycleEvent::FileWritten);
    assert!(matches!(a, CycleAction::SetWallpaper));
    let a = m.step(CycleEvent::WallpaperFailed);
    assert!(matches!(a, CycleAction::Finish { outcome: Ok(()) }));
    assert!(matches!(m.phase, CyclePhase::Finished { outcome: Ok(()) }));
}

#[test]
fn second_cycle_overwrites_with_new_bytes() {
    let mut m = machine();
    // First cycle writes a long payload.
    drive_to_awaiting_image(&mut m, "https://example.com/big.jpg");
    let first = vec![7u8; 64];
    let a = m.step(CycleEvent::ImageResponse {
        status: 200,
        bytes: first.clone(),
    });
    match a {
        CycleAction::WriteFile { bytes } => assert_eq!(bytes, first),
        other => panic!("unexpected action: {:?}", other),
    }
    m.step(CycleEvent::FileWritten);
    m.step(CycleEvent::WallpaperSet);
    // Second cycle writes a shorter one: the write carries exactly the new
    // bytes, nothing of the old, longer payload.
    m.reset();
    let url = drive_to_awaiting_image(&mut m, "http://example.com/small.jpg");
    assert_eq!(url, "https://example.com/small.jpg");
    let second = vec![5u8, 6, 7];
    let a = m.step(CycleEvent::ImageResponse {
        status: 200,
        bytes: second.clone(),
    });
    match a {
        CycleAction::WriteFile { bytes } => {
            assert_eq!(bytes, second);
            assert_eq!(bytes.len(), 3);
        }
        other => panic!("unexpected action: {:?}", other),
    }
}
