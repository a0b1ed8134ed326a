use kopuz::channel::Outbox;
use kopuz::j1::{find_station, target_name, J1Provider, J1Response, J1Station};
use kopuz::radio::{after_send, deliver, Announcer, PollAction, RadioMetadata};
use kopuz::vocaloid::{comparison_key, VocaloidPrimary, VocaloidProvider, VocaloidResponse};
use tokio::sync::mpsc::unbounded_channel;

fn station(name: &str, title: &str, artist: &str) -> J1Station {
    J1Station {
        name: name.to_string(),
        title: title.to_string(),
        artist: artist.to_string(),
        image_url: format!("https://img/{}.png", title),
    }
}

fn feed(stations: Vec<J1Station>) -> Option<J1Response> {
    Some(J1Response { station: stations })
}

fn primary(title: Option<&str>, subtitle: Option<&str>, image: Option<&str>) -> Option<VocaloidResponse> {
    Some(VocaloidResponse {
        primary: Some(VocaloidPrimary {
            title: title.map(|t| t.to_string()),
            subtitle: subtitle.map(|t| t.to_string()),
            image: image.map(|t| t.to_string()),
        }),
    })
}

fn meta(title: &str, artist: &str, cover: Option<&str>) -> RadioMetadata {
    RadioMetadata {
        title: title.to_string(),
        artist: artist.to_string(),
        cover_url: cover.map(|c| c.to_string()),
    }
}

#[test]
fn j1_target_names() {
    assert_eq!(target_name("J1HITS"), "J1 HITS");
    assert_eq!(target_name("J1GOLD"), "J1 GOLD");
    assert_eq!(target_name("j1hits"), "J1 GOLD");
    assert_eq!(target_name(""), "J1 GOLD");
}

#[test]
fn j1_first_station_of_the_name_is_used() {
    let stations = vec![
        station("J1 HITS", "a", "x"),
        station("J1 GOLD", "b", "y"),
        station("J1 GOLD", "c", "z"),
    ];
    assert_eq!(find_station(&stations, "J1 GOLD"), Some(1));
    assert_eq!(find_station(&stations, "J1 XTRA"), None);
    assert_eq!(find_station(&Vec::new(), "J1 GOLD"), None);
}

#[test]
fn j1_announces_a_new_title_once() {
    let mut poller = J1Provider.start("J1GOLD");
    let response = feed(vec![station("J1 HITS", "a", "x"), station("J1 GOLD", "b", "y")]);
    assert_eq!(poller.observe(&response), Some(meta("b", "y", Some("https://img/b.png"))));
    assert_eq!(poller.observe(&response), None);
    // The title alone decides.
    assert_eq!(poller.observe(&feed(vec![station("J1 GOLD", "b", "someone else")])), None);
    assert_eq!(
        poller.observe(&feed(vec![station("J1 GOLD", "c", "y")])),
        Some(meta("c", "y", Some("https://img/c.png")))
    );
    // Back to an earlier title.
    assert_eq!(poller.observe(&response), Some(meta("b", "y", Some("https://img/b.png"))));
}

#[test]
fn j1_hits_stream_follows_the_hits_station() {
    let mut poller = J1Provider.start("J1HITS");
    let response = feed(vec![station("J1 GOLD", "b", "y"), station("J1 HITS", "a", "x")]);
    assert_eq!(poller.observe(&response), Some(meta("a", "x", Some("https://img/a.png"))));
}

#[test]
fn j1_ignores_failures_and_missing_stations() {
    let mut poller = J1Provider.start("J1HITS");
    assert_eq!(poller.observe(&None), None);
    assert_eq!(poller.observe(&feed(vec![])), None);
    assert_eq!(poller.observe(&feed(vec![station("J1 GOLD", "b", "y")])), None);
    // An empty title is not news at the start.
    assert_eq!(poller.observe(&feed(vec![station("J1 HITS", "", "y")])), None);
    assert!(poller.observe(&feed(vec![station("J1 HITS", "t", "y")])).is_some());
    assert_eq!(poller.observe(&None), None);
    assert_eq!(poller.observe(&feed(vec![station("J1 HITS", "t", "y")])), None);
}

#[test]
fn j1_request_headers() {
    let request = J1Provider.start("J1HITS").request();
    assert_eq!(request.url, "https://json.j1fm.tokyo/whatweplay.json");
    assert_eq!(request.user_agent, "Kopuz/0.5.5");
    assert_eq!(
        request.headers,
        vec![
            ("Accept", "*/*"),
            ("Accept-Language", "en-US,en;q=0.9"),
            ("Origin", "https://www.j1fm.tokyo"),
            ("Referer", "https://www.j1fm.tokyo/"),
        ]
    );
}

#[test]
fn j1_poll_delivers_and_pauses() {
    let (tx, mut rx) = unbounded_channel();
    let mut outbox = Outbox::new(tx);
    let mut poller = J1Provider.start("J1GOLD");
    let response = feed(vec![station("J1 GOLD", "b", "y")]);
    assert_eq!(poller.poll(&response, &mut outbox), PollAction::Sleep(2));
    assert_eq!(rx.try_recv().ok(), Some(meta("b", "y", Some("https://img/b.png"))));
    assert_eq!(poller.poll(&response, &mut outbox), PollAction::Sleep(2));
    assert!(rx.try_recv().is_err());
    assert_eq!(poller.poll(&None, &mut outbox), PollAction::Sleep(2));
    assert!(rx.try_recv().is_err());
}

#[test]
fn j1_poll_stops_without_listener() {
    let (tx, rx) = unbounded_channel();
    let mut outbox = Outbox::new(tx);
    drop(rx);
    let mut poller = J1Provider.start("J1GOLD");
    // Nothing to announce: the missing listener is not noticed.
    assert_eq!(poller.poll(&None, &mut outbox), PollAction::Sleep(2));
    let response = feed(vec![station("J1 GOLD", "b", "y")]);
    assert_eq!(
        poller.poll(&response, &mut outbox),
        PollAction::Stop(meta("b", "y", Some("https://img/b.png")))
    );
}

#[test]
fn vocaloid_key_format() {
    assert_eq!(comparison_key("Miku", "World is Mine"), "Miku - World is Mine");
    assert_eq!(comparison_key("", ""), " - ");
    // Two different tracks can share a key.
    assert_eq!(comparison_key("a - b", "c"), comparison_key("a", "b - c"));
}

#[test]
fn vocaloid_announces_changes() {
    let mut poller = VocaloidProvider.start("anything");
    let first = primary(Some("t1"), Some("a1"), Some("img"));
    assert_eq!(poller.observe(first.clone()), Some(meta("t1", "a1", Some("img"))));
    assert_eq!(poller.observe(first), None);
    // Another cover alone is no news.
    assert_eq!(poller.observe(primary(Some("t1"), Some("a1"), None)), None);
    assert_eq!(
        poller.observe(primary(Some("t2"), Some("a1"), None)),
        Some(meta("t2", "a1", None))
    );
    assert_eq!(
        poller.observe(primary(Some("t2"), Some("a2"), None)),
        Some(meta("t2", "a2", None))
    );
}

#[test]
fn vocaloid_colliding_keys_are_no_news() {
    let mut poller = VocaloidProvider.start("");
    assert!(poller.observe(primary(Some("c"), Some("a - b"), None)).is_some());
    assert_eq!(poller.observe(primary(Some("b - c"), Some("a"), None)), None);
}

#[test]
fn vocaloid_missing_parts_read_as_empty() {
    let mut poller = VocaloidProvider.start("");
    assert_eq!(poller.observe(None), None);
    assert_eq!(poller.observe(Some(VocaloidResponse { primary: None })), None);
    // The first block is announced even when it is empty.
    assert_eq!(poller.observe(primary(None, None, None)), Some(meta("", "", None)));
    assert_eq!(poller.observe(primary(Some(""), None, None)), None);
}

#[test]
fn vocaloid_request() {
    let request = VocaloidProvider.start("").request();
    assert_eq!(
        request.url,
        "https://feed.platform.prod.us-west-2.tunein.com/profiles/s221579/nowPlaying"
    );
    assert_eq!(request.user_agent, "Kopuz/0.5.5");
    assert!(request.headers.is_empty());
}

#[test]
fn vocaloid_poll_pauses_or_stops() {
    let (tx, mut rx) = unbounded_channel();
    let mut outbox = Outbox::new(tx);
    let mut poller = VocaloidProvider.start("");
    assert_eq!(
        poller.poll(primary(Some("t"), Some("a"), None), &mut outbox),
        PollAction::Sleep(7)
    );
    assert_eq!(rx.try_recv().ok(), Some(meta("t", "a", None)));
    drop(rx);
    assert_eq!(poller.poll(None, &mut outbox), PollAction::Sleep(7));
    assert_eq!(
        poller.poll(primary(Some("u"), Some("a"), None), &mut outbox),
        PollAction::Stop(meta("u", "a", None))
    );
}

#[test]
fn announcer_repeats_nothing() {
    let mut announcer = Announcer::new();
    assert_eq!(announcer.offer("".to_string(), meta("x", "y", None)), None);
    assert_eq!(
        announcer.offer("k".to_string(), meta("x", "y", None)),
        Some(meta("x", "y", None))
    );
    assert_eq!(announcer.offer("k".to_string(), meta("z", "y", None)), None);
}

#[test]
fn send_outcomes() {
    assert_eq!(after_send(Ok(()), 5), PollAction::Sleep(5));
    assert_eq!(after_send(Err(meta("t", "a", None)), 5), PollAction::Stop(meta("t", "a", None)));
    let (tx, rx) = unbounded_channel();
    let mut outbox = Outbox::new(tx);
    assert_eq!(deliver(&mut outbox, None, 3), PollAction::Sleep(3));
    assert_eq!(deliver(&mut outbox, Some(meta("t", "a", None)), 3), PollAction::Sleep(3));
    drop(rx);
    assert_eq!(
        deliver(&mut outbox, Some(meta("t", "a", None)), 3),
        PollAction::Stop(meta("t", "a", None))
    );
}
