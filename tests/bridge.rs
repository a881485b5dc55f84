use cloudflare_adapter::bridges::ActiveBridges;
use cloudflare_adapter::config::{default_cloudflare_url, endpoint_from, Config, ConfigError, DEFAULT_POLL_INTERVAL};
use cloudflare_adapter::registry::{default_origin, select_streams, StreamInfo};
use cloudflare_adapter::supervisor::{LinkAction, LinkEvent, LinkPhase, LinkRole, Supervisor, BACKOFF_MILLIS};
use cloudflare_adapter::task::{
    namespace_for, BridgeError, BridgeTask, SourceStrategy, TaskAction, TaskEvent, TaskPhase, SETTLE_MILLIS,
};

fn entry(id: &str, origin: Option<&str>) -> StreamInfo {
    StreamInfo { stream_id: id.to_string(), origin: origin.map(|o| o.to_string()) }
}

fn ids(v: &[String]) -> Vec<&str> {
    v.iter().map(|s| s.as_str()).collect()
}

#[test]
fn default_origin_is_bridged_tag() {
    assert_eq!(default_origin(), "cloudflare");
}

#[test]
fn origin_filter_keeps_absent_and_tagged() {
    let out = select_streams(vec![
        entry("a", None),
        entry("b", Some("cloudflare")),
        entry("c", Some("other")),
    ]);
    let got: Vec<&str> = out.iter().map(|e| e.stream_id.as_str()).collect();
    assert_eq!(got, vec!["a", "b"]);
    assert!(out[0].origin.is_none());
    assert_eq!(out[1].origin.as_deref(), Some("cloudflare"));
}

#[test]
fn origin_filter_on_empty_listing() {
    assert!(select_streams(Vec::new()).is_empty());
}

#[test]
fn origin_or_default_applies_tag() {
    assert_eq!(entry("a", None).origin_or_default(), "cloudflare");
    assert_eq!(entry("a", Some("other")).origin_or_default(), "other");
    assert!(!entry("a", Some("Cloudflare")).is_candidate());
}

#[test]
fn reserve_is_atomic_check_and_insert() {
    let mut set = ActiveBridges::new();
    let s1 = "s1".to_string();
    assert!(set.try_reserve(&s1));
    assert!(!set.try_reserve(&s1));
    assert!(set.contains(&s1));
    assert_eq!(set.len(), 1);
    set.release(&s1);
    assert!(!set.contains(&s1));
    assert_eq!(set.len(), 0);
}

#[test]
fn release_of_unknown_id_changes_nothing() {
    let mut set = ActiveBridges::new();
    set.try_reserve(&"a".to_string());
    set.release(&"b".to_string());
    assert_eq!(set.len(), 1);
    assert!(set.contains(&"a".to_string()));
}

#[test]
fn duplicate_listing_starts_one_bridge() {
    let mut set = ActiveBridges::new();
    let listing = vec![entry("x", None), entry("y", None), entry("x", Some("cloudflare"))];
    let started = set.reserve_new(&listing);
    assert_eq!(ids(&started), vec!["x", "y"]);
    let again = set.reserve_new(&listing);
    assert!(again.is_empty());
    assert_eq!(set.len(), 2);
}

#[test]
fn released_stream_is_bridged_again() {
    let mut set = ActiveBridges::new();
    let listing = vec![entry("x", None)];
    assert_eq!(ids(&set.reserve_new(&listing)), vec!["x"]);
    assert!(set.reserve_new(&listing).is_empty());
    set.release(&"x".to_string());
    assert_eq!(ids(&set.reserve_new(&listing)), vec!["x"]);
}

#[test]
fn failed_fetch_reserves_nothing() {
    let mut set = ActiveBridges::new();
    set.try_reserve(&"a".to_string());
    assert!(set.poll_tick(None).is_empty());
    assert_eq!(set.len(), 1);
}

#[test]
fn poll_tick_filters_then_reserves() {
    let mut set = ActiveBridges::new();
    let started = set.poll_tick(Some(vec![entry("a", Some("other")), entry("b", None)]));
    assert_eq!(ids(&started), vec!["b"]);
    assert!(!set.contains(&"a".to_string()));
}

#[test]
fn namespace_is_home_domain_slash_id() {
    assert_eq!(namespace_for(&"s1".to_string()), "earthseed.live/s1");
}

#[test]
fn announce_first_bridge_runs_in_order() {
    let mut t = BridgeTask::new("s1".to_string(), SourceStrategy::AnnounceFirst);
    assert_eq!(t.namespace, "earthseed.live/s1");
    match t.step(TaskEvent::Begin { session_present: true }) {
        TaskAction::Announce { namespace } => assert_eq!(namespace, "earthseed.live/s1"),
        a => panic!("unexpected {:?}", a),
    }
    match t.step(TaskEvent::LookupDone { found: true }) {
        TaskAction::Nothing => {}
        a => panic!("lookup answer before announce must be ignored, got {:?}", a),
    }
    match t.step(TaskEvent::AnnounceDone { ok: true }) {
        TaskAction::Settle { millis } => assert_eq!(millis, SETTLE_MILLIS),
        a => panic!("unexpected {:?}", a),
    }
    assert_eq!(SETTLE_MILLIS, 100);
    match t.step(TaskEvent::SettleElapsed) {
        TaskAction::Lookup { name } => assert_eq!(name, "earthseed.live/s1"),
        a => panic!("unexpected {:?}", a),
    }
    match t.step(TaskEvent::LookupDone { found: true }) {
        TaskAction::Publish { path } => assert_eq!(path, "s1"),
        a => panic!("unexpected {:?}", a),
    }
    assert!(!t.is_done());
    match t.step(TaskEvent::SourceClosed) {
        TaskAction::Finish { outcome } => assert_eq!(outcome, Ok(())),
        a => panic!("unexpected {:?}", a),
    }
    assert!(t.is_done());
}

#[test]
fn absent_session_fails_before_lookup() {
    let mut t = BridgeTask::new("s1".to_string(), SourceStrategy::AnnounceFirst);
    match t.step(TaskEvent::Begin { session_present: false }) {
        TaskAction::Finish { outcome } => assert_eq!(outcome, Err(BridgeError::SessionUnavailable)),
        a => panic!("unexpected {:?}", a),
    }
    assert!(matches!(t.step(TaskEvent::SettleElapsed), TaskAction::Nothing));
    assert_eq!(t.phase, TaskPhase::Done);
}

#[test]
fn failed_announce_ends_bridge() {
    let mut t = BridgeTask::new("s1".to_string(), SourceStrategy::AnnounceFirst);
    t.step(TaskEvent::Begin { session_present: true });
    match t.step(TaskEvent::AnnounceDone { ok: false }) {
        TaskAction::Finish { outcome } => assert_eq!(outcome, Err(BridgeError::AnnounceFailed)),
        a => panic!("unexpected {:?}", a),
    }
    assert!(!t.announced);
}

#[test]
fn direct_bridge_looks_up_stream_id() {
    let mut t = BridgeTask::new("s2".to_string(), SourceStrategy::Direct);
    match t.step(TaskEvent::Begin { session_present: false }) {
        TaskAction::Lookup { name } => assert_eq!(name, "s2"),
        a => panic!("unexpected {:?}", a),
    }
    match t.step(TaskEvent::LookupDone { found: false }) {
        TaskAction::Finish { outcome } => assert_eq!(outcome, Err(BridgeError::NotFound)),
        a => panic!("unexpected {:?}", a),
    }
}

#[test]
fn supervisor_reconnects_after_close() {
    let mut s = Supervisor::new(LinkRole::ThirdParty);
    assert_eq!(s.step(LinkEvent::Start), LinkAction::Connect { publish: false, subscribe: true });
    assert_eq!(s.step(LinkEvent::ConnectOk), LinkAction::AwaitClosed { share_session: true });
    assert_eq!(
        s.step(LinkEvent::Closed),
        LinkAction::Backoff { millis: BACKOFF_MILLIS, clear_session: true }
    );
    assert_eq!(BACKOFF_MILLIS, 5000);
    assert_eq!(s.step(LinkEvent::BackoffElapsed), LinkAction::Connect { publish: false, subscribe: true });
    assert_eq!(s.step(LinkEvent::ConnectOk), LinkAction::AwaitClosed { share_session: true });
    assert_eq!(s.phase, LinkPhase::Connected);
}

#[test]
fn home_supervisor_retries_after_failure() {
    let mut s = Supervisor::new(LinkRole::Home);
    assert_eq!(s.step(LinkEvent::Start), LinkAction::Connect { publish: true, subscribe: false });
    assert_eq!(
        s.step(LinkEvent::ConnectFailed),
        LinkAction::Backoff { millis: 5000, clear_session: false }
    );
    assert_eq!(s.step(LinkEvent::Closed), LinkAction::Nothing);
    assert_eq!(s.step(LinkEvent::BackoffElapsed), LinkAction::Connect { publish: true, subscribe: false });
    assert_eq!(s.step(LinkEvent::ConnectOk), LinkAction::AwaitClosed { share_session: false });
}

#[test]
fn end_to_end_single_stream() {
    let mut set = ActiveBridges::new();
    let listing = || Some(vec![entry("s1", Some("cloudflare"))]);
    let started = set.poll_tick(listing());
    assert_eq!(ids(&started), vec!["s1"]);
    let mut t = BridgeTask::new(started[0].clone(), SourceStrategy::Direct);
    let mut publishes: Vec<String> = Vec::new();
    let events = [
        TaskEvent::Begin { session_present: true },
        TaskEvent::LookupDone { found: true },
    ];
    for e in events {
        if let TaskAction::Publish { path } = t.step(e) {
            publishes.push(path);
        }
    }
    assert!(set.poll_tick(listing()).is_empty());
    assert!(set.contains(&"s1".to_string()));
    assert!(matches!(t.step(TaskEvent::SourceClosed), TaskAction::Finish { outcome: Ok(()) }));
    set.release(&t.stream_id);
    assert_eq!(publishes, vec!["s1".to_string()]);
    assert_eq!(set.len(), 0);
    assert_eq!(ids(&set.poll_tick(listing())), vec!["s1"]);
}

#[test]
fn relay_endpoint_appends_token() {
    let c = Config::new("https://relay.example".to_string(), "https://reg.example".to_string(), Some("tok".to_string()));
    assert_eq!(c.relay_endpoint_text(), "https://relay.example/?jwt=tok");
    assert_eq!(c.relay_endpoint().unwrap().as_str(), "https://relay.example/?jwt=tok");
    assert_eq!(c.poll_interval, DEFAULT_POLL_INTERVAL);
    assert_eq!(DEFAULT_POLL_INTERVAL, 5);
}

#[test]
fn relay_endpoint_without_token_is_normalized() {
    let c = Config::new("https://relay.example".to_string(), "https://reg.example".to_string(), None);
    assert_eq!(c.relay_endpoint_text(), "https://relay.example");
    assert_eq!(c.relay_endpoint().unwrap().as_str(), "https://relay.example/");
}

#[test]
fn malformed_endpoints_are_refused() {
    let mut c = Config::new("not a url".to_string(), "https://reg.example".to_string(), None);
    assert_eq!(c.relay_endpoint().unwrap_err(), ConfigError::InvalidRelayUrl);
    c.cloudflare_url = "::".to_string();
    assert_eq!(c.cloudflare_endpoint().unwrap_err(), ConfigError::InvalidCloudflareUrl);
}

#[test]
fn default_cloudflare_endpoint_parses() {
    assert_eq!(default_cloudflare_url(), "https://relay-next.cloudflare.mediaoverquic.com");
    let c = Config::new("https://relay.example".to_string(), "https://reg.example".to_string(), None);
    assert_eq!(c.cloudflare_endpoint().unwrap().as_str(), "https://relay-next.cloudflare.mediaoverquic.com/");
}

#[test]
fn bridge_after_reconnect_uses_new_session() {
    let mut s = Supervisor::new(LinkRole::ThirdParty);
    s.step(LinkEvent::Start);
    s.step(LinkEvent::ConnectOk);
    let mut live = true;
    if let LinkAction::Backoff { clear_session, .. } = s.step(LinkEvent::Closed) {
        live = !clear_session;
    }
    let mut early = BridgeTask::new("s1".to_string(), SourceStrategy::AnnounceFirst);
    assert!(matches!(
        early.step(TaskEvent::Begin { session_present: live }),
        TaskAction::Finish { outcome: Err(BridgeError::SessionUnavailable) }
    ));
    s.step(LinkEvent::BackoffElapsed);
    if let LinkAction::AwaitClosed { share_session } = s.step(LinkEvent::ConnectOk) {
        live = share_session;
    }
    let mut t = BridgeTask::new("s1".to_string(), SourceStrategy::AnnounceFirst);
    assert!(matches!(t.step(TaskEvent::Begin { session_present: live }), TaskAction::Announce { .. }));
    t.step(TaskEvent::AnnounceDone { ok: true });
    t.step(TaskEvent::SettleElapsed);
    assert!(matches!(t.step(TaskEvent::LookupDone { found: true }), TaskAction::Publish { .. }));
    assert!(matches!(t.step(TaskEvent::SourceClosed), TaskAction::Finish { outcome: Ok(()) }));
}

#[test]
fn endpoint_from_maps_parser_outcome() {
    let ok = endpoint_from(url::Url::parse("https://a.example/x"), ConfigError::InvalidRelayUrl);
    assert_eq!(ok.unwrap().as_str(), "https://a.example/x");
    let err = endpoint_from(Err(url::ParseError::EmptyHost), ConfigError::InvalidCloudflareUrl);
    assert_eq!(err.unwrap_err(), ConfigError::InvalidCloudflareUrl);
}
