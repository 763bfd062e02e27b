use kilam_launcher::event_store::{
    calculate_status, event_dtos, filter_by_whitelist, is_whitelisted, Event, EventError, EventStatus,
    ModLoader,
};

fn event(id: &str, whitelist: &[&str]) -> Event {
    Event {
        id: id.to_string(),
        name: id.to_string(),
        description: String::new(),
        image_url: String::new(),
        minecraft_version: "1.20.1".to_string(),
        modloader: ModLoader::Vanilla,
        modloader_version: String::new(),
        server_ip: "play.example".to_string(),
        whitelist: whitelist.iter().map(|s| s.to_string()).collect(),
        assets: vec![],
    }
}

#[test]
fn whitelist_filter_keeps_order() {
    let events = vec![event("a", &["u1"]), event("b", &["u2"]), event("c", &["u2", "u1"])];
    let kept = filter_by_whitelist(events, &"u1".to_string());
    let ids: Vec<String> = kept.iter().map(|e| e.id.clone()).collect();
    assert_eq!(ids, vec!["a", "c"]);
}

#[test]
fn whitelist_filter_can_keep_nothing() {
    let events = vec![event("a", &["u1"]), event("b", &[])];
    assert!(filter_by_whitelist(events, &"zz".to_string()).is_empty());
    assert!(is_whitelisted(&event("a", &["x", "y"]), &"y".to_string()));
    assert!(!is_whitelisted(&event("a", &[]), &"y".to_string()));
}

#[test]
fn status_from_readiness() {
    assert_eq!(calculate_status(true), EventStatus::Ready);
    assert_eq!(calculate_status(false), EventStatus::NotInstalled);
    let dtos = event_dtos(vec![event("a", &[]), event("b", &[])], &vec![false, true]);
    assert_eq!(dtos.len(), 2);
    assert_eq!(dtos[0].event.id, "a");
    assert_eq!(dtos[0].status, EventStatus::NotInstalled);
    assert_eq!(dtos[1].status, EventStatus::Ready);
}

#[test]
fn event_error_messages() {
    assert_eq!(EventError::ParseFailed.message(), "Parse has failed");
    assert_eq!(EventError::EventNotFound("x".to_string()).message(), "Event [x] was not found");
    assert_eq!(EventError::FetchFailed("timeout".to_string()).message(), "Fetch has failed: timeout");
}
