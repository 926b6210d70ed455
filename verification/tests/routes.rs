use audio_isolation_mirror::app::App;
use audio_isolation_mirror::config::AppConfig;
use audio_isolation_mirror::routes::RouteAction;
use audio_isolation_mirror::routing::{get_endpoint_override, restore_endpoint, EndpointOverride};
use audio_isolation_mirror::sessions::AudioSession;
use audio_isolation_mirror::startup::Startup;

fn session(pid: u32, exe_name: &str) -> AudioSession {
    AudioSession { pid, exe_name: exe_name.to_string(), exe_path: String::new() }
}

fn app() -> App {
    App::new(Startup {
        inputs: vec![],
        outputs: vec![],
        default_output: None,
        config: AppConfig::default(),
        self_pid: 1,
        sessions: Ok(vec![session(10, "chrome.exe"), session(20, "music.exe")]),
    })
}

fn overrides(console: &str, multimedia: &str) -> EndpointOverride {
    let console: Result<String, String> = Ok(console.to_string());
    match get_endpoint_override(console, Ok(multimedia.to_string())) {
        Ok(original) => original,
        Err(e) => panic!("{}", e),
    }
}

fn last_line(app: &App) -> String {
    app.dev_log.back().unwrap().clone()
}

fn route_to_end(app: &mut App, original: EndpointOverride) {
    let mut action = app.process_pending_route();
    loop {
        action = match action {
            RouteAction::Finished => return,
            RouteAction::Restore { previous, target } => app.route_restored(previous, target, Ok(())),
            RouteAction::ReadOverride { target } => {
                app.route_override_read(target, Ok(original.clone()))
            }
            RouteAction::FindEndpoint { target, original, name } => {
                assert_eq!(name, "CABLE Input");
                app.route_endpoint_found(target, original, Ok(Some("cable".to_string())))
            }
            RouteAction::Route { target, original, device_id } => {
                assert_eq!(device_id, "cable");
                app.route_performed(target, original, Ok(()));
                return;
            }
        };
    }
}

#[test]
fn nothing_queued_nothing_done() {
    let mut app = app();
    app.pending_route = None;
    let lines = app.dev_log.len();
    assert!(matches!(app.process_pending_route(), RouteAction::Finished));
    assert_eq!(app.dev_log.len(), lines);
}

#[test]
fn stale_queue_is_dropped() {
    let mut app = app();
    app.pending_route = Some(5);
    assert!(matches!(app.process_pending_route(), RouteAction::Finished));
    assert_eq!(app.pending_route, None);
}

#[test]
fn routing_succeeds() {
    let mut app = app();
    app.error = Some("old".to_string());
    route_to_end(&mut app, overrides("", "headset"));
    assert_eq!(app.pending_route, None);
    assert_eq!(app.error, None);
    let status = "chrome.exe is now routed to CABLE Input. If you don't hear it come through yet, refresh/restart playback in that app.";
    assert_eq!(app.route_status, Some(status.to_string()));
    assert_eq!(last_line(&app), status);
    assert!(app.dev_log.iter().any(|l| l == "routing chrome.exe (pid 10) to CABLE Input"));
    let route = app.active_route.as_ref().unwrap();
    assert_eq!((route.pid, route.exe_name.as_str()), (10, "chrome.exe"));
    let writes = restore_endpoint(&route.original);
    assert_eq!((writes[0].value.as_str(), writes[1].value.as_str()), ("", "headset"));
}

#[test]
fn previous_app_is_given_back_first() {
    let mut app = app();
    route_to_end(&mut app, overrides("", ""));
    app.pending_route = Some(1);
    match app.process_pending_route() {
        RouteAction::Restore { previous, target } => {
            assert_eq!((previous.pid, target.pid), (10, 20));
            assert!(app.active_route.is_none());
            let next = app.route_restored(previous, target, Err("gone".to_string()));
            assert!(matches!(next, RouteAction::ReadOverride { .. }));
            assert_eq!(last_line(&app), "failed to restore chrome.exe's audio routing: gone");
        }
        _ => panic!("expected a restore"),
    }
}

#[test]
fn unreadable_routing_ends_it() {
    let mut app = app();
    let RouteAction::ReadOverride { target } = app.process_pending_route() else {
        panic!("expected a read")
    };
    let next = app.route_override_read(target, Err("denied".to_string()));
    assert!(matches!(next, RouteAction::Finished));
    let error = "Couldn't read chrome.exe's current audio routing: denied";
    assert_eq!(app.error, Some(error.to_string()));
    assert!(app.active_route.is_none());
}

fn until_lookup(
    app: &mut App,
) -> (audio_isolation_mirror::routes::RouteTarget, EndpointOverride) {
    let RouteAction::ReadOverride { target } = app.process_pending_route() else {
        panic!("expected a read")
    };
    match app.route_override_read(target, Ok(overrides("", ""))) {
        RouteAction::FindEndpoint { target, original, .. } => (target, original),
        _ => panic!("expected a lookup"),
    }
}

#[test]
fn missing_cable_ends_it() {
    let mut app = app();
    let (target, original) = until_lookup(&mut app);
    let next = app.route_endpoint_found(target, original, Ok(None));
    assert!(matches!(next, RouteAction::Finished));
    let error =
        "Couldn't find a 'CABLE Input' playback device -- is VB-Audio Virtual Cable installed?";
    assert_eq!(app.error, Some(error.to_string()));
}

#[test]
fn failed_lookup_ends_it() {
    let mut app = app();
    let (target, original) = until_lookup(&mut app);
    let next = app.route_endpoint_found(target, original, Err("no service".to_string()));
    assert!(matches!(next, RouteAction::Finished));
    let error = "Couldn't look up the CABLE Input device: no service";
    assert_eq!(app.error, Some(error.to_string()));
}

#[test]
fn failed_routing_tells_the_way_by_hand() {
    let mut app = app();
    let (target, original) = until_lookup(&mut app);
    app.route_performed(target, original, Err("old build".to_string()));
    let error = "Automatic app routing isn't available on this Windows version (old build). Route manually instead: Settings -> System -> Sound -> Volume mixer -> set your browser's output to 'CABLE Input'.";
    assert_eq!(app.error, Some(error.to_string()));
    assert!(app.active_route.is_none());
    assert_eq!(app.route_status, None);
}

#[test]
fn closing_hands_the_routed_app_out_once() {
    let mut app = app();
    route_to_end(&mut app, overrides("a", "b"));
    let previous = app.restore_active_route().unwrap();
    assert_eq!(previous.pid, 10);
    let lines = app.dev_log.len();
    app.restore_finished(&previous, Ok(()));
    assert_eq!(app.dev_log.len(), lines);
    assert!(app.restore_active_route().is_none());
}
