use audio_isolation_mirror::app::App;
use audio_isolation_mirror::config::AppConfig;
use audio_isolation_mirror::display::{IconCache, StatusLine};
use audio_isolation_mirror::sessions::AudioSession;
use audio_isolation_mirror::startup::Startup;

fn session(pid: u32, exe_name: &str) -> AudioSession {
    AudioSession { pid, exe_name: exe_name.to_string(), exe_path: String::new() }
}

fn app(sessions: Vec<AudioSession>) -> App {
    App::new(Startup {
        inputs: vec![],
        outputs: vec![],
        default_output: None,
        config: AppConfig::default(),
        self_pid: 0,
        sessions: Ok(sessions),
    })
}

#[test]
fn status_line_follows_the_routing() {
    let mut app = app(vec![session(1, "chrome.exe")]);
    assert_eq!(app.status_line(), StatusLine::Routing);
    app.pending_route = None;
    assert_eq!(app.status_line(), StatusLine::Nothing);
    app.set_status("routed".to_string());
    assert_eq!(app.status_line(), StatusLine::Isolating);
}

#[test]
fn selected_session_is_shown() {
    let mut app = app(vec![session(7, "chrome.exe")]);
    assert_eq!(app.selected_session_text(), "chrome.exe (pid 7)");
    app.selected_session = Some(3);
    assert_eq!(app.selected_session_text(), "<none detected>");
    app.selected_session = None;
    assert_eq!(app.selected_session_text(), "<none detected>");
}

#[test]
fn one_button_for_each_browser_that_plays() {
    let app = app(vec![
        session(1, "music.exe"),
        session(2, "OPERA.exe"),
        session(3, "chrome.exe"),
        session(4, "chrome.exe"),
    ]);
    let buttons = app.browser_buttons();
    assert_eq!(buttons.len(), 2);
    assert_eq!((buttons[0].browser, buttons[0].session, buttons[0].selected), (0, 2, false));
    assert_eq!(buttons[0].hover, "chrome.exe (pid 3)");
    assert_eq!((buttons[1].browser, buttons[1].session, buttons[1].selected), (4, 1, true));
    assert_eq!(buttons[1].hover, "OPERA.exe (pid 2)");
}

#[test]
fn no_browser_no_button() {
    assert!(app(vec![session(1, "music.exe")]).browser_buttons().is_empty());
}

#[test]
fn icons_are_fetched_once() {
    let mut cache: IconCache<u32> = IconCache::new();
    assert_eq!(cache.lookup("chrome.exe"), None);
    cache.keep("Chrome.exe", Some(5));
    assert_eq!(cache.lookup("CHROME.EXE"), Some(&Some(5)));
    cache.keep("opera.exe", None);
    assert_eq!(cache.lookup("opera.exe"), Some(&None));
    cache.keep("chrome.exe", Some(6));
    assert_eq!(cache.lookup("chrome.exe"), Some(&Some(5)));
    assert_eq!(cache.find("Chrome.exe"), None);
    assert_eq!(cache.find("chrome.exe"), Some(&Some(5)));
}

#[test]
fn missing_icon_is_logged() {
    let mut app = app(vec![]);
    let lines = app.dev_log.len();
    app.icon_fetched("brave.exe", true);
    assert_eq!(app.dev_log.len(), lines);
    app.icon_fetched("brave.exe", false);
    assert_eq!(app.dev_log.back().unwrap(), "couldn't extract icon for brave.exe");
}
