use audio_isolation_mirror::app::App;
use audio_isolation_mirror::config::AppConfig;
use audio_isolation_mirror::dsp::ChannelMode;
use audio_isolation_mirror::selection::ChannelSelection;
use audio_isolation_mirror::sessions::AudioSession;
use audio_isolation_mirror::startup::{EngineStep, Startup};
use audio_isolation_mirror::update::{Effect, UiEvent};

fn session(pid: u32, exe_name: &str) -> AudioSession {
    AudioSession { pid, exe_name: exe_name.to_string(), exe_path: String::new() }
}

fn app() -> App {
    App::new(Startup {
        inputs: vec![Some("in 0".to_string()), Some("in 1".to_string())],
        outputs: vec![Some("out 0".to_string()), Some("out 1".to_string())],
        default_output: None,
        config: AppConfig::default(),
        self_pid: 1,
        sessions: Ok(vec![session(10, "chrome.exe"), session(20, "music.exe")]),
    })
}

#[test]
fn settings_window_opens_hidden() {
    let mut app = app();
    app.settings_frames = 3;
    assert_eq!(app.update(UiEvent::ToggleSettings), Effect::Nothing);
    assert!(app.show_settings);
    for _ in 0..3 {
        assert!(!app.settings_revealed());
        assert_eq!(app.update(UiEvent::SettingsFrame), Effect::Repaint);
    }
    assert!(app.settings_revealed());
    assert_eq!(app.update(UiEvent::SettingsFrame), Effect::Nothing);
    assert_eq!(app.settings_frames, 3);
    app.update(UiEvent::ToggleSettings);
    assert!(!app.show_settings);
    assert_eq!(app.settings_frames, 3);
}

#[test]
fn settings_window_closes() {
    let mut app = app();
    app.update(UiEvent::ToggleSettings);
    assert_eq!(app.update(UiEvent::CloseSettings), Effect::Nothing);
    assert!(!app.show_settings);
}

#[test]
fn browser_icon_selects_and_queues_its_session() {
    let mut app = app();
    app.pending_route = None;
    app.selected_session = None;
    app.error = Some("old".to_string());
    app.route_status = Some("old".to_string());
    assert_eq!(app.update(UiEvent::PickBrowser(0)), Effect::Repaint);
    assert_eq!(app.pending_route, Some(0));
    assert_eq!(app.selected_session, Some(0));
    assert_eq!((app.error, app.route_status), (None, None));
}

#[test]
fn browser_icons_switch_back_and_forth() {
    let mut app = app();
    assert_eq!(app.update(UiEvent::PickBrowser(1)), Effect::Repaint);
    assert_eq!((app.selected_session, app.pending_route), (Some(1), Some(1)));
    assert_eq!(app.update(UiEvent::PickBrowser(0)), Effect::Repaint);
    assert_eq!((app.selected_session, app.pending_route), (Some(0), Some(0)));
}

#[test]
fn selected_browser_icon_does_nothing() {
    let mut app = app();
    app.pending_route = None;
    assert_eq!(app.selected_session, Some(0));
    assert_eq!(app.update(UiEvent::PickBrowser(0)), Effect::Nothing);
    assert_eq!(app.pending_route, None);
}

#[test]
fn picking_a_session_selects_and_queues_it() {
    let mut app = app();
    app.pending_route = None;
    assert_eq!(app.update(UiEvent::PickSession(1)), Effect::Repaint);
    assert_eq!((app.selected_session, app.pending_route), (Some(1), Some(1)));
    app.pending_route = None;
    assert_eq!(app.update(UiEvent::PickSession(1)), Effect::Nothing);
    assert_eq!(app.pending_route, None);
}

#[test]
fn relisting_keeps_the_selected_process() {
    let mut app = app();
    app.selected_session = Some(1);
    app.route_status = Some("routed".to_string());
    app.error = Some("old".to_string());
    let listed = Ok(vec![session(1, "self"), session(20, "music.exe"), session(30, "x")]);
    assert_eq!(app.update(UiEvent::SessionsListed { self_pid: 1, listed }), Effect::Nothing);
    assert_eq!(app.audio_sessions.len(), 2);
    assert_eq!(app.selected_session, Some(0));
    assert_eq!(app.route_status, Some("routed".to_string()));
    assert_eq!(app.error, None);
    assert_eq!(app.dev_log.back().unwrap(), "found 2 active audio session(s)");
}

#[test]
fn relisting_drops_a_process_that_is_gone() {
    let mut app = app();
    app.route_status = Some("routed".to_string());
    let listed = Ok(vec![session(30, "x")]);
    app.update(UiEvent::SessionsListed { self_pid: 1, listed });
    assert_eq!(app.selected_session, None);
    assert_eq!(app.route_status, None);
}

#[test]
fn relisting_when_nothing_plays() {
    let mut app = app();
    app.update(UiEvent::SessionsListed { self_pid: 1, listed: Ok(vec![]) });
    let error = "No apps are currently playing audio. Start playback in your browser tab, then refresh again.";
    assert_eq!(app.error, Some(error.to_string()));
    assert!(app.audio_sessions.is_empty());
    let lines: Vec<&String> = app.dev_log.iter().rev().take(3).collect();
    assert_eq!(lines[0], &format!("error: {error}"));
    assert_eq!(lines[1], "found 0 active audio session(s)");
    assert_eq!(lines[2], "detecting active audio sessions...");
}

#[test]
fn failed_relisting_keeps_the_list() {
    let mut app = app();
    app.update(UiEvent::SessionsListed { self_pid: 1, listed: Err("no service".to_string()) });
    assert_eq!(app.error, Some("Couldn't detect apps: no service".to_string()));
    assert_eq!(app.audio_sessions.len(), 2);
    assert_eq!(app.selected_session, Some(0));
}

#[test]
fn channel_reaches_the_callback() {
    let mut app = app();
    let callback = app.mode_handle.clone();
    let left = ChannelSelection::Left;
    assert_eq!(app.update(UiEvent::PickChannel(left)), Effect::SaveConfig);
    assert_eq!(callback.get(), ChannelMode::Left { mirror: false });
    assert_eq!(app.update(UiEvent::PickMirror(true)), Effect::SaveConfig);
    assert_eq!(callback.get(), ChannelMode::Left { mirror: true });
    assert_eq!(app.update(UiEvent::PickChannel(left)), Effect::Nothing);
    assert_eq!(app.update(UiEvent::PickMirror(true)), Effect::Nothing);
    assert_eq!(app.save_config().mode_code, Some(2));
}

#[test]
fn mirror_cannot_be_moved_while_both_play() {
    let mut app = app();
    assert_eq!(app.update(UiEvent::PickMirror(true)), Effect::Nothing);
    assert!(!app.mirror);
}

#[test]
fn mute_reaches_the_callback() {
    let mut app = app();
    let callback = app.mute_handle.clone();
    assert_eq!(app.update(UiEvent::PickMute(true)), Effect::SaveConfig);
    assert!(callback.get() && app.muted);
    assert_eq!(app.update(UiEvent::PickMute(true)), Effect::Nothing);
}

#[test]
fn stream_error_stops_the_engine() {
    let mut app = app();
    app.update(UiEvent::StreamError("early".to_string()));
    assert_eq!(app.error, None);
    app.engine_started(Ok(()));
    app.update(UiEvent::StreamError("input device error: gone".to_string()));
    assert!(!app.engine_running);
    assert_eq!(app.error, Some("input device error: gone".to_string()));
}

#[test]
fn picking_devices_restarts_the_engine() {
    let mut app = app();
    assert_eq!(app.update(UiEvent::PickInput(1)), Effect::RestartEngine);
    assert_eq!(app.update(UiEvent::PickInput(1)), Effect::Nothing);
    assert_eq!(app.update(UiEvent::PickOutput(1)), Effect::RestartEngine);
    assert_eq!(app.update(UiEvent::PickOutput(1)), Effect::Nothing);
    assert_eq!(app.restart_engine(), EngineStep::Start { input: 1, output: 1 });
}

#[test]
fn switches_are_saved() {
    let mut app = app();
    assert_eq!(app.update(UiEvent::PickSimpleBrowserSelection(true)), Effect::SaveConfig);
    assert_eq!(app.update(UiEvent::PickSimpleBrowserSelection(true)), Effect::Nothing);
    assert_eq!(app.update(UiEvent::PickDevConsole(true)), Effect::SaveConfig);
    assert_eq!(app.update(UiEvent::PickDevConsole(true)), Effect::Nothing);
    let saved = app.save_config();
    assert!(saved.simple_browser_selection && saved.dev_console);
}

#[test]
fn warning_is_dismissed() {
    let mut app = app();
    assert!(app.show_vb_cable_warning);
    assert_eq!(app.update(UiEvent::DismissCableWarning), Effect::Nothing);
    assert!(!app.show_vb_cable_warning);
}
