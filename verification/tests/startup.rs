use audio_isolation_mirror::app::App;
use audio_isolation_mirror::config::AppConfig;
use audio_isolation_mirror::devices::find_exact;
use audio_isolation_mirror::dsp::ChannelMode;
use audio_isolation_mirror::selection::ChannelSelection;
use audio_isolation_mirror::sessions::AudioSession;
use audio_isolation_mirror::startup::{
    choose_device, find_called, selected_device_label, EngineStep, Startup,
};

fn names(list: &[&str]) -> Vec<Option<String>> {
    list.iter().map(|n| Some(n.to_string())).collect()
}

fn session(pid: u32, exe_name: &str) -> AudioSession {
    AudioSession { pid, exe_name: exe_name.to_string(), exe_path: String::new() }
}

fn startup() -> Startup {
    Startup {
        inputs: names(&["Microphone", "CABLE Output (VB-Audio Virtual Cable)"]),
        outputs: names(&["HDMI", "Headphones"]),
        default_output: Some("Headphones".to_string()),
        config: AppConfig::default(),
        self_pid: 1,
        sessions: Ok(vec![session(1, "chrome.exe"), session(2, "a.exe"), session(3, "Opera.exe")]),
    }
}

#[test]
fn first_start() {
    let app = App::new(startup());
    assert_eq!(app.selected_input, Some(1));
    assert_eq!(app.selected_output, Some(1));
    assert_eq!(app.channel, ChannelSelection::Both);
    assert!(!app.mirror && !app.muted && !app.show_vb_cable_warning && !app.engine_running);
    assert_eq!(app.mode_handle.get(), ChannelMode::Both);
    assert!(!app.mute_handle.get());
    assert_eq!(app.audio_sessions.len(), 2);
    assert_eq!(app.selected_session, Some(1));
    assert_eq!(app.pending_route, Some(1));
    let lines: Vec<&str> = app.dev_log.iter().map(|l| l.as_str()).collect();
    assert_eq!(
        lines,
        vec![
            "searching for VB-Audio Virtual Cable...",
            "found VB-Audio Virtual Cable",
            "selected input: CABLE Output (VB-Audio Virtual Cable), output: Headphones",
            "checking for active Firefox/Chrome audio sessions...",
            "auto-selected Opera.exe (pid 3) for routing",
        ]
    );
    assert_eq!(app.echo, lines);
}

#[test]
fn start_without_anything() {
    let app = App::new(Startup {
        inputs: vec![],
        outputs: vec![None],
        default_output: None,
        config: AppConfig::default(),
        self_pid: 1,
        sessions: Err("no service".to_string()),
    });
    assert_eq!(app.selected_input, None);
    assert_eq!(app.selected_output, Some(0));
    assert!(app.show_vb_cable_warning);
    assert!(app.audio_sessions.is_empty());
    assert_eq!(app.pending_route, None);
    assert_eq!(app.dev_log[1], "VB-Audio Virtual Cable not found");
    assert_eq!(app.dev_log[2], "selected input: <none>, output: <none>");
    assert_eq!(app.dev_log[4], "no Firefox/Chrome session found to auto-route");
}

#[test]
fn settings_and_devices_are_remembered() {
    let mut last = App::new(startup());
    last.selected_input = Some(0);
    last.selected_output = Some(0);
    last.channel = ChannelSelection::Right;
    last.mirror = true;
    last.muted = true;
    last.dev_console = true;
    last.simple_browser_selection = true;
    let saved = last.save_config();
    assert_eq!(saved.input_device_name, Some("Microphone".to_string()));
    assert_eq!(saved.output_device_name, Some("HDMI".to_string()));
    assert_eq!(saved.mode_code, Some(4));
    let next = App::new(Startup { config: saved, ..startup() });
    assert_eq!(next.selected_input, Some(0));
    assert_eq!(next.selected_output, Some(0));
    assert_eq!(next.channel, ChannelSelection::Right);
    assert!(next.mirror && next.muted && next.dev_console && next.simple_browser_selection);
    assert_eq!(next.mode_handle.get(), ChannelMode::Right { mirror: true });
    assert!(next.mute_handle.get());
}

#[test]
fn exact_name_comes_before_one_that_holds_it() {
    let outputs = names(&["USB Speakers", "Speakers", "Speakers"]);
    let config =
        AppConfig { output_device_name: Some("Speakers".to_string()), ..AppConfig::default() };
    let app = App::new(Startup { outputs, config, ..startup() });
    assert_eq!(app.selected_output, Some(1));
    let list = names(&["USB Speakers", "Speakers"]);
    assert_eq!(choose_device(&list, &Some("speakers".to_string()), None), Some(0));
    assert_eq!(find_exact(&list, "Speakers"), Some(1));
    assert_eq!(find_exact(&list, "speakers"), None);
}

#[test]
fn default_output_goes_by_its_exact_name() {
    let outputs = names(&["USB Speakers", "Speakers"]);
    let default_output = Some("Speakers".to_string());
    let app = App::new(Startup {
        inputs: names(&["Mic", "CABLE Output (VB-Audio Virtual Cable)", "VB-Audio Virtual Cable"]),
        outputs,
        default_output,
        config: AppConfig::default(),
        ..startup()
    });
    assert_eq!(app.selected_output, Some(1));
    assert_eq!(app.selected_input, Some(1));
}

#[test]
fn mirror_is_forgotten_while_both_play() {
    let mut last = App::new(startup());
    last.mirror = true;
    let next = App::new(Startup { config: last.save_config(), ..startup() });
    assert_eq!(next.channel, ChannelSelection::Both);
    assert!(!next.mirror);
}

#[test]
fn devices_by_preference() {
    let devices = names(&["one", "two", "three"]);
    let some = |s: &str| Some(s.to_string());
    assert_eq!(choose_device(&devices, &some("TWO"), Some(2)), Some(1));
    assert_eq!(choose_device(&devices, &some("four"), Some(2)), Some(2));
    assert_eq!(choose_device(&devices, &None, find_called(&devices, &some("thr"))), Some(2));
    assert_eq!(choose_device(&devices, &None, None), Some(0));
    assert_eq!(choose_device(&[], &some("one"), None), None);
}

#[test]
fn labels_of_devices() {
    let devices = vec![Some("one".to_string()), None];
    assert_eq!(selected_device_label(&devices, Some(0)), "one");
    assert_eq!(selected_device_label(&devices, Some(1)), "<none>");
    assert_eq!(selected_device_label(&devices, Some(2)), "<none>");
    assert_eq!(selected_device_label(&devices, None), "<none>");
}

#[test]
fn engine_restarts() {
    let mut app = App::new(startup());
    app.error = Some("old".to_string());
    app.engine_running = true;
    assert_eq!(app.restart_engine(), EngineStep::Start { input: 1, output: 1 });
    assert!(!app.engine_running);
    assert_eq!(app.error, None);
    assert_eq!(
        app.dev_log.back().unwrap(),
        "starting audio engine: input=CABLE Output (VB-Audio Virtual Cable), output=Headphones"
    );
    assert_eq!(app.engine_started(Ok(())), EngineStep::SaveConfig);
    assert!(app.engine_running);
    assert_eq!(app.dev_log.back().unwrap(), "audio engine started");
}

#[test]
fn engine_that_does_not_start() {
    let mut app = App::new(startup());
    app.restart_engine();
    let step = app.engine_started(Err("no default input config".to_string()));
    assert_eq!(step, EngineStep::SaveConfig);
    assert!(!app.engine_running);
    assert_eq!(app.error, Some("no default input config".to_string()));
    assert_eq!(app.dev_log.back().unwrap(), "error: no default input config");
}

#[test]
fn engine_without_devices() {
    let mut app = App::new(startup());
    app.selected_output = None;
    let lines = app.dev_log.len();
    assert_eq!(app.restart_engine(), EngineStep::SaveConfig);
    assert_eq!(app.dev_log.len(), lines);
    let saved = app.save_config();
    assert_eq!(saved.output_device_name, None);
}

#[test]
fn console_keeps_the_latest_lines() {
    let mut app = App::new(startup());
    let printed = app.take_echo().len();
    assert_eq!(printed, 5);
    for i in 0..300 {
        app.log(format!("line {i}"));
    }
    assert_eq!(app.dev_log.len(), 200);
    assert_eq!(app.dev_log.front().unwrap(), "line 100");
    assert_eq!(app.dev_log.back().unwrap(), "line 299");
    let echo = app.take_echo();
    assert_eq!(echo.len(), 300);
    assert_eq!(echo[0], "line 0");
    assert!(app.take_echo().is_empty());
}

#[test]
fn errors_and_statuses_are_logged() {
    let mut app = App::new(startup());
    app.set_error("bad".to_string());
    assert_eq!(app.error, Some("bad".to_string()));
    assert_eq!(app.dev_log.back().unwrap(), "error: bad");
    app.set_status("good".to_string());
    assert_eq!(app.route_status, Some("good".to_string()));
    assert_eq!(app.dev_log.back().unwrap(), "good");
}
