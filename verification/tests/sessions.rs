use audio_isolation_mirror::sessions::{
    active_pids, find_auto_route_candidate, find_browser_session, find_session_by_pid,
    known_browser, list_active_render_sessions, list_audio_sessions, session_from_path,
    AudioSession, SessionReport, BROWSER_COUNT,
};

fn session(pid: u32, exe_name: &str) -> AudioSession {
    AudioSession { pid, exe_name: exe_name.to_string(), exe_path: format!("C:\\{exe_name}") }
}

fn report(system_sounds: bool, pid: Option<u32>) -> SessionReport {
    SessionReport { active: true, system_sounds, pid }
}

#[test]
fn each_process_is_listed_once() {
    let reports = [
        report(false, Some(40)),
        report(true, Some(7)),
        report(false, Some(12)),
        report(false, None),
        report(false, Some(40)),
        report(false, Some(0)),
        report(false, Some(3)),
    ];
    assert_eq!(active_pids(&reports), vec![40, 12, 3]);
    assert!(active_pids(&[]).is_empty());
}

#[test]
fn paused_sessions_are_not_listed() {
    let paused = |pid: u32| SessionReport { active: false, system_sounds: false, pid: Some(pid) };
    let reports = [paused(5), report(false, Some(6)), paused(6), paused(5)];
    assert_eq!(active_pids(&reports), vec![6]);
}

#[test]
fn sessions_are_named_after_their_program() {
    let image: Vec<u16> = "C:\\Apps\\chrome.exe".encode_utf16().collect();
    let sessions = list_active_render_sessions(&[4, 5], &[Some(image), None]);
    assert_eq!(sessions.len(), 2);
    assert_eq!(sessions[0].pid, 4);
    assert_eq!(sessions[0].exe_name, "chrome.exe");
    assert_eq!(sessions[0].exe_path, "C:\\Apps\\chrome.exe");
    assert_eq!(sessions[1].pid, 5);
    assert_eq!(sessions[1].exe_name, "<pid 5>");
    assert_eq!(sessions[1].exe_path, "");
}

#[test]
fn broken_utf16_is_replaced() {
    let sessions = list_active_render_sessions(&[1], &[Some(vec![0x61, 0xd800, 0x62])]);
    assert_eq!(sessions[0].exe_name, "a\u{fffd}b");
    let units = vec![0xd834, 0xdd1e, 0x6d, 0xdd1e, 0xd834, 0xd834, 0xdd1e, 0xd834];
    let sessions = list_active_render_sessions(&[1], &[Some(units)]);
    assert_eq!(sessions[0].exe_name, "\u{1d11e}m\u{fffd}\u{fffd}\u{1d11e}\u{fffd}");
}

#[test]
fn session_of_a_known_path() {
    let s = session_from_path(9, Some("/opt/brave.exe".to_string()));
    assert_eq!((s.pid, s.exe_name.as_str(), s.exe_path.as_str()), (9, "brave.exe", "/opt/brave.exe"));
}

#[test]
fn own_process_is_left_out() {
    let listed = list_audio_sessions(2, vec![session(1, "a"), session(2, "b"), session(3, "c")]);
    let pids: Vec<u32> = listed.iter().map(|s| s.pid).collect();
    assert_eq!(pids, vec![1, 3]);
    assert_eq!(listed[1].exe_name, "c");
}

#[test]
fn first_browser_is_the_candidate() {
    let sessions = [session(1, "spotify.exe"), session(2, "MsEdge.EXE"), session(3, "chrome.exe")];
    assert_eq!(find_auto_route_candidate(&sessions), Some(1));
    assert_eq!(find_auto_route_candidate(&sessions[..1]), None);
    assert_eq!(find_auto_route_candidate(&[]), None);
}

#[test]
fn every_known_browser_is_found() {
    let names: Vec<&str> = (0..BROWSER_COUNT).map(known_browser).collect();
    assert_eq!(names, vec!["chrome.exe", "firefox.exe", "msedge.exe", "brave.exe", "opera.exe"]);
    for name in names {
        let sessions = [session(1, "x"), session(2, &name.to_uppercase())];
        assert_eq!(find_auto_route_candidate(&sessions), Some(1));
        assert_eq!(find_browser_session(&sessions, name), Some(1));
    }
}

#[test]
fn sessions_by_browser_and_by_process() {
    let sessions = [session(8, "firefox.exe"), session(9, "FIREFOX.exe")];
    assert_eq!(find_browser_session(&sessions, "firefox.exe"), Some(0));
    assert_eq!(find_browser_session(&sessions, "opera.exe"), None);
    assert_eq!(find_session_by_pid(&sessions, 9), Some(1));
    assert_eq!(find_session_by_pid(&sessions, 10), None);
}

#[test]
fn labels_show_name_and_process() {
    assert_eq!(session(4711, "opera.exe").label(), "opera.exe (pid 4711)");
}
