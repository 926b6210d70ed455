//! The processes that play audio, and the browsers among them.
use crate::text::{
    decimal, eq_ignore_ascii_case, file_name, file_name_of, first_true, from_utf16_lossy,
    is_first_true, join3, lemma_first_true_is, lemma_first_true_some, same_ignoring_ascii_case,
    to_decimal, utf16_lossy,
};
use vstd::prelude::*;
use vstd::string::StringExecFns;

verus! {

/// A running process with an active (currently playing) audio render session.
pub struct AudioSession {
    pub pid: u32,
    /// File name of the program.
    pub exe_name: String,
    /// Full path of the program, empty where it could not be found out.
    pub exe_path: String,
}

/// What an `AudioSession` stands for.
#[verifier::ext_equal]
pub struct SessionView {
    pub pid: u32,
    pub exe_name: Seq<char>,
    pub exe_path: Seq<char>,
}

impl View for AudioSession {
    type V = SessionView;

    open spec fn view(&self) -> SessionView {
        SessionView { pid: self.pid, exe_name: self.exe_name@, exe_path: self.exe_path@ }
    }
}

impl Clone for AudioSession {
    fn clone(&self) -> (copy: Self)
        ensures
            copy == *self,
    {
        AudioSession {
            pid: self.pid,
            exe_name: self.exe_name.clone(),
            exe_path: self.exe_path.clone(),
        }
    }
}

/// What each session of a list stands for.
pub open spec fn sessions_view(sessions: Seq<AudioSession>) -> Seq<SessionView> {
    sessions.map_values(|s: AudioSession| s@)
}

/// What the system told of one session on one playback device. A session that
/// could not be asked has no process.
#[derive(Debug, Clone, Copy, PartialEq, Eq, Structural)]
pub struct SessionReport {
    /// The session is active: it plays right now, and is neither paused nor
    /// over.
    pub active: bool,
    /// The session plays the system's own sounds.
    pub system_sounds: bool,
    /// The process that plays.
    pub pid: Option<u32>,
}

/// The report is of a process of its own that plays: it is active, not of the
/// system sounds, and with a process other than the idle one.
pub open spec fn is_app(report: SessionReport) -> bool {
    report.active && !report.system_sounds && report.pid is Some && report.pid->0 != 0
}

/// The processes that play, each once, in the order of their first report.
pub open spec fn playing_pids(reports: Seq<SessionReport>) -> Seq<u32>
    decreases reports.len(),
{
    if reports.len() == 0 {
        Seq::empty()
    } else {
        let before = playing_pids(reports.drop_last());
        let report = reports.last();
        if is_app(report) && !before.contains(report.pid->0) {
            before.push(report.pid->0)
        } else {
            before
        }
    }
}

fn has_pid(pids: &[u32], pid: u32) -> (found: bool)
    ensures
        found == pids@.contains(pid),
{
    let mut i: usize = 0;
    while i < pids.len()
        invariant
            i <= pids@.len(),
            forall|j: int| 0 <= j < i ==> pids@[j] != pid,
        decreases pids@.len() - i,
    {
        if pids[i] == pid {
            assert(pids@[i as int] == pid);
            return true;
        }
        i = i + 1;
    }
    false
}

/// The processes that are actively making sound, out of the sessions of every
/// playback device. Deduplicated by pid.
pub fn active_pids(reports: &[SessionReport]) -> (pids: Vec<u32>)
    ensures
        pids@ == playing_pids(reports@),
{
    let mut pids: Vec<u32> = Vec::new();
    let mut i: usize = 0;
    while i < reports.len()
        invariant
            i <= reports@.len(),
            pids@ == playing_pids(reports@.take(i as int)),
        decreases reports@.len() - i,
    {
        let report: SessionReport = reports[i];
        proof {
            assert(reports@.take(i + 1).drop_last() =~= reports@.take(i as int));
            assert(reports@.take(i + 1).last() == report);
        }
        if report.active && !report.system_sounds {
            if let Some(pid) = report.pid {
                if pid != 0 && !has_pid(&pids, pid) {
                    pids.push(pid);
                }
            }
        }
        i = i + 1;
    }
    assert(reports@.take(i as int) =~= reports@);
    pids
}

/// No process is listed twice, and a process is listed exactly where it has a
/// session that plays: one whose sessions are all paused or over is not.
pub proof fn law_each_process_once(reports: Seq<SessionReport>)
    ensures
        playing_pids(reports).no_duplicates(),
        !playing_pids(reports).contains(0),
        forall|pid: u32| #[trigger]
            playing_pids(reports).contains(pid) <==> exists|i: int|
                0 <= i < reports.len() && is_app(#[trigger] reports[i]) && reports[i].pid->0
                    == pid,
    decreases reports.len(),
{
    if reports.len() > 0 {
        let last = reports.len() - 1;
        let front = reports.drop_last();
        let before = playing_pids(front);
        let all = playing_pids(reports);
        law_each_process_once(front);
        assert forall|pid: u32| #[trigger] all.contains(pid) implies exists|i: int|
            0 <= i < reports.len() && is_app(#[trigger] reports[i]) && reports[i].pid->0 == pid by {
            if before.contains(pid) {
                let i = choose|i: int|
                    0 <= i < front.len() && is_app(#[trigger] front[i]) && front[i].pid->0 == pid;
                assert(reports[i] == front[i]);
            } else {
                let k = choose|k: int| 0 <= k < all.len() && all[k] == pid;
                assert(k == before.len()) by {
                    if k < before.len() {
                        assert(before[k] == pid);
                    }
                }
                assert(is_app(reports[last]));
            }
        }
        assert forall|pid: u32|
            (exists|i: int|
                0 <= i < reports.len() && is_app(#[trigger] reports[i]) && reports[i].pid->0
                    == pid) implies #[trigger] all.contains(pid) by {
            let i = choose|i: int|
                0 <= i < reports.len() && is_app(#[trigger] reports[i]) && reports[i].pid->0
                    == pid;
            if i < last {
                assert(front[i] == reports[i]);
                assert(before.contains(pid));
                let k = choose|k: int| 0 <= k < before.len() && before[k] == pid;
                assert(all[k] == pid);
            } else if !before.contains(pid) {
                assert(all[before.len() as int] == pid);
            } else {
                let k = choose|k: int| 0 <= k < before.len() && before[k] == pid;
                assert(all[k] == pid);
            }
        }
        assert(!all.contains(0)) by {
            if all.contains(0) {
                let i = choose|i: int|
                    0 <= i < reports.len() && is_app(#[trigger] reports[i]) && reports[i].pid->0
                        == 0u32;
                assert(is_app(reports[i]));
            }
        }
    }
}

/// The session of a process whose program lies at `path`. A process whose
/// program could not be found out is called by its number.
pub open spec fn session_at(pid: u32, path: Option<Seq<char>>) -> SessionView {
    match path {
        Some(path) => SessionView { pid, exe_name: file_name(path), exe_path: path },
        None => SessionView {
            pid,
            exe_name: "<pid "@ + decimal(pid as nat) + ">"@,
            exe_path: Seq::empty(),
        },
    }
}

/// The session of a process whose program lies at `path`.
pub fn session_from_path(pid: u32, path: Option<String>) -> (session: AudioSession)
    ensures
        session@ == session_at(pid, crate::text::opt_chars(path)),
{
    match path {
        Some(path) => AudioSession { pid, exe_name: file_name_of(&path), exe_path: path },
        None => AudioSession {
            pid,
            exe_name: join3("<pid ", &to_decimal(pid as u64), ">"),
            exe_path: String::new(),
        },
    }
}

/// The path of a program as the system gives it, in UTF-16 code units.
pub open spec fn image_path(image: Option<Vec<u16>>) -> Option<Seq<char>> {
    match image {
        Some(units) => Some(utf16_lossy(units@)),
        None => None,
    }
}

/// Describes every process of the list, given where its program lies.
pub fn list_active_render_sessions(pids: &[u32], images: &[Option<Vec<u16>>]) -> (sessions:
    Vec<AudioSession>)
    requires
        pids@.len() == images@.len(),
    ensures
        sessions_view(sessions@) == Seq::new(
            pids@.len(),
            |i: int| session_at(pids@[i], image_path(images@[i])),
        ),
{
    let mut sessions: Vec<AudioSession> = Vec::new();
    let mut i: usize = 0;
    while i < pids.len()
        invariant
            i <= pids@.len(),
            pids@.len() == images@.len(),
            sessions@.len() == i,
            forall|j: int|
                0 <= j < i ==> (#[trigger] sessions@[j])@ == session_at(
                    pids@[j],
                    image_path(images@[j]),
                ),
        decreases pids@.len() - i,
    {
        let path: Option<String> = match &images[i] {
            Some(units) => Some(from_utf16_lossy(units)),
            None => None,
        };
        sessions.push(session_from_path(pids[i], path));
        i = i + 1;
    }
    assert(sessions_view(sessions@) =~= Seq::new(
        pids@.len(),
        |i: int| session_at(pids@[i], image_path(images@[i])),
    ));
    sessions
}

/// Every session but those of one process.
pub open spec fn without_pid(sessions: Seq<SessionView>, pid: u32) -> Seq<SessionView> {
    sessions.filter(|s: SessionView| s.pid != pid)
}

/// Lists active audio sessions, excluding this app's own process -- routing
/// yourself into the virtual cable is never something a user would want to
/// pick.
pub fn list_audio_sessions(self_pid: u32, sessions: Vec<AudioSession>) -> (others: Vec<
    AudioSession,
>)
    ensures
        sessions_view(others@) == without_pid(sessions_view(sessions@), self_pid),
{
    let ghost all = sessions_view(sessions@);
    let ghost keep = |s: SessionView| s.pid != self_pid;
    let mut others: Vec<AudioSession> = Vec::new();
    let mut i: usize = 0;
    proof {
        reveal(Seq::filter);
        assert(all.take(0) =~= Seq::empty());
        assert(sessions_view(others@) =~= all.take(0).filter(keep));
    }
    while i < sessions.len()
        invariant
            i <= sessions@.len(),
            all == sessions_view(sessions@),
            keep == (|s: SessionView| s.pid != self_pid),
            sessions_view(others@) == all.take(i as int).filter(keep),
        decreases sessions@.len() - i,
    {
        let ghost kept = others@;
        proof {
            reveal(Seq::filter);
            assert(all.take(i + 1).drop_last() =~= all.take(i as int));
            assert(all.take(i + 1).last() == sessions@[i as int]@);
        }
        if sessions[i].pid != self_pid {
            others.push(sessions[i].clone());
            assert(sessions_view(others@) =~= sessions_view(kept).push(sessions@[i as int]@));
        }
        i = i + 1;
    }
    assert(all.take(i as int) =~= all);
    others
}

/// This app never lists itself, and lists everyone else.
pub proof fn law_own_process_is_left_out(sessions: Seq<SessionView>, self_pid: u32)
    ensures
        forall|i: int|
            0 <= i < without_pid(sessions, self_pid).len() ==> (#[trigger] without_pid(
                sessions,
                self_pid,
            )[i]).pid != self_pid,
        forall|i: int|
            0 <= i < sessions.len() && (#[trigger] sessions[i]).pid != self_pid ==> without_pid(
                sessions,
                self_pid,
            ).contains(sessions[i]),
{
    broadcast use vstd::seq_lib::group_filter_ensures;

    let keep = |s: SessionView| s.pid != self_pid;
    assert forall|i: int| 0 <= i < sessions.filter(keep).len() implies (#[trigger] sessions.filter(
        keep,
    )[i]).pid != self_pid by {
        assert(keep(sessions.filter(keep)[i]));
    }
    assert forall|i: int|
        0 <= i < sessions.len() && (#[trigger] sessions[i]).pid != self_pid implies sessions.filter(
        keep,
    ).contains(sessions[i]) by {
        assert(keep(sessions[i]));
    }
}

/// How many browsers are known.
pub const BROWSER_COUNT: usize = 5;

/// Common browser process names -- used both to auto-route on launch without
/// asking, and (when Simple Browser Selection is on) as the fixed set of icons
/// shown instead of the full running-process dropdown.
pub open spec fn known_browsers() -> Seq<Seq<char>> {
    seq!["chrome.exe"@, "firefox.exe"@, "msedge.exe"@, "brave.exe"@, "opera.exe"@]
}

/// The name of the browser at `index` of the known ones.
pub fn known_browser(index: usize) -> (name: &'static str)
    requires
        index < BROWSER_COUNT,
    ensures
        name@ == known_browsers()[index as int],
{
    match index {
        0 => "chrome.exe",
        1 => "firefox.exe",
        2 => "msedge.exe",
        3 => "brave.exe",
        _ => "opera.exe",
    }
}

/// `exe_name` is the name of a known browser, whatever its case.
pub open spec fn is_browser(exe_name: Seq<char>) -> bool {
    exists|b: int|
        0 <= b < known_browsers().len() && same_ignoring_ascii_case(
            exe_name,
            #[trigger] known_browsers()[b],
        )
}

fn is_known_browser(exe_name: &str) -> (known: bool)
    ensures
        known == is_browser(exe_name@),
{
    let mut b: usize = 0;
    while b < BROWSER_COUNT
        invariant
            b <= BROWSER_COUNT,
            forall|c: int|
                0 <= c < b ==> !same_ignoring_ascii_case(
                    exe_name@,
                    #[trigger] known_browsers()[c],
                ),
        decreases BROWSER_COUNT - b,
    {
        if eq_ignore_ascii_case(exe_name, known_browser(b)) {
            assert(same_ignoring_ascii_case(exe_name@, known_browsers()[b as int]));
            return true;
        }
        b = b + 1;
    }
    false
}

/// The first session of a known browser.
pub open spec fn auto_route_candidate(sessions: Seq<SessionView>) -> Option<usize> {
    first_true(sessions.map_values(|s: SessionView| is_browser(s.exe_name)))
}

/// The session to route without asking: the first that belongs to a known
/// browser.
pub fn find_auto_route_candidate(sessions: &[AudioSession]) -> (found: Option<usize>)
    ensures
        found == auto_route_candidate(sessions_view(sessions@)),
{
    let ghost hits = sessions_view(sessions@).map_values(|s: SessionView| is_browser(s.exe_name));
    let len: usize = sessions.len();
    let mut i: usize = 0;
    while i < len
        invariant
            i <= len,
            len == sessions@.len(),
            hits == sessions_view(sessions@).map_values(|s: SessionView| is_browser(s.exe_name)),
            forall|j: int| 0 <= j < i ==> !#[trigger] hits[j],
        decreases len - i,
    {
        let known: bool = is_known_browser(&sessions[i].exe_name);
        assert(hits[i as int] == known);
        if known {
            proof {
                lemma_first_true_is(hits, i as int);
            }
            return Some(i);
        }
        i = i + 1;
    }
    None
}

/// The first session of the known browser that is called `browser`.
pub open spec fn session_of_browser(
    sessions: Seq<SessionView>,
    browser: Seq<char>,
) -> Option<usize> {
    first_true(
        sessions.map_values(|s: SessionView| same_ignoring_ascii_case(s.exe_name, browser)),
    )
}

/// The first session of the program that is called `browser`.
pub fn find_browser_session(sessions: &[AudioSession], browser: &str) -> (found: Option<usize>)
    ensures
        found == session_of_browser(sessions_view(sessions@), browser@),
{
    let ghost hits = sessions_view(sessions@).map_values(
        |s: SessionView| same_ignoring_ascii_case(s.exe_name, browser@),
    );
    let len: usize = sessions.len();
    let mut i: usize = 0;
    while i < len
        invariant
            i <= len,
            len == sessions@.len(),
            hits == sessions_view(sessions@).map_values(
                |s: SessionView| same_ignoring_ascii_case(s.exe_name, browser@),
            ),
            forall|j: int| 0 <= j < i ==> !#[trigger] hits[j],
        decreases len - i,
    {
        let same: bool = eq_ignore_ascii_case(&sessions[i].exe_name, browser);
        assert(hits[i as int] == same);
        if same {
            proof {
                lemma_first_true_is(hits, i as int);
            }
            return Some(i);
        }
        i = i + 1;
    }
    None
}

/// The first session of the process `pid`.
pub open spec fn session_of_pid(sessions: Seq<SessionView>, pid: u32) -> Option<usize> {
    first_true(sessions.map_values(|s: SessionView| s.pid == pid))
}

/// The first session of the process `pid`.
pub fn find_session_by_pid(sessions: &[AudioSession], pid: u32) -> (found: Option<usize>)
    ensures
        found == session_of_pid(sessions_view(sessions@), pid),
{
    let ghost hits = sessions_view(sessions@).map_values(|s: SessionView| s.pid == pid);
    let len: usize = sessions.len();
    let mut i: usize = 0;
    while i < len
        invariant
            i <= len,
            len == sessions@.len(),
            hits == sessions_view(sessions@).map_values(|s: SessionView| s.pid == pid),
            forall|j: int| 0 <= j < i ==> !#[trigger] hits[j],
        decreases len - i,
    {
        let same: bool = sessions[i].pid == pid;
        assert(hits[i as int] == same);
        if same {
            proof {
                lemma_first_true_is(hits, i as int);
            }
            return Some(i);
        }
        i = i + 1;
    }
    None
}

/// Where a browser plays, one is found, and none that comes later; where none
/// plays, none is found.
pub proof fn law_auto_route_takes_the_first_browser(sessions: Seq<SessionView>)
    requires
        sessions.len() <= usize::MAX,
    ensures
        match auto_route_candidate(sessions) {
            Some(i) => {
                &&& i < sessions.len()
                &&& is_browser(sessions[i as int].exe_name)
                &&& forall|j: int| 0 <= j < i ==> !is_browser((#[trigger] sessions[j]).exe_name)
            },
            None => forall|j: int|
                0 <= j < sessions.len() ==> !is_browser((#[trigger] sessions[j]).exe_name),
        },
{
    let hits = sessions.map_values(|s: SessionView| is_browser(s.exe_name));
    assert(forall|j: int|
        0 <= j < sessions.len() ==> hits[j] == is_browser((#[trigger] sessions[j]).exe_name));
    if exists|j: int| 0 <= j < sessions.len() && is_browser((#[trigger] sessions[j]).exe_name) {
        let j = choose|j: int|
            0 <= j < sessions.len() && is_browser((#[trigger] sessions[j]).exe_name);
        lemma_first_true_some(hits, j);
    } else {
        if first_true(hits) is Some {
            let i = choose|i: int| is_first_true(hits, i);
            assert(is_first_true(hits, i));
            assert(is_browser(sessions[i].exe_name));
        }
    }
}

/// How a session is shown to the user.
pub open spec fn session_label(session: SessionView) -> Seq<char> {
    session.exe_name + " (pid "@ + decimal(session.pid as nat) + ")"@
}

impl AudioSession {
    /// How this session is shown to the user.
    pub fn label(&self) -> (text: String)
        ensures
            text@ == session_label(self@),
    {
        let mut text: String = join3(&self.exe_name, " (pid ", &to_decimal(self.pid as u64));
        text.append(")");
        text
    }
}

/// What sessions stand for is what they hold.
pub proof fn law_sessions_view(sessions: Seq<AudioSession>)
    ensures
        sessions_view(sessions).len() == sessions.len(),
        forall|i: int|
            0 <= i < sessions.len() ==> {
                &&& (#[trigger] sessions_view(sessions)[i]).pid == sessions[i].pid
                &&& sessions_view(sessions)[i].exe_name == sessions[i].exe_name@
                &&& sessions_view(sessions)[i].exe_path == sessions[i].exe_path@
            },
{
}

/// Exactly those processes are listed that have a session which is active and
/// does not play the system's sounds.
pub proof fn law_only_playing_processes(reports: Seq<SessionReport>, pid: u32)
    ensures
        playing_pids(reports).contains(pid) <==> pid != 0 && exists|i: int|
            0 <= i < reports.len() && (#[trigger] reports[i]).active && !reports[i].system_sounds
                && reports[i].pid == Some(pid),
{
    law_each_process_once(reports);
    if playing_pids(reports).contains(pid) {
        let i = choose|i: int|
            0 <= i < reports.len() && is_app(#[trigger] reports[i]) && reports[i].pid->0 == pid;
        assert(reports[i].active);
    }
    if pid != 0 && exists|i: int|
        0 <= i < reports.len() && (#[trigger] reports[i]).active && !reports[i].system_sounds
            && reports[i].pid == Some(pid) {
        let i = choose|i: int|
            0 <= i < reports.len() && (#[trigger] reports[i]).active && !reports[i].system_sounds
                && reports[i].pid == Some(pid);
        assert(is_app(reports[i]));
    }
}

/// Processes are listed in the order of their first report: further reports
/// only add to the end of the list.
pub proof fn law_listed_in_order(reports: Seq<SessionReport>, more: Seq<SessionReport>)
    ensures
        playing_pids(reports).is_prefix_of(playing_pids(reports + more)),
    decreases more.len(),
{
    if more.len() == 0 {
        assert(reports + more =~= reports);
    } else {
        law_listed_in_order(reports, more.drop_last());
        assert((reports + more).drop_last() =~= reports + more.drop_last());
    }
}

/// A session is named after the last component of its program's path; one whose
/// program is not known is called by its number, and has no path.
pub proof fn law_session_names(pid: u32, path: Seq<char>)
    ensures
        session_at(pid, Some(path)).pid == pid,
        session_at(pid, Some(path)).exe_path == path,
        session_at(pid, Some(path)).exe_name == file_name(path),
        session_at(pid, None).pid == pid,
        session_at(pid, None).exe_path.len() == 0,
        session_at(pid, None).exe_name == "<pid "@ + decimal(pid as nat) + ">"@,
{
}

/// The path of a program is what its UTF-16 code units decode to.
pub proof fn law_image_path(image: Option<Vec<u16>>)
    ensures
        image matches Some(units) ==> image_path(image) == Some(utf16_lossy(units@)),
        image is None ==> image_path(image) is None,
{
}

/// Leaving a process out goes session by session: one more session comes last
/// where it is another process's, and changes nothing where it is not.
pub proof fn law_left_out_session_by_session(
    sessions: Seq<SessionView>,
    session: SessionView,
    pid: u32,
)
    ensures
        without_pid(Seq::empty(), pid).len() == 0,
        session.pid != pid ==> without_pid(sessions.push(session), pid) == without_pid(
            sessions,
            pid,
        ).push(session),
        session.pid == pid ==> without_pid(sessions.push(session), pid) == without_pid(
            sessions,
            pid,
        ),
{
    reveal(Seq::filter);
    assert(sessions.push(session).drop_last() =~= sessions);
}

/// The browsers that are known, whatever the case of their names.
pub proof fn law_known_browsers(exe_name: Seq<char>)
    ensures
        known_browsers().len() == 5,
        is_browser(exe_name) <==> {
            ||| same_ignoring_ascii_case(exe_name, "chrome.exe"@)
            ||| same_ignoring_ascii_case(exe_name, "firefox.exe"@)
            ||| same_ignoring_ascii_case(exe_name, "msedge.exe"@)
            ||| same_ignoring_ascii_case(exe_name, "brave.exe"@)
            ||| same_ignoring_ascii_case(exe_name, "opera.exe"@)
        },
{
    let known = known_browsers();
    assert(known[0] == "chrome.exe"@);
    assert(known[1] == "firefox.exe"@);
    assert(known[2] == "msedge.exe"@);
    assert(known[3] == "brave.exe"@);
    assert(known[4] == "opera.exe"@);
}

/// The session that is found for a browser is the first of that name, and the
/// one that is found for a process the first of that process; where none is
/// found there is none.
pub proof fn law_sessions_are_found(sessions: Seq<SessionView>, browser: Seq<char>, pid: u32)
    requires
        sessions.len() <= usize::MAX,
    ensures
        match session_of_browser(sessions, browser) {
            Some(i) => {
                &&& i < sessions.len()
                &&& same_ignoring_ascii_case(sessions[i as int].exe_name, browser)
                &&& forall|j: int|
                    0 <= j < i ==> !same_ignoring_ascii_case(
                        (#[trigger] sessions[j]).exe_name,
                        browser,
                    )
            },
            None => forall|j: int|
                0 <= j < sessions.len() ==> !same_ignoring_ascii_case(
                    (#[trigger] sessions[j]).exe_name,
                    browser,
                ),
        },
        match session_of_pid(sessions, pid) {
            Some(i) => {
                &&& i < sessions.len()
                &&& sessions[i as int].pid == pid
                &&& forall|j: int| 0 <= j < i ==> (#[trigger] sessions[j]).pid != pid
            },
            None => forall|j: int| 0 <= j < sessions.len() ==> (#[trigger] sessions[j]).pid != pid,
        },
{
    let named = sessions.map_values(
        |s: SessionView| same_ignoring_ascii_case(s.exe_name, browser),
    );
    let owned = sessions.map_values(|s: SessionView| s.pid == pid);
    crate::text::law_first_position(named);
    crate::text::law_first_position(owned);
    assert forall|j: int| 0 <= j < sessions.len() implies named[j] == same_ignoring_ascii_case(
        (#[trigger] sessions[j]).exe_name,
        browser,
    ) && owned[j] == (sessions[j].pid == pid) by {}
}

/// A session is shown by its program's name and its process.
pub proof fn law_session_label(session: SessionView)
    ensures
        session_label(session) == session.exe_name + " (pid "@ + decimal(session.pid as nat)
            + ")"@,
{
}

/// What calls on sessions answer: the processes that play, each once; every
/// process described under its own number and by its own program; and every
/// session but this app's own, unchanged.
pub proof fn law_session_calls(
    reports: &[SessionReport],
    playing: Vec<u32>,
    pids: &[u32],
    images: &[Option<Vec<u16>>],
    described: Vec<AudioSession>,
    self_pid: u32,
    sessions: Vec<AudioSession>,
    others: Vec<AudioSession>,
    i: int,
)
    requires
        pids@.len() == images@.len(),
        0 <= i < pids@.len(),
        call_ensures(active_pids, (reports,), playing),
        call_ensures(list_active_render_sessions, (pids, images), described),
        call_ensures(list_audio_sessions, (self_pid, sessions), others),
    ensures
        playing@.no_duplicates(),
        forall|k: int|
            0 <= k < reports@.len() && (#[trigger] reports@[k]).active && !reports@[k].system_sounds
                && reports@[k].pid is Some && reports@[k].pid->0 != 0 ==> playing@.contains(
                reports@[k].pid->0,
            ),
        forall|pid: u32| #[trigger]
            playing@.contains(pid) ==> pid != 0 && exists|k: int|
                0 <= k < reports@.len() && (#[trigger] reports@[k]).active
                    && !reports@[k].system_sounds && reports@[k].pid == Some(pid),
        described@.len() == pids@.len(),
        described@[i].pid == pids@[i],
        images@[i] matches Some(units) ==> described@[i].exe_path@ == utf16_lossy(units@)
            && described@[i].exe_name@ == file_name(utf16_lossy(units@)),
        images@[i] is None ==> described@[i].exe_path@.len() == 0 && described@[i].exe_name@
            == "<pid "@ + decimal(pids@[i] as nat) + ">"@,
        forall|k: int| 0 <= k < others@.len() ==> (#[trigger] others@[k]).pid != self_pid,
        forall|k: int|
            0 <= k < sessions@.len() && (#[trigger] sessions@[k]).pid != self_pid ==> sessions_view(
                others@,
            ).contains(sessions@[k]@),
{
    law_each_process_once(reports@);
    assert forall|k: int|
        0 <= k < reports@.len() && (#[trigger] reports@[k]).active && !reports@[k].system_sounds
            && reports@[k].pid is Some && reports@[k].pid->0 != 0 implies playing@.contains(
        reports@[k].pid->0,
    ) by {
        law_only_playing_processes(reports@, reports@[k].pid->0);
    }
    assert forall|pid: u32| #[trigger] playing@.contains(pid) implies pid != 0 && exists|k: int|
        0 <= k < reports@.len() && (#[trigger] reports@[k]).active && !reports@[k].system_sounds
            && reports@[k].pid == Some(pid) by {
        law_only_playing_processes(reports@, pid);
    }
    let shown = sessions_view(described@);
    assert(shown.len() == pids@.len());
    assert(shown[i] == session_at(pids@[i], image_path(images@[i])));
    assert(shown[i] == described@[i]@);
    law_own_process_is_left_out(sessions_view(sessions@), self_pid);
    assert forall|k: int| 0 <= k < others@.len() implies (#[trigger] others@[k]).pid != self_pid by {
        assert(sessions_view(others@)[k].pid != self_pid);
    }
    assert forall|k: int|
        0 <= k < sessions@.len() && (#[trigger] sessions@[k]).pid != self_pid implies sessions_view(
        others@,
    ).contains(sessions@[k]@) by {
        assert(sessions_view(sessions@)[k].pid != self_pid);
    }
}

} // verus!
