//! The state of the app and everything that changes it.
//!
//! Audio devices, the system's routing service and the window are outside of
//! this library. What they report comes in as plain values, and what is to be
//! done about it goes out as plain values.
use crate::dsp::ChannelMode;
use crate::handles::{ModeHandle, MuteHandle};
use crate::routing::{EndpointOverride, OverrideView};
use crate::selection::{mode_of, ChannelSelection};
use crate::sessions::{sessions_view, AudioSession, SessionView};
use crate::text::{all_chars, all_opt_chars, join2, opt_chars};
use std::collections::VecDeque;
use vstd::prelude::*;

verus! {

/// How many recent lines the developer console keeps before dropping the
/// oldest -- unbounded growth over a long-running session isn't worth it.
pub const DEV_LOG_MAX_LINES: usize = 200;

/// Which frame of the settings window's life to un-hide it on, once its
/// requested size and position have actually been applied by the OS.
pub const REVEAL_FRAME: u32 = 3;

/// The app most recently routed to the virtual cable, and what its audio
/// routing looked like before we touched it -- so it can be put back the way
/// it was when the user picks a different app or closes this app.
pub struct ActiveRoute {
    pub pid: u32,
    pub exe_name: String,
    pub original: EndpointOverride,
}

/// What an `ActiveRoute` stands for.
#[verifier::ext_equal]
pub struct RouteView {
    pub pid: u32,
    pub exe_name: Seq<char>,
    pub original: OverrideView,
}

impl View for ActiveRoute {
    type V = RouteView;

    open spec fn view(&self) -> RouteView {
        RouteView { pid: self.pid, exe_name: self.exe_name@, original: self.original@ }
    }
}

/// The state of the app.
pub struct App {
    /// Names of the capture devices; `None` where a name could not be read.
    pub inputs: Vec<Option<String>>,
    /// Names of the playback devices; `None` where a name could not be read.
    pub outputs: Vec<Option<String>>,
    pub selected_input: Option<usize>,
    pub selected_output: Option<usize>,
    pub channel: ChannelSelection,
    pub mirror: bool,
    pub mode_handle: ModeHandle,
    pub muted: bool,
    pub mute_handle: MuteHandle,
    pub engine_running: bool,
    pub error: Option<String>,
    pub audio_sessions: Vec<AudioSession>,
    pub selected_session: Option<usize>,
    pub route_status: Option<String>,
    pub pending_route: Option<usize>,
    pub active_route: Option<ActiveRoute>,
    pub show_settings: bool,
    pub settings_frames: u32,
    pub show_vb_cable_warning: bool,
    pub dev_console: bool,
    pub dev_log: VecDeque<String>,
    /// Log lines that are still to be printed to the terminal.
    pub echo: Vec<String>,
    pub simple_browser_selection: bool,
}

/// What an `App` stands for.
#[verifier::ext_equal]
pub struct AppView {
    pub inputs: Seq<Option<Seq<char>>>,
    pub outputs: Seq<Option<Seq<char>>>,
    pub selected_input: Option<usize>,
    pub selected_output: Option<usize>,
    pub channel: ChannelSelection,
    pub mirror: bool,
    pub mode_handle: ModeHandle,
    pub muted: bool,
    pub mute_handle: MuteHandle,
    pub engine_running: bool,
    pub error: Option<Seq<char>>,
    pub audio_sessions: Seq<SessionView>,
    pub selected_session: Option<usize>,
    pub route_status: Option<Seq<char>>,
    pub pending_route: Option<usize>,
    pub active_route: Option<RouteView>,
    pub show_settings: bool,
    pub settings_frames: u32,
    pub show_vb_cable_warning: bool,
    pub dev_console: bool,
    pub dev_log: Seq<Seq<char>>,
    pub echo: Seq<Seq<char>>,
    pub simple_browser_selection: bool,
}

impl View for App {
    type V = AppView;

    open spec fn view(&self) -> AppView {
        AppView {
            inputs: all_opt_chars(self.inputs@),
            outputs: all_opt_chars(self.outputs@),
            selected_input: self.selected_input,
            selected_output: self.selected_output,
            channel: self.channel,
            mirror: self.mirror,
            mode_handle: self.mode_handle,
            muted: self.muted,
            mute_handle: self.mute_handle,
            engine_running: self.engine_running,
            error: opt_chars(self.error),
            audio_sessions: sessions_view(self.audio_sessions@),
            selected_session: self.selected_session,
            route_status: opt_chars(self.route_status),
            pending_route: self.pending_route,
            active_route: match self.active_route {
                Some(route) => Some(route@),
                None => None,
            },
            show_settings: self.show_settings,
            settings_frames: self.settings_frames,
            show_vb_cable_warning: self.show_vb_cable_warning,
            dev_console: self.dev_console,
            dev_log: all_chars(self.dev_log@),
            echo: all_chars(self.echo@),
            simple_browser_selection: self.simple_browser_selection,
        }
    }
}

impl AppView {
    /// With one more log line: the console shows it and drops its oldest line
    /// where it has too many, and it is to be printed.
    pub open spec fn logged(self, msg: Seq<char>) -> AppView {
        let lines = self.dev_log.push(msg);
        AppView {
            dev_log: if lines.len() > DEV_LOG_MAX_LINES {
                lines.drop_first()
            } else {
                lines
            },
            echo: self.echo.push(msg),
            ..self
        }
    }

    /// With an error shown, and logged.
    pub open spec fn failed(self, msg: Seq<char>) -> AppView {
        AppView { error: Some(msg), ..self.logged("error: "@ + msg) }
    }

    /// With a routing status shown, and logged.
    pub open spec fn reported(self, msg: Seq<char>) -> AppView {
        AppView { route_status: Some(msg), ..self.logged(msg) }
    }

    /// The mode that the controls stand for.
    pub open spec fn mode(self) -> ChannelMode {
        mode_of(self.channel, self.mirror)
    }

    /// The audio callbacks may find in the handles what the panel shows.
    pub open spec fn in_step(self) -> bool {
        &&& self.mode_handle.may_show(self.mode())
        &&& self.mute_handle.may_show(self.muted)
    }
}

impl App {
    /// Appends a line to the developer console, dropping the oldest once it
    /// grows past `DEV_LOG_MAX_LINES`. Also put down for printing, so it's
    /// still visible when run from a terminal with the console hidden.
    pub fn log(&mut self, msg: String)
        ensures
            final(self)@ == old(self)@.logged(msg@),
    {
        let ghost before = self@;
        let line: String = msg.clone();
        self.echo.push(line);
        self.dev_log.push_back(msg);
        proof {
            assert(all_chars(self.echo@) =~= before.echo.push(msg@));
            assert(all_chars(self.dev_log@) =~= before.dev_log.push(msg@));
        }
        let ghost lines = self.dev_log@;
        if self.dev_log.len() > DEV_LOG_MAX_LINES {
            let _ = self.dev_log.pop_front();
            assert(all_chars(self.dev_log@) =~= all_chars(lines).drop_first());
        }
        assert(self@ =~= before.logged(msg@));
    }

    /// Shows an error, and logs it.
    pub fn set_error(&mut self, msg: String)
        ensures
            final(self)@ == old(self)@.failed(msg@),
    {
        self.log(join2("error: ", &msg));
        self.error = Some(msg);
    }

    /// Shows a routing status, and logs it.
    pub fn set_status(&mut self, msg: String)
        ensures
            final(self)@ == old(self)@.reported(msg@),
    {
        self.log(msg.clone());
        self.route_status = Some(msg);
    }
}

impl AppView {
    /// With a row of log lines.
    pub open spec fn logged_all(self, msgs: Seq<Seq<char>>) -> AppView
        decreases msgs.len(),
    {
        if msgs.len() == 0 {
            self
        } else {
            self.logged_all(msgs.drop_last()).logged(msgs.last())
        }
    }

    /// The console is no longer than it may be, and the settings window's
    /// frames are counted no further than they matter.
    pub open spec fn wf(self) -> bool {
        &&& self.dev_log.len() <= DEV_LOG_MAX_LINES
        &&& self.settings_frames <= REVEAL_FRAME
    }
}

/// The console shows the latest lines, as many as it may, in order, and every
/// line gets printed.
pub proof fn law_console_shows_the_latest(app: AppView, msgs: Seq<Seq<char>>)
    requires
        app.wf(),
    ensures
        ({
            let all = app.dev_log + msgs;
            let kept = if all.len() > DEV_LOG_MAX_LINES {
                DEV_LOG_MAX_LINES as int
            } else {
                all.len() as int
            };
            &&& app.logged_all(msgs).dev_log == all.skip(all.len() - kept)
            &&& app.logged_all(msgs).echo == app.echo + msgs
        }),
    decreases msgs.len(),
{
    let all = app.dev_log + msgs;
    if msgs.len() == 0 {
        assert(all =~= app.dev_log);
        assert(all.skip(0) =~= all);
        assert(app.echo + msgs =~= app.echo);
    } else {
        law_console_shows_the_latest(app, msgs.drop_last());
        let before = app.logged_all(msgs.drop_last());
        let earlier = app.dev_log + msgs.drop_last();
        assert(all =~= earlier.push(msgs.last()));
        let kept = if all.len() > DEV_LOG_MAX_LINES {
            DEV_LOG_MAX_LINES as int
        } else {
            all.len() as int
        };
        assert(before.logged(msgs.last()).dev_log =~= all.skip(all.len() - kept));
        assert(before.logged(msgs.last()).echo =~= app.echo + msgs);
    }
}

/// What an app stands for is what its fields hold, each one of them.
pub proof fn law_view_shows_every_field(app: App)
    ensures
        app@.inputs.len() == app.inputs@.len(),
        forall|i: int|
            0 <= i < app.inputs@.len() ==> #[trigger] app@.inputs[i] == (match app.inputs@[i] {
                Some(name) => Some(name@),
                None => None,
            }),
        app@.outputs.len() == app.outputs@.len(),
        forall|i: int|
            0 <= i < app.outputs@.len() ==> #[trigger] app@.outputs[i] == (match app.outputs@[i] {
                Some(name) => Some(name@),
                None => None,
            }),
        app@.selected_input == app.selected_input,
        app@.selected_output == app.selected_output,
        app@.channel == app.channel,
        app@.mirror == app.mirror,
        app@.mode_handle == app.mode_handle,
        app@.muted == app.muted,
        app@.mute_handle == app.mute_handle,
        app@.engine_running == app.engine_running,
        app.error matches Some(e) ==> app@.error == Some(e@),
        app.error is None ==> app@.error is None,
        app@.audio_sessions.len() == app.audio_sessions@.len(),
        forall|i: int|
            0 <= i < app.audio_sessions@.len() ==> {
                let session = #[trigger] app@.audio_sessions[i];
                &&& session.pid == app.audio_sessions@[i].pid
                &&& session.exe_name == app.audio_sessions@[i].exe_name@
                &&& session.exe_path == app.audio_sessions@[i].exe_path@
            },
        app@.selected_session == app.selected_session,
        app.route_status matches Some(s) ==> app@.route_status == Some(s@),
        app.route_status is None ==> app@.route_status is None,
        app@.pending_route == app.pending_route,
        app.active_route is None ==> app@.active_route is None,
        app.active_route matches Some(r) ==> {
            &&& app@.active_route is Some
            &&& app@.active_route->0.pid == r.pid
            &&& app@.active_route->0.exe_name == r.exe_name@
            &&& app@.active_route->0.original == r.original@
        },
        app@.show_settings == app.show_settings,
        app@.settings_frames == app.settings_frames,
        app@.show_vb_cable_warning == app.show_vb_cable_warning,
        app@.dev_console == app.dev_console,
        app@.dev_log.len() == app.dev_log@.len(),
        forall|i: int|
            0 <= i < app.dev_log@.len() ==> #[trigger] app@.dev_log[i] == app.dev_log@[i]@,
        app@.echo.len() == app.echo@.len(),
        forall|i: int| 0 <= i < app.echo@.len() ==> #[trigger] app@.echo[i] == app.echo@[i]@,
        app@.simple_browser_selection == app.simple_browser_selection,
{
}

/// A log line goes to the end of the console and of what is to be printed. The
/// console never holds more than 200 lines, drops its oldest one only where it
/// would, and nothing else changes.
pub proof fn law_log_line_is_appended(app: AppView, msg: Seq<char>)
    ensures
        ({
            let after = app.logged(msg);
            &&& after.dev_log.len() >= 1 && after.dev_log.last() == msg
            &&& app.dev_log.len() < 200 ==> after.dev_log.drop_last() == app.dev_log
            &&& app.dev_log.len() >= 200 ==> after.dev_log.drop_last() == app.dev_log.drop_first()
            &&& after.echo == app.echo.push(msg)
            &&& (AppView { dev_log: app.dev_log, echo: app.echo, ..after }) == app
        }),
{
    let after = app.logged(msg);
    if app.dev_log.len() < 200 {
        assert(after.dev_log.drop_last() =~= app.dev_log);
    } else {
        assert(after.dev_log.drop_last() =~= app.dev_log.drop_first());
    }
}

/// An error is shown as it is told and logged as an error; a status is shown
/// and logged as it is told. Neither touches anything else.
pub proof fn law_errors_and_statuses(app: AppView, msg: Seq<char>)
    ensures
        app.failed(msg).error == Some(msg),
        (AppView { error: app.error, ..app.failed(msg) }) == app.logged("error: "@ + msg),
        app.reported(msg).route_status == Some(msg),
        (AppView { route_status: app.route_status, ..app.reported(msg) }) == app.logged(msg),
{
}

/// The mode of the app is the one of its two controls, and panel and handles
/// are in step only where the handles may show it and the mute switch.
pub proof fn law_mode_follows_the_controls(app: AppView)
    ensures
        app.channel == ChannelSelection::Both ==> app.mode() == ChannelMode::Both,
        app.channel == ChannelSelection::Left ==> app.mode() == (ChannelMode::Left {
            mirror: app.mirror,
        }),
        app.channel == ChannelSelection::Right ==> app.mode() == (ChannelMode::Right {
            mirror: app.mirror,
        }),
        app.in_step() ==> app.mode_handle.may_show(app.mode()) && app.mute_handle.may_show(
            app.muted,
        ),
        app.wf() ==> app.dev_log.len() <= 200 && app.settings_frames <= 3,
{
}

/// What calls that log leave: the line comes last in the console and in what is
/// to be printed; an error and a status are shown as told; and nothing is
/// selected, queued or switched by any of them.
pub proof fn law_log_calls(log_app: &mut App, error_app: &mut App, status_app: &mut App, msg: String)
    requires
        call_ensures(App::log, (log_app, msg), ()),
        call_ensures(App::set_error, (error_app, msg), ()),
        call_ensures(App::set_status, (status_app, msg), ()),
    ensures
        final(log_app)@.dev_log.last() == msg@,
        final(log_app)@.echo == old(log_app)@.echo.push(msg@),
        final(log_app)@.error == old(log_app)@.error,
        final(log_app)@.route_status == old(log_app)@.route_status,
        final(log_app).pending_route == old(log_app).pending_route,
        final(error_app)@.error == Some(msg@),
        final(error_app)@.echo == old(error_app)@.echo.push("error: "@ + msg@),
        final(error_app)@.route_status == old(error_app)@.route_status,
        final(error_app).pending_route == old(error_app).pending_route,
        final(status_app)@.route_status == Some(msg@),
        final(status_app)@.echo == old(status_app)@.echo.push(msg@),
        final(status_app)@.error == old(status_app)@.error,
        final(status_app).pending_route == old(status_app).pending_route,
{
    law_view_shows_every_field(*old(log_app));
    law_view_shows_every_field(*final(log_app));
    law_view_shows_every_field(*old(error_app));
    law_view_shows_every_field(*final(error_app));
    law_view_shows_every_field(*old(status_app));
    law_view_shows_every_field(*final(status_app));
    law_log_line_is_appended(old(log_app)@, msg@);
    law_log_line_is_appended(old(error_app)@, "error: "@ + msg@);
    law_log_line_is_appended(old(status_app)@, msg@);
    law_errors_and_statuses(old(error_app)@, msg@);
    law_errors_and_statuses(old(status_app)@, msg@);
}

} // verus!
