//! What the user does in the window, and what follows from it.
use crate::app::{law_view_shows_every_field, App, AppView, REVEAL_FRAME};
use crate::dsp::ChannelMode;
use crate::routes::{ActionView, TargetView};
use crate::selection::{effective_mode, ChannelSelection};
use crate::sessions::{
    find_session_by_pid, law_sessions_are_found, list_audio_sessions, session_of_pid,
    sessions_view, without_pid, AudioSession, SessionView,
};
use crate::text::{
    decimal, first_true, is_first_true, join2, join3, lemma_first_true_some, to_decimal,
};
use vstd::prelude::*;

verus! {

/// Something that happened in the window or was noticed there.
pub enum UiEvent {
    /// The settings button was pressed.
    ToggleSettings,
    /// The settings window was asked to close.
    CloseSettings,
    /// A frame of the settings window was shown.
    SettingsFrame,
    /// The icon of a browser that plays as this session was pressed.
    PickBrowser(usize),
    /// This session was picked from the list.
    PickSession(usize),
    /// The sessions were listed again, or could not be; `self_pid` is this
    /// app's own process.
    SessionsListed { self_pid: u32, listed: Result<Vec<AudioSession>, String> },
    /// A channel was picked.
    PickChannel(ChannelSelection),
    /// The mirror switch was put on or off.
    PickMirror(bool),
    /// The mute switch was put on or off.
    PickMute(bool),
    /// The engine reported an error, e.g. a device was unplugged mid-stream.
    StreamError(String),
    /// The warning about the missing virtual cable was confirmed.
    DismissCableWarning,
    /// A capture device was picked.
    PickInput(usize),
    /// A playback device was picked.
    PickOutput(usize),
    /// The switch for simple browser selection was put on or off.
    PickSimpleBrowserSelection(bool),
    /// The switch for the developer console was put on or off.
    PickDevConsole(bool),
}

/// What a `UiEvent` stands for.
#[verifier::ext_equal]
pub enum EventView {
    ToggleSettings,
    CloseSettings,
    SettingsFrame,
    PickBrowser(usize),
    PickSession(usize),
    SessionsListed { self_pid: u32, listed: Result<Seq<SessionView>, Seq<char>> },
    PickChannel(ChannelSelection),
    PickMirror(bool),
    PickMute(bool),
    StreamError(Seq<char>),
    DismissCableWarning,
    PickInput(usize),
    PickOutput(usize),
    PickSimpleBrowserSelection(bool),
    PickDevConsole(bool),
}

impl View for UiEvent {
    type V = EventView;

    open spec fn view(&self) -> EventView {
        match *self {
            UiEvent::ToggleSettings => EventView::ToggleSettings,
            UiEvent::CloseSettings => EventView::CloseSettings,
            UiEvent::SettingsFrame => EventView::SettingsFrame,
            UiEvent::PickBrowser(i) => EventView::PickBrowser(i),
            UiEvent::PickSession(i) => EventView::PickSession(i),
            UiEvent::SessionsListed { self_pid, listed } => EventView::SessionsListed {
                self_pid,
                listed: listed_view(listed),
            },
            UiEvent::PickChannel(sel) => EventView::PickChannel(sel),
            UiEvent::PickMirror(mirror) => EventView::PickMirror(mirror),
            UiEvent::PickMute(muted) => EventView::PickMute(muted),
            UiEvent::StreamError(e) => EventView::StreamError(e@),
            UiEvent::DismissCableWarning => EventView::DismissCableWarning,
            UiEvent::PickInput(i) => EventView::PickInput(i),
            UiEvent::PickOutput(i) => EventView::PickOutput(i),
            UiEvent::PickSimpleBrowserSelection(on) => EventView::PickSimpleBrowserSelection(on),
            UiEvent::PickDevConsole(on) => EventView::PickDevConsole(on),
        }
    }
}

/// What a list of sessions, or the failure to get one, stands for.
pub open spec fn listed_view(listed: Result<Vec<AudioSession>, String>) -> Result<
    Seq<SessionView>,
    Seq<char>,
> {
    match listed {
        Ok(sessions) => Ok(sessions_view(sessions@)),
        Err(e) => Err(e@),
    }
}

/// What has to follow an event.
#[derive(Debug, Clone, Copy, PartialEq, Eq, Structural)]
pub enum Effect {
    Nothing,
    /// Paint another frame soon.
    Repaint,
    /// Save the settings.
    SaveConfig,
    /// Restart the engine, which saves the settings too.
    RestartEngine,
}

/// The error when nothing plays.
pub open spec fn nothing_plays_error() -> Seq<char> {
    "No apps are currently playing audio. Start playback in your browser tab, then refresh again."@
}

impl AppView {
    /// The process whose session is selected.
    pub open spec fn selected_pid(self) -> Option<u32> {
        if self.selected_session is Some && self.selected_session->0 < self.audio_sessions.len() {
            Some(self.audio_sessions[self.selected_session->0 as int].pid)
        } else {
            None
        }
    }

    /// With a session queued for routing, and what was shown of the last
    /// routing cleared.
    pub open spec fn queued(self, session: usize) -> AppView {
        AppView { route_status: None, error: None, pending_route: Some(session), ..self }
    }

    /// Where the selected process is found in a new list. Re-detecting
    /// shouldn't drop the current selection out from under the user if that
    /// process is still there -- only its index into the (freshly rebuilt)
    /// list changes.
    pub open spec fn selection_in(self, sessions: Seq<SessionView>) -> Option<usize> {
        match self.selected_pid() {
            Some(pid) => session_of_pid(sessions, pid),
            None => None,
        }
    }

    /// With a new list of sessions.
    pub open spec fn relisted(self, self_pid: u32, sessions: Seq<SessionView>) -> AppView {
        let others = without_pid(sessions, self_pid);
        let counted = AppView {
            error: None,
            ..self.logged("detecting active audio sessions..."@)
        }.logged("found "@ + decimal(others.len()) + " active audio session(s)"@);
        let told = if others.len() == 0 {
            counted.failed(nothing_plays_error())
        } else {
            counted
        };
        let selected = self.selection_in(others);
        AppView {
            audio_sessions: others,
            selected_session: selected,
            route_status: if selected is None {
                None
            } else {
                self.route_status
            },
            ..told
        }
    }

    /// The state after an event.
    pub open spec fn after(self, event: EventView) -> AppView {
        match event {
            EventView::ToggleSettings => AppView {
                show_settings: !self.show_settings,
                settings_frames: if self.show_settings {
                    self.settings_frames
                } else {
                    0
                },
                ..self
            },
            EventView::CloseSettings => AppView { show_settings: false, ..self },
            EventView::SettingsFrame => if self.settings_frames < REVEAL_FRAME {
                AppView { settings_frames: (self.settings_frames + 1) as u32, ..self }
            } else {
                self
            },
            EventView::PickBrowser(i) | EventView::PickSession(i) => if self.selected_session == Some(i) {
                self
            } else {
                AppView { selected_session: Some(i), ..self.queued(i) }
            },
            EventView::SessionsListed { self_pid, listed } => match listed {
                Ok(sessions) => self.relisted(self_pid, sessions),
                Err(e) => self.logged("detecting active audio sessions..."@).failed(
                    "Couldn't detect apps: "@ + e,
                ),
            },
            EventView::PickChannel(sel) => AppView { channel: sel, ..self },
            EventView::PickMirror(mirror) => if self.channel == ChannelSelection::Both {
                self
            } else {
                AppView { mirror, ..self }
            },
            EventView::PickMute(muted) => AppView { muted, ..self },
            EventView::StreamError(e) => if self.engine_running {
                AppView { engine_running: false, ..self.failed(e) }
            } else {
                self
            },
            EventView::DismissCableWarning => AppView { show_vb_cable_warning: false, ..self },
            EventView::PickInput(i) => AppView { selected_input: Some(i), ..self },
            EventView::PickOutput(i) => AppView { selected_output: Some(i), ..self },
            EventView::PickSimpleBrowserSelection(on) => AppView {
                simple_browser_selection: on,
                ..self
            },
            EventView::PickDevConsole(on) => AppView { dev_console: on, ..self },
        }
    }

    /// What has to follow an event. A control that is put where it already
    /// stands has no effect.
    pub open spec fn effect_of(self, event: EventView) -> Effect {
        match event {
            EventView::SettingsFrame => if self.settings_frames < REVEAL_FRAME {
                Effect::Repaint
            } else {
                Effect::Nothing
            },
            EventView::PickBrowser(i) | EventView::PickSession(i) => if self.selected_session
                != Some(i) {
                Effect::Repaint
            } else {
                Effect::Nothing
            },
            EventView::PickChannel(sel) => save_if(sel != self.channel),
            EventView::PickMirror(mirror) => save_if(
                self.channel != ChannelSelection::Both && mirror != self.mirror,
            ),
            EventView::PickMute(muted) => save_if(muted != self.muted),
            EventView::PickSimpleBrowserSelection(on) => save_if(
                on != self.simple_browser_selection,
            ),
            EventView::PickDevConsole(on) => save_if(on != self.dev_console),
            EventView::PickInput(i) => restart_if(self.selected_input != Some(i)),
            EventView::PickOutput(i) => restart_if(self.selected_output != Some(i)),
            _ => Effect::Nothing,
        }
    }
}

/// The settings are saved where they changed.
pub open spec fn save_if(changed: bool) -> Effect {
    if changed {
        Effect::SaveConfig
    } else {
        Effect::Nothing
    }
}

/// The engine is restarted where a device changed.
pub open spec fn restart_if(changed: bool) -> Effect {
    if changed {
        Effect::RestartEngine
    } else {
        Effect::Nothing
    }
}

impl App {
    /// The process whose session is selected.
    fn current_pid(&self) -> (pid: Option<u32>)
        ensures
            pid == self@.selected_pid(),
    {
        match self.selected_session {
            Some(i) => if i < self.audio_sessions.len() {
                Some(self.audio_sessions[i].pid)
            } else {
                None
            },
            None => None,
        }
    }

    /// Queues a session for routing.
    fn queue(&mut self, session: usize)
        ensures
            final(self)@ == old(self)@.queued(session),
    {
        self.route_status = None;
        self.error = None;
        self.pending_route = Some(session);
    }

    /// Takes a new list of sessions over.
    fn relist(&mut self, self_pid: u32, listed: Result<Vec<AudioSession>, String>)
        ensures
            final(self)@ == old(self)@.after(
                EventView::SessionsListed { self_pid, listed: listed_view(listed) },
            ),
    {
        self.log("detecting active audio sessions...".to_owned());
        let selected_pid: Option<u32> = self.current_pid();
        match listed {
            Ok(sessions) => {
                let others: Vec<AudioSession> = list_audio_sessions(self_pid, sessions);
                self.error = None;
                self.log(
                    join3(
                        "found ",
                        &to_decimal(others.len() as u64),
                        " active audio session(s)",
                    ),
                );
                if others.len() == 0 {
                    self.set_error(
                        "No apps are currently playing audio. Start playback in your browser tab, then refresh again.".to_owned(),
                    );
                }
                let selected: Option<usize> = match selected_pid {
                    Some(pid) => find_session_by_pid(&others, pid),
                    None => None,
                };
                self.audio_sessions = others;
                self.selected_session = selected;
                if selected.is_none() {
                    self.route_status = None;
                }
            },
            Err(e) => self.set_error(join2("Couldn't detect apps: ", &e)),
        }
    }

    fn toggle_settings(&mut self) -> (effect: Effect)
        ensures
            final(self)@ == old(self)@.after(EventView::ToggleSettings),
            effect == old(self)@.effect_of(EventView::ToggleSettings),
    {
        self.show_settings = !self.show_settings;
        if self.show_settings {
            self.settings_frames = 0;
        }
        Effect::Nothing
    }

    fn settings_frame(&mut self) -> (effect: Effect)
        ensures
            final(self)@ == old(self)@.after(EventView::SettingsFrame),
            effect == old(self)@.effect_of(EventView::SettingsFrame),
    {
        if self.settings_frames < REVEAL_FRAME {
            self.settings_frames = self.settings_frames + 1;
            Effect::Repaint
        } else {
            Effect::Nothing
        }
    }

    fn pick_session(&mut self, i: usize) -> (effect: Effect)
        ensures
            final(self)@ == old(self)@.after(EventView::PickSession(i)),
            effect == old(self)@.effect_of(EventView::PickSession(i)),
    {
        if self.is_selected(i) {
            Effect::Nothing
        } else {
            self.selected_session = Some(i);
            self.queue(i);
            Effect::Repaint
        }
    }

    fn pick_channel(&mut self, sel: ChannelSelection) -> (effect: Effect)
        ensures
            final(self)@ == old(self)@.after(EventView::PickChannel(sel)),
            effect == old(self)@.effect_of(EventView::PickChannel(sel)),
            effect == Effect::SaveConfig ==> final(self).mode_handle.may_show(
                final(self)@.mode(),
            ),
    {
        if self.channel == sel {
            Effect::Nothing
        } else {
            self.channel = sel;
            self.mode_handle.set(effective_mode(self.channel, self.mirror));
            Effect::SaveConfig
        }
    }

    fn pick_mirror(&mut self, mirror: bool) -> (effect: Effect)
        ensures
            final(self)@ == old(self)@.after(EventView::PickMirror(mirror)),
            effect == old(self)@.effect_of(EventView::PickMirror(mirror)),
            effect == Effect::SaveConfig ==> final(self).mode_handle.may_show(
                final(self)@.mode(),
            ),
    {
        if self.channel == ChannelSelection::Both || self.mirror == mirror {
            Effect::Nothing
        } else {
            self.mirror = mirror;
            self.mode_handle.set(effective_mode(self.channel, self.mirror));
            Effect::SaveConfig
        }
    }

    fn pick_mute(&mut self, muted: bool) -> (effect: Effect)
        ensures
            final(self)@ == old(self)@.after(EventView::PickMute(muted)),
            effect == old(self)@.effect_of(EventView::PickMute(muted)),
            effect == Effect::SaveConfig ==> final(self).mute_handle.may_show(
                final(self).muted,
            ),
    {
        if self.muted == muted {
            Effect::Nothing
        } else {
            self.muted = muted;
            self.mute_handle.set(self.muted);
            Effect::SaveConfig
        }
    }

    fn stream_error(&mut self, e: String) -> (effect: Effect)
        ensures
            final(self)@ == old(self)@.after(EventView::StreamError(e@)),
            effect == old(self)@.effect_of(EventView::StreamError(e@)),
    {
        if self.engine_running {
            self.set_error(e);
            self.engine_running = false;
        }
        Effect::Nothing
    }

    fn pick_input(&mut self, i: usize) -> (effect: Effect)
        ensures
            final(self)@ == old(self)@.after(EventView::PickInput(i)),
            effect == old(self)@.effect_of(EventView::PickInput(i)),
    {
        if is_at(self.selected_input, i) {
            Effect::Nothing
        } else {
            self.selected_input = Some(i);
            Effect::RestartEngine
        }
    }

    fn pick_output(&mut self, i: usize) -> (effect: Effect)
        ensures
            final(self)@ == old(self)@.after(EventView::PickOutput(i)),
            effect == old(self)@.effect_of(EventView::PickOutput(i)),
    {
        if is_at(self.selected_output, i) {
            Effect::Nothing
        } else {
            self.selected_output = Some(i);
            Effect::RestartEngine
        }
    }

    fn pick_simple_browser_selection(&mut self, on: bool) -> (effect: Effect)
        ensures
            final(self)@ == old(self)@.after(EventView::PickSimpleBrowserSelection(on)),
            effect == old(self)@.effect_of(EventView::PickSimpleBrowserSelection(on)),
    {
        if self.simple_browser_selection == on {
            Effect::Nothing
        } else {
            self.simple_browser_selection = on;
            Effect::SaveConfig
        }
    }

    fn pick_dev_console(&mut self, on: bool) -> (effect: Effect)
        ensures
            final(self)@ == old(self)@.after(EventView::PickDevConsole(on)),
            effect == old(self)@.effect_of(EventView::PickDevConsole(on)),
    {
        if self.dev_console == on {
            Effect::Nothing
        } else {
            self.dev_console = on;
            Effect::SaveConfig
        }
    }

    /// Makes the change that an event stands for.
    fn take_in(&mut self, event: UiEvent) -> (effect: Effect)
        ensures
            final(self)@ == old(self)@.after(event@),
            effect == old(self)@.effect_of(event@),
            (event is PickChannel || event is PickMirror) && effect == Effect::SaveConfig
                ==> final(self).mode_handle.may_show(final(self)@.mode()),
            event is PickMute && effect == Effect::SaveConfig
                ==> final(self).mute_handle.may_show(final(self).muted),
    {
        match event {
            UiEvent::ToggleSettings => self.toggle_settings(),
            UiEvent::CloseSettings => {
                self.show_settings = false;
                Effect::Nothing
            },
            UiEvent::SettingsFrame => self.settings_frame(),
            UiEvent::PickBrowser(i) | UiEvent::PickSession(i) => self.pick_session(i),
            UiEvent::SessionsListed { self_pid, listed } => {
                self.relist(self_pid, listed);
                Effect::Nothing
            },
            UiEvent::PickChannel(sel) => self.pick_channel(sel),
            UiEvent::PickMirror(mirror) => self.pick_mirror(mirror),
            UiEvent::PickMute(muted) => self.pick_mute(muted),
            UiEvent::StreamError(e) => self.stream_error(e),
            UiEvent::DismissCableWarning => {
                self.show_vb_cable_warning = false;
                Effect::Nothing
            },
            UiEvent::PickInput(i) => self.pick_input(i),
            UiEvent::PickOutput(i) => self.pick_output(i),
            UiEvent::PickSimpleBrowserSelection(on) => self.pick_simple_browser_selection(on),
            UiEvent::PickDevConsole(on) => self.pick_dev_console(on),
        }
    }

    /// Takes an event in and tells what has to follow. A changed mode or mute
    /// switch reaches the audio callbacks at once, so that what the panel shows
    /// stays what they may apply.
    pub fn update(&mut self, event: UiEvent) -> (effect: Effect)
        ensures
            final(self)@ == old(self)@.after(event@),
            effect == old(self)@.effect_of(event@),
            (event is PickChannel || event is PickMirror) && effect == Effect::SaveConfig
                ==> final(self).mode_handle.may_show(final(self)@.mode()),
            event is PickMute && effect == Effect::SaveConfig
                ==> final(self).mute_handle.may_show(final(self).muted),
            old(self)@.in_step() ==> final(self)@.in_step(),
    {
        let ghost before = self@;
        let ghost noted = event@;
        let effect: Effect = self.take_in(event);
        proof {
            lemma_handles_stay(before, noted);
            if before.in_step() {
                lemma_stays_in_step(before, noted);
            }
        }
        effect
    }

    /// Whether this session is the selected one.
    fn is_selected(&self, session: usize) -> (selected: bool)
        ensures
            selected == (self.selected_session == Some(session)),
    {
        is_at(self.selected_session, session)
    }
}

/// Whether the selection is at this position.
fn is_at(selected: Option<usize>, i: usize) -> (at: bool)
    ensures
        at == (selected == Some(i)),
{
    match selected {
        Some(selected) => selected == i,
        None => false,
    }
}

/// No event exchanges the handles.
proof fn lemma_handles_stay(app: AppView, event: EventView)
    ensures
        app.after(event).mode_handle == app.mode_handle,
        app.after(event).mute_handle == app.mute_handle,
{
}

/// Where a changed control is set in its handle, panel and handles stay in
/// step.
proof fn lemma_stays_in_step(app: AppView, event: EventView)
    requires
        app.in_step(),
        (event is PickChannel || event is PickMirror) && app.effect_of(event) == Effect::SaveConfig
            ==> app.mode_handle.may_show(app.after(event).mode()),
        event is PickMute && app.effect_of(event) == Effect::SaveConfig
            ==> app.mute_handle.may_show(app.after(event).muted),
    ensures
        app.after(event).in_step(),
{
}

/// Whatever happens in the window, the console stays within its bound and the
/// settings window's frames are counted no further than they matter.
pub proof fn law_update_keeps_bounds(app: AppView, event: EventView)
    requires
        app.wf(),
    ensures
        app.after(event).wf(),
{
}

/// Listing the sessions again keeps the selection: where the selected process
/// still plays, it is the one that is selected afterwards, and the routing
/// status stays; where it does not, nothing is selected and no status is
/// shown.
pub proof fn law_relisting_keeps_the_selection(
    app: AppView,
    self_pid: u32,
    sessions: Seq<SessionView>,
    pid: u32,
)
    requires
        app.selected_pid() == Some(pid),
        without_pid(sessions, self_pid).len() <= usize::MAX,
    ensures
        ({
            let others = without_pid(sessions, self_pid);
            let after = app.after(EventView::SessionsListed { self_pid, listed: Ok(sessions) });
            if exists|i: int| 0 <= i < others.len() && (#[trigger] others[i]).pid == pid {
                &&& after.selected_pid() == Some(pid)
                &&& after.route_status == app.route_status
            } else {
                &&& after.selected_session is None
                &&& after.route_status is None
            }
        }),
{
    let others = without_pid(sessions, self_pid);
    let hits = others.map_values(|s: SessionView| s.pid == pid);
    if exists|i: int| 0 <= i < others.len() && (#[trigger] others[i]).pid == pid {
        let i = choose|i: int| 0 <= i < others.len() && (#[trigger] others[i]).pid == pid;
        assert(hits[i]);
        lemma_first_true_some(hits, i);
    } else {
        if first_true(hits) is Some {
            let i = choose|i: int| is_first_true(hits, i);
            assert(is_first_true(hits, i));
            assert(others[i].pid == pid);
        }
    }
}

/// Picking a browser by its icon has the same effect as picking its session
/// from the list.
pub proof fn law_icon_is_like_the_list(app: AppView, session: usize)
    ensures
        app.after(EventView::PickBrowser(session)) == app.after(EventView::PickSession(session)),
        app.effect_of(EventView::PickBrowser(session)) == app.effect_of(
            EventView::PickSession(session),
        ),
{
}

/// What is to be remembered never changes without being saved: an event that
/// changes it asks for a save, or for a restart of the engine, which ends with
/// one.
pub proof fn law_changes_are_saved(app: AppView, event: EventView)
    ensures
        app.after(event).saved_config() != app.saved_config() ==> app.effect_of(event)
            == Effect::SaveConfig || app.effect_of(event) == Effect::RestartEngine,
{
}

/// The settings window shows up after exactly as many frames as it has to stay
/// hidden, and then stays.
pub proof fn law_settings_window_is_revealed(app: AppView)
    requires
        !app.show_settings,
    ensures
        ({
            let opened = app.after(EventView::ToggleSettings);
            let one = opened.after(EventView::SettingsFrame);
            let two = one.after(EventView::SettingsFrame);
            let three = two.after(EventView::SettingsFrame);
            &&& !opened.settings_revealed()
            &&& !one.settings_revealed()
            &&& !two.settings_revealed()
            &&& three.settings_revealed()
            &&& three.after(EventView::SettingsFrame) == three
        }),
{
}

/// Pressing the settings button twice leaves the settings window as it was,
/// shown or not.
pub proof fn law_settings_button_toggles(app: AppView)
    ensures
        app.after(EventView::ToggleSettings).after(EventView::ToggleSettings).show_settings
            == app.show_settings,
{
}

/// A control that is put where it already stands changes nothing.
pub proof fn law_no_effect_no_change(app: AppView, event: EventView)
    requires
        event is PickChannel || event is PickMirror || event is PickMute || event is PickInput
            || event is PickOutput || event is PickSimpleBrowserSelection || event is PickDevConsole,
        app.effect_of(event) == Effect::Nothing,
    ensures
        app.after(event) == app,
{
}

/// The mirror switch cannot be moved while both channels play.
pub proof fn law_mirror_needs_one_channel(app: AppView, mirror: bool)
    requires
        app.channel == ChannelSelection::Both,
    ensures
        app.after(EventView::PickMirror(mirror)) == app,
{
}

/// The channel that is picked is the one that plays afterwards, with the mirror
/// switch where it stands; nothing else of the panel moves; and the choice is
/// saved exactly where it is another one.
pub proof fn law_picked_channel_plays(app: AppView, sel: ChannelSelection)
    ensures
        ({
            let after = app.after(EventView::PickChannel(sel));
            &&& after.channel == sel
            &&& (AppView { channel: app.channel, ..after }) == app
            &&& sel == ChannelSelection::Both ==> after.mode() == ChannelMode::Both
            &&& sel == ChannelSelection::Left ==> after.mode() == (ChannelMode::Left {
                mirror: app.mirror,
            })
            &&& sel == ChannelSelection::Right ==> after.mode() == (ChannelMode::Right {
                mirror: app.mirror,
            })
            &&& app.effect_of(EventView::PickChannel(sel)) == Effect::SaveConfig <==> sel
                != app.channel
            &&& app.effect_of(EventView::PickChannel(sel)) == Effect::Nothing <==> sel
                == app.channel
        }),
{
}

/// Picking one channel and then another is picking the other at once: every
/// channel can be reached from every state.
pub proof fn law_last_picked_channel_counts(
    app: AppView,
    first: ChannelSelection,
    last: ChannelSelection,
)
    ensures
        app.after(EventView::PickChannel(first)).after(EventView::PickChannel(last)) == app.after(
            EventView::PickChannel(last),
        ),
        app.after(EventView::PickChannel(first)).after(EventView::PickChannel(app.channel)) == app,
{
}

/// The mirror switch stands where it was put while one channel plays; nothing
/// else of the panel moves; and it is saved exactly where it moved.
pub proof fn law_mirror_switch_stays_put(app: AppView, mirror: bool)
    requires
        app.channel != ChannelSelection::Both,
    ensures
        ({
            let after = app.after(EventView::PickMirror(mirror));
            &&& after.mirror == mirror
            &&& (AppView { mirror: app.mirror, ..after }) == app
            &&& app.effect_of(EventView::PickMirror(mirror)) == Effect::SaveConfig <==> mirror
                != app.mirror
            &&& app.effect_of(EventView::PickMirror(mirror)) == Effect::Nothing <==> mirror
                == app.mirror
        }),
{
}

/// The other switches stand where they were put; nothing else moves; and they
/// are saved exactly where they moved.
pub proof fn law_switches_stay_put(app: AppView, on: bool)
    ensures
        ({
            let mute = EventView::PickMute(on);
            let simple = EventView::PickSimpleBrowserSelection(on);
            let console = EventView::PickDevConsole(on);
            &&& app.after(mute).muted == on
            &&& (AppView { muted: app.muted, ..app.after(mute) }) == app
            &&& app.effect_of(mute) == Effect::SaveConfig <==> on != app.muted
            &&& app.effect_of(mute) == Effect::Nothing <==> on == app.muted
            &&& app.after(simple).simple_browser_selection == on
            &&& (AppView {
                simple_browser_selection: app.simple_browser_selection,
                ..app.after(simple)
            }) == app
            &&& app.effect_of(simple) == Effect::SaveConfig <==> on != app.simple_browser_selection
            &&& app.effect_of(simple) == Effect::Nothing <==> on == app.simple_browser_selection
            &&& app.after(console).dev_console == on
            &&& (AppView { dev_console: app.dev_console, ..app.after(console) }) == app
            &&& app.effect_of(console) == Effect::SaveConfig <==> on != app.dev_console
            &&& app.effect_of(console) == Effect::Nothing <==> on == app.dev_console
        }),
{
}

/// The device that is picked is the selected one, on its side; nothing else
/// moves; and the engine restarts exactly where it is another one.
pub proof fn law_picked_device_is_selected(app: AppView, i: usize)
    ensures
        ({
            let input = EventView::PickInput(i);
            let output = EventView::PickOutput(i);
            &&& app.after(input).selected_input == Some(i)
            &&& (AppView { selected_input: app.selected_input, ..app.after(input) }) == app
            &&& app.effect_of(input) == Effect::RestartEngine <==> app.selected_input != Some(i)
            &&& app.effect_of(input) == Effect::Nothing <==> app.selected_input == Some(i)
            &&& app.after(output).selected_output == Some(i)
            &&& (AppView { selected_output: app.selected_output, ..app.after(output) }) == app
            &&& app.effect_of(output) == Effect::RestartEngine <==> app.selected_output != Some(i)
            &&& app.effect_of(output) == Effect::Nothing <==> app.selected_output == Some(i)
        }),
{
}

/// A session that is picked, by its icon or from the list, and is not the
/// selected one is selected and queued, whether or not an app is routed
/// already; what was shown of the last routing is cleared; nothing else
/// changes; and another frame is painted. Where the session is in the list, it
/// is the target of the routing that follows, which first gives an app that is
/// routed its own output back.
pub proof fn law_picked_session_is_routed(app: AppView, i: usize, by_icon: bool)
    requires
        app.selected_session != Some(i),
    ensures
        ({
            let event = if by_icon {
                EventView::PickBrowser(i)
            } else {
                EventView::PickSession(i)
            };
            let after = app.after(event);
            &&& after.selected_session == Some(i)
            &&& after.pending_route == Some(i)
            &&& after.route_status is None
            &&& after.error is None
            &&& (AppView {
                selected_session: app.selected_session,
                pending_route: app.pending_route,
                route_status: app.route_status,
                error: app.error,
                ..after
            }) == app
            &&& app.effect_of(event) == Effect::Repaint
            &&& i < app.audio_sessions.len() ==> {
                let target = TargetView {
                    pid: app.audio_sessions[i as int].pid,
                    exe_name: app.audio_sessions[i as int].exe_name,
                };
                &&& app.active_route is None ==> after.first_action() == (
                ActionView::ReadOverride { target })
                &&& app.active_route matches Some(previous) ==> after.first_action() == (
                ActionView::Restore { previous, target })
            }
        }),
{
}

/// Picking the session that is selected already changes nothing.
pub proof fn law_selected_session_is_left_alone(app: AppView, i: usize)
    requires
        app.selected_session == Some(i),
    ensures
        app.after(EventView::PickBrowser(i)) == app,
        app.after(EventView::PickSession(i)) == app,
        app.effect_of(EventView::PickBrowser(i)) == Effect::Nothing,
        app.effect_of(EventView::PickSession(i)) == Effect::Nothing,
{
}

/// The settings window: its button shows or hides it, and hides its first
/// frames when it opens; closing hides it; each of its first three frames is
/// counted and followed by another; and none of this touches anything else.
pub proof fn law_settings_window(app: AppView)
    ensures
        ({
            let toggled = app.after(EventView::ToggleSettings);
            let closed = app.after(EventView::CloseSettings);
            let shown = app.after(EventView::SettingsFrame);
            &&& toggled.show_settings == !app.show_settings
            &&& toggled.show_settings ==> toggled.settings_frames == 0
            &&& !toggled.show_settings ==> toggled.settings_frames == app.settings_frames
            &&& (AppView {
                show_settings: app.show_settings,
                settings_frames: app.settings_frames,
                ..toggled
            }) == app
            &&& !closed.show_settings
            &&& (AppView { show_settings: app.show_settings, ..closed }) == app
            &&& app.settings_frames < 3 ==> shown.settings_frames == app.settings_frames + 1
            &&& app.settings_frames >= 3 ==> shown.settings_frames == app.settings_frames
            &&& (AppView { settings_frames: app.settings_frames, ..shown }) == app
            &&& app.effect_of(EventView::SettingsFrame) == Effect::Repaint <==> app.settings_frames
                < 3
            &&& app.effect_of(EventView::SettingsFrame) == Effect::Nothing <==> app.settings_frames
                >= 3
            &&& app.effect_of(EventView::ToggleSettings) == Effect::Nothing
            &&& app.effect_of(EventView::CloseSettings) == Effect::Nothing
            &&& app.settings_revealed() <==> app.settings_frames >= 3
        }),
{
}

/// A stream that fails stops the engine and shows why; without an engine there
/// is none to fail. A warning that was confirmed is gone. Neither has an effect
/// beyond that.
pub proof fn law_errors_and_warnings(app: AppView, e: Seq<char>)
    ensures
        ({
            let failed = app.after(EventView::StreamError(e));
            let dismissed = app.after(EventView::DismissCableWarning);
            &&& !failed.engine_running
            &&& app.engine_running ==> failed.error == Some(e)
            &&& app.engine_running ==> (AppView {
                engine_running: true,
                error: app.error,
                ..failed
            }) == app.logged("error: "@ + e)
            &&& !app.engine_running ==> failed == app
            &&& !dismissed.show_vb_cable_warning
            &&& (AppView {
                show_vb_cable_warning: app.show_vb_cable_warning,
                ..dismissed
            }) == app
            &&& app.effect_of(EventView::StreamError(e)) == Effect::Nothing
            &&& app.effect_of(EventView::DismissCableWarning) == Effect::Nothing
        }),
{
}

/// What listing the sessions again changes: the list is what was found without
/// this app's own process; the selected process stays selected where it is
/// still there, at its new position, and with it the routing status; the count
/// is logged; and where nothing plays, or the listing failed, an error says so.
/// A listing that failed leaves the list and the selection alone.
pub proof fn law_sessions_listed_again(
    app: AppView,
    self_pid: u32,
    sessions: Seq<SessionView>,
    e: Seq<char>,
)
    requires
        without_pid(sessions, self_pid).len() <= usize::MAX,
    ensures
        ({
            let others = without_pid(sessions, self_pid);
            let after = app.after(EventView::SessionsListed { self_pid, listed: Ok(sessions) });
            let failed = app.after(EventView::SessionsListed { self_pid, listed: Err(e) });
            let detecting = app.logged("detecting active audio sessions..."@);
            let counted = detecting.logged(
                "found "@ + decimal(others.len()) + " active audio session(s)"@,
            );
            let undone = AppView {
                audio_sessions: app.audio_sessions,
                selected_session: app.selected_session,
                route_status: app.route_status,
                error: app.error,
                ..after
            };
            &&& after.audio_sessions == others
            &&& others.len() > 0 ==> after.error is None
            &&& others.len() > 0 ==> undone == counted
            &&& others.len() == 0 ==> after.error == Some(nothing_plays_error())
            &&& others.len() == 0 ==> undone == counted.logged("error: "@ + nothing_plays_error())
            &&& match after.selected_session {
                Some(k) => {
                    &&& k < others.len()
                    &&& app.selected_pid() == Some(others[k as int].pid)
                    &&& forall|j: int|
                        0 <= j < k ==> (#[trigger] others[j]).pid != others[k as int].pid
                    &&& after.route_status == app.route_status
                },
                None => {
                    &&& after.route_status is None
                    &&& app.selected_pid() matches Some(pid) ==> forall|j: int|
                        0 <= j < others.len() ==> (#[trigger] others[j]).pid != pid
                },
            }
            &&& failed.error == Some("Couldn't detect apps: "@ + e)
            &&& (AppView { error: app.error, ..failed }) == detecting.logged(
                "error: "@ + ("Couldn't detect apps: "@ + e),
            )
            &&& app.effect_of(EventView::SessionsListed { self_pid, listed: Ok(sessions) })
                == Effect::Nothing
            &&& app.effect_of(EventView::SessionsListed { self_pid, listed: Err(e) })
                == Effect::Nothing
        }),
{
    let others = without_pid(sessions, self_pid);
    if app.selected_pid() is Some {
        law_sessions_are_found(others, Seq::empty(), app.selected_pid()->0);
    }
}

/// The selected process is the one whose session stands at the selected
/// position.
pub proof fn law_selected_process(app: AppView)
    ensures
        app.selected_session is None ==> app.selected_pid() is None,
        app.selected_session matches Some(i) ==> i >= app.audio_sessions.len()
            ==> app.selected_pid() is None,
        app.selected_session matches Some(i) ==> i < app.audio_sessions.len()
            ==> app.selected_pid() == Some(app.audio_sessions[i as int].pid),
        nothing_plays_error()
            == "No apps are currently playing audio. Start playback in your browser tab, then refresh again."@,
{
}

/// An event stands for what it says, whichever it is.
pub proof fn law_event_view(
    i: usize,
    on: bool,
    sel: ChannelSelection,
    text: String,
    pid: u32,
    sessions: Vec<AudioSession>,
)
    ensures
        UiEvent::ToggleSettings@ == EventView::ToggleSettings,
        UiEvent::CloseSettings@ == EventView::CloseSettings,
        UiEvent::SettingsFrame@ == EventView::SettingsFrame,
        UiEvent::PickBrowser(i)@ == EventView::PickBrowser(i),
        UiEvent::PickSession(i)@ == EventView::PickSession(i),
        UiEvent::PickChannel(sel)@ == EventView::PickChannel(sel),
        UiEvent::PickMirror(on)@ == EventView::PickMirror(on),
        UiEvent::PickMute(on)@ == EventView::PickMute(on),
        UiEvent::StreamError(text)@ == EventView::StreamError(text@),
        UiEvent::DismissCableWarning@ == EventView::DismissCableWarning,
        UiEvent::PickInput(i)@ == EventView::PickInput(i),
        UiEvent::PickOutput(i)@ == EventView::PickOutput(i),
        UiEvent::PickSimpleBrowserSelection(on)@ == EventView::PickSimpleBrowserSelection(on),
        UiEvent::PickDevConsole(on)@ == EventView::PickDevConsole(on),
        (UiEvent::SessionsListed { self_pid: pid, listed: Ok(sessions) })@ == (
        EventView::SessionsListed { self_pid: pid, listed: Ok(sessions_view(sessions@)) }),
        (UiEvent::SessionsListed { self_pid: pid, listed: Err(text) })@ == (
        EventView::SessionsListed { self_pid: pid, listed: Err(text@) }),
{
}

/// What a call of `update` does when a channel is picked: that channel plays,
/// with the mirror switch where it stands; the handle may show the new mode;
/// and the choice is saved exactly where it is another one.
pub proof fn law_pick_channel_call(app: &mut App, sel: ChannelSelection, effect: Effect)
    requires
        call_ensures(App::update, (app, UiEvent::PickChannel(sel)), effect),
    ensures
        final(app).channel == sel,
        final(app).mirror == old(app).mirror,
        final(app).muted == old(app).muted,
        final(app).selected_session == old(app).selected_session,
        final(app).pending_route == old(app).pending_route,
        final(app).mode_handle == old(app).mode_handle,
        effect == Effect::SaveConfig <==> old(app).channel != sel,
        effect == Effect::Nothing <==> old(app).channel == sel,
        sel == ChannelSelection::Right && old(app).channel != sel
            ==> final(app).mode_handle.may_show(ChannelMode::Right { mirror: old(app).mirror }),
        sel == ChannelSelection::Left && old(app).channel != sel
            ==> final(app).mode_handle.may_show(ChannelMode::Left { mirror: old(app).mirror }),
        sel == ChannelSelection::Both && old(app).channel != sel
            ==> final(app).mode_handle.may_show(ChannelMode::Both),
{
    law_view_shows_every_field(*old(app));
    law_view_shows_every_field(*final(app));
    law_picked_channel_plays(old(app)@, sel);
}

/// What a call of `update` does when a switch is put somewhere: it stands there
/// afterwards, the handle that belongs to it may show it, and it is saved
/// exactly where it moved. The mirror switch does not move while both channels
/// play.
pub proof fn law_switch_calls(
    mirror_app: &mut App,
    mute_app: &mut App,
    simple_app: &mut App,
    console_app: &mut App,
    on: bool,
    mirror_effect: Effect,
    mute_effect: Effect,
    simple_effect: Effect,
    console_effect: Effect,
)
    requires
        call_ensures(App::update, (mirror_app, UiEvent::PickMirror(on)), mirror_effect),
        call_ensures(App::update, (mute_app, UiEvent::PickMute(on)), mute_effect),
        call_ensures(
            App::update,
            (simple_app, UiEvent::PickSimpleBrowserSelection(on)),
            simple_effect,
        ),
        call_ensures(App::update, (console_app, UiEvent::PickDevConsole(on)), console_effect),
    ensures
        old(mirror_app).channel != ChannelSelection::Both ==> {
            &&& final(mirror_app).mirror == on
            &&& mirror_effect == Effect::SaveConfig <==> old(mirror_app).mirror != on
            &&& old(mirror_app).mirror != on ==> final(mirror_app).mode_handle.may_show(
                final(mirror_app)@.mode(),
            )
        },
        old(mirror_app).channel == ChannelSelection::Both ==> {
            &&& final(mirror_app).mirror == old(mirror_app).mirror
            &&& mirror_effect == Effect::Nothing
        },
        final(mirror_app).channel == old(mirror_app).channel,
        final(mute_app).muted == on,
        mute_effect == Effect::SaveConfig <==> old(mute_app).muted != on,
        old(mute_app).muted != on ==> final(mute_app).mute_handle.may_show(on),
        final(mute_app).channel == old(mute_app).channel,
        final(mute_app).mirror == old(mute_app).mirror,
        final(simple_app).simple_browser_selection == on,
        simple_effect == Effect::SaveConfig <==> old(simple_app).simple_browser_selection != on,
        final(console_app).dev_console == on,
        console_effect == Effect::SaveConfig <==> old(console_app).dev_console != on,
{
    law_view_shows_every_field(*old(mirror_app));
    law_view_shows_every_field(*final(mirror_app));
    law_view_shows_every_field(*old(mute_app));
    law_view_shows_every_field(*final(mute_app));
    law_view_shows_every_field(*old(simple_app));
    law_view_shows_every_field(*final(simple_app));
    law_view_shows_every_field(*old(console_app));
    law_view_shows_every_field(*final(console_app));
    if old(mirror_app).channel != ChannelSelection::Both {
        law_mirror_switch_stays_put(old(mirror_app)@, on);
    } else {
        law_mirror_needs_one_channel(old(mirror_app)@, on);
    }
    law_switches_stay_put(old(mute_app)@, on);
    law_switches_stay_put(old(simple_app)@, on);
    law_switches_stay_put(old(console_app)@, on);
}

/// What a call of `update` does when a session is picked, from the list or by
/// its icon: unless it is the selected one already it is selected and queued,
/// whether or not an app is routed, what was shown of the last routing is
/// cleared, and another frame is painted.
pub proof fn law_pick_session_calls(
    list_app: &mut App,
    icon_app: &mut App,
    i: usize,
    list_effect: Effect,
    icon_effect: Effect,
)
    requires
        call_ensures(App::update, (list_app, UiEvent::PickSession(i)), list_effect),
        call_ensures(App::update, (icon_app, UiEvent::PickBrowser(i)), icon_effect),
    ensures
        final(list_app).selected_session == Some(i),
        old(list_app).selected_session != Some(i) ==> {
            &&& final(list_app).pending_route == Some(i)
            &&& final(list_app).route_status is None
            &&& final(list_app).error is None
            &&& list_effect == Effect::Repaint
        },
        old(list_app).selected_session == Some(i) ==> {
            &&& final(list_app)@ == old(list_app)@
            &&& list_effect == Effect::Nothing
        },
        final(list_app)@.active_route == old(list_app)@.active_route,
        final(list_app)@.audio_sessions == old(list_app)@.audio_sessions,
        final(icon_app).selected_session == Some(i),
        old(icon_app).selected_session != Some(i) ==> {
            &&& final(icon_app).pending_route == Some(i)
            &&& final(icon_app).route_status is None
            &&& final(icon_app).error is None
            &&& icon_effect == Effect::Repaint
        },
        old(icon_app).selected_session == Some(i) ==> {
            &&& final(icon_app)@ == old(icon_app)@
            &&& icon_effect == Effect::Nothing
        },
        final(icon_app)@.active_route == old(icon_app)@.active_route,
        final(icon_app)@.audio_sessions == old(icon_app)@.audio_sessions,
{
    law_view_shows_every_field(*old(list_app));
    law_view_shows_every_field(*final(list_app));
    law_view_shows_every_field(*old(icon_app));
    law_view_shows_every_field(*final(icon_app));
    if old(list_app).selected_session != Some(i) {
        law_picked_session_is_routed(old(list_app)@, i, false);
    } else {
        law_selected_session_is_left_alone(old(list_app)@, i);
    }
    if old(icon_app).selected_session != Some(i) {
        law_picked_session_is_routed(old(icon_app)@, i, true);
    } else {
        law_selected_session_is_left_alone(old(icon_app)@, i);
    }
}

/// What a call of `update` does when a device is picked: it is the selected one
/// of its side, the other side keeps its own, and the engine restarts exactly
/// where it is another one.
pub proof fn law_pick_device_calls(
    input_app: &mut App,
    output_app: &mut App,
    i: usize,
    input_effect: Effect,
    output_effect: Effect,
)
    requires
        call_ensures(App::update, (input_app, UiEvent::PickInput(i)), input_effect),
        call_ensures(App::update, (output_app, UiEvent::PickOutput(i)), output_effect),
    ensures
        final(input_app).selected_input == Some(i),
        final(input_app).selected_output == old(input_app).selected_output,
        input_effect == Effect::RestartEngine <==> old(input_app).selected_input != Some(i),
        input_effect == Effect::Nothing <==> old(input_app).selected_input == Some(i),
        final(output_app).selected_output == Some(i),
        final(output_app).selected_input == old(output_app).selected_input,
        output_effect == Effect::RestartEngine <==> old(output_app).selected_output != Some(i),
        output_effect == Effect::Nothing <==> old(output_app).selected_output == Some(i),
{
    law_view_shows_every_field(*old(input_app));
    law_view_shows_every_field(*final(input_app));
    law_view_shows_every_field(*old(output_app));
    law_view_shows_every_field(*final(output_app));
    law_picked_device_is_selected(old(input_app)@, i);
    law_picked_device_is_selected(old(output_app)@, i);
}

/// What a call of `update` does when the engine fails, and when the settings
/// button is pressed: a running engine stops with its error shown, and the
/// settings window opens where it was closed and closes where it was open.
pub proof fn law_error_and_settings_calls(
    error_app: &mut App,
    settings_app: &mut App,
    e: String,
    error_effect: Effect,
    settings_effect: Effect,
)
    requires
        call_ensures(App::update, (error_app, UiEvent::StreamError(e)), error_effect),
        call_ensures(App::update, (settings_app, UiEvent::ToggleSettings), settings_effect),
    ensures
        !final(error_app).engine_running,
        old(error_app).engine_running ==> final(error_app)@.error == Some(e@),
        !old(error_app).engine_running ==> final(error_app)@ == old(error_app)@,
        final(settings_app).show_settings == !old(settings_app).show_settings,
        final(settings_app).show_settings ==> final(settings_app).settings_frames == 0,
{
    law_view_shows_every_field(*old(error_app));
    law_view_shows_every_field(*final(error_app));
    law_view_shows_every_field(*old(settings_app));
    law_view_shows_every_field(*final(settings_app));
    law_errors_and_warnings(old(error_app)@, e@);
    law_settings_window(old(settings_app)@);
}

} // verus!
