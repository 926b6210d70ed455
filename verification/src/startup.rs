//! How the app starts, restarts its engine, and remembers its settings.
use crate::app::{law_view_shows_every_field, App, AppView};
use crate::config::{AppConfig, ConfigView};
use crate::devices::{
    device_named, exactly_named, find_by_name, find_exact, law_exact_search_finds_the_first,
    law_found_by_its_name, law_search_finds_the_first, lemma_exactly_named, lemma_found_in_range,
};
use crate::dsp::{law_code_roundtrip, ChannelMode};
use crate::handles::{ModeHandle, MuteHandle};
use crate::selection::{
    controls_of, decompose, effective_mode, law_controls_roundtrip, law_controls_show_the_mode,
    ChannelSelection,
};
use crate::sessions::{
    auto_route_candidate, find_auto_route_candidate, is_browser,
    law_auto_route_takes_the_first_browser, list_audio_sessions, sessions_view, without_pid,
    AudioSession, SessionView,
};
use crate::text::{
    all_chars, all_opt_chars, decimal, first_true, is_first_true, is_substring, join3, lowercase,
    opt_chars, to_decimal,
};
use std::collections::VecDeque;
use vstd::prelude::*;
use vstd::string::StringExecFns;

verus! {

/// What is found when the app starts.
pub struct Startup {
    /// Names of the capture devices.
    pub inputs: Vec<Option<String>>,
    /// Names of the playback devices.
    pub outputs: Vec<Option<String>>,
    /// Name of the OS's current default playback device.
    pub default_output: Option<String>,
    /// The remembered settings.
    pub config: AppConfig,
    /// This app's own process.
    pub self_pid: u32,
    /// The processes that play audio, or why they could not be listed.
    pub sessions: Result<Vec<AudioSession>, String>,
}

/// What a `Startup` stands for. Sessions that could not be listed count as
/// none.
#[verifier::ext_equal]
pub struct StartupView {
    pub inputs: Seq<Option<Seq<char>>>,
    pub outputs: Seq<Option<Seq<char>>>,
    pub default_output: Option<Seq<char>>,
    pub config: ConfigView,
    pub self_pid: u32,
    pub sessions: Seq<SessionView>,
}

impl View for Startup {
    type V = StartupView;

    open spec fn view(&self) -> StartupView {
        StartupView {
            inputs: all_opt_chars(self.inputs@),
            outputs: all_opt_chars(self.outputs@),
            default_output: opt_chars(self.default_output),
            config: self.config@,
            self_pid: self.self_pid,
            sessions: match self.sessions {
                Ok(sessions) => sessions_view(sessions@),
                Err(_) => Seq::empty(),
            },
        }
    }
}

/// The substring that the virtual cable's recording device registers under.
pub open spec fn cable_hint() -> Seq<char> {
    "VB-Audio Virtual Cable"@
}

/// The device of that name, where a name is given.
pub open spec fn device_if_named(
    names: Seq<Option<Seq<char>>>,
    name: Option<Seq<char>>,
) -> Option<usize> {
    match name {
        Some(name) => device_named(names, name),
        None => None,
    }
}

/// The device that a full name stands for: the one of exactly that name, else
/// one whose name holds it.
pub open spec fn device_called(
    names: Seq<Option<Seq<char>>>,
    name: Option<Seq<char>>,
) -> Option<usize> {
    if name is Some && exactly_named(names, name->0) is Some {
        exactly_named(names, name->0)
    } else {
        device_if_named(names, name)
    }
}

/// The device to use: whatever the user explicitly picked last time, else the
/// one to fall back on, else the first there is.
pub open spec fn preferred_device(
    names: Seq<Option<Seq<char>>>,
    saved: Option<Seq<char>>,
    fallback: Option<usize>,
) -> Option<usize> {
    if device_called(names, saved) is Some {
        device_called(names, saved)
    } else if fallback is Some {
        fallback
    } else if names.len() == 0 {
        None
    } else {
        Some(0)
    }
}

/// The device that a full name stands for, where one is given.
pub fn find_called(names: &[Option<String>], name: &Option<String>) -> (found: Option<usize>)
    ensures
        found == device_called(all_opt_chars(names@), opt_chars(*name)),
{
    match name {
        Some(name) => {
            let exact: Option<usize> = find_exact(names, name);
            if exact.is_some() {
                exact
            } else {
                find_by_name(names, name)
            }
        },
        None => None,
    }
}

/// The device to use, given the remembered name and the device to fall back on.
pub fn choose_device(
    names: &[Option<String>],
    saved: &Option<String>,
    fallback: Option<usize>,
) -> (chosen: Option<usize>)
    ensures
        chosen == preferred_device(all_opt_chars(names@), opt_chars(*saved), fallback),
{
    let by_saved: Option<usize> = find_called(names, saved);
    if by_saved.is_some() {
        return by_saved;
    }
    if fallback.is_some() {
        return fallback;
    }
    if names.len() == 0 {
        None
    } else {
        Some(0)
    }
}

/// The name of the selected device, where there is one and its name is known.
pub open spec fn selected_name(
    names: Seq<Option<Seq<char>>>,
    selected: Option<usize>,
) -> Option<Seq<char>> {
    match selected {
        Some(i) => if i < names.len() {
            names[i as int]
        } else {
            None
        },
        None => None,
    }
}

/// How the selected device is shown.
pub open spec fn device_label(
    names: Seq<Option<Seq<char>>>,
    selected: Option<usize>,
) -> Seq<char> {
    match selected_name(names, selected) {
        Some(name) => name,
        None => "<none>"@,
    }
}

/// The name of the selected device, where there is one and its name is known.
pub fn selected_device_name(names: &[Option<String>], selected: Option<usize>) -> (name: Option<
    String,
>)
    ensures
        opt_chars(name) == selected_name(all_opt_chars(names@), selected),
{
    match selected {
        Some(i) => if i < names.len() {
            match &names[i] {
                Some(name) => Some(name.clone()),
                None => None,
            }
        } else {
            None
        },
        None => None,
    }
}

/// How the selected device is shown.
pub fn selected_device_label(names: &[Option<String>], selected: Option<usize>) -> (text: String)
    ensures
        text@ == device_label(all_opt_chars(names@), selected),
{
    match selected_device_name(names, selected) {
        Some(name) => name,
        None => "<none>".to_owned(),
    }
}

/// The log line on the selected devices.
pub open spec fn selection_line(input: Seq<char>, output: Seq<char>) -> Seq<char> {
    "selected input: "@ + input + ", output: "@ + output
}

/// The log line on the session that is routed without asking.
pub open spec fn auto_route_line(
    sessions: Seq<SessionView>,
    selected: Option<usize>,
) -> Seq<char> {
    if selected is Some && selected->0 < sessions.len() {
        let session = sessions[selected->0 as int];
        "auto-selected "@ + session.exe_name + " (pid "@ + decimal(session.pid as nat)
            + ") for routing"@
    } else {
        "no Firefox/Chrome session found to auto-route"@
    }
}

/// The log line on whether the virtual cable is there.
pub open spec fn cable_line(present: bool) -> Seq<char> {
    if present {
        "found VB-Audio Virtual Cable"@
    } else {
        "VB-Audio Virtual Cable not found"@
    }
}

/// The mode to start in.
pub open spec fn initial_mode(config: ConfigView) -> ChannelMode {
    match config.mode_code {
        Some(code) => ChannelMode::of_code(code),
        None => ChannelMode::Both,
    }
}

/// The state that the app starts in, with the given handles and before it has
/// logged anything.
pub open spec fn initial_state(
    startup: StartupView,
    mode_handle: ModeHandle,
    mute_handle: MuteHandle,
) -> AppView {
    let sessions = without_pid(startup.sessions, startup.self_pid);
    let candidate = auto_route_candidate(sessions);
    AppView {
        inputs: startup.inputs,
        outputs: startup.outputs,
        selected_input: preferred_device(
            startup.inputs,
            startup.config.input_device_name,
            device_named(startup.inputs, cable_hint()),
        ),
        selected_output: preferred_device(
            startup.outputs,
            startup.config.output_device_name,
            device_called(startup.outputs, startup.default_output),
        ),
        channel: controls_of(initial_mode(startup.config)).0,
        mirror: controls_of(initial_mode(startup.config)).1,
        mode_handle,
        muted: startup.config.muted,
        mute_handle,
        engine_running: false,
        error: None,
        audio_sessions: sessions,
        selected_session: candidate,
        route_status: None,
        pending_route: candidate,
        active_route: None,
        show_settings: false,
        settings_frames: 0,
        show_vb_cable_warning: device_named(startup.inputs, cable_hint()) is None,
        dev_console: startup.config.dev_console,
        dev_log: Seq::empty(),
        echo: Seq::empty(),
        simple_browser_selection: startup.config.simple_browser_selection,
    }
}

impl AppView {
    /// With the log lines of the start.
    pub open spec fn announced(self) -> AppView {
        self.logged("searching for VB-Audio Virtual Cable..."@).logged(
            cable_line(!self.show_vb_cable_warning),
        ).logged(
            selection_line(
                device_label(self.inputs, self.selected_input),
                device_label(self.outputs, self.selected_output),
            ),
        ).logged("checking for active Firefox/Chrome audio sessions..."@).logged(
            auto_route_line(self.audio_sessions, self.selected_session),
        )
    }

    /// The names of both selected devices are known.
    pub open spec fn both_devices_named(self) -> bool {
        &&& selected_name(self.inputs, self.selected_input) is Some
        &&& selected_name(self.outputs, self.selected_output) is Some
    }

    /// What a restart of the engine takes first: an engine is started where
    /// both selected devices are there.
    pub open spec fn engine_step(self) -> EngineStep {
        if self.selected_input is Some && self.selected_input->0 < self.inputs.len()
            && self.selected_output is Some && self.selected_output->0 < self.outputs.len() {
            EngineStep::Start { input: self.selected_input->0, output: self.selected_output->0 }
        } else {
            EngineStep::SaveConfig
        }
    }

    /// On the way to a new engine: the old one is stopped and its error
    /// forgotten.
    pub open spec fn restarting(self) -> AppView {
        let stopped = AppView { engine_running: false, error: None, ..self };
        if self.both_devices_named() {
            stopped.logged(
                "starting audio engine: input="@ + selected_name(
                    self.inputs,
                    self.selected_input,
                )->0 + ", output="@ + selected_name(self.outputs, self.selected_output)->0,
            )
        } else {
            stopped
        }
    }

    /// After the attempt to start an engine.
    pub open spec fn engine_tried(self, outcome: Result<(), Seq<char>>) -> AppView {
        match outcome {
            Ok(_) => AppView { engine_running: true, ..self }.logged("audio engine started"@),
            Err(e) => self.failed(e),
        }
    }

    /// The settings to remember.
    pub open spec fn saved_config(self) -> ConfigView {
        ConfigView {
            input_device_name: selected_name(self.inputs, self.selected_input),
            output_device_name: selected_name(self.outputs, self.selected_output),
            mode_code: Some(self.mode().code()),
            muted: self.muted,
            dev_console: self.dev_console,
            simple_browser_selection: self.simple_browser_selection,
        }
    }
}

/// What a restart of the engine takes next.
#[derive(Debug, Clone, Copy, PartialEq, Eq, Structural)]
pub enum EngineStep {
    /// Start an engine between these devices, then call `engine_started`.
    Start { input: usize, output: usize },
    /// Save the settings. The restart is then over.
    SaveConfig,
}

/// What the outcome of an attempt stands for.
pub open spec fn outcome_view(outcome: Result<(), String>) -> Result<(), Seq<char>> {
    match outcome {
        Ok(_) => Ok(()),
        Err(e) => Err(e@),
    }
}

fn auto_route_text(sessions: &[AudioSession], selected: Option<usize>) -> (text: String)
    ensures
        text@ == auto_route_line(sessions_view(sessions@), selected),
{
    if let Some(i) = selected {
        if i < sessions.len() {
            let mut text: String = join3("auto-selected ", &sessions[i].exe_name, " (pid ");
            text.append(&to_decimal(sessions[i].pid as u64));
            text.append(") for routing");
            return text;
        }
    }
    "no Firefox/Chrome session found to auto-route".to_owned()
}

impl App {
    /// The app as it starts. A running browser is queued for routing without
    /// the user having to ask; the engine is started by `restart_engine`.
    pub fn new(startup: Startup) -> (app: Self)
        ensures
            app@ == initial_state(startup@, app.mode_handle, app.mute_handle).announced(),
            app.mode_handle.may_show(initial_mode(startup.config@)),
            app.mute_handle.may_show(startup.config.muted),
            app@.in_step(),
    {
        let Startup { inputs, outputs, default_output, config, self_pid, sessions } = startup;
        let cable: Option<usize> = find_by_name(&inputs, "VB-Audio Virtual Cable");
        let cable_present: bool = cable.is_some();
        let selected_input: Option<usize> = choose_device(
            &inputs,
            &config.input_device_name,
            cable,
        );
        let selected_output: Option<usize> = choose_device(
            &outputs,
            &config.output_device_name,
            find_called(&outputs, &default_output),
        );
        let mode: ChannelMode = match config.mode_code {
            Some(code) => ChannelMode::from_code(code),
            None => ChannelMode::Both,
        };
        let (channel, mirror) = decompose(mode);
        let listed: Vec<AudioSession> = match sessions {
            Ok(sessions) => sessions,
            Err(_) => Vec::new(),
        };
        assert(sessions_view(listed@) =~= startup@.sessions);
        let audio_sessions: Vec<AudioSession> = list_audio_sessions(self_pid, listed);
        let candidate: Option<usize> = find_auto_route_candidate(&audio_sessions);
        let mut app: App = App {
            inputs,
            outputs,
            selected_input,
            selected_output,
            channel,
            mirror,
            mode_handle: ModeHandle::new(mode),
            muted: config.muted,
            mute_handle: MuteHandle::new(config.muted),
            engine_running: false,
            error: None,
            audio_sessions,
            selected_session: candidate,
            route_status: None,
            pending_route: candidate,
            active_route: None,
            show_settings: false,
            settings_frames: 0,
            show_vb_cable_warning: !cable_present,
            dev_console: config.dev_console,
            dev_log: VecDeque::new(),
            echo: Vec::new(),
            simple_browser_selection: config.simple_browser_selection,
        };
        proof {
            assert(all_chars(app.dev_log@) =~= Seq::empty());
            assert(all_chars(app.echo@) =~= Seq::empty());
            assert(app@ =~= initial_state(startup@, app.mode_handle, app.mute_handle));
            law_controls_show_the_mode(mode);
        }
        app.log("searching for VB-Audio Virtual Cable...".to_owned());
        app.log(
            if cable_present {
                "found VB-Audio Virtual Cable".to_owned()
            } else {
                "VB-Audio Virtual Cable not found".to_owned()
            },
        );
        let input_label: String = selected_device_label(&app.inputs, app.selected_input);
        let output_label: String = selected_device_label(&app.outputs, app.selected_output);
        let mut line: String = join3("selected input: ", &input_label, ", output: ");
        line.append(&output_label);
        app.log(line);
        app.log("checking for active Firefox/Chrome audio sessions...".to_owned());
        app.log(auto_route_text(&app.audio_sessions, app.selected_session));
        app
    }

    /// Stops the engine that runs, and tells which devices to start a new one
    /// between. Where one of them is not there, the settings are saved at once.
    pub fn restart_engine(&mut self) -> (step: EngineStep)
        ensures
            final(self)@ == old(self)@.restarting(),
            step == old(self)@.engine_step(),
    {
        self.engine_running = false;
        self.error = None;
        let input_name: Option<String> = selected_device_name(&self.inputs, self.selected_input);
        let output_name: Option<String> = selected_device_name(
            &self.outputs,
            self.selected_output,
        );
        if let Some(input_name) = input_name {
            if let Some(output_name) = output_name {
                let mut line: String = join3(
                    "starting audio engine: input=",
                    &input_name,
                    ", output=",
                );
                line.append(&output_name);
                self.log(line);
            }
        }
        if let Some(i) = self.selected_input {
            if let Some(o) = self.selected_output {
                if i < self.inputs.len() && o < self.outputs.len() {
                    return EngineStep::Start { input: i, output: o };
                }
            }
        }
        EngineStep::SaveConfig
    }

    /// Takes note of how the start of an engine went. Either way the settings
    /// are saved.
    pub fn engine_started(&mut self, outcome: Result<(), String>) -> (step: EngineStep)
        ensures
            final(self)@ == old(self)@.engine_tried(outcome_view(outcome)),
            step == EngineStep::SaveConfig,
    {
        match outcome {
            Ok(_) => {
                self.engine_running = true;
                self.log("audio engine started".to_owned());
            },
            Err(e) => self.set_error(e),
        }
        EngineStep::SaveConfig
    }

    /// The settings to remember.
    pub fn save_config(&self) -> (config: AppConfig)
        ensures
            config@ == self@.saved_config(),
    {
        AppConfig {
            input_device_name: selected_device_name(&self.inputs, self.selected_input),
            output_device_name: selected_device_name(&self.outputs, self.selected_output),
            mode_code: Some(effective_mode(self.channel, self.mirror).to_code()),
            muted: self.muted,
            dev_console: self.dev_console,
            simple_browser_selection: self.simple_browser_selection,
        }
    }
}

/// Mode and switches are remembered between runs: an app that starts with the
/// settings another one saved has the same channel and plays in the same mode,
/// and its switches stand as they stood. The mirror switch comes back off
/// where both channels played.
pub proof fn law_settings_are_remembered(
    last: AppView,
    startup: StartupView,
    mode_handle: ModeHandle,
    mute_handle: MuteHandle,
)
    requires
        startup.config == last.saved_config(),
    ensures
        ({
            let next = initial_state(startup, mode_handle, mute_handle).announced();
            &&& next.channel == last.channel
            &&& next.mode() == last.mode()
            &&& next.mirror == (last.mirror && last.channel != ChannelSelection::Both)
            &&& next.muted == last.muted
            &&& next.dev_console == last.dev_console
            &&& next.simple_browser_selection == last.simple_browser_selection
        }),
{
    law_code_roundtrip(last.mode());
    law_controls_roundtrip(last.channel, last.mirror);
}

/// Devices are remembered between runs: where the device that was selected
/// last is still there, the app selects it again. Of several devices of one
/// name it takes the first.
pub proof fn law_devices_are_remembered(
    last: AppView,
    startup: StartupView,
    mode_handle: ModeHandle,
    mute_handle: MuteHandle,
)
    requires
        startup.config == last.saved_config(),
        startup.inputs.len() <= usize::MAX,
        startup.outputs.len() <= usize::MAX,
    ensures
        ({
            let next = initial_state(startup, mode_handle, mute_handle).announced();
            &&& is_remembered(
                selected_name(last.inputs, last.selected_input),
                next.inputs,
                next.selected_input,
            )
            &&& is_remembered(
                selected_name(last.outputs, last.selected_output),
                next.outputs,
                next.selected_output,
            )
        }),
{
    lemma_remembered(
        selected_name(last.inputs, last.selected_input),
        startup.inputs,
        device_named(startup.inputs, cable_hint()),
    );
    lemma_remembered(
        selected_name(last.outputs, last.selected_output),
        startup.outputs,
        device_called(startup.outputs, startup.default_output),
    );
}

/// Wherever a device has the remembered name, a device of that name is
/// selected, and none that comes later.
pub open spec fn is_remembered(
    name: Option<Seq<char>>,
    names: Seq<Option<Seq<char>>>,
    selected: Option<usize>,
) -> bool {
    forall|i: int|
        0 <= i < names.len() && name is Some && #[trigger] names[i] == name ==> {
            &&& selected is Some
            &&& selected->0 <= i
            &&& names[selected->0 as int] == name
        }
}

proof fn lemma_remembered(
    name: Option<Seq<char>>,
    names: Seq<Option<Seq<char>>>,
    fallback: Option<usize>,
)
    requires
        names.len() <= usize::MAX,
    ensures
        is_remembered(name, names, preferred_device(names, name, fallback)),
{
    assert forall|i: int|
        0 <= i < names.len() && name is Some && #[trigger] names[i] == name implies {
        let selected = preferred_device(names, name, fallback);
        &&& selected is Some
        &&& selected->0 <= i
        &&& names[selected->0 as int] == name
    } by {
        lemma_exactly_named(names, i);
    }
}

/// A restart of the engine leaves alone what is to be remembered, so the
/// settings that are saved at its end are those that stood when it began; and
/// what the panel shows stays what the audio callbacks may apply.
pub proof fn law_restart_keeps_the_settings(app: AppView, outcome: Result<(), Seq<char>>)
    ensures
        app.restarting().saved_config() == app.saved_config(),
        app.engine_tried(outcome).saved_config() == app.saved_config(),
        app.in_step() ==> app.restarting().in_step(),
        app.in_step() ==> app.engine_tried(outcome).in_step(),
{
}

/// The app starts within its bounds, and starting an engine keeps it there.
pub proof fn law_start_keeps_bounds(
    app: AppView,
    startup: StartupView,
    mode_handle: ModeHandle,
    mute_handle: MuteHandle,
    outcome: Result<(), Seq<char>>,
)
    requires
        app.wf(),
    ensures
        initial_state(startup, mode_handle, mute_handle).announced().wf(),
        app.restarting().wf(),
        app.engine_tried(outcome).wf(),
{
}

/// Without a saved choice that is there, the app plays on the device that the
/// OS considers the default: where a device has exactly its name, a device of
/// that name is selected, and none that comes later.
pub proof fn law_default_output_is_taken(
    startup: StartupView,
    mode_handle: ModeHandle,
    mute_handle: MuteHandle,
)
    requires
        device_called(startup.outputs, startup.config.output_device_name) is None,
        startup.outputs.len() <= usize::MAX,
    ensures
        ({
            let app = initial_state(startup, mode_handle, mute_handle).announced();
            is_remembered(startup.default_output, app.outputs, app.selected_output)
        }),
{
    lemma_remembered(startup.default_output, startup.outputs, None);
}

/// A saved name that finds a device decides; the fallback decides only where
/// it finds none; and as long as there is a device, one is selected.
pub proof fn law_saved_choice_comes_first(
    names: Seq<Option<Seq<char>>>,
    saved: Option<Seq<char>>,
    fallback: Option<usize>,
)
    ensures
        preferred_device(names, saved, fallback) == (if device_called(names, saved) is Some {
            device_called(names, saved)
        } else if fallback is Some {
            fallback
        } else if names.len() > 0 {
            Some(0)
        } else {
            None
        }),
        names.len() > 0 ==> preferred_device(names, saved, fallback) is Some,
{
}

/// Where there is no device, none is selected.
pub proof fn law_no_device_no_selection(
    startup: StartupView,
    mode_handle: ModeHandle,
    mute_handle: MuteHandle,
)
    ensures
        ({
            let app = initial_state(startup, mode_handle, mute_handle).announced();
            &&& startup.inputs.len() == 0 ==> app.selected_input is None
            &&& startup.outputs.len() == 0 ==> app.selected_output is None
        }),
{
    if startup.inputs.len() == 0 {
        lemma_nothing_found(startup.inputs, Some(cable_hint()));
        lemma_nothing_found(startup.inputs, startup.config.input_device_name);
    }
    if startup.outputs.len() == 0 {
        lemma_nothing_found(startup.outputs, startup.config.output_device_name);
        lemma_nothing_found(startup.outputs, startup.default_output);
    }
}

proof fn lemma_nothing_found(names: Seq<Option<Seq<char>>>, name: Option<Seq<char>>)
    requires
        names.len() == 0,
    ensures
        device_if_named(names, name) is None,
        device_called(names, name) is None,
{
    if name is Some {
        lemma_found_in_range(names, name->0);
        let hits = names.map_values(|n: Option<Seq<char>>| n == Some(name->0));
        if first_true(hits) is Some {
            assert(is_first_true(hits, choose|i: int| is_first_true(hits, i)));
        }
    }
}

/// The engine runs between the selected devices: where a restart asks for one,
/// the input it names is the selected input and the output it names is the
/// selected output, and both are there; and where both are there, it does ask
/// for one. Otherwise there is nothing left but to save.
pub proof fn law_restart_starts_the_selected_devices(app: AppView)
    ensures
        app.engine_step() matches EngineStep::Start { input, output } ==> {
            &&& app.selected_input == Some(input)
            &&& input < app.inputs.len()
            &&& app.selected_output == Some(output)
            &&& output < app.outputs.len()
        },
        app.selected_input is Some && app.selected_input->0 < app.inputs.len()
            && app.selected_output is Some && app.selected_output->0 < app.outputs.len()
            ==> app.engine_step() is Start,
        app.engine_step() is Start || app.engine_step() == EngineStep::SaveConfig,
{
}

/// A restart stops the engine and forgets its error. It names both devices in
/// the log where both names are known, and touches nothing else.
pub proof fn law_restart_stops_the_engine(app: AppView, input: Seq<char>, output: Seq<char>)
    ensures
        ({
            let after = app.restarting();
            let named = selected_name(app.inputs, app.selected_input) == Some(input)
                && selected_name(app.outputs, app.selected_output) == Some(output);
            let unnamed = selected_name(app.inputs, app.selected_input) is None
                || selected_name(app.outputs, app.selected_output) is None;
            let undone = AppView {
                engine_running: app.engine_running,
                error: app.error,
                ..after
            };
            &&& !after.engine_running
            &&& after.error is None
            &&& named ==> undone == app.logged(
                "starting audio engine: input="@ + input + ", output="@ + output,
            )
            &&& unnamed ==> undone == app
        }),
{
}

/// An engine that started runs, and one that did not leaves its error; neither
/// touches anything but the log beside that.
pub proof fn law_start_is_noted(app: AppView, e: Seq<char>)
    ensures
        app.engine_tried(Ok(())).engine_running,
        (AppView { engine_running: app.engine_running, ..app.engine_tried(Ok(())) }) == app.logged(
            "audio engine started"@,
        ),
        app.engine_tried(Err(e)).error == Some(e),
        app.engine_tried(Err(e)).engine_running == app.engine_running,
        (AppView { error: app.error, ..app.engine_tried(Err(e)) }) == app.logged("error: "@ + e),
{
}

/// The name of the selected device is the name at the selected position, and
/// there is none where nothing is selected, nothing is there, or its name is
/// not known.
pub proof fn law_name_of_the_selected_device(
    names: Seq<Option<Seq<char>>>,
    selected: Option<usize>,
)
    ensures
        selected is None ==> selected_name(names, selected) is None,
        selected matches Some(i) ==> i >= names.len() ==> selected_name(names, selected) is None,
        selected matches Some(i) ==> i < names.len() ==> selected_name(names, selected)
            == names[i as int],
        selected_name(names, selected) matches Some(name) ==> device_label(names, selected)
            == name,
        selected_name(names, selected) is None ==> device_label(names, selected) == "<none>"@,
{
}

/// What is saved is what the panel shows: the names of the selected devices,
/// the number of the mode, and the switches.
pub proof fn law_what_is_saved(app: AppView)
    ensures
        app.saved_config().input_device_name == selected_name(app.inputs, app.selected_input),
        app.saved_config().output_device_name == selected_name(app.outputs, app.selected_output),
        app.channel == ChannelSelection::Both ==> app.saved_config().mode_code == Some(0u8),
        app.channel == ChannelSelection::Left && !app.mirror ==> app.saved_config().mode_code
            == Some(1u8),
        app.channel == ChannelSelection::Left && app.mirror ==> app.saved_config().mode_code
            == Some(2u8),
        app.channel == ChannelSelection::Right && !app.mirror ==> app.saved_config().mode_code
            == Some(3u8),
        app.channel == ChannelSelection::Right && app.mirror ==> app.saved_config().mode_code
            == Some(4u8),
        app.saved_config().muted == app.muted,
        app.saved_config().dev_console == app.dev_console,
        app.saved_config().simple_browser_selection == app.simple_browser_selection,
{
}

/// What the app starts with: the devices that were found, the remembered mode
/// and switches, every other process that plays, nothing running, shown or
/// routed yet; and the first browser among the sessions selected and queued.
pub proof fn law_how_the_app_starts(
    startup: StartupView,
    mode_handle: ModeHandle,
    mute_handle: MuteHandle,
)
    requires
        without_pid(startup.sessions, startup.self_pid).len() <= usize::MAX,
        startup.inputs.len() <= usize::MAX,
    ensures
        ({
            let app = initial_state(startup, mode_handle, mute_handle).announced();
            let others = without_pid(startup.sessions, startup.self_pid);
            &&& app.inputs == startup.inputs
            &&& app.outputs == startup.outputs
            &&& startup.config.mode_code is None ==> app.mode() == ChannelMode::Both
            &&& startup.config.mode_code matches Some(code) ==> app.mode() == ChannelMode::of_code(
                code,
            )
            &&& app.channel == ChannelSelection::Both ==> !app.mirror
            &&& app.muted == startup.config.muted
            &&& app.dev_console == startup.config.dev_console
            &&& app.simple_browser_selection == startup.config.simple_browser_selection
            &&& app.mode_handle == mode_handle
            &&& app.mute_handle == mute_handle
            &&& app.audio_sessions == others
            &&& app.pending_route == app.selected_session
            &&& match app.selected_session {
                Some(i) => {
                    &&& i < others.len()
                    &&& is_browser(others[i as int].exe_name)
                    &&& forall|j: int| 0 <= j < i ==> !is_browser((#[trigger] others[j]).exe_name)
                },
                None => forall|j: int|
                    0 <= j < others.len() ==> !is_browser((#[trigger] others[j]).exe_name),
            }
            &&& app.show_vb_cable_warning <==> forall|j: int|
                0 <= j < app.inputs.len() && (#[trigger] app.inputs[j]) is Some ==> !is_substring(
                    lowercase(app.inputs[j]->0),
                    lowercase("VB-Audio Virtual Cable"@),
                )
            &&& !app.engine_running && !app.show_settings && app.settings_frames == 0
            &&& app.error is None && app.route_status is None && app.active_route is None
        }),
{
    let others = without_pid(startup.sessions, startup.self_pid);
    law_auto_route_takes_the_first_browser(others);
    law_search_finds_the_first(startup.inputs, "VB-Audio Virtual Cable"@);
    law_controls_show_the_mode(initial_mode(startup.config));
}

/// Which devices the app starts with where nothing of the saved choice is
/// there: for the input the virtual cable, for the output the default device;
/// and where these are not there either, the first.
pub proof fn law_devices_at_the_start(
    startup: StartupView,
    mode_handle: ModeHandle,
    mute_handle: MuteHandle,
)
    requires
        startup.inputs.len() <= usize::MAX,
        startup.outputs.len() <= usize::MAX,
    ensures
        ({
            let app = initial_state(startup, mode_handle, mute_handle).announced();
            let saved_input = startup.config.input_device_name;
            let saved_output = startup.config.output_device_name;
            let cable = device_named(startup.inputs, "VB-Audio Virtual Cable"@);
            &&& saved_input is None && cable is Some ==> app.selected_input == cable
            &&& saved_input is None && cable is None && startup.inputs.len() > 0
                ==> app.selected_input == Some(0usize)
            &&& saved_input matches Some(name) ==> {
                &&& exactly_named(startup.inputs, name) is Some ==> app.selected_input
                    == exactly_named(startup.inputs, name)
                &&& exactly_named(startup.inputs, name) is None && device_named(
                    startup.inputs,
                    name,
                ) is Some ==> app.selected_input == device_named(startup.inputs, name)
                &&& device_named(startup.inputs, name) is None && cable is Some
                    ==> app.selected_input == cable
            }
            &&& saved_output matches Some(name) ==> {
                &&& exactly_named(startup.outputs, name) is Some ==> app.selected_output
                    == exactly_named(startup.outputs, name)
                &&& exactly_named(startup.outputs, name) is None && device_named(
                    startup.outputs,
                    name,
                ) is Some ==> app.selected_output == device_named(startup.outputs, name)
            }
            &&& saved_output is None ==> (startup.default_output matches Some(name) ==> {
                &&& exactly_named(startup.outputs, name) is Some ==> app.selected_output
                    == exactly_named(startup.outputs, name)
                &&& exactly_named(startup.outputs, name) is None && device_named(
                    startup.outputs,
                    name,
                ) is Some ==> app.selected_output == device_named(startup.outputs, name)
            })
            &&& saved_output is None && startup.default_output is None && startup.outputs.len() > 0
                ==> app.selected_output == Some(0usize)
        }),
{
    if startup.config.input_device_name is Some {
        let name = startup.config.input_device_name->0;
        law_exact_search_finds_the_first(startup.inputs, name);
        if exactly_named(startup.inputs, name) is Some {
            law_found_by_its_name(startup.inputs, exactly_named(startup.inputs, name)->0 as int);
        }
    }
}

/// What is logged at the start, line by line.
pub proof fn law_start_is_logged(app: AppView)
    requires
        app.dev_log.len() == 0,
    ensures
        app.announced().dev_log.len() == 5,
        app.announced().dev_log[0] == "searching for VB-Audio Virtual Cable..."@,
        !app.show_vb_cable_warning ==> app.announced().dev_log[1] == "found VB-Audio Virtual Cable"@,
        app.show_vb_cable_warning ==> app.announced().dev_log[1]
            == "VB-Audio Virtual Cable not found"@,
        app.announced().dev_log[2] == "selected input: "@ + device_label(
            app.inputs,
            app.selected_input,
        ) + ", output: "@ + device_label(app.outputs, app.selected_output),
        app.announced().dev_log[3] == "checking for active Firefox/Chrome audio sessions..."@,
        app.selected_session is None ==> app.announced().dev_log[4]
            == "no Firefox/Chrome session found to auto-route"@,
        app.selected_session matches Some(i) ==> i < app.audio_sessions.len()
            ==> app.announced().dev_log[4] == "auto-selected "@
            + app.audio_sessions[i as int].exe_name + " (pid "@ + decimal(
            app.audio_sessions[i as int].pid as nat,
        ) + ") for routing"@,
        (AppView { dev_log: app.dev_log, echo: app.echo, ..app.announced() }) == app,
        app.announced().echo == app.echo + app.announced().dev_log,
{
    assert(app.announced().echo =~= app.echo + app.announced().dev_log);
}

/// What is found at the start stands for what it holds; sessions that could not
/// be listed count as none.
pub proof fn law_startup_view(startup: Startup)
    ensures
        startup@.inputs == all_opt_chars(startup.inputs@),
        startup@.outputs == all_opt_chars(startup.outputs@),
        startup@.default_output == opt_chars(startup.default_output),
        startup@.config == startup.config@,
        startup@.self_pid == startup.self_pid,
        startup.sessions matches Ok(sessions) ==> startup@.sessions == sessions_view(sessions@),
        startup.sessions is Err ==> startup@.sessions.len() == 0,
{
}

/// An outcome stands for success, or for the text of its error.
pub proof fn law_outcome_view(outcome: Result<(), String>)
    ensures
        outcome is Ok ==> outcome_view(outcome) == Ok::<(), Seq<char>>(()),
        outcome matches Err(e) ==> outcome_view(outcome) == Err::<(), Seq<char>>(e@),
{
}

/// A saved choice that finds no device is as good as none.
pub proof fn law_choice_that_is_gone(
    startup: StartupView,
    mode_handle: ModeHandle,
    mute_handle: MuteHandle,
    input: Seq<char>,
    output: Seq<char>,
)
    requires
        startup.config.input_device_name == Some(input),
        startup.config.output_device_name == Some(output),
        startup.inputs.len() <= usize::MAX,
        startup.outputs.len() <= usize::MAX,
        device_named(startup.inputs, input) is None,
        device_named(startup.outputs, output) is None,
    ensures
        ({
            let without = StartupView {
                config: ConfigView {
                    input_device_name: None,
                    output_device_name: None,
                    ..startup.config
                },
                ..startup
            };
            initial_state(startup, mode_handle, mute_handle).announced() == initial_state(
                without,
                mode_handle,
                mute_handle,
            ).announced()
        }),
{
    law_exact_search_finds_the_first(startup.inputs, input);
    law_exact_search_finds_the_first(startup.outputs, output);
    if exactly_named(startup.inputs, input) is Some {
        law_found_by_its_name(startup.inputs, exactly_named(startup.inputs, input)->0 as int);
    }
    if exactly_named(startup.outputs, output) is Some {
        law_found_by_its_name(startup.outputs, exactly_named(startup.outputs, output)->0 as int);
    }
}

/// What a full name finds: the device of exactly that name, else the first
/// whose name holds it, and nothing where no name is given.
pub proof fn law_called_device(names: Seq<Option<Seq<char>>>, name: Seq<char>)
    ensures
        device_called(names, None) is None,
        exactly_named(names, name) is Some ==> device_called(names, Some(name)) == exactly_named(
            names,
            name,
        ),
        exactly_named(names, name) is None ==> device_called(names, Some(name)) == device_named(
            names,
            name,
        ),
{
}

/// What a call of `restart_engine` asks for and leaves: an engine between the
/// selected devices, by their own positions, wherever both are there, and a
/// save otherwise; no engine runs and no error is shown; the selection stays.
pub proof fn law_restart_call(app: &mut App, step: EngineStep)
    requires
        call_ensures(App::restart_engine, (app,), step),
    ensures
        step matches EngineStep::Start { input, output } ==> {
            &&& old(app).selected_input == Some(input)
            &&& input < old(app).inputs@.len()
            &&& old(app).selected_output == Some(output)
            &&& output < old(app).outputs@.len()
        },
        step == EngineStep::SaveConfig ==> {
            ||| old(app).selected_input is None
            ||| old(app).selected_input->0 >= old(app).inputs@.len()
            ||| old(app).selected_output is None
            ||| old(app).selected_output->0 >= old(app).outputs@.len()
        },
        !final(app).engine_running,
        final(app).error is None,
        final(app).selected_input == old(app).selected_input,
        final(app).selected_output == old(app).selected_output,
        final(app)@.saved_config() == old(app)@.saved_config(),
{
    law_view_shows_every_field(*old(app));
    law_view_shows_every_field(*final(app));
    law_restart_starts_the_selected_devices(old(app)@);
}

/// What a call of `engine_started` leaves: an engine that runs, or the error
/// that kept it from starting; and a save either way.
pub proof fn law_engine_started_call(
    app: &mut App,
    outcome: Result<(), String>,
    step: EngineStep,
)
    requires
        call_ensures(App::engine_started, (app, outcome), step),
    ensures
        step == EngineStep::SaveConfig,
        outcome is Ok ==> final(app).engine_running && final(app)@.error == old(app)@.error,
        outcome matches Err(e) ==> final(app)@.error == Some(e@) && final(app).engine_running
            == old(app).engine_running,
        final(app)@.saved_config() == old(app)@.saved_config(),
{
    law_view_shows_every_field(*old(app));
    law_view_shows_every_field(*final(app));
}

/// What a call of `save_config` hands out: the names of the selected devices,
/// the number of the mode that plays, and the switches as they stand.
pub proof fn law_save_call(app: App, config: AppConfig)
    requires
        call_ensures(App::save_config, (&app,), config),
    ensures
        config@.input_device_name == selected_name(app@.inputs, app.selected_input),
        config@.output_device_name == selected_name(app@.outputs, app.selected_output),
        config.mode_code is Some,
        ChannelMode::of_code(config.mode_code->0) == app@.mode(),
        config.muted == app.muted,
        config.dev_console == app.dev_console,
        config.simple_browser_selection == app.simple_browser_selection,
{
    law_view_shows_every_field(app);
    law_code_roundtrip(app@.mode());
}

/// What a call of `choose_device` answers: a device that the saved name finds,
/// exactly before in part; else the one to fall back on; else the first.
pub proof fn law_choose_call(
    names: &[Option<String>],
    saved: &Option<String>,
    fallback: Option<usize>,
    chosen: Option<usize>,
)
    requires
        call_ensures(choose_device, (names, saved, fallback), chosen),
    ensures
        ({
            let all = all_opt_chars(names@);
            &&& saved is None && fallback is Some ==> chosen == fallback
            &&& saved is None && fallback is None && names@.len() > 0 ==> chosen == Some(0usize)
            &&& saved matches Some(name) ==> {
                &&& exactly_named(all, name@) is Some ==> chosen == exactly_named(all, name@)
                &&& exactly_named(all, name@) is None && device_named(all, name@) is Some
                    ==> chosen == device_named(all, name@)
                &&& exactly_named(all, name@) is None && device_named(all, name@) is None
                    && fallback is Some ==> chosen == fallback
            }
        }),
{
}

/// What a call of `App::new` gives: an app that plays in the remembered mode
/// and mute state, and whose handles may show both; that lists every process
/// but its own; that has queued what it selected; and that has nothing running,
/// shown or routed yet.
pub proof fn law_new_call(startup: Startup, app: App)
    requires
        call_ensures(App::new, (startup,), app),
    ensures
        app.muted == startup.config.muted,
        app.mute_handle.may_show(startup.config.muted),
        startup.config.mode_code matches Some(code) ==> app@.mode() == ChannelMode::of_code(code),
        startup.config.mode_code is None ==> app.channel == ChannelSelection::Both,
        app.mode_handle.may_show(app@.mode()),
        app.dev_console == startup.config.dev_console,
        app.simple_browser_selection == startup.config.simple_browser_selection,
        app.pending_route == app.selected_session,
        app@.inputs == all_opt_chars(startup.inputs@),
        app@.outputs == all_opt_chars(startup.outputs@),
        startup.sessions is Err ==> app.audio_sessions@.len() == 0,
        startup.sessions matches Ok(sessions) ==> app@.audio_sessions == without_pid(
            sessions_view(sessions@),
            startup.self_pid,
        ),
        !app.engine_running && !app.show_settings && app.settings_frames == 0,
        app.error is None && app.route_status is None && app.active_route is None,
{
    law_view_shows_every_field(app);
    law_startup_view(startup);
    law_controls_show_the_mode(initial_mode(startup@.config));
    reveal(Seq::filter);
}

} // verus!
