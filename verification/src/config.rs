//! The settings that are remembered between runs.
use crate::text::opt_chars;
use vstd::prelude::*;

verus! {

/// The last-used devices, mode and switches.
pub struct AppConfig {
    pub input_device_name: Option<String>,
    pub output_device_name: Option<String>,
    pub mode_code: Option<u8>,
    pub muted: bool,
    pub dev_console: bool,
    pub simple_browser_selection: bool,
}

/// What an `AppConfig` stands for.
#[verifier::ext_equal]
pub struct ConfigView {
    pub input_device_name: Option<Seq<char>>,
    pub output_device_name: Option<Seq<char>>,
    pub mode_code: Option<u8>,
    pub muted: bool,
    pub dev_console: bool,
    pub simple_browser_selection: bool,
}

impl View for AppConfig {
    type V = ConfigView;

    open spec fn view(&self) -> ConfigView {
        ConfigView {
            input_device_name: opt_chars(self.input_device_name),
            output_device_name: opt_chars(self.output_device_name),
            mode_code: self.mode_code,
            muted: self.muted,
            dev_console: self.dev_console,
            simple_browser_selection: self.simple_browser_selection,
        }
    }
}

/// The settings of a first run: nothing is chosen and every switch is off.
pub open spec fn default_config() -> ConfigView {
    ConfigView {
        input_device_name: None,
        output_device_name: None,
        mode_code: None,
        muted: false,
        dev_console: false,
        simple_browser_selection: false,
    }
}

impl Default for AppConfig {
    fn default() -> (config: Self)
        ensures
            config@ == default_config(),
    {
        AppConfig {
            input_device_name: None,
            output_device_name: None,
            mode_code: None,
            muted: false,
            dev_console: false,
            simple_browser_selection: false,
        }
    }
}

impl Clone for AppConfig {
    fn clone(&self) -> (copy: Self)
        ensures
            copy@ == self@,
    {
        AppConfig {
            input_device_name: self.input_device_name.clone(),
            output_device_name: self.output_device_name.clone(),
            mode_code: self.mode_code,
            muted: self.muted,
            dev_console: self.dev_console,
            simple_browser_selection: self.simple_browser_selection,
        }
    }
}

/// A file in a folder of its own under the user's configuration directory.
pub struct ConfigPath<P> {
    /// The configuration directory.
    pub base: P,
    /// The folder in it.
    pub folder: String,
    /// The file in that folder.
    pub file: String,
}

/// Where the settings are kept, given the user's configuration directory.
pub fn config_path<P>(base: Option<P>) -> (path: Option<ConfigPath<P>>)
    ensures
        path is Some <==> base is Some,
        path matches Some(path) ==> {
            &&& path.base == base->0
            &&& path.folder@ == "audio-isolation-mirror"@
            &&& path.file@ == "config.json"@
        },
{
    match base {
        Some(base) => Some(
            ConfigPath {
                base,
                folder: "audio-isolation-mirror".to_owned(),
                file: "config.json".to_owned(),
            },
        ),
        None => None,
    }
}

/// What is to be done to keep the settings: make the folder of `path`, then,
/// where there is a text, write it to the file.
pub struct SavePlan<P> {
    pub path: ConfigPath<P>,
    pub text: Option<String>,
}

impl AppConfig {
    /// The settings to start with, given those that were found in the file.
    pub fn load(found: Option<AppConfig>) -> (config: Self)
        ensures
            match found {
                Some(found) => config == found,
                None => config@ == default_config(),
            },
    {
        match found {
            Some(found) => found,
            None => AppConfig::default(),
        }
    }

    /// What is to be done to keep these settings, given the user's
    /// configuration directory and the text that they are written as. Nothing
    /// is kept where there is no such directory.
    pub fn save<P>(base: Option<P>, text: Option<String>) -> (plan: Option<SavePlan<P>>)
        ensures
            plan is Some <==> base is Some,
            plan matches Some(plan) ==> {
                &&& plan.path.base == base->0
                &&& plan.path.folder@ == "audio-isolation-mirror"@
                &&& plan.path.file@ == "config.json"@
                &&& plan.text == text
            },
    {
        match config_path(base) {
            Some(path) => Some(SavePlan { path, text }),
            None => None,
        }
    }
}

/// On a first run nothing is chosen and every switch is off.
pub proof fn law_first_run()
    ensures
        default_config().input_device_name is None,
        default_config().output_device_name is None,
        default_config().mode_code is None,
        !default_config().muted,
        !default_config().dev_console,
        !default_config().simple_browser_selection,
{
}

/// What settings stand for is what their fields hold, each one of them.
pub proof fn law_config_view(config: AppConfig)
    ensures
        config.input_device_name matches Some(n) ==> config@.input_device_name == Some(n@),
        config.input_device_name is None ==> config@.input_device_name is None,
        config.output_device_name matches Some(n) ==> config@.output_device_name == Some(n@),
        config.output_device_name is None ==> config@.output_device_name is None,
        config@.mode_code == config.mode_code,
        config@.muted == config.muted,
        config@.dev_console == config.dev_console,
        config@.simple_browser_selection == config.simple_browser_selection,
{
}

/// Settings are found again where they were kept: they are read from the file
/// that they are written to, `audio-isolation-mirror/config.json` under the
/// configuration directory, and neither happens without that directory.
pub proof fn law_settings_are_kept_in_one_place<P>(
    base: Option<P>,
    text: Option<String>,
    path: Option<ConfigPath<P>>,
    plan: Option<SavePlan<P>>,
)
    requires
        call_ensures(config_path::<P>, (base,), path),
        call_ensures(AppConfig::save::<P>, (base, text), plan),
    ensures
        path is Some <==> base is Some,
        plan is Some <==> base is Some,
        base matches Some(dir) ==> {
            &&& path->0.base == dir
            &&& path->0.folder@ == "audio-isolation-mirror"@
            &&& path->0.file@ == "config.json"@
            &&& plan->0.path.base == path->0.base
            &&& plan->0.path.folder@ == path->0.folder@
            &&& plan->0.path.file@ == path->0.file@
            &&& plan->0.text == text
        },
{
}

/// Settings that were found are taken as they are, and where none were found
/// the app starts as on a first run.
pub proof fn law_found_settings_are_taken(
    found: AppConfig,
    config: AppConfig,
    first: AppConfig,
)
    requires
        call_ensures(AppConfig::load, (Some(found),), config),
        call_ensures(AppConfig::load, (None,), first),
    ensures
        config == found,
        first@ == default_config(),
{
}

} // verus!
