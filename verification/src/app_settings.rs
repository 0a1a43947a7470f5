use vstd::prelude::*;

verus! {

/// Parsed contents of the app settings file.
#[derive(Clone, Debug)]
pub struct AppSettingsValue {
    /// JSON schema URL to validate the settings file.
    pub schema: Option<String>,
    /// Widget configs to be launched on startup.
    pub startup_configs: Vec<StartupConfig>,
}

/// A widget preset to launch on startup.
#[derive(Clone, Debug, PartialEq)]
pub struct StartupConfig {
    /// ID of the widget pack to launch on startup.
    pub pack: String,
    /// Name of the widget within the widget pack to launch on startup.
    pub widget: String,
    /// Preset name within the widget config.
    pub preset: String,
}

/// The app settings: where config and cache files live, and the parsed
/// settings file.
#[derive(Debug)]
pub struct AppSettings {
    /// Directory where config files are stored.
    pub config_dir: String,
    /// Directory where webview cache files are stored.
    pub webview_cache_dir: String,
    /// Parsed app settings value.
    pub value: AppSettingsValue,
}

/// The widgets of the Logical Lunge shell, in the order they start.
pub open spec fn default_startup_widgets() -> Seq<Seq<char>> {
    seq![
        "bar"@,
        "overview"@,
        "sidebar-right"@,
        "toast"@,
        "osk"@,
        "update"@,
        "session"@,
    ]
}

/// Whether `value` is the default settings: no schema, and on startup the
/// default preset of each of the shell's widgets from the `logical-lunge`
/// pack.
pub open spec fn is_default_settings(value: AppSettingsValue) -> bool {
    &&& value.schema is None
    &&& value.startup_configs@.len() == default_startup_widgets().len()
    &&& forall|i: int|
        0 <= i < value.startup_configs@.len() ==> {
            &&& (#[trigger] value.startup_configs@[i]).pack@ == "logical-lunge"@
            &&& value.startup_configs@[i].widget@ == default_startup_widgets()[i]
            &&& value.startup_configs@[i].preset@ == "default"@
        }
}

/// The startup config of the default preset of a widget of the shell's
/// pack.
fn shell_startup_config(widget: &str) -> (res: StartupConfig)
    ensures
        res.pack@ == "logical-lunge"@,
        res.widget@ == widget@,
        res.preset@ == "default"@,
{
    StartupConfig {
        pack: String::from_str("logical-lunge"),
        widget: String::from_str(widget),
        preset: String::from_str("default"),
    }
}

impl AppSettings {
    /// Default settings: the Logical Lunge shell's widgets (the same list
    /// the installer writes).
    pub fn default_value() -> (res: AppSettingsValue)
        ensures
            is_default_settings(res),
    {
        let mut startup_configs: Vec<StartupConfig> = Vec::new();
        startup_configs.push(shell_startup_config("bar"));
        startup_configs.push(shell_startup_config("overview"));
        startup_configs.push(shell_startup_config("sidebar-right"));
        startup_configs.push(shell_startup_config("toast"));
        startup_configs.push(shell_startup_config("osk"));
        startup_configs.push(shell_startup_config("update"));
        startup_configs.push(shell_startup_config("session"));
        AppSettingsValue { schema: None, startup_configs }
    }

    /// The settings to start with, given what parsing the settings file
    /// gave: the parsed settings, or the defaults where the file could not
    /// be read or parsed (e.g. after an edit by hand). This never fails, so
    /// a broken file still starts the shell's default widgets; the file is
    /// left as it is.
    pub fn settings_or_default(parsed: Option<AppSettingsValue>) -> (res: AppSettingsValue)
        ensures
            match parsed {
                Some(value) => res == value,
                None => is_default_settings(res),
            },
    {
        match parsed {
            Some(value) => value,
            None => Self::default_value(),
        }
    }

    /// Returns the widget configs to open on startup.
    pub fn startup_configs(&self) -> (res: &[StartupConfig])
        ensures
            res@ == self.value.startup_configs@,
    {
        self.value.startup_configs.as_slice()
    }
}

} // verus!
