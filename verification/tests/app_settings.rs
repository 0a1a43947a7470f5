use zebar::app_settings::{AppSettings, AppSettingsValue, StartupConfig};
use zebar::shell::{exit_request_response, ExitResponse};

fn config(pack: &str, widget: &str, preset: &str) -> StartupConfig {
    StartupConfig { pack: pack.into(), widget: widget.into(), preset: preset.into() }
}

#[test]
fn default_settings_start_the_shell_widgets() {
    let value = AppSettings::default_value();
    assert_eq!(value.schema, None);
    let widgets: Vec<&str> = value.startup_configs.iter().map(|c| c.widget.as_str()).collect();
    assert_eq!(widgets, vec!["bar", "overview", "sidebar-right", "toast", "osk", "update", "session"]);
    for c in &value.startup_configs {
        assert_eq!(c.pack, "logical-lunge");
        assert_eq!(c.preset, "default");
    }
}

#[test]
fn unreadable_settings_fall_back_to_default() {
    let value = AppSettings::settings_or_default(None);
    assert_eq!(value.startup_configs, AppSettings::default_value().startup_configs);
}

#[test]
fn parsed_settings_are_kept() {
    let parsed = AppSettingsValue {
        schema: Some("https://example.com/schema.json".into()),
        startup_configs: vec![config("mine", "clock", "top")],
    };
    let value = AppSettings::settings_or_default(Some(parsed));
    assert_eq!(value.schema.as_deref(), Some("https://example.com/schema.json"));
    assert_eq!(value.startup_configs, vec![config("mine", "clock", "top")]);
}

#[test]
fn startup_configs_are_those_of_the_settings() {
    let settings = AppSettings {
        config_dir: "/c".into(),
        webview_cache_dir: "/cache".into(),
        value: AppSettingsValue {
            schema: None,
            startup_configs: vec![config("p", "w", "default"), config("p", "v", "big")],
        },
    };
    assert_eq!(settings.startup_configs(), &[config("p", "w", "default"), config("p", "v", "big")]);
}

#[test]
fn exit_without_code_is_prevented() {
    assert_eq!(exit_request_response(None), ExitResponse::PreventExit);
    assert_eq!(exit_request_response(Some(0)), ExitResponse::Proceed);
    assert_eq!(exit_request_response(Some(1)), ExitResponse::Proceed);
}
