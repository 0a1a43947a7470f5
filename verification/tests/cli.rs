use zebar::cli::{
    config_dir, log_level, open_request, second_instance_action, CliCommand, LogLevel,
    OpenRequest, QueryArgs, SecondInstanceAction, StartWidgetArgs, StartWidgetPresetArgs,
    StartupArgs, WidgetOpenOptions,
};
use zebar::widget_pack::{AnchorPoint, DockConfig, LengthValue, MonitorSelection, MonitorType};

fn length(text: &str) -> LengthValue {
    LengthValue { text: text.to_string() }
}

fn startup(dir: Option<&str>, level: LogLevel) -> CliCommand {
    CliCommand::Startup(StartupArgs { config_dir: dir.map(String::from), log_level: level })
}

#[test]
fn start_widget_opens_standalone_placement() {
    let command = CliCommand::StartWidget(StartWidgetArgs {
        pack_id: "shell".into(),
        widget_name: "bar".into(),
        anchor: AnchorPoint::BottomLeft,
        offset_x: length("5px"),
        offset_y: length("0px"),
        width: length("50%"),
        height: length("32px"),
        monitor_type: MonitorType::Secondary,
    });
    match open_request(command) {
        OpenRequest::Widget { pack_id, widget_name, options: WidgetOpenOptions::Standalone(p) } => {
            assert_eq!(pack_id, "shell");
            assert_eq!(widget_name, "bar");
            assert_eq!(p.anchor, AnchorPoint::BottomLeft);
            assert_eq!(p.offset_x, length("5px"));
            assert_eq!(p.width, length("50%"));
            assert_eq!(p.height, length("32px"));
            assert_eq!(p.monitor_selection, MonitorSelection::Secondary);
            assert_eq!(p.dock_to_edge, DockConfig::default());
        }
        other => panic!("unexpected request: {:?}", other),
    }
}

#[test]
fn start_widget_preset_opens_named_preset() {
    let command = CliCommand::StartWidgetPreset(StartWidgetPresetArgs {
        pack_id: "shell".into(),
        widget_name: "toast".into(),
        preset_name: "top".into(),
    });
    assert_eq!(
        open_request(command),
        OpenRequest::Widget {
            pack_id: "shell".into(),
            widget_name: "toast".into(),
            options: WidgetOpenOptions::Preset("top".into()),
        }
    );
}

#[test]
fn startup_and_no_command_open_startup_widgets() {
    assert_eq!(open_request(startup(None, LogLevel::Debug)), OpenRequest::Startup);
    assert_eq!(open_request(CliCommand::Empty), OpenRequest::Startup);
}

#[test]
fn log_level_comes_from_startup_only() {
    assert_eq!(log_level(&startup(None, LogLevel::Trace)), LogLevel::Trace);
    assert_eq!(log_level(&CliCommand::Empty), LogLevel::Info);
    assert_eq!(log_level(&CliCommand::Query(QueryArgs::Monitors)), LogLevel::Info);
}

#[test]
fn config_dir_defaults_to_home() {
    let home = "/home/u/.glzr/zebar".to_string();
    assert_eq!(config_dir(&startup(Some("/etc/zebar"), LogLevel::Info), home.clone()), "/etc/zebar");
    assert_eq!(config_dir(&startup(None, LogLevel::Info), home.clone()), home);
    assert_eq!(config_dir(&CliCommand::Empty, home.clone()), home);
}

#[test]
fn second_instance_without_command_does_nothing() {
    assert_eq!(second_instance_action(None), SecondInstanceAction::ReportParseFailure);
    assert_eq!(second_instance_action(Some(CliCommand::Empty)), SecondInstanceAction::Ignore);
    assert_eq!(
        second_instance_action(Some(startup(None, LogLevel::Info))),
        SecondInstanceAction::Open(startup(None, LogLevel::Info))
    );
}
