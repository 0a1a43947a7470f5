use vstd::prelude::*;

use crate::widget_pack::{
    is_standalone_placement, standalone_placement, AnchorPoint, LengthValue, MonitorType,
    WidgetPlacement,
};

verus! {

/// Verbosity of the log written to standard output.
#[derive(Clone, Copy, Debug, PartialEq, Eq, Structural)]
pub enum LogLevel {
    Trace,
    Debug,
    Info,
    Warn,
    Error,
}

/// Arguments of the `startup` command.
#[derive(Clone, Debug, PartialEq)]
pub struct StartupArgs {
    /// Directory to read configs from, in place of `~/.glzr/zebar`.
    pub config_dir: Option<String>,
    /// Verbosity asked for on the command line.
    pub log_level: LogLevel,
}

/// Arguments of the command that starts one widget on its own.
#[derive(Clone, Debug, PartialEq)]
pub struct StartWidgetArgs {
    pub pack_id: String,
    pub widget_name: String,
    pub anchor: AnchorPoint,
    pub offset_x: LengthValue,
    pub offset_y: LengthValue,
    pub width: LengthValue,
    pub height: LengthValue,
    pub monitor_type: MonitorType,
}

/// Arguments of the command that starts one preset of a widget.
#[derive(Clone, Debug, PartialEq)]
pub struct StartWidgetPresetArgs {
    pub pack_id: String,
    pub widget_name: String,
    pub preset_name: String,
}

/// What a state query asks for.
#[derive(Clone, Copy, Debug, PartialEq, Eq, Structural)]
pub enum QueryArgs {
    Monitors,
}

/// A command given on the command line.
#[derive(Clone, Debug, PartialEq)]
pub enum CliCommand {
    /// Start the widgets of the settings file.
    Startup(StartupArgs),
    /// Start one widget with a placement given on the command line.
    StartWidget(StartWidgetArgs),
    /// Start one preset of a widget.
    StartWidgetPreset(StartWidgetPresetArgs),
    /// Print state and exit.
    Query(QueryArgs),
    /// No command: behaves as `startup` with its defaults.
    Empty,
}

/// How a widget is to be placed when opened.
#[derive(Clone, Debug, PartialEq)]
pub enum WidgetOpenOptions {
    /// At the given placement, outside any preset.
    Standalone(WidgetPlacement),
    /// At the preset with the given name.
    Preset(String),
}

/// The widgets that a command opens.
#[derive(Clone, Debug, PartialEq)]
pub enum OpenRequest {
    /// One widget of a pack.
    Widget { pack_id: String, widget_name: String, options: WidgetOpenOptions },
    /// The widgets that the settings list for startup.
    Startup,
}

/// The widgets to open for a command other than a query: the widget of a
/// `start-widget` command, standalone at the placement its arguments give;
/// the named preset of a `start-widget-preset` command; the startup widgets
/// for `startup` or no command.
pub fn open_request(command: CliCommand) -> (res: OpenRequest)
    requires
        !(command is Query),
    ensures
        match command {
            CliCommand::StartWidget(args) => {
                &&& res matches OpenRequest::Widget { pack_id, widget_name, options }
                &&& pack_id == args.pack_id
                &&& widget_name == args.widget_name
                &&& options matches WidgetOpenOptions::Standalone(placement)
                &&& placement.anchor == args.anchor
                &&& placement.offset_x == args.offset_x
                &&& placement.offset_y == args.offset_y
                &&& placement.width == args.width
                &&& placement.height == args.height
                &&& is_standalone_placement(
                    placement,
                    args.anchor,
                    args.offset_x,
                    args.offset_y,
                    args.width,
                    args.height,
                    args.monitor_type,
                )
            },
            CliCommand::StartWidgetPreset(args) => {
                &&& res matches OpenRequest::Widget { pack_id, widget_name, options }
                &&& pack_id == args.pack_id
                &&& widget_name == args.widget_name
                &&& options == WidgetOpenOptions::Preset(args.preset_name)
            },
            CliCommand::Startup(_) | CliCommand::Empty => res == OpenRequest::Startup,
            CliCommand::Query(_) => true,
        },
{
    match command {
        CliCommand::StartWidget(args) => OpenRequest::Widget {
            pack_id: args.pack_id,
            widget_name: args.widget_name,
            options: WidgetOpenOptions::Standalone(
                standalone_placement(
                    args.anchor,
                    args.offset_x,
                    args.offset_y,
                    args.width,
                    args.height,
                    args.monitor_type,
                ),
            ),
        },
        CliCommand::StartWidgetPreset(args) => OpenRequest::Widget {
            pack_id: args.pack_id,
            widget_name: args.widget_name,
            options: WidgetOpenOptions::Preset(args.preset_name),
        },
        CliCommand::Startup(_) | CliCommand::Empty | CliCommand::Query(_) => OpenRequest::Startup,
    }
}

/// The log level to start with: the one the `startup` command asks for,
/// and `Info` for every other command.
pub fn log_level(command: &CliCommand) -> (res: LogLevel)
    ensures
        res == (match command {
            CliCommand::Startup(args) => args.log_level,
            _ => LogLevel::Info,
        }),
{
    match command {
        CliCommand::Startup(args) => args.log_level,
        _ => LogLevel::Info,
    }
}

/// The directory to read configs from: the one the `startup` command
/// names, else `home_config_dir` (`~/.glzr/zebar`).
pub fn config_dir(command: &CliCommand, home_config_dir: String) -> (res: String)
    ensures
        res@ == (match command {
            CliCommand::Startup(args) => match args.config_dir {
                Some(dir) => dir@,
                None => home_config_dir@,
            },
            _ => home_config_dir@,
        }),
{
    match command {
        CliCommand::Startup(args) => match &args.config_dir {
            Some(dir) => dir.clone(),
            None => home_config_dir,
        },
        _ => home_config_dir,
    }
}

/// What a running shell does with the command line of a second instance.
#[derive(Clone, Debug, PartialEq)]
pub enum SecondInstanceAction {
    /// The arguments could not be parsed: report it.
    ReportParseFailure,
    /// No command was given: nothing to do.
    Ignore,
    /// Open the widgets of the command.
    Open(CliCommand),
}

/// The action for the command line of a second instance, given the command
/// it parsed to (`None` where parsing failed).
pub fn second_instance_action(parsed: Option<CliCommand>) -> (res: SecondInstanceAction)
    ensures
        res == (match parsed {
            None => SecondInstanceAction::ReportParseFailure,
            Some(CliCommand::Empty) => SecondInstanceAction::Ignore,
            Some(command) => SecondInstanceAction::Open(command),
        }),
{
    match parsed {
        None => SecondInstanceAction::ReportParseFailure,
        Some(CliCommand::Empty) => SecondInstanceAction::Ignore,
        Some(command) => SecondInstanceAction::Open(command),
    }
}

} // verus!
