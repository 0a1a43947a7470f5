use vstd::prelude::*;

verus! {

/// A length in a widget placement, as it is written in a pack config:
/// an amount followed by a unit, such as `"100%"` or `"40px"`.
#[derive(Clone, Debug, PartialEq)]
pub struct LengthValue {
    /// The written form of the length.
    pub text: String,
}

impl Default for LengthValue {
    /// A length of zero pixels.
    fn default() -> (res: Self)
        ensures
            res.text@ == "0px"@,
    {
        LengthValue { text: String::from_str("0px") }
    }
}

/// A widget pack found in the config directory.
#[derive(Clone, Debug)]
pub struct WidgetPack {
    /// Unique identifier for the pack.
    pub id: String,
    /// Type of the pack (always a local pack; Logical Lunge has no
    /// marketplace).
    pub pack_type: WidgetPackType,
    /// Deserialized pack config.
    pub config: WidgetPackConfig,
    /// Path to the pack config file.
    pub config_path: String,
    /// Path to the directory containing the pack config.
    ///
    /// This is the parent directory of `config_path`.
    pub directory_path: String,
}

/// All the files to include for the given widgets, widget by widget, each
/// widget's files in the order its config lists them.
pub open spec fn widgets_include_files(widgets: Seq<WidgetConfig>) -> Seq<String>
    decreases widgets.len(),
{
    if widgets.len() == 0 {
        Seq::empty()
    } else {
        widgets_include_files(widgets.drop_last()) + widgets.last().include_files@
    }
}

/// Whether `pack` is a pack as reading a pack config makes it: a custom pack
/// whose ID is the name in its config.
pub open spec fn is_found_pack(pack: WidgetPack) -> bool {
    &&& pack.id@ == pack.config.name@
    &&& pack.pack_type == WidgetPackType::Custom
}

/// The number of include patterns of the given widgets together.
pub open spec fn include_files_count(widgets: Seq<WidgetConfig>) -> nat
    decreases widgets.len(),
{
    if widgets.len() == 0 {
        0
    } else {
        include_files_count(widgets.drop_last()) + widgets.last().include_files@.len()
    }
}

/// Adding a widget after others adds all its patterns, in order, after
/// theirs: none is dropped, none is moved.
pub proof fn law_include_files_of_added_widget(widgets: Seq<WidgetConfig>, widget: WidgetConfig)
    ensures
        widgets_include_files(widgets.push(widget)) == widgets_include_files(widgets)
            + widget.include_files@,
{
    assert(widgets.push(widget).drop_last() =~= widgets);
}

/// The include patterns of widgets are as many as all the widgets' patterns
/// together.
pub proof fn law_include_files_count(widgets: Seq<WidgetConfig>)
    ensures
        widgets_include_files(widgets).len() == include_files_count(widgets),
    decreases widgets.len(),
{
    if widgets.len() > 0 {
        law_include_files_count(widgets.drop_last());
    }
}

/// The `j`-th pattern of the widget at index `k` stands in the include
/// patterns at the number of patterns of the widgets before it, plus `j`.
pub proof fn law_include_files_position(widgets: Seq<WidgetConfig>, k: int, j: int)
    requires
        0 <= k < widgets.len(),
        0 <= j < widgets[k].include_files@.len(),
    ensures
        include_files_count(widgets.take(k)) + j < widgets_include_files(widgets).len(),
        widgets_include_files(widgets)[include_files_count(widgets.take(k)) + j]
            == widgets[k].include_files@[j],
    decreases widgets.len(),
{
    let init = widgets.drop_last();
    law_include_files_count(init);
    law_include_files_count(widgets.take(k));
    if k == widgets.len() - 1 {
        assert(widgets.take(k) =~= init);
    } else {
        assert(init.take(k) =~= widgets.take(k));
        law_include_files_position(init, k, j);
    }
}

impl WidgetPack {
    /// The pack that a config read from `config_path` describes: a custom
    /// pack named after the config, in the directory `directory_path`.
    pub fn from_config(config: WidgetPackConfig, config_path: String, directory_path: String) -> (res: Self)
        ensures
            res.id@ == config.name@,
            res.pack_type == WidgetPackType::Custom,
            res.config == config,
            res.config_path == config_path,
            res.directory_path == directory_path,
            is_found_pack(res),
    {
        WidgetPack {
            id: config.name.clone(),
            pack_type: WidgetPackType::Custom,
            config_path,
            directory_path,
            config,
        }
    }

    /// Returns a list of file patterns to include for all widgets in the
    /// pack.
    pub fn include_files(&self) -> (res: Vec<String>)
        ensures
            res@ == widgets_include_files(self.config.widgets@),
    {
        let widgets = &self.config.widgets;
        let mut res: Vec<String> = Vec::new();
        let mut i: usize = 0;
        while i < widgets.len()
            invariant
                i <= widgets.len(),
                res@ == widgets_include_files(widgets@.take(i as int)),
            decreases widgets.len() - i,
        {
            let files = &widgets[i].include_files;
            let mut j: usize = 0;
            while j < files.len()
                invariant
                    i < widgets.len(),
                    files == widgets@[i as int].include_files,
                    j <= files.len(),
                    res@ == widgets_include_files(widgets@.take(i as int)) + files@.take(j as int),
                decreases files.len() - j,
            {
                res.push(files[j].clone());
                assert(files@.take(j + 1) =~= files@.take(j as int).push(files@[j as int]));
                j = j + 1;
            }
            assert(widgets@.take(i + 1).drop_last() =~= widgets@.take(i as int));
            assert(files@.take(j as int) =~= files@);
            i = i + 1;
        }
        assert(widgets@.take(i as int) =~= widgets@);
        res
    }
}

/// Deserialized widget pack.
///
/// This is the type of the `zpack.json` file.
#[derive(Clone, Debug)]
pub struct WidgetPackConfig {
    /// JSON schema URL to validate the widget pack file.
    pub schema: Option<String>,
    /// Name of the pack.
    pub name: String,
    /// Version of the pack.
    pub version: String,
    /// Description of the pack.
    pub description: String,
    /// Tags of the pack.
    pub tags: Vec<String>,
    /// Preview images of the pack.
    pub preview_images: Vec<String>,
    /// URL of the repository containing the pack.
    pub repository_url: String,
    /// Widgets in the pack.
    pub widgets: Vec<WidgetConfig>,
}

/// Where a widget pack comes from.
#[derive(Clone, Copy, Debug, PartialEq, Eq, Structural)]
pub enum WidgetPackType {
    Custom,
}

/// Deserialized widget config.
#[derive(Clone, Debug, PartialEq)]
pub struct WidgetConfig {
    /// Name of the widget.
    pub name: String,
    /// Relative path to entry point HTML file.
    pub html_path: String,
    /// Whether to show the window above/below all others.
    pub z_order: ZOrder,
    /// Whether the window should be shown in the taskbar.
    pub shown_in_taskbar: bool,
    /// Whether the window should be focused when opened.
    pub focused: bool,
    /// Whether the window should have resize handles.
    pub resizable: bool,
    /// Whether the window frame should be transparent.
    pub transparent: bool,
    /// Files to include as part of the widget.
    pub include_files: Vec<String>,
    /// How network requests should be cached.
    pub caching: WidgetCaching,
    /// Privileges for the widget.
    pub privileges: WidgetPrivileges,
    /// Where to place the widget.
    pub presets: Vec<WidgetPreset>,
}

/// Stacking order of a widget window.
#[derive(Clone, Copy, Debug, PartialEq, Eq, Structural)]
pub enum ZOrder {
    BottomMost,
    Normal,
    TopMost,
}

/// How a widget caches network resources.
#[derive(Clone, Debug, PartialEq, Eq)]
pub struct WidgetCaching {
    /// Default duration to cache network resources for (in seconds).
    pub default_duration: u32,
    /// Custom cache rules.
    pub rules: Vec<WidgetCachingRule>,
}

impl Default for WidgetCaching {
    /// Cache for a week, with no custom rules.
    fn default() -> (res: Self)
        ensures
            res.default_duration == 604800,
            res.rules@.len() == 0,
    {
        WidgetCaching { default_duration: 604800, rules: Vec::new() }
    }
}

/// A custom cache rule.
#[derive(Clone, Debug, PartialEq, Eq)]
pub struct WidgetCachingRule {
    /// URL regex pattern to match.
    pub url_regex: String,
    /// Duration to cache the matched requests for (in seconds).
    pub duration: u32,
}

/// A named placement of a widget.
#[derive(Clone, Debug, PartialEq)]
pub struct WidgetPreset {
    pub name: String,
    pub placement: WidgetPlacement,
}

/// Where and how large a widget window is.
#[derive(Clone, Debug, PartialEq)]
pub struct WidgetPlacement {
    /// Anchor-point of the widget.
    pub anchor: AnchorPoint,
    /// Offset from the anchor-point.
    pub offset_x: LengthValue,
    /// Offset from the anchor-point.
    pub offset_y: LengthValue,
    /// Width of the widget in % or physical pixels.
    pub width: LengthValue,
    /// Height of the widget in % or physical pixels.
    pub height: LengthValue,
    /// Monitor(s) to place the widget on.
    pub monitor_selection: MonitorSelection,
    /// How to reserve space for the widget.
    pub dock_to_edge: DockConfig,
}

/// The point of a monitor that a widget is placed relative to.
#[derive(Clone, Copy, Debug, PartialEq, Eq, Structural)]
pub enum AnchorPoint {
    TopLeft,
    TopCenter,
    TopRight,
    CenterLeft,
    Center,
    CenterRight,
    BottomLeft,
    BottomCenter,
    BottomRight,
}

/// The monitor(s) a widget is placed on.
#[derive(Clone, Debug, PartialEq, Eq)]
pub enum MonitorSelection {
    All,
    Primary,
    Secondary,
    Index(usize),
    Name(String),
}

/// What a widget is allowed to do outside its window.
#[derive(Clone, Debug, PartialEq, Eq)]
pub struct WidgetPrivileges {
    /// Shell commands that the widget is allowed to run.
    pub shell_commands: Vec<ShellPrivilege>,
}

impl Default for WidgetPrivileges {
    /// No privileges.
    fn default() -> (res: Self)
        ensures
            res.shell_commands@.len() == 0,
    {
        WidgetPrivileges { shell_commands: Vec::new() }
    }
}

/// A shell command that a widget may run.
#[derive(Clone, Debug, PartialEq, Eq)]
pub struct ShellPrivilege {
    /// Program name (if in PATH) or full path to the program.
    pub program: String,
    /// Arguments to pass to the program.
    pub args_regex: String,
}

impl Default for ShellPrivilege {
    /// An empty program with an empty argument pattern.
    fn default() -> (res: Self)
        ensures
            res.program@.len() == 0,
            res.args_regex@.len() == 0,
    {
        ShellPrivilege { program: String::new(), args_regex: String::new() }
    }
}

/// Whether and how a widget reserves screen space at a monitor edge.
#[derive(Clone, Debug, PartialEq)]
pub struct DockConfig {
    /// Whether to dock the widget to the monitor edge and reserve screen
    /// space for it.
    pub enabled: bool,
    /// Edge to dock the widget to.
    pub edge: Option<DockEdge>,
    /// Margin to reserve after the widget window. Can be positive or
    /// negative.
    pub window_margin: LengthValue,
}

impl Default for DockConfig {
    /// Not docked, on no edge, with no margin.
    fn default() -> (res: Self)
        ensures
            !res.enabled,
            res.edge is None,
            res.window_margin.text@ == "0px"@,
    {
        DockConfig { enabled: false, edge: None, window_margin: LengthValue::default() }
    }
}

/// Edge of a monitor that a widget can dock to.
#[derive(Clone, Copy, Debug, PartialEq, Eq, Structural)]
pub enum DockEdge {
    Top,
    Bottom,
    Left,
    Right,
}

impl DockEdge {
    /// Whether the edge runs horizontally (top or bottom of the monitor).
    pub fn is_horizontal(&self) -> (res: bool)
        ensures
            res == (*self == DockEdge::Top || *self == DockEdge::Bottom),
    {
        match self {
            DockEdge::Top | DockEdge::Bottom => true,
            _ => false,
        }
    }
}

/// Which monitors a widget started from the command line goes on.
#[derive(Clone, Copy, Debug, PartialEq, Eq, Structural)]
pub enum MonitorType {
    All,
    Primary,
    Secondary,
}

/// The monitor selection that a command-line monitor type stands for.
pub open spec fn monitor_selection_of(monitor_type: MonitorType) -> MonitorSelection {
    match monitor_type {
        MonitorType::All => MonitorSelection::All,
        MonitorType::Primary => MonitorSelection::Primary,
        MonitorType::Secondary => MonitorSelection::Secondary,
    }
}

/// Whether `placement` is that of a widget started on its own: the given
/// anchor, offsets and size on the given monitors, not docked.
pub open spec fn is_standalone_placement(
    placement: WidgetPlacement,
    anchor: AnchorPoint,
    offset_x: LengthValue,
    offset_y: LengthValue,
    width: LengthValue,
    height: LengthValue,
    monitor_type: MonitorType,
) -> bool {
    &&& placement.anchor == anchor
    &&& placement.offset_x == offset_x
    &&& placement.offset_y == offset_y
    &&& placement.width == width
    &&& placement.height == height
    &&& placement.monitor_selection == monitor_selection_of(monitor_type)
    &&& !placement.dock_to_edge.enabled
    &&& placement.dock_to_edge.edge is None
    &&& placement.dock_to_edge.window_margin.text@ == "0px"@
}

/// A standalone placement keeps the anchor, offsets and size it is given, on
/// the monitors that the monitor type names, and is not docked.
pub proof fn law_standalone_placement_keeps_arguments(
    placement: WidgetPlacement,
    anchor: AnchorPoint,
    offset_x: LengthValue,
    offset_y: LengthValue,
    width: LengthValue,
    height: LengthValue,
    monitor_type: MonitorType,
)
    requires
        is_standalone_placement(placement, anchor, offset_x, offset_y, width, height, monitor_type),
    ensures
        placement.anchor == anchor,
        placement.offset_x == offset_x,
        placement.offset_y == offset_y,
        placement.width == width,
        placement.height == height,
        monitor_type == MonitorType::All ==> placement.monitor_selection == MonitorSelection::All,
        monitor_type == MonitorType::Primary ==> placement.monitor_selection
            == MonitorSelection::Primary,
        monitor_type == MonitorType::Secondary ==> placement.monitor_selection
            == MonitorSelection::Secondary,
        !placement.dock_to_edge.enabled,
        placement.dock_to_edge.edge is None,
{
}

/// The placement of a widget started on its own from the command line: the
/// given anchor, offsets and size on the given monitors, not docked.
pub fn standalone_placement(
    anchor: AnchorPoint,
    offset_x: LengthValue,
    offset_y: LengthValue,
    width: LengthValue,
    height: LengthValue,
    monitor_type: MonitorType,
) -> (res: WidgetPlacement)
    ensures
        is_standalone_placement(res, anchor, offset_x, offset_y, width, height, monitor_type),
        res.anchor == anchor,
        res.offset_x == offset_x,
        res.offset_y == offset_y,
        res.width == width,
        res.height == height,
        monitor_type == MonitorType::All ==> res.monitor_selection == MonitorSelection::All,
        monitor_type == MonitorType::Primary ==> res.monitor_selection
            == MonitorSelection::Primary,
        monitor_type == MonitorType::Secondary ==> res.monitor_selection
            == MonitorSelection::Secondary,
        !res.dock_to_edge.enabled,
        res.dock_to_edge.edge is None,
{
    WidgetPlacement {
        anchor,
        offset_x,
        offset_y,
        width,
        height,
        monitor_selection: match monitor_type {
            MonitorType::All => MonitorSelection::All,
            MonitorType::Primary => MonitorSelection::Primary,
            MonitorType::Secondary => MonitorSelection::Secondary,
        },
        dock_to_edge: DockConfig::default(),
    }
}

/// Default for a boolean field of a config: `V`.
pub fn default_bool<const V: bool>() -> (res: bool)
    ensures
        res == V,
{
    V
}

/// Name of a preset whose config gives none: `"default"`.
pub fn default_preset_name() -> (res: String)
    ensures
        res@ == "default"@,
{
    String::from_str("default")
}

} // verus!
