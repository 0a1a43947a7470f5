use zebar::widget_pack::{
    default_bool, default_preset_name, standalone_placement, AnchorPoint, DockConfig, DockEdge,
    LengthValue, MonitorSelection, MonitorType, ShellPrivilege, WidgetCaching, WidgetConfig,
    WidgetPack, WidgetPackConfig, WidgetPackType, WidgetPrivileges, ZOrder,
};

fn length(text: &str) -> LengthValue {
    LengthValue { text: text.to_string() }
}

fn widget(name: &str, files: &[&str]) -> WidgetConfig {
    WidgetConfig {
        name: name.to_string(),
        html_path: format!("{}/index.html", name),
        z_order: ZOrder::Normal,
        shown_in_taskbar: false,
        focused: false,
        resizable: false,
        transparent: true,
        include_files: files.iter().map(|f| f.to_string()).collect(),
        caching: WidgetCaching::default(),
        privileges: WidgetPrivileges::default(),
        presets: Vec::new(),
    }
}

fn pack_config(name: &str, widgets: Vec<WidgetConfig>) -> WidgetPackConfig {
    WidgetPackConfig {
        schema: None,
        name: name.to_string(),
        version: "1.0.0".to_string(),
        description: String::new(),
        tags: Vec::new(),
        preview_images: Vec::new(),
        repository_url: String::new(),
        widgets,
    }
}

#[test]
fn top_and_bottom_edges_are_horizontal() {
    assert!(DockEdge::Top.is_horizontal());
    assert!(DockEdge::Bottom.is_horizontal());
    assert!(!DockEdge::Left.is_horizontal());
    assert!(!DockEdge::Right.is_horizontal());
}

#[test]
fn default_bool_gives_its_parameter() {
    assert!(default_bool::<true>());
    assert!(!default_bool::<false>());
}

#[test]
fn default_preset_is_named_default() {
    assert_eq!(default_preset_name(), "default");
}

#[test]
fn caching_defaults_to_one_week_without_rules() {
    let caching = WidgetCaching::default();
    assert_eq!(caching.default_duration, 604800);
    assert!(caching.rules.is_empty());
}

#[test]
fn dock_config_defaults_to_undocked() {
    let dock = DockConfig::default();
    assert!(!dock.enabled);
    assert_eq!(dock.edge, None);
    assert_eq!(dock.window_margin, length("0px"));
}

#[test]
fn privileges_default_to_none() {
    assert!(WidgetPrivileges::default().shell_commands.is_empty());
    let shell = ShellPrivilege::default();
    assert_eq!(shell.program, "");
    assert_eq!(shell.args_regex, "");
}

#[test]
fn standalone_placement_maps_monitor_type() {
    let cases = [
        (MonitorType::All, MonitorSelection::All),
        (MonitorType::Primary, MonitorSelection::Primary),
        (MonitorType::Secondary, MonitorSelection::Secondary),
    ];
    for (monitor_type, selection) in cases {
        let placement = standalone_placement(
            AnchorPoint::TopCenter,
            length("0px"),
            length("10px"),
            length("100%"),
            length("40px"),
            monitor_type,
        );
        assert_eq!(placement.anchor, AnchorPoint::TopCenter);
        assert_eq!(placement.offset_x, length("0px"));
        assert_eq!(placement.offset_y, length("10px"));
        assert_eq!(placement.width, length("100%"));
        assert_eq!(placement.height, length("40px"));
        assert_eq!(placement.monitor_selection, selection);
        assert_eq!(placement.dock_to_edge, DockConfig::default());
    }
}

#[test]
fn include_files_concatenates_widgets_in_order() {
    let config = pack_config(
        "shell",
        vec![
            widget("bar", &["bar/*.css", "bar/*.js"]),
            widget("empty", &[]),
            widget("toast", &["toast/**"]),
        ],
    );
    let pack = WidgetPack::from_config(config, "/c/shell/zpack.json".into(), "/c/shell".into());
    assert_eq!(pack.include_files(), vec!["bar/*.css", "bar/*.js", "toast/**"]);
}

#[test]
fn include_files_of_pack_without_widgets_is_empty() {
    let pack = WidgetPack::from_config(pack_config("none", Vec::new()), "p".into(), "d".into());
    assert!(pack.include_files().is_empty());
}

#[test]
fn pack_from_config_is_custom_and_named_after_config() {
    let pack = WidgetPack::from_config(
        pack_config("logical-lunge", vec![widget("bar", &[])]),
        "/c/ll/zpack.json".into(),
        "/c/ll".into(),
    );
    assert_eq!(pack.id, "logical-lunge");
    assert_eq!(pack.pack_type, WidgetPackType::Custom);
    assert_eq!(pack.config_path, "/c/ll/zpack.json");
    assert_eq!(pack.directory_path, "/c/ll");
    assert_eq!(pack.config.widgets.len(), 1);
}
