use zebar::shell::{event_steps, EventStep, ShellEvent};

fn emit(name: &str) -> EventStep {
    EventStep::EmitToWidgets(name.to_string())
}

#[test]
fn widget_events_are_passed_on() {
    assert_eq!(event_steps(ShellEvent::WidgetOpened), vec![emit("widget-opened")]);
    assert_eq!(event_steps(ShellEvent::WidgetClosed), vec![emit("widget-closed")]);
}

#[test]
fn provider_output_is_passed_on_then_cached() {
    assert_eq!(
        event_steps(ShellEvent::ProviderEmitted),
        vec![emit("provider-emit"), EventStep::UpdateProviderCache]
    );
}

#[test]
fn monitor_change_relaunches_widgets() {
    assert_eq!(event_steps(ShellEvent::MonitorsChanged), vec![EventStep::RelaunchAllWidgets]);
}
