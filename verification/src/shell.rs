use vstd::prelude::*;

verus! {

/// What the shell does when the app is asked to exit.
#[derive(Clone, Copy, Debug, PartialEq, Eq, Structural)]
pub enum ExitResponse {
    /// Refuse the request and keep running.
    PreventExit,
    /// Let the app exit, after releasing the screen space reserved by docked
    /// widgets.
    Proceed,
}

/// The response to a request to exit with the given exit code.
///
/// A request without a code comes when the last window closes. The shell
/// keeps running without windows, so that request is refused, rather than
/// keeping a hidden placeholder window open. A request with a code (an
/// explicit exit) cannot be prevented and proceeds.
pub fn exit_request_response(code: Option<i32>) -> (res: ExitResponse)
    ensures
        res == (if code is None {
            ExitResponse::PreventExit
        } else {
            ExitResponse::Proceed
        }),
{
    match code {
        None => ExitResponse::PreventExit,
        Some(_) => ExitResponse::Proceed,
    }
}

/// An event that the running shell reacts to.
#[derive(Clone, Copy, Debug, PartialEq, Eq, Structural)]
pub enum ShellEvent {
    /// A widget window was opened.
    WidgetOpened,
    /// A widget window was closed.
    WidgetClosed,
    /// Monitors were added, removed or changed.
    MonitorsChanged,
    /// A provider produced new output.
    ProviderEmitted,
}

/// One step of what the shell does in answer to an event. Steps act on the
/// event's own payload (the opened widget's state, the closed widget's ID,
/// the provider's output), so every step of an event uses the same value.
#[derive(Clone, Debug, PartialEq, Eq)]
pub enum EventStep {
    /// Send the payload to the widgets under the given event name.
    EmitToWidgets(String),
    /// Keep the payload as its provider's latest output.
    UpdateProviderCache,
    /// Open all widgets again, placed on the monitors as they are now.
    RelaunchAllWidgets,
}

/// The steps for an event, in the order they are taken: openings and
/// closings are passed on to the widgets as `widget-opened` and
/// `widget-closed`; a change of monitors relaunches every widget; provider
/// output is first passed on as `provider-emit` and then cached.
pub fn event_steps(event: ShellEvent) -> (res: Vec<EventStep>)
    ensures
        match event {
            ShellEvent::WidgetOpened => {
                &&& res@.len() == 1
                &&& res@[0] matches EventStep::EmitToWidgets(name) && name@ == "widget-opened"@
            },
            ShellEvent::WidgetClosed => {
                &&& res@.len() == 1
                &&& res@[0] matches EventStep::EmitToWidgets(name) && name@ == "widget-closed"@
            },
            ShellEvent::MonitorsChanged => {
                &&& res@.len() == 1
                &&& res@[0] == EventStep::RelaunchAllWidgets
            },
            ShellEvent::ProviderEmitted => {
                &&& res@.len() == 2
                &&& res@[0] matches EventStep::EmitToWidgets(name) && name@ == "provider-emit"@
                &&& res@[1] == EventStep::UpdateProviderCache
            },
        },
{
    let mut steps: Vec<EventStep> = Vec::new();
    match event {
        ShellEvent::WidgetOpened => {
            steps.push(EventStep::EmitToWidgets(String::from_str("widget-opened")));
        },
        ShellEvent::WidgetClosed => {
            steps.push(EventStep::EmitToWidgets(String::from_str("widget-closed")));
        },
        ShellEvent::MonitorsChanged => {
            steps.push(EventStep::RelaunchAllWidgets);
        },
        ShellEvent::ProviderEmitted => {
            steps.push(EventStep::EmitToWidgets(String::from_str("provider-emit")));
            steps.push(EventStep::UpdateProviderCache);
        },
    }
    steps
}

} // verus!
