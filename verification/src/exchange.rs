//! What holds of messages and of the UI bridge.

use vstd::prelude::*;
use crate::instance::{mounted, with_snapshot};
use crate::model::{ManagerView, Turn, notification, tree_or_empty};
use crate::payload::plugin_payload_json;
use crate::protocol::{AnswerView, CallView, OutcomeView, StepView, UiEventView};
use crate::text::{
    crosses_boundary, encoding_failed_text, handling_failed_text,
    lemma_event_name_crosses_boundary, no_active_plugin_text, ui_updated_event_text,
};

verus! {

/// Without a current plugin a message is refused, and nothing changes.
pub proof fn lemma_message_needs_current(s: ManagerView, message: Seq<char>)
    requires
        s.idle(),
        s.current is None,
    ensures
        s.send_message_to_current_plugin(message) == s.report(Err(no_active_plugin_text())),
        s.report(Err(no_active_plugin_text())).state == s,
{
}

/// A message for a current, mounted plugin goes to its `handle_message`
/// where it can cross the boundary and is refused where it cannot; the
/// plugin's response is the answer where the plugin reports success, and
/// anything else is an error. Nothing but the phase changes on the way.
pub proof fn lemma_message_exchange(
    s: ManagerView,
    message: Seq<char>,
    status: i32,
    response: Option<Seq<char>>,
)
    requires
        s.wf(),
        s.idle(),
        s.current is Some,
    ensures
        ({
            let sent = s.send_message_to_current_plugin(message);
            let end = sent.state.resume(AnswerView::Reply { status, text: response });
            &&& !crosses_boundary(message) ==> sent == s.report(Err(encoding_failed_text()))
            &&& crosses_boundary(message) ==> {
                &&& sent.step == StepView::Call(
                    CallView::HandleMessage { plugin_id: s.current->0, message },
                )
                &&& end.state == s
                &&& end.step == StepView::Done(
                    OutcomeView::Message(
                        if status == 0 && response is Some {
                            Ok(response->0)
                        } else {
                            Err(handling_failed_text())
                        },
                    ),
                )
            }
        }),
{
}

/// A plugin's call to another plugin reaches no plugin but the current one:
/// no other plugin is mounted.
pub proof fn lemma_call_reaches_current(s: ManagerView, plugin_id: Seq<char>, message: Seq<char>)
    requires
        s.wf(),
        s.call_other_plugin(plugin_id, message) is Some,
    ensures
        s.current == Some(plugin_id),
        s.call_other_plugin(plugin_id, message) == Some(
            CallView::HandleMessage { plugin_id, message },
        ),
{
    let k = crate::instance::slot(s.registry, plugin_id);
    assert(s.registry[k].is_mounted);
}

/// The UI tree of a mounted plugin can always be had: the builder's tree is
/// serialized once, without a render pass, stored as the snapshot and
/// handed back, as an empty list where serializing failed.
pub proof fn lemma_ui_of_mounted(s: ManagerView, plugin_id: Seq<char>, tree: Option<Seq<char>>)
    requires
        s.idle(),
        mounted(s.registry, plugin_id),
    ensures
        ({
            let asked = s.get_plugin_ui(plugin_id);
            let end = asked.state.resume(AnswerView::Tree(tree));
            &&& asked.step == StepView::Call(CallView::SerializeUi { plugin_id })
            &&& end.step == StepView::Done(OutcomeView::Message(Ok(tree_or_empty(tree))))
            &&& end.state == s.with_registry(
                with_snapshot(s.registry, plugin_id, tree_or_empty(tree)),
            )
        }),
{
}

/// An event on a component that the UI builder does not know is not
/// handled: the builder is asked once, the plugin does not render, the
/// frontend is not told, and nothing changes.
pub proof fn lemma_unknown_event_is_not_handled(
    s: ManagerView,
    plugin_id: Seq<char>,
    component_id: Seq<char>,
    value: Seq<char>,
)
    requires
        s.idle(),
        mounted(s.registry, plugin_id),
    ensures
        ({
            let offered = s.handle_plugin_ui_event(plugin_id, component_id, value);
            let end = offered.state.resume(AnswerView::Recognized(false));
            &&& offered.step == StepView::Call(
                CallView::OfferEvent { plugin_id, component_id, value },
            )
            &&& end.step == StepView::Done(OutcomeView::Handled(Ok(false)))
            &&& end.state == s
        }),
{
}

/// The turns of a render pass of `plugin_id` that begins at `clearing`,
/// where the plugin renders with `render_status` and the host serializes
/// `tree`: whether the calls are, in their order, one clearing of the
/// components, one `update_ui` with the event, and, where the plugin reports
/// success, one serialization, one clearing of the event state and, where
/// the payload can cross the boundary, one notification of the frontend;
/// and whether the pass ends as handled with the new tree stored, or, where
/// the plugin reports a failure, with the registry as it was.
pub open spec fn renders_once(
    clearing: Turn,
    plugin_id: Seq<char>,
    component_id: Seq<char>,
    value: Seq<char>,
    render_status: i32,
    tree: Option<Seq<char>>,
    delivered: bool,
) -> bool {
    let handled = StepView::Done(OutcomeView::Handled(Ok(true)));
    let rendering = clearing.state.resume(AnswerView::Done);
    let rendered = rendering.state.resume(AnswerView::Status(render_status));
    let stored = rendered.state.resume(AnswerView::Tree(tree));
    let cleared = stored.state.resume(AnswerView::Done);
    let told = cleared.state.resume(AnswerView::Delivered(delivered));
    let snapshot = with_snapshot(clearing.state.registry, plugin_id, tree_or_empty(tree));
    &&& clearing.step == StepView::Call(CallView::ClearComponents { plugin_id })
    &&& rendering.step == StepView::Call(
        CallView::UpdateUi { plugin_id, event: Some(UiEventView { component_id, value }) },
    )
    &&& render_status != 0 ==> {
        &&& rendered.step == handled
        &&& rendered.state.registry == clearing.state.registry
        &&& rendered.state.idle()
    }
    &&& render_status == 0 ==> {
        &&& rendered.step == StepView::Call(CallView::SerializeUi { plugin_id })
        &&& stored.step == StepView::Call(CallView::ClearEvents { plugin_id })
        &&& stored.state.registry == snapshot
        &&& match notification(plugin_payload_json(plugin_id)) {
            Ok(call) => {
                &&& cleared.step == StepView::Call(call)
                &&& call == CallView::Emit {
                    event_name: ui_updated_event_text(),
                    payload: plugin_payload_json(plugin_id),
                }
                &&& told.step == handled
                &&& told.state.registry == snapshot
                &&& told.state.idle()
            },
            Err(_) => {
                &&& cleared.step == handled
                &&& cleared.state.registry == snapshot
                &&& cleared.state.idle()
            },
        }
    }
}

/// An update of a component of a mounted plugin renders the plugin exactly
/// once and tells the frontend at most once.
pub proof fn lemma_update_renders_once(
    s: ManagerView,
    plugin_id: Seq<char>,
    component_id: Seq<char>,
    value: Seq<char>,
    render_status: i32,
    tree: Option<Seq<char>>,
    delivered: bool,
)
    requires
        s.idle(),
        mounted(s.registry, plugin_id),
    ensures
        renders_once(
            s.handle_plugin_ui_update(plugin_id, component_id, value),
            plugin_id,
            component_id,
            value,
            render_status,
            tree,
            delivered,
        ),
{
}

/// An event on a component that the UI builder knows is offered to the
/// builder a second time and then renders the plugin exactly once and tells
/// the frontend at most once, whatever the builder says the second time.
pub proof fn lemma_known_event_renders_once(
    s: ManagerView,
    plugin_id: Seq<char>,
    component_id: Seq<char>,
    value: Seq<char>,
    recognized_again: bool,
    render_status: i32,
    tree: Option<Seq<char>>,
    delivered: bool,
)
    requires
        s.idle(),
        mounted(s.registry, plugin_id),
    ensures
        ({
            let offered = s.handle_plugin_ui_event(plugin_id, component_id, value);
            let offered_again = offered.state.resume(AnswerView::Recognized(true));
            let clearing = offered_again.state.resume(AnswerView::Recognized(recognized_again));
            &&& offered.step == StepView::Call(
                CallView::OfferEvent { plugin_id, component_id, value },
            )
            &&& offered_again.step == offered.step
            &&& clearing.state.registry == s.registry
            &&& renders_once(
                clearing,
                plugin_id,
                component_id,
                value,
                render_status,
                tree,
                delivered,
            )
        }),
{
}

/// Whatever the frontend is sent can be null-terminated, the name of the
/// event as well as the payload.
pub proof fn lemma_notification_crosses_boundary(payload: Seq<char>)
    requires
        notification(payload) is Ok,
    ensures
        notification(payload)->Ok_0 == (CallView::Emit {
            event_name: ui_updated_event_text(),
            payload,
        }),
        crosses_boundary(ui_updated_event_text()),
        crosses_boundary(payload),
{
    lemma_event_name_crosses_boundary();
}

/// Telling the frontend of a changed UI succeeds exactly where the payload
/// can cross the boundary and the frontend takes the event; the registry is
/// never touched.
pub proof fn lemma_notify(s: ManagerView, payload: Seq<char>, delivered: bool)
    requires
        s.idle(),
    ensures
        ({
            let asked = s.notify(payload);
            let end = asked.state.resume(AnswerView::Delivered(delivered));
            match notification(payload) {
                Ok(call) => {
                    &&& asked.step == StepView::Call(call)
                    &&& end.state == s
                    &&& end.step matches StepView::Done(OutcomeView::Notified(r))
                    &&& r is Ok <==> delivered
                },
                Err(reason) => asked == s.settle(OutcomeView::Notified(Err(reason))) && asked.state
                    == s,
            }
        }),
{
}

} // verus!
