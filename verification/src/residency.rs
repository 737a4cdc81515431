//! Where the native resources are: which plugins the host holds loaded, and
//! that the manager calls into no other.
//!
//! The host loads a plugin when it answers a `Load` with `Loaded`, and lets
//! go of it when it answers a `Release`. The manager's state says, without
//! looking at the host, which plugins are loaded at any turn: the mounted
//! ones, and the one that is being brought up or given up.

use vstd::prelude::*;
use crate::guarantees::{
    lemma_installed, lemma_resume_keeps_wf, lemma_retired, lemma_with_connected,
    lemma_with_snapshot,
};
use crate::instance::{
    InstanceView, any_mounted, is_first_mounted, lemma_distinct_slot, mounted, retired, slot,
};
use crate::metadata::first_with_id;
use crate::model::{ManagerView, Turn, tree_or_empty};
use crate::phase::{FollowView, MountStage, PhaseView, TeardownStage};
use crate::protocol::{AnswerView, CallView, StepView};

verus! {

/// The plugin whose entry points or UI builder `call` reaches, if any. A
/// `Load` reaches none: it is what makes a plugin reachable.
pub open spec fn reached(call: CallView) -> Option<Seq<char>> {
    match call {
        CallView::Scan => None,
        CallView::Load { .. } => None,
        CallView::Emit { .. } => None,
        CallView::OnMount { metadata } => Some(metadata.id),
        CallView::Initialize { plugin_id } => Some(plugin_id),
        CallView::OnConnect { plugin_id } => Some(plugin_id),
        CallView::OnDisconnect { plugin_id } => Some(plugin_id),
        CallView::OnDispose { plugin_id } => Some(plugin_id),
        CallView::Release { plugin_id } => Some(plugin_id),
        CallView::HandleMessage { plugin_id, .. } => Some(plugin_id),
        CallView::CreateUi { plugin_id } => Some(plugin_id),
        CallView::OfferEvent { plugin_id, .. } => Some(plugin_id),
        CallView::ClearComponents { plugin_id } => Some(plugin_id),
        CallView::UpdateUi { plugin_id, .. } => Some(plugin_id),
        CallView::SerializeUi { plugin_id } => Some(plugin_id),
        CallView::ClearEvents { plugin_id } => Some(plugin_id),
    }
}

/// The plugin whose load the state waits for, if it waits for one.
pub open spec fn loading(s: ManagerView) -> Option<Seq<char>> {
    match s.phase {
        PhaseView::Mount { metadata, mount: MountStage::Load } => Some(metadata.id),
        _ => None,
    }
}

/// The plugin whose release the state waits for, if it waits for one.
pub open spec fn releasing(s: ManagerView) -> Option<Seq<char>> {
    match s.phase {
        PhaseView::Teardown { plugin_id, stage: TeardownStage::Release, .. } => Some(plugin_id),
        PhaseView::MountAbort { plugin_id, .. } => Some(plugin_id),
        _ => None,
    }
}

/// Whether the host holds `plugin_id` loaded while the manager is in the
/// state `s` and the call that is out has not been made: the plugin is
/// mounted, or it is past its load on the way up, or it is about to be
/// released after a failure on that way.
pub open spec fn resident(s: ManagerView, plugin_id: Seq<char>) -> bool {
    ||| mounted(s.registry, plugin_id)
    ||| s.phase matches PhaseView::Mount { metadata, mount } && metadata.id == plugin_id && !(mount
        is Load)
    ||| s.phase matches PhaseView::MountAbort { plugin_id: subject, .. } && subject == plugin_id
}

/// Whether what the manager says at the turn `t` is sound: it asks for the
/// load of a plugin only if that plugin is not loaded, for the release of a
/// plugin only if it is, and for no other call into a plugin that is not
/// loaded; and the state knows which load or release is out.
pub open spec fn sound(t: Turn) -> bool {
    match t.step {
        StepView::Call(CallView::Load { plugin_id, .. }) => {
            &&& loading(t.state) == Some(plugin_id)
            &&& releasing(t.state) is None
            &&& !resident(t.state, plugin_id)
        },
        StepView::Call(CallView::Release { plugin_id }) => {
            &&& releasing(t.state) == Some(plugin_id)
            &&& loading(t.state) is None
            &&& resident(t.state, plugin_id)
        },
        StepView::Call(call) => {
            &&& loading(t.state) is None
            &&& releasing(t.state) is None
            &&& reached(call) matches Some(plugin_id) ==> resident(t.state, plugin_id)
        },
        StepView::Done(_) => t.state.idle(),
        StepView::Rejected => true,
    }
}

/// While no operation is under way, exactly the mounted plugins are loaded:
/// nothing stays behind after a mount that failed, and nothing that is
/// mounted has been let go.
pub proof fn lemma_idle_residency(s: ManagerView, plugin_id: Seq<char>)
    requires
        s.idle(),
    ensures
        resident(s, plugin_id) == mounted(s.registry, plugin_id),
{
}

/// Taking a mounted plugin down begins with a sound call.
proof fn lemma_teardown_sound(s: ManagerView, plugin_id: Seq<char>, follow: FollowView)
    requires
        s.consistent(),
        mounted(s.registry, plugin_id),
    ensures
        sound(s.teardown(plugin_id, follow)),
{
}

/// Going on with a cleanup is sound.
proof fn lemma_proceed_cleanup_sound(s: ManagerView)
    requires
        s.consistent(),
    ensures
        sound(s.proceed_cleanup()),
{
    if any_mounted(s.registry) {
        let i = choose|i: int| is_first_mounted(s.registry, i);
        lemma_distinct_slot(s.registry, i);
        lemma_teardown_sound(s, s.registry[i].metadata.id, FollowView::Cleanup);
    }
}

/// Whatever is requested of a manager, what it says first is sound.
pub proof fn lemma_requests_are_sound(
    s: ManagerView,
    plugin_id: Seq<char>,
    component_id: Seq<char>,
    value: Seq<char>,
)
    requires
        s.wf(),
    ensures
        sound(s.mount_plugin(plugin_id)),
        sound(s.dispose_plugin(plugin_id)),
        sound(s.connect_plugin(plugin_id)),
        sound(s.disconnect_plugin(plugin_id)),
        sound(s.send_message_to_current_plugin(value)),
        sound(s.get_plugin_ui(plugin_id)),
        sound(s.handle_plugin_ui_update(plugin_id, component_id, value)),
        sound(s.handle_plugin_ui_event(plugin_id, component_id, value)),
        sound(s.notify(value)),
        sound(s.notify_plugin_ui_update(plugin_id)),
        sound(s.cleanup_all_plugins()),
{
    if s.idle() {
        lemma_proceed_cleanup_sound(s);
        if s.current is Some && mounted(s.registry, s.current->0) {
            lemma_teardown_sound(s, s.current->0, FollowView::Mount { plugin_id });
        }
        if mounted(s.registry, plugin_id) {
            lemma_teardown_sound(s, plugin_id, FollowView::Reply);
        }
    }
}

/// Whatever the host answers, what the manager says next is sound.
pub proof fn lemma_answers_are_sound(s: ManagerView, answer: AnswerView)
    requires
        s.wf(),
    ensures
        sound(s.resume(answer)),
{
    lemma_resume_keeps_wf(s, answer);
    match s.phase {
        PhaseView::Teardown { plugin_id, stage, trouble, follow } => {
            match (stage, answer) {
                (TeardownStage::Disconnect, AnswerView::Status(_)) => {
                    lemma_with_connected(s, plugin_id, false);
                },
                (TeardownStage::Release, AnswerView::Done) => {
                    lemma_retired(s, plugin_id);
                    let next = ManagerView::settled(retired(s.registry, plugin_id), None);
                    match follow {
                        FollowView::Cleanup => {
                            lemma_proceed_cleanup_sound(next);
                        },
                        _ => {},
                    }
                },
                _ => {},
            }
        },
        PhaseView::MountScan { plugin_id } => {
            match answer {
                AnswerView::Plugins(plugins) => {
                    if first_with_id(plugins, plugin_id) is Some {
                        let k = slot(s.registry, first_with_id(plugins, plugin_id)->0.id);
                        assert(mounted(s.registry, first_with_id(plugins, plugin_id)->0.id)
                            ==> s.registry[k].is_mounted);
                    }
                },
                _ => {},
            }
        },
        PhaseView::Snapshot { plugin_id } => {
            match answer {
                AnswerView::Tree(tree) => {
                    lemma_with_snapshot(s, plugin_id, tree_or_empty(tree));
                },
                _ => {},
            }
        },
        PhaseView::Pass { plugin_id, component_id, value, pass } => {
            match answer {
                AnswerView::Tree(tree) => {
                    lemma_with_snapshot(s, plugin_id, tree_or_empty(tree));
                },
                _ => {},
            }
        },
        _ => {},
    }
}

/// An answer changes which plugins are loaded only where it is the answer to
/// a load or to a release: a plugin is loaded once its load is answered with
/// success, it is no longer loaded once its release is answered, and every
/// other answer leaves every plugin as it was.
pub proof fn lemma_residency_follows_calls(s: ManagerView, answer: AnswerView, plugin_id: Seq<char>)
    requires
        s.wf(),
        !(s.resume(answer).step is Rejected),
    ensures
        resident(s.resume(answer).state, plugin_id) == if loading(s) == Some(plugin_id) {
            answer is Loaded
        } else if releasing(s) == Some(plugin_id) {
            false
        } else {
            resident(s, plugin_id)
        },
{
    lemma_resume_keeps_wf(s, answer);
    let after = s.resume(answer).state;
    match s.phase {
        PhaseView::Teardown { plugin_id: subject, stage, trouble, follow } => {
            match (stage, answer) {
                (TeardownStage::Disconnect, AnswerView::Status(_)) => {
                    lemma_with_connected(s, subject, false);
                },
                (TeardownStage::Release, AnswerView::Done) => {
                    lemma_retired(s, subject);
                    if mounted(s.registry, plugin_id) {
                        let k = slot(s.registry, plugin_id);
                        assert(s.registry[k].is_mounted);
                    }
                    if mounted(after.registry, plugin_id) {
                        let k = slot(after.registry, plugin_id);
                        assert(after.registry[k].is_mounted);
                    }
                },
                _ => {},
            }
        },
        PhaseView::MountScan { plugin_id: target } => {
            if mounted(s.registry, plugin_id) {
                let k = slot(s.registry, plugin_id);
                assert(s.registry[k].is_mounted);
            }
        },
        PhaseView::Mount { metadata, mount } => {
            if mounted(s.registry, plugin_id) {
                let k = slot(s.registry, plugin_id);
                assert(s.registry[k].is_mounted);
            }
            match (mount, answer) {
                (MountStage::Snapshot, AnswerView::Tree(tree)) => {
                    lemma_installed(
                        s,
                        InstanceView {
                            metadata,
                            is_mounted: true,
                            is_connected: false,
                            ui_data: Some(tree_or_empty(tree)),
                        },
                    );
                },
                _ => {},
            }
        },
        PhaseView::MountAbort { .. } => {
            if mounted(s.registry, plugin_id) {
                let k = slot(s.registry, plugin_id);
                assert(s.registry[k].is_mounted);
            }
        },
        PhaseView::Connect { plugin_id: subject } => {
            lemma_with_connected(s, subject, true);
        },
        PhaseView::Disconnect { plugin_id: subject } => {
            lemma_with_connected(s, subject, false);
        },
        PhaseView::Snapshot { plugin_id: subject } => {
            match answer {
                AnswerView::Tree(tree) => {
                    lemma_with_snapshot(s, subject, tree_or_empty(tree));
                },
                _ => {},
            }
        },
        PhaseView::Pass { plugin_id: subject, component_id, value, pass } => {
            match answer {
                AnswerView::Tree(tree) => {
                    lemma_with_snapshot(s, subject, tree_or_empty(tree));
                },
                _ => {},
            }
        },
        _ => {},
    }
}

/// A call that is routed from one plugin to another reaches a plugin that
/// is loaded.
pub proof fn lemma_routed_call_is_sound(s: ManagerView, plugin_id: Seq<char>, message: Seq<char>)
    requires
        s.call_other_plugin(plugin_id, message) is Some,
    ensures
        reached(s.call_other_plugin(plugin_id, message)->0) == Some(plugin_id),
        resident(s, plugin_id),
{
}

} // verus!
