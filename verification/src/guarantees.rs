//! What holds of every manager, proved of the state machine.

use vstd::prelude::*;
use crate::instance::{
    InstanceView, any_mounted, distinct_ids, entry, installed, is_first_entry, is_first_mounted,
    lemma_any_mounted, lemma_distinct_slot, lemma_same_ids, lemma_slot, lemma_unregistered,
    mounted, registered, retired, same_ids, slot, status, with_connected, with_snapshot,
};
use crate::model::{ManagerView, tree_or_empty};
use crate::phase::{FollowView, PhaseView, TeardownStage};
use crate::protocol::AnswerView;

verus! {

/// Changing the connected flag of a mounted plugin, or clearing it of any
/// plugin, keeps registry and current plugin in agreement.
pub proof fn lemma_with_connected(s: ManagerView, plugin_id: Seq<char>, connected: bool)
    requires
        s.consistent(),
        connected ==> mounted(s.registry, plugin_id),
    ensures
        s.with_registry(with_connected(s.registry, plugin_id, connected)).consistent(),
        same_ids(s.registry, with_connected(s.registry, plugin_id, connected)),
        forall|q: Seq<char>|
            mounted(with_connected(s.registry, plugin_id, connected), q) == mounted(s.registry, q),
        s.at_rest() ==> s.with_registry(with_connected(s.registry, plugin_id, connected)).at_rest(),
{
    let after = with_connected(s.registry, plugin_id, connected);
    assert(same_ids(s.registry, after));
    assert forall|q: Seq<char>| mounted(after, q) == mounted(s.registry, q) by {
        lemma_same_ids(s.registry, after, q);
    }
    lemma_same_ids(s.registry, after, plugin_id);
    if s.current is Some {
        lemma_same_ids(s.registry, after, s.current->0);
    }
}

/// Storing a UI snapshot keeps registry and current plugin in agreement.
pub proof fn lemma_with_snapshot(s: ManagerView, plugin_id: Seq<char>, tree: Seq<char>)
    requires
        s.consistent(),
    ensures
        s.with_registry(with_snapshot(s.registry, plugin_id, tree)).consistent(),
        same_ids(s.registry, with_snapshot(s.registry, plugin_id, tree)),
        forall|q: Seq<char>|
            mounted(with_snapshot(s.registry, plugin_id, tree), q) == mounted(s.registry, q),
{
    let after = with_snapshot(s.registry, plugin_id, tree);
    assert(same_ids(s.registry, after));
    assert forall|q: Seq<char>| mounted(after, q) == mounted(s.registry, q) by {
        lemma_same_ids(s.registry, after, q);
    }
    lemma_same_ids(s.registry, after, plugin_id);
    if s.current is Some {
        lemma_same_ids(s.registry, after, s.current->0);
    }
}

/// Retiring the mounted plugin leaves no plugin mounted and none current.
pub proof fn lemma_retired(s: ManagerView, plugin_id: Seq<char>)
    requires
        s.consistent(),
        mounted(s.registry, plugin_id),
    ensures
        s.current == Some(plugin_id),
        ManagerView::settled(retired(s.registry, plugin_id), None).wf(),
        ManagerView::settled(retired(s.registry, plugin_id), None).at_rest(),
        same_ids(s.registry, retired(s.registry, plugin_id)),
        status(retired(s.registry, plugin_id), plugin_id) == Some((false, false)),
{
    let after = retired(s.registry, plugin_id);
    let k = slot(s.registry, plugin_id);
    assert(s.registry[k].is_mounted);
    assert(same_ids(s.registry, after));
    lemma_same_ids(s.registry, after, plugin_id);
    assert forall|i: int| 0 <= i < after.len() implies !(#[trigger] after[i]).is_mounted by {
        if i != k && s.registry[i].is_mounted {
            lemma_distinct_slot(s.registry, i);
        }
    }
}

/// Installing a mounted, unconnected instance in a registry without mounted
/// plugins, and making its plugin current, gives a state that a manager can
/// be in.
pub proof fn lemma_installed(s: ManagerView, instance: InstanceView)
    requires
        s.consistent(),
        s.at_rest(),
        instance.is_mounted,
        !instance.is_connected,
    ensures
        ManagerView::settled(
            installed(s.registry, instance),
            Some(instance.metadata.id),
        ).wf(),
        entry(installed(s.registry, instance), instance.metadata.id) == instance,
        registered(installed(s.registry, instance), instance.metadata.id),
        forall|other: Seq<char>|
            other != instance.metadata.id ==> status(
                installed(s.registry, instance),
                other,
            ) == status(s.registry, other),
{
    let id = instance.metadata.id;
    let after = installed(s.registry, instance);
    if registered(s.registry, id) {
        let k = slot(s.registry, id);
        assert(same_ids(s.registry, after));
        lemma_same_ids(s.registry, after, id);
        assert(after[k] == instance);
    } else {
        lemma_unregistered(s.registry, id);
        let k = s.registry.len() as int;
        assert(is_first_entry(after, id, k));
        lemma_slot(after, id, k);
        assert(distinct_ids(after));
    }
    assert forall|other: Seq<char>| other != id implies status(after, other) == status(
        s.registry,
        other,
    ) by {
        if registered(s.registry, id) {
            lemma_same_ids(s.registry, after, other);
        } else {
            if registered(s.registry, other) {
                let i = slot(s.registry, other);
                assert(is_first_entry(after, other, i));
                lemma_slot(after, other, i);
            }
            if registered(after, other) {
                let i = slot(after, other);
                assert(is_first_entry(s.registry, other, i));
                lemma_slot(s.registry, other, i);
            }
        }
    }
    let k = slot(after, id);
    assert forall|i: int| 0 <= i < after.len() && (#[trigger] after[i]).is_mounted implies Some(id)
        == Some(after[i].metadata.id) by {
        if i != k {
            assert(after[i] == s.registry[i]);
        }
    }
    assert forall|i: int| 0 <= i < after.len() && (#[trigger] after[i]).is_connected implies after[i].is_mounted by {
        if i != k {
            assert(after[i] == s.registry[i]);
        }
    }
}

/// Taking a mounted plugin down starts from a state that a manager can be
/// in and leads to one.
pub proof fn lemma_teardown(s: ManagerView, plugin_id: Seq<char>, follow: FollowView)
    requires
        s.consistent(),
        mounted(s.registry, plugin_id),
    ensures
        s.teardown(plugin_id, follow).state.wf(),
        s.teardown(plugin_id, follow).step is Call,
{
}

/// Going on with a mount leads to a state that a manager can be in.
pub proof fn lemma_proceed_mount(s: ManagerView, plugin_id: Seq<char>)
    requires
        s.consistent(),
        s.at_rest() || mounted(s.registry, plugin_id),
    ensures
        s.proceed_mount(plugin_id).state.wf(),
{
}

/// Going on with a cleanup leads to a state that a manager can be in.
pub proof fn lemma_proceed_cleanup(s: ManagerView)
    requires
        s.consistent(),
    ensures
        s.proceed_cleanup().state.wf(),
{
    if any_mounted(s.registry) {
        let i = choose|i: int| is_first_mounted(s.registry, i);
        lemma_distinct_slot(s.registry, i);
    } else {
        assert forall|i: int| 0 <= i < s.registry.len() implies !(
        #[trigger] s.registry[i]).is_mounted by {
            if s.registry[i].is_mounted {
                lemma_any_mounted(s.registry, i);
            }
        }
        if s.current is Some {
            let k = slot(s.registry, s.current->0);
            assert(s.registry[k].is_mounted);
        }
    }
}

/// Every request leaves a manager in a state that a manager can be in.
pub proof fn lemma_requests_keep_wf(
    s: ManagerView,
    plugin_id: Seq<char>,
    component_id: Seq<char>,
    value: Seq<char>,
)
    requires
        s.wf(),
    ensures
        s.mount_plugin(plugin_id).state.wf(),
        s.dispose_plugin(plugin_id).state.wf(),
        s.connect_plugin(plugin_id).state.wf(),
        s.disconnect_plugin(plugin_id).state.wf(),
        s.send_message_to_current_plugin(value).state.wf(),
        s.get_plugin_ui(plugin_id).state.wf(),
        s.handle_plugin_ui_update(plugin_id, component_id, value).state.wf(),
        s.handle_plugin_ui_event(plugin_id, component_id, value).state.wf(),
        s.notify(value).state.wf(),
        s.notify_plugin_ui_update(plugin_id).state.wf(),
        s.cleanup_all_plugins().state.wf(),
{
    if s.idle() {
        lemma_proceed_cleanup(s);
        if s.current is Some && s.current->0 != plugin_id && mounted(s.registry, s.current->0) {
            lemma_teardown(s, s.current->0, FollowView::Mount { plugin_id });
        } else {
            if s.current is None {
                assert forall|i: int| 0 <= i < s.registry.len() implies !(
                #[trigger] s.registry[i]).is_mounted by {}
            }
            lemma_proceed_mount(s, plugin_id);
        }
        if mounted(s.registry, plugin_id) {
            lemma_teardown(s, plugin_id, FollowView::Reply);
        }
    }
}

/// Every answer leaves a manager in a state that a manager can be in.
pub proof fn lemma_resume_keeps_wf(s: ManagerView, answer: AnswerView)
    requires
        s.wf(),
    ensures
        s.resume(answer).state.wf(),
{
    match s.phase {
        PhaseView::Teardown { plugin_id, stage, trouble, follow } => {
            match (stage, answer) {
                (TeardownStage::Disconnect, AnswerView::Status(_)) => {
                    lemma_with_connected(s, plugin_id, false);
                },
                (TeardownStage::Release, AnswerView::Done) => {
                    lemma_retired(s, plugin_id);
                    let next = ManagerView::settled(retired(s.registry, plugin_id), None);
                    match follow {
                        FollowView::Reply => {},
                        FollowView::Mount { plugin_id: target } => {
                            lemma_proceed_mount(next, target);
                        },
                        FollowView::Cleanup => {
                            lemma_proceed_cleanup(next);
                        },
                    }
                },
                _ => {},
            }
        },
        PhaseView::Mount { metadata, mount: stage } => {
            match answer {
                AnswerView::Tree(tree) => {
                    lemma_installed(
                        s,
                        InstanceView {
                            metadata,
                            is_mounted: true,
                            is_connected: false,
                            ui_data: Some(tree_or_empty(tree)),
                        },
                    );
                },
                _ => {},
            }
        },
        PhaseView::Connect { plugin_id } => {
            lemma_with_connected(s, plugin_id, true);
        },
        PhaseView::Disconnect { plugin_id } => {
            lemma_with_connected(s, plugin_id, false);
        },
        PhaseView::Snapshot { plugin_id } => {
            match answer {
                AnswerView::Tree(tree) => {
                    lemma_with_snapshot(s, plugin_id, tree_or_empty(tree));
                },
                _ => {},
            }
        },
        PhaseView::Pass { plugin_id, .. } => {
            match answer {
                AnswerView::Tree(tree) => {
                    lemma_with_snapshot(s, plugin_id, tree_or_empty(tree));
                },
                _ => {},
            }
        },
        _ => {},
    }
}

} // verus!
