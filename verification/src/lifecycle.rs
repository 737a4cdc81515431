//! What holds of whole conversations: mounting, disposing, connecting and
//! cleaning up, from the request to the outcome.

use vstd::prelude::*;
use crate::guarantees::{
    lemma_installed, lemma_requests_keep_wf, lemma_resume_keeps_wf, lemma_retired,
    lemma_with_connected,
};
use crate::instance::{
    InstanceView, any_mounted, entry, is_first_mounted, lemma_any_mounted, lemma_same_ids,
    mounted, registered, retired, slot, with_connected,
};
use crate::metadata::{MetadataView, first_with_id, is_first_with_id};
use crate::model::{ManagerView, Turn, replay, teardown_report, tree_or_empty};
use crate::phase::{FollowView, MountStage, PhaseView, TeardownStage, Trouble};
use crate::protocol::{AnswerView, CallView, OutcomeView, StepView};
use crate::text::{
    already_disconnected_text, already_disposed_text, already_mounted_text, connect_failed_text,
    connected_text, init_failed_text, mount_failed_text, mounted_text, not_found_text,
    not_mounted_text,
};

verus! {

/// Whether `step` ends an operation with a message of success.
pub open spec fn succeeded(step: StepView) -> bool {
    step matches StepView::Done(OutcomeView::Message(Ok(_)))
}

/// Whether `t` is a turn of a mount of `plugin_id`: the mount is under way,
/// or it is over and, where it succeeded, `plugin_id` is mounted, not
/// connected, and current.
pub open spec fn mounting(t: Turn, plugin_id: Seq<char>) -> bool {
    &&& t.state.wf()
    &&& match t.state.phase {
        PhaseView::Teardown { follow: FollowView::Mount { plugin_id: target }, .. } => target
            == plugin_id,
        PhaseView::MountScan { plugin_id: target } => target == plugin_id,
        PhaseView::Mount { metadata, .. } => metadata.id == plugin_id,
        PhaseView::MountAbort { .. } => true,
        PhaseView::Idle => succeeded(t.step) ==> {
            &&& t.state.status(plugin_id) == Some((true, false))
            &&& t.state.current == Some(plugin_id)
        },
        _ => false,
    }
}

/// An answer takes a turn of a mount to a turn of that mount.
proof fn lemma_mounting_step(t: Turn, plugin_id: Seq<char>, answer: AnswerView)
    requires
        mounting(t, plugin_id),
    ensures
        mounting(t.state.resume(answer), plugin_id),
{
    let s = t.state;
    lemma_resume_keeps_wf(s, answer);
    match s.phase {
        PhaseView::Teardown { plugin_id: subject, stage, trouble, follow } => {
            match (stage, answer) {
                (TeardownStage::Release, AnswerView::Done) => {
                    lemma_retired(s, subject);
                },
                _ => {},
            }
        },
        PhaseView::MountScan { plugin_id: wanted } => {
            match answer {
                AnswerView::Plugins(plugins) => {
                    if first_with_id(plugins, wanted) is Some {
                        let i = choose|i: int| is_first_with_id(plugins, wanted, i);
                        assert(is_first_with_id(plugins, wanted, i));
                    }
                },
                _ => {},
            }
        },
        PhaseView::Mount { metadata, mount: stage } => {
            match (stage, answer) {
                (MountStage::Snapshot, AnswerView::Tree(tree)) => {
                    lemma_installed(
                        s,
                        InstanceView {
                            metadata,
                            is_mounted: true,
                            is_connected: false,
                            ui_data: Some(tree_or_empty(tree)),
                        },
                    );
                },
                _ => {},
            }
        },
        _ => {},
    }
}

/// Every turn of the conversation that a request to mount `plugin_id`
/// starts is a turn of that mount.
proof fn lemma_mounting_run(s: ManagerView, plugin_id: Seq<char>, answers: Seq<AnswerView>)
    requires
        s.wf(),
        s.idle(),
        s.status(plugin_id) != Some((true, true)),
    ensures
        mounting(replay(s.mount_plugin(plugin_id), answers), plugin_id),
    decreases answers.len(),
{
    if answers.len() == 0 {
        lemma_requests_keep_wf(s, plugin_id, plugin_id, plugin_id);
    } else {
        lemma_mounting_run(s, plugin_id, answers.drop_last());
        lemma_mounting_step(
            replay(s.mount_plugin(plugin_id), answers.drop_last()),
            plugin_id,
            answers.last(),
        );
    }
}

/// Once a mount of `plugin_id` has succeeded, `plugin_id` is mounted, not
/// connected, and current, whatever the host answered on the way. (A plugin
/// that was mounted and connected before stays connected: mounting it again
/// changes nothing.)
pub proof fn lemma_mount_success(s: ManagerView, plugin_id: Seq<char>, answers: Seq<AnswerView>)
    requires
        s.wf(),
        s.idle(),
        s.status(plugin_id) != Some((true, true)),
        succeeded(replay(s.mount_plugin(plugin_id), answers).step),
    ensures
        replay(s.mount_plugin(plugin_id), answers).state.status(plugin_id) == Some((true, false)),
        replay(s.mount_plugin(plugin_id), answers).state.current == Some(plugin_id),
{
    lemma_mounting_run(s, plugin_id, answers);
    lemma_done_is_idle(s.mount_plugin(plugin_id), answers);
}

/// A turn that ends an operation leaves the manager idle.
pub proof fn lemma_done_is_idle(start: Turn, answers: Seq<AnswerView>)
    requires
        start.step is Done ==> start.state.idle(),
        replay(start, answers).step is Done,
    ensures
        replay(start, answers).state.idle(),
{
    if answers.len() > 0 {
        let before = replay(start, answers.drop_last()).state;
        lemma_done_leaves_idle(before, answers.last());
    }
}

/// An answer that ends an operation leaves the manager idle.
pub proof fn lemma_done_leaves_idle(s: ManagerView, answer: AnswerView)
    ensures
        s.resume(answer).step is Done ==> s.resume(answer).state.idle(),
{
}

/// Mounting a plugin that is mounted changes nothing: the answer says that
/// it was mounted already, and it is current as before.
pub proof fn lemma_remount_changes_nothing(s: ManagerView, plugin_id: Seq<char>)
    requires
        s.wf(),
        s.idle(),
        mounted(s.registry, plugin_id),
    ensures
        s.mount_plugin(plugin_id).state == s,
        s.current == Some(plugin_id),
        s.mount_plugin(plugin_id).step == StepView::Done(
            OutcomeView::Message(
                Ok(already_mounted_text(entry(s.registry, plugin_id).metadata.name)),
            ),
        ),
{
    let k = slot(s.registry, plugin_id);
    assert(s.registry[k].is_mounted);
}

/// Whether `t` is a turn of a mount of `target` that began while `former`
/// was current: `former` is being taken down, or it is taken down already.
pub open spec fn replacing(t: Turn, former: Seq<char>, target: Seq<char>) -> bool {
    &&& t.state.wf()
    &&& match t.state.phase {
        PhaseView::Teardown { plugin_id, follow: FollowView::Mount { plugin_id: next }, .. } => {
            plugin_id == former && next == target
        },
        PhaseView::MountScan { plugin_id } => {
            plugin_id == target && t.state.status(former) == Some((false, false))
        },
        PhaseView::Mount { metadata, .. } => {
            metadata.id == target && t.state.status(former) == Some((false, false))
        },
        PhaseView::MountAbort { .. } => t.state.status(former) == Some((false, false)),
        PhaseView::Idle => {
            &&& t.state.status(former) == Some((false, false))
            &&& succeeded(t.step) ==> t.state.current == Some(target)
        },
        _ => false,
    }
}

/// An answer takes a turn of such a mount to a turn of that mount.
proof fn lemma_replacing_step(t: Turn, former: Seq<char>, target: Seq<char>, answer: AnswerView)
    requires
        replacing(t, former, target),
        former != target,
    ensures
        replacing(t.state.resume(answer), former, target),
{
    let s = t.state;
    lemma_resume_keeps_wf(s, answer);
    match s.phase {
        PhaseView::Teardown { plugin_id: subject, stage, trouble, follow } => {
            match (stage, answer) {
                (TeardownStage::Release, AnswerView::Done) => {
                    lemma_retired(s, subject);
                },
                _ => {},
            }
        },
        PhaseView::MountScan { plugin_id: wanted } => {
            match answer {
                AnswerView::Plugins(plugins) => {
                    if first_with_id(plugins, wanted) is Some {
                        let i = choose|i: int| is_first_with_id(plugins, wanted, i);
                        assert(is_first_with_id(plugins, wanted, i));
                    }
                },
                _ => {},
            }
        },
        PhaseView::Mount { metadata, mount: stage } => {
            match (stage, answer) {
                (MountStage::Snapshot, AnswerView::Tree(tree)) => {
                    lemma_installed(
                        s,
                        InstanceView {
                            metadata,
                            is_mounted: true,
                            is_connected: false,
                            ui_data: Some(tree_or_empty(tree)),
                        },
                    );
                },
                _ => {},
            }
        },
        _ => {},
    }
}

/// Every turn of a mount of `target` that began while `former` was current
/// is a turn of that mount.
proof fn lemma_replacing_run(
    s: ManagerView,
    former: Seq<char>,
    target: Seq<char>,
    answers: Seq<AnswerView>,
)
    requires
        s.wf(),
        s.idle(),
        s.current == Some(former),
        former != target,
    ensures
        replacing(replay(s.mount_plugin(target), answers), former, target),
    decreases answers.len(),
{
    if answers.len() == 0 {
        lemma_requests_keep_wf(s, target, target, target);
    } else {
        lemma_replacing_run(s, former, target, answers.drop_last());
        lemma_replacing_step(
            replay(s.mount_plugin(target), answers.drop_last()),
            former,
            target,
            answers.last(),
        );
    }
}

/// Mounting `target` while another plugin, `former`, is current takes
/// `former` down first: once the mount is over, `former` is neither mounted
/// nor connected, and where the mount succeeded `target` is current.
pub proof fn lemma_mount_replaces_current(
    s: ManagerView,
    former: Seq<char>,
    target: Seq<char>,
    answers: Seq<AnswerView>,
)
    requires
        s.wf(),
        s.idle(),
        s.current == Some(former),
        former != target,
        replay(s.mount_plugin(target), answers).step is Done,
    ensures
        replay(s.mount_plugin(target), answers).state.status(former) == Some((false, false)),
        succeeded(replay(s.mount_plugin(target), answers).step) ==> replay(
            s.mount_plugin(target),
            answers,
        ).state.current == Some(target),
{
    lemma_replacing_run(s, former, target, answers);
    lemma_done_is_idle(s.mount_plugin(target), answers);
}

/// Disposing a plugin that the registry does not know is an error, and
/// disposing one that is not mounted succeeds without a call; neither
/// changes anything.
pub proof fn lemma_dispose_without_work(s: ManagerView, plugin_id: Seq<char>)
    requires
        s.idle(),
        !mounted(s.registry, plugin_id),
    ensures
        s.dispose_plugin(plugin_id).state == s,
        !registered(s.registry, plugin_id) ==> s.dispose_plugin(plugin_id).step == StepView::Done(
            OutcomeView::Message(Err(not_found_text(plugin_id))),
        ),
        registered(s.registry, plugin_id) ==> s.dispose_plugin(plugin_id).step == StepView::Done(
            OutcomeView::Message(
                Ok(already_disposed_text(entry(s.registry, plugin_id).metadata.name)),
            ),
        ),
{
}

/// The trouble that a teardown reports for the statuses of `on_disconnect`
/// (where it was called) and `on_dispose`.
pub open spec fn trouble_of(connected: bool, disconnect_status: i32, dispose_status: i32) -> Trouble {
    if dispose_status != 0 {
        Trouble::Dispose
    } else if connected && disconnect_status != 0 {
        Trouble::Disconnect
    } else {
        Trouble::Clean
    }
}

/// The turn at which `on_dispose` of `plugin_id` is out, after a teardown
/// that `begin` started: `begin` itself where the plugin was not connected,
/// and the turn after the answer of `on_disconnect` where it was.
pub open spec fn disposing_turn(begin: Turn, connected: bool, disconnect_status: i32) -> Turn {
    if connected {
        begin.state.resume(AnswerView::Status(disconnect_status))
    } else {
        begin
    }
}

/// Disposing a mounted plugin calls `on_disconnect` where it is connected,
/// then `on_dispose`, then releases its resources, each once and whatever
/// the entry points report. The plugin is then neither mounted nor
/// connected, no plugin is current, and the answer is a success that names
/// what went wrong, if anything did.
pub proof fn lemma_dispose_takes_down(
    s: ManagerView,
    plugin_id: Seq<char>,
    disconnect_status: i32,
    dispose_status: i32,
)
    requires
        s.wf(),
        s.idle(),
        mounted(s.registry, plugin_id),
    ensures
        ({
            let connected = entry(s.registry, plugin_id).is_connected;
            let begin = s.dispose_plugin(plugin_id);
            let disposing = disposing_turn(begin, connected, disconnect_status);
            let releasing = disposing.state.resume(AnswerView::Status(dispose_status));
            let end = releasing.state.resume(AnswerView::Done);
            &&& connected ==> begin.step == StepView::Call(CallView::OnDisconnect { plugin_id })
            &&& disposing.step == StepView::Call(CallView::OnDispose { plugin_id })
            &&& releasing.step == StepView::Call(CallView::Release { plugin_id })
            &&& end.step == StepView::Done(
                OutcomeView::Message(
                    Ok(
                        teardown_report(
                            entry(s.registry, plugin_id).metadata.name,
                            trouble_of(connected, disconnect_status, dispose_status),
                        ),
                    ),
                ),
            )
            &&& end.state == ManagerView::settled(retired(s.registry, plugin_id), None)
            &&& end.state.status(plugin_id) == Some((false, false))
            &&& end.state.at_rest()
        }),
{
    lemma_retired(s, plugin_id);
    lemma_with_connected(s, plugin_id, false);
    let connected = entry(s.registry, plugin_id).is_connected;
    let begin = s.dispose_plugin(plugin_id);
    let disposing = disposing_turn(begin, connected, disconnect_status);
    if connected {
        let before = s.registry;
        let after = with_connected(before, plugin_id, false);
        lemma_same_ids(before, after, plugin_id);
        assert(retired(after, plugin_id) =~= retired(before, plugin_id));
        assert(disposing.state.label(plugin_id) == s.label(plugin_id));
    }
}

/// Cleaning up while `plugin_id` is current takes it down as disposing it
/// does, each call once and whatever the entry points report, and ends with
/// no plugin mounted and none current.
pub proof fn lemma_cleanup_takes_down(
    s: ManagerView,
    plugin_id: Seq<char>,
    disconnect_status: i32,
    dispose_status: i32,
)
    requires
        s.wf(),
        s.idle(),
        s.current == Some(plugin_id),
    ensures
        ({
            let connected = entry(s.registry, plugin_id).is_connected;
            let begin = s.cleanup_all_plugins();
            let disposing = disposing_turn(begin, connected, disconnect_status);
            let releasing = disposing.state.resume(AnswerView::Status(dispose_status));
            let end = releasing.state.resume(AnswerView::Done);
            &&& connected ==> begin.step == StepView::Call(CallView::OnDisconnect { plugin_id })
            &&& disposing.step == StepView::Call(CallView::OnDispose { plugin_id })
            &&& releasing.step == StepView::Call(CallView::Release { plugin_id })
            &&& end.step == StepView::Done(OutcomeView::Cleaned)
            &&& end.state == ManagerView::settled(retired(s.registry, plugin_id), None)
            &&& end.state.status(plugin_id) == Some((false, false))
            &&& end.state.at_rest()
        }),
{
    let k = slot(s.registry, plugin_id);
    assert(s.registry[k].is_mounted);
    lemma_any_mounted(s.registry, k);
    let i = choose|i: int| is_first_mounted(s.registry, i);
    assert(s.registry[i].is_mounted);
    assert(s.registry[i].metadata.id == plugin_id);
    lemma_retired(s, plugin_id);
    lemma_with_connected(s, plugin_id, false);
    let connected = entry(s.registry, plugin_id).is_connected;
    if connected {
        let before = s.registry;
        let after = with_connected(before, plugin_id, false);
        lemma_same_ids(before, after, plugin_id);
        assert(retired(after, plugin_id) =~= retired(before, plugin_id));
    }
    let end_state = ManagerView::settled(retired(s.registry, plugin_id), None);
    assert(!any_mounted(end_state.registry)) by {
        if any_mounted(end_state.registry) {
            let j = choose|j: int| is_first_mounted(end_state.registry, j);
            assert(end_state.registry[j].is_mounted);
        }
    }
}

/// Whenever a cleanup reports that it is done, no plugin is mounted and none
/// is current.
pub proof fn lemma_cleanup_leaves_nothing(s: ManagerView, answers: Seq<AnswerView>)
    requires
        replay(s.cleanup_all_plugins(), answers).step == StepView::Done(OutcomeView::Cleaned),
    ensures
        replay(s.cleanup_all_plugins(), answers).state.at_rest(),
        replay(s.cleanup_all_plugins(), answers).state.current is None,
        replay(s.cleanup_all_plugins(), answers).state.idle(),
{
    let t = replay(s.cleanup_all_plugins(), answers);
    assert(!any_mounted(t.state.registry) && t.state.current is None && t.state.idle()) by {
        if answers.len() > 0 {
            let before = replay(s.cleanup_all_plugins(), answers.drop_last()).state;
            assert(t == before.resume(answers.last()));
        }
    }
    assert forall|i: int| 0 <= i < t.state.registry.len() implies !(
    #[trigger] t.state.registry[i]).is_mounted by {
        if t.state.registry[i].is_mounted {
            lemma_any_mounted(t.state.registry, i);
        }
    }
}

/// Connecting a plugin that is not mounted, whether the registry knows it or
/// not, is an error and changes nothing; so is disconnecting it.
pub proof fn lemma_connect_needs_mount(s: ManagerView, plugin_id: Seq<char>)
    requires
        s.idle(),
        !mounted(s.registry, plugin_id),
    ensures
        s.connect_plugin(plugin_id) == s.report(Err(not_mounted_text(s.label(plugin_id)))),
        s.disconnect_plugin(plugin_id) == s.report(Err(not_mounted_text(s.label(plugin_id)))),
        s.report(Err(not_mounted_text(s.label(plugin_id)))).state == s,
{
}

/// Connecting a mounted plugin and disconnecting it again leaves it mounted
/// and not connected, whatever `on_disconnect` reports; disconnecting it
/// once more succeeds without a call and changes nothing.
pub proof fn lemma_connect_then_disconnect(
    s: ManagerView,
    plugin_id: Seq<char>,
    disconnect_status: i32,
)
    requires
        s.wf(),
        s.idle(),
        s.status(plugin_id) == Some((true, false)),
    ensures
        ({
            let asked = s.connect_plugin(plugin_id);
            let connected = asked.state.resume(AnswerView::Status(0));
            let asked_back = connected.state.disconnect_plugin(plugin_id);
            let back = asked_back.state.resume(AnswerView::Status(disconnect_status));
            let again = back.state.disconnect_plugin(plugin_id);
            &&& asked.step == StepView::Call(CallView::OnConnect { plugin_id })
            &&& connected.step == StepView::Done(
                OutcomeView::Message(Ok(connected_text(s.label(plugin_id)))),
            )
            &&& connected.state.status(plugin_id) == Some((true, true))
            &&& asked_back.step == StepView::Call(CallView::OnDisconnect { plugin_id })
            &&& back.step is Done
            &&& back.state.status(plugin_id) == Some((true, false))
            &&& again.step == StepView::Done(
                OutcomeView::Message(Ok(already_disconnected_text(s.label(plugin_id)))),
            )
            &&& again.state == back.state
        }),
{
    let asked = s.connect_plugin(plugin_id);
    let connected = asked.state.resume(AnswerView::Status(0));
    let first = with_connected(s.registry, plugin_id, true);
    lemma_same_ids(s.registry, first, plugin_id);
    assert(connected.state.registry == first);
    let asked_back = connected.state.disconnect_plugin(plugin_id);
    let back = asked_back.state.resume(AnswerView::Status(disconnect_status));
    let second = with_connected(first, plugin_id, false);
    lemma_same_ids(first, second, plugin_id);
    assert(back.state.registry == second);
}

/// A failing `on_connect` is an error and leaves the plugin as it was.
pub proof fn lemma_connect_failure(s: ManagerView, plugin_id: Seq<char>, connect_status: i32)
    requires
        s.idle(),
        s.status(plugin_id) == Some((true, false)),
        connect_status != 0,
    ensures
        s.connect_plugin(plugin_id).state.resume(AnswerView::Status(connect_status)) == s.report(
            Err(connect_failed_text()),
        ),
        s.report(Err(connect_failed_text())).state == s,
{
}

/// The calls of a mount that meets no failure, each once and in their
/// order, when no plugin is current: discovery, load, `initialize`,
/// `on_mount`, a fresh UI builder, one render pass, one serialization. The
/// plugin is then mounted, not connected and current, with the serialized
/// tree as its snapshot.
pub proof fn lemma_mount_brings_up(
    s: ManagerView,
    metadata: MetadataView,
    plugins: Seq<MetadataView>,
    render_status: i32,
    tree: Option<Seq<char>>,
)
    requires
        s.wf(),
        s.idle(),
        s.current is None,
        first_with_id(plugins, metadata.id) == Some(metadata),
        metadata.library_path is Some,
    ensures
        ({
            let plugin_id = metadata.id;
            let scanning = s.mount_plugin(plugin_id);
            let loading = scanning.state.resume(AnswerView::Plugins(plugins));
            let initializing = loading.state.resume(AnswerView::Loaded);
            let mounting = initializing.state.resume(AnswerView::Status(0));
            let creating = mounting.state.resume(AnswerView::Status(0));
            let rendering = creating.state.resume(AnswerView::Done);
            let serializing = rendering.state.resume(AnswerView::Status(render_status));
            let end = serializing.state.resume(AnswerView::Tree(tree));
            &&& scanning.step == StepView::Call(CallView::Scan)
            &&& loading.step == StepView::Call(
                CallView::Load { plugin_id, library_path: metadata.library_path->0 },
            )
            &&& initializing.step == StepView::Call(CallView::Initialize { plugin_id })
            &&& mounting.step == StepView::Call(CallView::OnMount { metadata })
            &&& creating.step == StepView::Call(CallView::CreateUi { plugin_id })
            &&& rendering.step == StepView::Call(CallView::UpdateUi { plugin_id, event: None })
            &&& serializing.step == StepView::Call(CallView::SerializeUi { plugin_id })
            &&& end.step == StepView::Done(OutcomeView::Message(Ok(mounted_text(metadata.name))))
            &&& end.state.status(plugin_id) == Some((true, false))
            &&& end.state.current == Some(plugin_id)
            &&& entry(end.state.registry, plugin_id).ui_data == Some(tree_or_empty(tree))
            &&& end.state.wf()
        }),
{
    assert(s.at_rest());
    lemma_installed(
        s,
        InstanceView {
            metadata,
            is_mounted: true,
            is_connected: false,
            ui_data: Some(tree_or_empty(tree)),
        },
    );
}

/// A mount that fails at `initialize` or at `on_mount` releases the plugin
/// before it reports the failure, and leaves the registry as it was.
pub proof fn lemma_mount_failure_unwinds(
    s: ManagerView,
    metadata: MetadataView,
    initialize_status: i32,
    mount_status: i32,
)
    requires
        s.phase == (PhaseView::Mount { metadata, mount: MountStage::Initialize }),
        initialize_status != 0 || mount_status != 0,
    ensures
        ({
            let first = s.resume(AnswerView::Status(initialize_status));
            let second = first.state.resume(AnswerView::Status(mount_status));
            let releasing = if initialize_status != 0 {
                first
            } else {
                second
            };
            let end = releasing.state.resume(AnswerView::Done);
            &&& releasing.step == StepView::Call(CallView::Release { plugin_id: metadata.id })
            &&& end.step == StepView::Done(
                OutcomeView::Message(
                    Err(
                        if initialize_status != 0 {
                            init_failed_text()
                        } else {
                            mount_failed_text()
                        },
                    ),
                ),
            )
            &&& end.state == ManagerView::settled(s.registry, s.current)
        }),
{
}

} // verus!
