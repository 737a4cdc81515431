//! The manager as a state machine over mathematical values.
//!
//! A [`ManagerView`] is the registry, the current plugin and the phase of the
//! operation under way. Each request and each answer of the host is a
//! function from such a state to a [`Turn`]: the next state and what the
//! manager says. The executable manager computes exactly these functions.

use vstd::prelude::*;
use vstd::string::*;
use crate::instance::{
    InstanceView, any_mounted, distinct_ids, entry, first_mounted, installed, mounted, registered,
    retired, with_connected, with_snapshot,
};
use crate::metadata::{MetadataView, first_with_id};
use crate::payload::plugin_payload_json;
use crate::phase::{
    AbortReason, FollowView, MountStage, PassStage, PhaseView, TeardownStage, Trouble,
};
use crate::protocol::{AnswerView, CallView, OutcomeView, StepView, UiEventView};
use crate::text::{
    already_connected_text, already_disconnected_text, already_disposed_text,
    already_mounted_text, connect_failed_text, connected_text, create_failed_text,
    crosses_boundary, current_not_found_text, current_not_mounted_text, delivery_failed_text,
    disconnect_warning_text, disconnected_text, dispose_disconnect_warning_text,
    dispose_warning_text, disposed_text, empty_tree_text, encoding_failed_text,
    handling_failed_text, init_failed_text, library_failed_text,
    missing_library_text, mount_failed_text, mounted_text, no_active_plugin_text,
    not_found_text, not_mounted_text, payload_failed_text, symbol_missing_text,
    ui_not_found_text, ui_not_mounted_text, ui_updated_event_text,
};

verus! {

/// The state of a manager.
pub struct ManagerView {
    /// The entries, in the order in which their plugins were first mounted.
    pub registry: Seq<InstanceView>,
    /// The id of the current plugin.
    pub current: Option<Seq<char>>,
    /// The operation under way.
    pub phase: PhaseView,
}

/// One turn of the conversation: the state it leaves and what the manager
/// says.
pub struct Turn {
    pub state: ManagerView,
    pub step: StepView,
}

/// What the user reads once a plugin called `name` has been taken down.
pub open spec fn teardown_report(name: Seq<char>, trouble: Trouble) -> Seq<char> {
    match trouble {
        Trouble::Clean => disposed_text(name),
        Trouble::Disconnect => dispose_disconnect_warning_text(name),
        Trouble::Dispose => dispose_warning_text(name),
    }
}

/// What the user reads when a mount was given up at `reason`.
pub open spec fn abort_report(reason: AbortReason) -> Seq<char> {
    match reason {
        AbortReason::Initialize => init_failed_text(),
        AbortReason::OnMount => mount_failed_text(),
    }
}

/// The tree that is stored for what the host serialized.
pub open spec fn tree_or_empty(tree: Option<Seq<char>>) -> Seq<char> {
    match tree {
        Some(t) => t,
        None => empty_tree_text(),
    }
}

/// The call that tells the frontend of a changed UI with `payload`, or why
/// it cannot be made: the payload must be able to cross the boundary.
pub open spec fn notification(payload: Seq<char>) -> Result<CallView, Seq<char>> {
    if crosses_boundary(payload) {
        Ok(CallView::Emit { event_name: ui_updated_event_text(), payload })
    } else {
        Err(payload_failed_text())
    }
}

/// The turn that a conversation has reached once the host has given
/// `answers`, one after the other, starting at `turn`.
pub open spec fn replay(turn: Turn, answers: Seq<AnswerView>) -> Turn
    decreases answers.len(),
{
    if answers.len() == 0 {
        turn
    } else {
        replay(turn, answers.drop_last()).state.resume(answers.last())
    }
}

impl ManagerView {
    /// A manager that has seen no plugin.
    pub open spec fn fresh() -> ManagerView {
        ManagerView { registry: Seq::empty(), current: None, phase: PhaseView::Idle }
    }

    /// The idle state with the given registry and current plugin.
    pub open spec fn settled(registry: Seq<InstanceView>, current: Option<Seq<char>>) -> ManagerView {
        ManagerView { registry, current, phase: PhaseView::Idle }
    }

    /// This state with another registry.
    pub open spec fn with_registry(self, registry: Seq<InstanceView>) -> ManagerView {
        ManagerView { registry, ..self }
    }

    /// Whether no operation is under way.
    pub open spec fn idle(self) -> bool {
        self.phase is Idle
    }

    /// Whether registry and current plugin agree: no plugin has two
    /// entries, a connected plugin is mounted, a mounted plugin is the
    /// current one, and the current plugin is mounted.
    pub open spec fn consistent(self) -> bool {
        &&& distinct_ids(self.registry)
        &&& forall|i: int|
            0 <= i < self.registry.len() && (#[trigger] self.registry[i]).is_connected
                ==> self.registry[i].is_mounted
        &&& forall|i: int|
            0 <= i < self.registry.len() && (#[trigger] self.registry[i]).is_mounted
                ==> self.current == Some(self.registry[i].metadata.id)
        &&& self.current is Some ==> mounted(self.registry, self.current->0)
    }

    /// Whether no entry is mounted.
    pub open spec fn at_rest(self) -> bool {
        forall|i: int| 0 <= i < self.registry.len() ==> !(#[trigger] self.registry[i]).is_mounted
    }

    /// Whether the operation under way fits the registry: while a plugin is
    /// brought up no plugin is mounted, and the plugin of any other operation
    /// is mounted.
    pub open spec fn phase_fits(self) -> bool {
        match self.phase {
            PhaseView::Idle => true,
            PhaseView::Teardown { plugin_id, .. } => mounted(self.registry, plugin_id),
            PhaseView::MountScan { .. } => self.at_rest(),
            PhaseView::Mount { .. } => self.at_rest(),
            PhaseView::MountAbort { .. } => self.at_rest(),
            PhaseView::Connect { plugin_id } => mounted(self.registry, plugin_id),
            PhaseView::Disconnect { plugin_id } => mounted(self.registry, plugin_id),
            PhaseView::Message => self.current is Some,
            PhaseView::Snapshot { plugin_id } => mounted(self.registry, plugin_id),
            PhaseView::Offer { plugin_id, .. } => mounted(self.registry, plugin_id),
            PhaseView::Pass { plugin_id, .. } => mounted(self.registry, plugin_id),
            PhaseView::Notify => true,
        }
    }

    /// Whether the state is one that a manager can be in.
    pub open spec fn wf(self) -> bool {
        self.consistent() && self.phase_fits()
    }

    /// The flags of `plugin_id`, mounted first, connected second.
    pub open spec fn status(self, plugin_id: Seq<char>) -> Option<(bool, bool)> {
        crate::instance::status(self.registry, plugin_id)
    }

    /// The name under which `plugin_id` is reported: the name of its entry,
    /// or the id itself where it has none.
    pub open spec fn label(self, plugin_id: Seq<char>) -> Seq<char> {
        if registered(self.registry, plugin_id) {
            entry(self.registry, plugin_id).metadata.name
        } else {
            plugin_id
        }
    }

    /// The host is asked to make `call`; the operation waits in `phase`.
    pub open spec fn ask(self, phase: PhaseView, call: CallView) -> Turn {
        Turn { state: ManagerView { phase, ..self }, step: StepView::Call(call) }
    }

    /// The operation ends with `outcome`.
    pub open spec fn settle(self, outcome: OutcomeView) -> Turn {
        Turn {
            state: ManagerView { phase: PhaseView::Idle, ..self },
            step: StepView::Done(outcome),
        }
    }

    /// The operation ends with a message for the user.
    pub open spec fn report(self, message: Result<Seq<char>, Seq<char>>) -> Turn {
        self.settle(OutcomeView::Message(message))
    }

    /// The request or answer does not fit; nothing changes.
    pub open spec fn reject(self) -> Turn {
        Turn { state: self, step: StepView::Rejected }
    }

    /// Starts taking the mounted plugin `plugin_id` down: `on_disconnect`
    /// first where it is connected, `on_dispose` otherwise.
    pub open spec fn teardown(self, plugin_id: Seq<char>, follow: FollowView) -> Turn {
        if entry(self.registry, plugin_id).is_connected {
            self.ask(
                PhaseView::Teardown {
                    plugin_id,
                    stage: TeardownStage::Disconnect,
                    trouble: Trouble::Clean,
                    follow,
                },
                CallView::OnDisconnect { plugin_id },
            )
        } else {
            self.ask(
                PhaseView::Teardown {
                    plugin_id,
                    stage: TeardownStage::Dispose,
                    trouble: Trouble::Clean,
                    follow,
                },
                CallView::OnDispose { plugin_id },
            )
        }
    }

    /// A request to mount `plugin_id`. A current plugin other than
    /// `plugin_id` is taken down first.
    pub open spec fn mount_plugin(self, plugin_id: Seq<char>) -> Turn {
        if !self.idle() {
            self.reject()
        } else if self.current is Some && self.current->0 != plugin_id && mounted(
            self.registry,
            self.current->0,
        ) {
            self.teardown(self.current->0, FollowView::Mount { plugin_id })
        } else {
            self.proceed_mount(plugin_id)
        }
    }

    /// Mounts `plugin_id` once no other plugin is in the way: a mounted
    /// plugin only becomes current, any other is looked up with discovery.
    pub open spec fn proceed_mount(self, plugin_id: Seq<char>) -> Turn {
        if mounted(self.registry, plugin_id) {
            ManagerView { current: Some(plugin_id), ..self }.report(
                Ok(already_mounted_text(entry(self.registry, plugin_id).metadata.name)),
            )
        } else {
            self.ask(PhaseView::MountScan { plugin_id }, CallView::Scan)
        }
    }

    /// A request to dispose `plugin_id`.
    pub open spec fn dispose_plugin(self, plugin_id: Seq<char>) -> Turn {
        if !self.idle() {
            self.reject()
        } else if !registered(self.registry, plugin_id) {
            self.report(Err(not_found_text(plugin_id)))
        } else if !entry(self.registry, plugin_id).is_mounted {
            self.report(Ok(already_disposed_text(entry(self.registry, plugin_id).metadata.name)))
        } else {
            self.teardown(plugin_id, FollowView::Reply)
        }
    }

    /// A request to connect `plugin_id`.
    pub open spec fn connect_plugin(self, plugin_id: Seq<char>) -> Turn {
        if !self.idle() {
            self.reject()
        } else if !mounted(self.registry, plugin_id) {
            self.report(Err(not_mounted_text(self.label(plugin_id))))
        } else if entry(self.registry, plugin_id).is_connected {
            self.report(Ok(already_connected_text(self.label(plugin_id))))
        } else {
            self.ask(PhaseView::Connect { plugin_id }, CallView::OnConnect { plugin_id })
        }
    }

    /// A request to disconnect `plugin_id`.
    pub open spec fn disconnect_plugin(self, plugin_id: Seq<char>) -> Turn {
        if !self.idle() {
            self.reject()
        } else if !mounted(self.registry, plugin_id) {
            self.report(Err(not_mounted_text(self.label(plugin_id))))
        } else if !entry(self.registry, plugin_id).is_connected {
            self.report(Ok(already_disconnected_text(self.label(plugin_id))))
        } else {
            self.ask(PhaseView::Disconnect { plugin_id }, CallView::OnDisconnect { plugin_id })
        }
    }

    /// A request to hand `message` to the current plugin.
    pub open spec fn send_message_to_current_plugin(self, message: Seq<char>) -> Turn {
        if !self.idle() {
            self.reject()
        } else if self.current is None {
            self.report(Err(no_active_plugin_text()))
        } else if !registered(self.registry, self.current->0) {
            self.report(Err(current_not_found_text()))
        } else if !entry(self.registry, self.current->0).is_mounted {
            self.report(Err(current_not_mounted_text()))
        } else if !crosses_boundary(message) {
            self.report(Err(encoding_failed_text()))
        } else {
            self.ask(
                PhaseView::Message,
                CallView::HandleMessage { plugin_id: self.current->0, message },
            )
        }
    }

    /// Why a UI request for `plugin_id` cannot be served, if it cannot.
    pub open spec fn ui_refusal(self, plugin_id: Seq<char>) -> Option<Seq<char>> {
        if !registered(self.registry, plugin_id) {
            Some(ui_not_found_text())
        } else if !entry(self.registry, plugin_id).is_mounted {
            Some(ui_not_mounted_text())
        } else {
            None
        }
    }

    /// A request for the UI tree of `plugin_id`.
    pub open spec fn get_plugin_ui(self, plugin_id: Seq<char>) -> Turn {
        if !self.idle() {
            self.reject()
        } else if self.ui_refusal(plugin_id) is Some {
            self.report(Err(self.ui_refusal(plugin_id)->0))
        } else {
            self.ask(PhaseView::Snapshot { plugin_id }, CallView::SerializeUi { plugin_id })
        }
    }

    /// A request to render `plugin_id` anew after `component_id` took
    /// `value`.
    pub open spec fn handle_plugin_ui_update(
        self,
        plugin_id: Seq<char>,
        component_id: Seq<char>,
        value: Seq<char>,
    ) -> Turn {
        if !self.idle() {
            self.reject()
        } else if self.ui_refusal(plugin_id) is Some {
            self.settle(OutcomeView::Handled(Err(self.ui_refusal(plugin_id)->0)))
        } else {
            self.ask(
                PhaseView::Pass {
                    plugin_id,
                    component_id,
                    value,
                    pass: PassStage::ClearComponents,
                },
                CallView::ClearComponents { plugin_id },
            )
        }
    }

    /// A request to dispatch the event `value` on `component_id` of
    /// `plugin_id`.
    pub open spec fn handle_plugin_ui_event(
        self,
        plugin_id: Seq<char>,
        component_id: Seq<char>,
        value: Seq<char>,
    ) -> Turn {
        if !self.idle() {
            self.reject()
        } else if self.ui_refusal(plugin_id) is Some {
            self.settle(OutcomeView::Handled(Err(self.ui_refusal(plugin_id)->0)))
        } else {
            self.ask(
                PhaseView::Offer { plugin_id, component_id, value, repeated: false },
                CallView::OfferEvent { plugin_id, component_id, value },
            )
        }
    }

    /// What is to be done for a plugin that calls the plugin `plugin_id` with
    /// `message`, whatever operation is under way: the message goes to the
    /// `handle_message` of `plugin_id` where that plugin is mounted and the
    /// message can cross the boundary, and nowhere otherwise.
    pub open spec fn call_other_plugin(self, plugin_id: Seq<char>, message: Seq<char>) -> Option<
        CallView,
    > {
        if mounted(self.registry, plugin_id) && crosses_boundary(message) {
            Some(CallView::HandleMessage { plugin_id, message })
        } else {
            None
        }
    }

    /// A request to tell the frontend that the UI of the plugin behind
    /// `payload` changed.
    pub open spec fn notify(self, payload: Seq<char>) -> Turn {
        if !self.idle() {
            self.reject()
        } else {
            match notification(payload) {
                Ok(call) => self.ask(PhaseView::Notify, call),
                Err(reason) => self.settle(OutcomeView::Notified(Err(reason))),
            }
        }
    }

    /// A request to tell the frontend that the UI of `plugin_id` changed.
    pub open spec fn notify_plugin_ui_update(self, plugin_id: Seq<char>) -> Turn {
        self.notify(plugin_payload_json(plugin_id))
    }

    /// A request to take every mounted plugin down.
    pub open spec fn cleanup_all_plugins(self) -> Turn {
        if !self.idle() {
            self.reject()
        } else {
            self.proceed_cleanup()
        }
    }

    /// Takes the first mounted plugin down, or ends the cleanup where none
    /// is left.
    pub open spec fn proceed_cleanup(self) -> Turn {
        if any_mounted(self.registry) {
            self.teardown(first_mounted(self.registry).metadata.id, FollowView::Cleanup)
        } else {
            ManagerView { current: None, ..self }.settle(OutcomeView::Cleaned)
        }
    }

    /// The answer to a call of a teardown.
    pub open spec fn after_teardown(
        self,
        plugin_id: Seq<char>,
        stage: TeardownStage,
        trouble: Trouble,
        follow: FollowView,
        answer: AnswerView,
    ) -> Turn {
        match (stage, answer) {
            (TeardownStage::Disconnect, AnswerView::Status(status)) => ManagerView {
                registry: with_connected(self.registry, plugin_id, false),
                ..self
            }.ask(
                PhaseView::Teardown {
                    plugin_id,
                    stage: TeardownStage::Dispose,
                    trouble: if status != 0 {
                        Trouble::Disconnect
                    } else {
                        trouble
                    },
                    follow,
                },
                CallView::OnDispose { plugin_id },
            ),
            (TeardownStage::Dispose, AnswerView::Status(status)) => self.ask(
                PhaseView::Teardown {
                    plugin_id,
                    stage: TeardownStage::Release,
                    trouble: if status != 0 {
                        Trouble::Dispose
                    } else {
                        trouble
                    },
                    follow,
                },
                CallView::Release { plugin_id },
            ),
            (TeardownStage::Release, AnswerView::Done) => {
                let next = ManagerView {
                    registry: retired(self.registry, plugin_id),
                    current: if self.current == Some(plugin_id) {
                        None
                    } else {
                        self.current
                    },
                    phase: PhaseView::Idle,
                };
                match follow {
                    FollowView::Reply => next.report(
                        Ok(teardown_report(self.label(plugin_id), trouble)),
                    ),
                    FollowView::Mount { plugin_id: target } => next.proceed_mount(target),
                    FollowView::Cleanup => next.proceed_cleanup(),
                }
            },
            _ => self.reject(),
        }
    }

    /// The answer of discovery during a mount of `plugin_id`.
    pub open spec fn after_scan(self, plugin_id: Seq<char>, answer: AnswerView) -> Turn {
        match answer {
            AnswerView::Plugins(plugins) => match first_with_id(plugins, plugin_id) {
                None => self.report(Err(not_found_text(plugin_id))),
                Some(metadata) => match metadata.library_path {
                    None => self.report(Err(missing_library_text(plugin_id))),
                    Some(library_path) => self.ask(
                        PhaseView::Mount { metadata, mount: MountStage::Load },
                        CallView::Load { plugin_id: metadata.id, library_path },
                    ),
                },
            },
            _ => self.reject(),
        }
    }

    /// The answer to a call of a mount.
    pub open spec fn after_mount(
        self,
        metadata: MetadataView,
        stage: MountStage,
        answer: AnswerView,
    ) -> Turn {
        match (stage, answer) {
            (MountStage::Load, AnswerView::Loaded) => self.ask(
                PhaseView::Mount { metadata, mount: MountStage::Initialize },
                CallView::Initialize { plugin_id: metadata.id },
            ),
            (MountStage::Load, AnswerView::LibraryFailed(reason)) => self.report(
                Err(library_failed_text(reason)),
            ),
            (MountStage::Load, AnswerView::SymbolMissing(reason)) => self.report(
                Err(symbol_missing_text(reason)),
            ),
            (MountStage::Load, AnswerView::NoHandler) => self.report(Err(create_failed_text())),
            (MountStage::Initialize, AnswerView::Status(status)) => if status == 0 {
                self.ask(
                    PhaseView::Mount { metadata, mount: MountStage::OnMount },
                    CallView::OnMount { metadata },
                )
            } else {
                self.ask(
                    PhaseView::MountAbort { plugin_id: metadata.id, reason: AbortReason::Initialize },
                    CallView::Release { plugin_id: metadata.id },
                )
            },
            (MountStage::OnMount, AnswerView::Status(status)) => if status == 0 {
                self.ask(
                    PhaseView::Mount { metadata, mount: MountStage::CreateUi },
                    CallView::CreateUi { plugin_id: metadata.id },
                )
            } else {
                self.ask(
                    PhaseView::MountAbort { plugin_id: metadata.id, reason: AbortReason::OnMount },
                    CallView::Release { plugin_id: metadata.id },
                )
            },
            (MountStage::CreateUi, AnswerView::Done) => self.ask(
                PhaseView::Mount { metadata, mount: MountStage::Render },
                CallView::UpdateUi { plugin_id: metadata.id, event: None },
            ),
            (MountStage::Render, AnswerView::Status(_)) => self.ask(
                PhaseView::Mount { metadata, mount: MountStage::Snapshot },
                CallView::SerializeUi { plugin_id: metadata.id },
            ),
            (MountStage::Snapshot, AnswerView::Tree(tree)) => ManagerView {
                registry: installed(
                    self.registry,
                    InstanceView {
                        metadata,
                        is_mounted: true,
                        is_connected: false,
                        ui_data: Some(tree_or_empty(tree)),
                    },
                ),
                current: Some(metadata.id),
                phase: PhaseView::Idle,
            }.report(Ok(mounted_text(metadata.name))),
            _ => self.reject(),
        }
    }

    /// The answer to the release that gives a mount up.
    pub open spec fn after_abort(self, reason: AbortReason, answer: AnswerView) -> Turn {
        match answer {
            AnswerView::Done => self.report(Err(abort_report(reason))),
            _ => self.reject(),
        }
    }

    /// The answer of `on_connect`.
    pub open spec fn after_connect(self, plugin_id: Seq<char>, answer: AnswerView) -> Turn {
        match answer {
            AnswerView::Status(status) => if status == 0 {
                ManagerView {
                    registry: with_connected(self.registry, plugin_id, true),
                    ..self
                }.report(Ok(connected_text(self.label(plugin_id))))
            } else {
                self.report(Err(connect_failed_text()))
            },
            _ => self.reject(),
        }
    }

    /// The answer of `on_disconnect`: the plugin counts as disconnected
    /// whatever it reports.
    pub open spec fn after_disconnect(self, plugin_id: Seq<char>, answer: AnswerView) -> Turn {
        match answer {
            AnswerView::Status(status) => ManagerView {
                registry: with_connected(self.registry, plugin_id, false),
                ..self
            }.report(
                Ok(
                    if status == 0 {
                        disconnected_text(self.label(plugin_id))
                    } else {
                        disconnect_warning_text(self.label(plugin_id))
                    },
                ),
            ),
            _ => self.reject(),
        }
    }

    /// The answer of `handle_message`.
    pub open spec fn after_message(self, answer: AnswerView) -> Turn {
        match answer {
            AnswerView::Reply { status, text } => if status == 0 && text is Some {
                self.report(Ok(text->0))
            } else {
                self.report(Err(handling_failed_text()))
            },
            _ => self.reject(),
        }
    }

    /// The serialized tree that a UI query waits for.
    pub open spec fn after_snapshot(self, plugin_id: Seq<char>, answer: AnswerView) -> Turn {
        match answer {
            AnswerView::Tree(tree) => ManagerView {
                registry: with_snapshot(self.registry, plugin_id, tree_or_empty(tree)),
                ..self
            }.report(Ok(tree_or_empty(tree))),
            _ => self.reject(),
        }
    }

    /// What the UI builder says to an event that it is offered.
    pub open spec fn after_offer(
        self,
        plugin_id: Seq<char>,
        component_id: Seq<char>,
        value: Seq<char>,
        repeated: bool,
        answer: AnswerView,
    ) -> Turn {
        match answer {
            AnswerView::Recognized(recognized) => if repeated {
                self.ask(
                    PhaseView::Pass {
                        plugin_id,
                        component_id,
                        value,
                        pass: PassStage::ClearComponents,
                    },
                    CallView::ClearComponents { plugin_id },
                )
            } else if recognized {
                self.ask(
                    PhaseView::Offer { plugin_id, component_id, value, repeated: true },
                    CallView::OfferEvent { plugin_id, component_id, value },
                )
            } else {
                self.settle(OutcomeView::Handled(Ok(false)))
            },
            _ => self.reject(),
        }
    }

    /// The answer to a call of a render pass.
    pub open spec fn after_pass(
        self,
        plugin_id: Seq<char>,
        component_id: Seq<char>,
        value: Seq<char>,
        stage: PassStage,
        answer: AnswerView,
    ) -> Turn {
        match (stage, answer) {
            (PassStage::ClearComponents, AnswerView::Done) => self.ask(
                PhaseView::Pass { plugin_id, component_id, value, pass: PassStage::Update },
                CallView::UpdateUi {
                    plugin_id,
                    event: Some(UiEventView { component_id, value }),
                },
            ),
            (PassStage::Update, AnswerView::Status(status)) => if status == 0 {
                self.ask(
                    PhaseView::Pass { plugin_id, component_id, value, pass: PassStage::Snapshot },
                    CallView::SerializeUi { plugin_id },
                )
            } else {
                self.settle(OutcomeView::Handled(Ok(true)))
            },
            (PassStage::Snapshot, AnswerView::Tree(tree)) => ManagerView {
                registry: with_snapshot(self.registry, plugin_id, tree_or_empty(tree)),
                ..self
            }.ask(
                PhaseView::Pass { plugin_id, component_id, value, pass: PassStage::ClearEvents },
                CallView::ClearEvents { plugin_id },
            ),
            (PassStage::ClearEvents, AnswerView::Done) => match notification(
                plugin_payload_json(plugin_id),
            ) {
                Ok(call) => self.ask(
                    PhaseView::Pass { plugin_id, component_id, value, pass: PassStage::Notify },
                    call,
                ),
                Err(_) => self.settle(OutcomeView::Handled(Ok(true))),
            },
            (PassStage::Notify, AnswerView::Delivered(_)) => self.settle(
                OutcomeView::Handled(Ok(true)),
            ),
            _ => self.reject(),
        }
    }

    /// Whether the frontend took the notification.
    pub open spec fn after_notify(self, answer: AnswerView) -> Turn {
        match answer {
            AnswerView::Delivered(delivered) => self.settle(
                OutcomeView::Notified(
                    if delivered {
                        Ok(())
                    } else {
                        Err(delivery_failed_text())
                    },
                ),
            ),
            _ => self.reject(),
        }
    }

    /// The host's answer to the call that is out.
    pub open spec fn resume(self, answer: AnswerView) -> Turn {
        match self.phase {
            PhaseView::Idle => self.reject(),
            PhaseView::Teardown { plugin_id, stage, trouble, follow } => self.after_teardown(
                plugin_id,
                stage,
                trouble,
                follow,
                answer,
            ),
            PhaseView::MountScan { plugin_id } => self.after_scan(plugin_id, answer),
            PhaseView::Mount { metadata, mount: stage } => self.after_mount(metadata, stage, answer),
            PhaseView::MountAbort { reason, .. } => self.after_abort(reason, answer),
            PhaseView::Connect { plugin_id } => self.after_connect(plugin_id, answer),
            PhaseView::Disconnect { plugin_id } => self.after_disconnect(plugin_id, answer),
            PhaseView::Message => self.after_message(answer),
            PhaseView::Snapshot { plugin_id } => self.after_snapshot(plugin_id, answer),
            PhaseView::Offer { plugin_id, component_id, value, repeated } => self.after_offer(
                plugin_id,
                component_id,
                value,
                repeated,
                answer,
            ),
            PhaseView::Pass { plugin_id, component_id, value, pass: stage } => self.after_pass(
                plugin_id,
                component_id,
                value,
                stage,
                answer,
            ),
            PhaseView::Notify => self.after_notify(answer),
        }
    }
}

} // verus!
