//! The plugin manager: registry, current plugin and the operation under way.

use vstd::prelude::*;
use vstd::string::*;
use crate::guarantees::{lemma_requests_keep_wf, lemma_resume_keeps_wf};
use crate::instance::{
    PluginInstance, find_mounted, find_slot, install, instance_views, lemma_first_mounted,
    lemma_registered, registered, retire, set_connected, set_snapshot,
};
use crate::metadata::{PluginMetadata, find_plugin_metadata, optional_text};
use crate::model::{ManagerView, Turn, notification};
use crate::payload::ui_update_payload;
use crate::phase::{
    AbortReason, Follow, MountStage, PassStage, Phase, PhaseView, TeardownStage, Trouble,
};
use crate::protocol::{
    CallView, HostAnswer, HostCall, Outcome, Step, UiEvent, optional_call,
};
use crate::text::{fits_c_string, frame};

verus! {

/// The registry of plugin instances, the current plugin, and the operation
/// under way.
#[derive(Debug)]
pub struct PluginManager {
    registry: Vec<PluginInstance>,
    current_plugin: Option<String>,
    phase: Phase,
}

impl View for PluginManager {
    type V = ManagerView;

    closed spec fn view(&self) -> ManagerView {
        ManagerView {
            registry: instance_views(self.registry@),
            current: optional_text(self.current_plugin),
            phase: self.phase@,
        }
    }
}

/// Builds the call that tells the frontend of a changed UI with `payload`,
/// or says why it cannot be made.
pub fn frontend_notification(payload: String) -> (call: Result<HostCall, String>)
    ensures
        match notification(payload@) {
            Ok(c) => call is Ok && call->Ok_0@ == c,
            Err(reason) => call is Err && call->Err_0@ == reason,
        },
{
    if fits_c_string(payload.as_str()) {
        Ok(HostCall::Emit { event_name: String::from_str("plugin-ui-updated"), payload })
    } else {
        Err(String::from_str("载荷转换失败"))
    }
}

/// Builds what the user reads once the plugin called `name` is taken down.
fn report_teardown(name: &str, trouble: Trouble) -> (text: String)
    ensures
        text@ == crate::model::teardown_report(name@, trouble),
{
    match trouble {
        Trouble::Clean => frame("插件 ", name, " 卸载成功"),
        Trouble::Disconnect => frame("插件 ", name, " 卸载完成，但有警告: 插件断开连接失败"),
        Trouble::Dispose => frame("插件 ", name, " 卸载完成，但有警告: 插件卸载失败"),
    }
}

/// The tree to store for what the host serialized: an empty list where
/// serializing failed.
fn tree_or_empty(tree: Option<String>) -> (text: String)
    ensures
        text@ == crate::model::tree_or_empty(optional_text(tree)),
{
    match tree {
        Some(t) => t,
        None => String::from_str("[]"),
    }
}

impl PluginManager {
    /// A manager that has seen no plugin.
    pub fn new() -> (manager: Self)
        ensures
            manager@ == ManagerView::fresh(),
            manager@.wf(),
    {
        let manager = PluginManager {
            registry: Vec::new(),
            current_plugin: None,
            phase: Phase::Idle,
        };
        assert(instance_views(manager.registry@) =~= Seq::empty());
        manager
    }

    /// Whether no operation is under way.
    pub fn is_idle(&self) -> (idle: bool)
        ensures
            idle == self@.idle(),
    {
        match self.phase {
            Phase::Idle => true,
            _ => false,
        }
    }

    /// The lifecycle flags of `plugin_id`, mounted first and connected
    /// second, or `None` where the registry has no entry for it.
    pub fn get_plugin_status(&self, plugin_id: &str) -> (status: Option<(bool, bool)>)
        ensures
            status == self@.status(plugin_id@),
    {
        match find_slot(&self.registry, plugin_id) {
            Some(i) => Some((self.registry[i].is_mounted, self.registry[i].is_connected)),
            None => None,
        }
    }

    /// The id of the current plugin.
    pub fn get_current_plugin(&self) -> (current: Option<String>)
        ensures
            optional_text(current) == self@.current,
    {
        match &self.current_plugin {
            Some(id) => Some(id.clone()),
            None => None,
        }
    }

    /// The name under which `plugin_id` is reported.
    fn label(&self, plugin_id: &str) -> (name: String)
        ensures
            name@ == self@.label(plugin_id@),
    {
        match find_slot(&self.registry, plugin_id) {
            Some(i) => self.registry[i].metadata.name.clone(),
            None => String::from_str(plugin_id),
        }
    }

    /// Hands out `call` and waits in `phase`.
    fn ask(&mut self, phase: Phase, call: HostCall) -> (step: Step)
        ensures
            (Turn { state: final(self)@, step: step@ }) == old(self)@.ask(phase@, call@),
    {
        self.phase = phase;
        Step::Call(call)
    }

    /// Ends the operation with `outcome`.
    fn settle(&mut self, outcome: Outcome) -> (step: Step)
        ensures
            (Turn { state: final(self)@, step: step@ }) == old(self)@.settle(outcome@),
    {
        self.phase = Phase::Idle;
        Step::Done(outcome)
    }

    /// Ends the operation with the message `text` for the user.
    fn succeed(&mut self, text: String) -> (step: Step)
        ensures
            (Turn { state: final(self)@, step: step@ }) == old(self)@.report(Ok(text@)),
    {
        self.settle(Outcome::Message(Ok(text)))
    }

    /// Ends the operation with the error `text`.
    fn fail(&mut self, text: String) -> (step: Step)
        ensures
            (Turn { state: final(self)@, step: step@ }) == old(self)@.report(Err(text@)),
    {
        self.settle(Outcome::Message(Err(text)))
    }

    /// Starts taking the mounted plugin `plugin_id` down.
    fn teardown(&mut self, plugin_id: String, follow: Follow) -> (step: Step)
        requires
            registered(old(self)@.registry, plugin_id@),
        ensures
            (Turn { state: final(self)@, step: step@ }) == old(self)@.teardown(
                plugin_id@,
                follow@,
            ),
    {
        let connected = match find_slot(&self.registry, plugin_id.as_str()) {
            Some(i) => self.registry[i].is_connected,
            None => false,
        };
        let subject = plugin_id.clone();
        if connected {
            self.ask(
                Phase::Teardown {
                    plugin_id,
                    stage: TeardownStage::Disconnect,
                    trouble: Trouble::Clean,
                    follow,
                },
                HostCall::OnDisconnect { plugin_id: subject },
            )
        } else {
            self.ask(
                Phase::Teardown {
                    plugin_id,
                    stage: TeardownStage::Dispose,
                    trouble: Trouble::Clean,
                    follow,
                },
                HostCall::OnDispose { plugin_id: subject },
            )
        }
    }

    /// Mounts `plugin_id` once no other plugin is in the way.
    fn proceed_mount(&mut self, plugin_id: String) -> (step: Step)
        ensures
            (Turn { state: final(self)@, step: step@ }) == old(self)@.proceed_mount(plugin_id@),
    {
        match find_slot(&self.registry, plugin_id.as_str()) {
            Some(i) if self.registry[i].is_mounted => {
                let text = frame("插件 ", self.registry[i].metadata.name.as_str(), " 已经挂载");
                self.current_plugin = Some(plugin_id);
                self.succeed(text)
            },
            _ => self.ask(Phase::MountScan { plugin_id }, HostCall::Scan),
        }
    }

    /// Takes the first mounted plugin down, or ends the cleanup.
    fn proceed_cleanup(&mut self) -> (step: Step)
        ensures
            (Turn { state: final(self)@, step: step@ }) == old(self)@.proceed_cleanup(),
    {
        match find_mounted(&self.registry) {
            Some(i) => {
                proof {
                    lemma_first_mounted(self@.registry, i as int);
                }
                let plugin_id = self.registry[i].metadata.id.clone();
                proof {
                    lemma_registered(self@.registry, i as int);
                }
                self.teardown(plugin_id, Follow::Cleanup)
            },
            None => {
                self.current_plugin = None;
                self.settle(Outcome::Cleaned)
            },
        }
    }

    /// Begins mounting `plugin_id`. A current plugin other than `plugin_id`
    /// is taken down first; a plugin that is mounted already only becomes
    /// current; any other is loaded, initialized, mounted and rendered once,
    /// and released again where `initialize` or `on_mount` fails.
    pub fn mount_plugin(&mut self, plugin_id: &str) -> (step: Step)
        ensures
            (Turn { state: final(self)@, step: step@ }) == old(self)@.mount_plugin(plugin_id@),
            old(self)@.wf() ==> final(self)@.wf(),
    {
        proof {
            if self@.wf() {
                lemma_requests_keep_wf(self@, plugin_id@, plugin_id@, plugin_id@);
            }
        }
        if !self.is_idle() {
            return Step::Rejected;
        }
        let target = String::from_str(plugin_id);
        let current = self.get_current_plugin();
        match current {
            Some(current_id) => {
                if current_id != target {
                    match find_slot(&self.registry, current_id.as_str()) {
                        Some(i) if self.registry[i].is_mounted => {
                            return self.teardown(current_id, Follow::Mount { plugin_id: target });
                        },
                        _ => {},
                    }
                }
            },
            None => {},
        }
        self.proceed_mount(target)
    }

    /// Begins disposing `plugin_id`: an error where it has no entry, nothing
    /// to do where it is not mounted, and otherwise `on_disconnect` (if
    /// connected), `on_dispose` and the release of its resources, whatever
    /// the two entry points report.
    pub fn dispose_plugin(&mut self, plugin_id: &str) -> (step: Step)
        ensures
            (Turn { state: final(self)@, step: step@ }) == old(self)@.dispose_plugin(plugin_id@),
            old(self)@.wf() ==> final(self)@.wf(),
    {
        proof {
            if self@.wf() {
                lemma_requests_keep_wf(self@, plugin_id@, plugin_id@, plugin_id@);
            }
        }
        if !self.is_idle() {
            return Step::Rejected;
        }
        match find_slot(&self.registry, plugin_id) {
            None => {
                let text = frame("插件 ", plugin_id, " 未找到");
                self.fail(text)
            },
            Some(i) => {
                if !self.registry[i].is_mounted {
                    let text = frame(
                        "插件 ",
                        self.registry[i].metadata.name.as_str(),
                        " 已经卸载",
                    );
                    self.succeed(text)
                } else {
                    self.teardown(String::from_str(plugin_id), Follow::Reply)
                }
            },
        }
    }

    /// Begins connecting `plugin_id`: an error where it is not mounted,
    /// nothing to do where it is connected already, otherwise `on_connect`.
    pub fn connect_plugin(&mut self, plugin_id: &str) -> (step: Step)
        ensures
            (Turn { state: final(self)@, step: step@ }) == old(self)@.connect_plugin(plugin_id@),
            old(self)@.wf() ==> final(self)@.wf(),
    {
        proof {
            if self@.wf() {
                lemma_requests_keep_wf(self@, plugin_id@, plugin_id@, plugin_id@);
            }
        }
        if !self.is_idle() {
            return Step::Rejected;
        }
        let name = self.label(plugin_id);
        match find_slot(&self.registry, plugin_id) {
            Some(i) if self.registry[i].is_mounted => {
                if self.registry[i].is_connected {
                    let text = frame("插件 ", name.as_str(), " 已经连接");
                    self.succeed(text)
                } else {
                    self.ask(
                        Phase::Connect { plugin_id: String::from_str(plugin_id) },
                        HostCall::OnConnect { plugin_id: String::from_str(plugin_id) },
                    )
                }
            },
            _ => {
                let text = frame("插件 ", name.as_str(), " 未挂载");
                self.fail(text)
            },
        }
    }

    /// Begins disconnecting `plugin_id`: an error where it is not mounted,
    /// nothing to do where it is not connected, otherwise `on_disconnect`.
    pub fn disconnect_plugin(&mut self, plugin_id: &str) -> (step: Step)
        ensures
            (Turn { state: final(self)@, step: step@ }) == old(self)@.disconnect_plugin(
                plugin_id@,
            ),
            old(self)@.wf() ==> final(self)@.wf(),
    {
        proof {
            if self@.wf() {
                lemma_requests_keep_wf(self@, plugin_id@, plugin_id@, plugin_id@);
            }
        }
        if !self.is_idle() {
            return Step::Rejected;
        }
        let name = self.label(plugin_id);
        match find_slot(&self.registry, plugin_id) {
            Some(i) if self.registry[i].is_mounted => {
                if !self.registry[i].is_connected {
                    let text = frame("插件 ", name.as_str(), " 已经断开连接");
                    self.succeed(text)
                } else {
                    self.ask(
                        Phase::Disconnect { plugin_id: String::from_str(plugin_id) },
                        HostCall::OnDisconnect { plugin_id: String::from_str(plugin_id) },
                    )
                }
            },
            _ => {
                let text = frame("插件 ", name.as_str(), " 未挂载");
                self.fail(text)
            },
        }
    }

    /// Begins handing `message` to the current plugin: an error where no
    /// plugin is current, where the current one is not mounted, or where the
    /// message cannot cross the boundary; otherwise `handle_message`.
    pub fn send_message_to_current_plugin(&mut self, message: &str) -> (step: Step)
        ensures
            (Turn { state: final(self)@, step: step@ })
                == old(self)@.send_message_to_current_plugin(message@),
            old(self)@.wf() ==> final(self)@.wf(),
    {
        proof {
            if self@.wf() {
                lemma_requests_keep_wf(self@, message@, message@, message@);
            }
        }
        if !self.is_idle() {
            return Step::Rejected;
        }
        let current = self.get_current_plugin();
        match current {
            None => self.fail(String::from_str("没有活跃的插件")),
            Some(plugin_id) => match find_slot(&self.registry, plugin_id.as_str()) {
                None => self.fail(String::from_str("当前插件未找到")),
                Some(i) => {
                    if !self.registry[i].is_mounted {
                        self.fail(String::from_str("当前插件未挂载"))
                    } else if !fits_c_string(message) {
                        self.fail(String::from_str("消息转换失败"))
                    } else {
                        self.ask(
                            Phase::Message,
                            HostCall::HandleMessage {
                                plugin_id,
                                message: String::from_str(message),
                            },
                        )
                    }
                },
            },
        }
    }

    /// Routes a plugin's call to the plugin `plugin_id`: the call of
    /// `handle_message` that the host is to make on the caller's behalf, or
    /// `None` where `plugin_id` is not mounted or `message` cannot cross the
    /// boundary. The manager stays as it is, so a plugin may call while an
    /// operation is under way.
    pub fn call_other_plugin(&self, plugin_id: &str, message: &str) -> (call: Option<HostCall>)
        ensures
            optional_call(call) == self@.call_other_plugin(plugin_id@, message@),
    {
        match find_slot(&self.registry, plugin_id) {
            Some(i) if self.registry[i].is_mounted && fits_c_string(message) => Some(
                HostCall::HandleMessage {
                    plugin_id: String::from_str(plugin_id),
                    message: String::from_str(message),
                },
            ),
            _ => None,
        }
    }

    /// Why a UI request for `plugin_id` cannot be served, if it cannot.
    fn ui_refusal(&self, plugin_id: &str) -> (refusal: Option<String>)
        ensures
            optional_text(refusal) == self@.ui_refusal(plugin_id@),
    {
        match find_slot(&self.registry, plugin_id) {
            None => Some(String::from_str("插件未找到")),
            Some(i) => {
                if !self.registry[i].is_mounted {
                    Some(String::from_str("插件未挂载"))
                } else {
                    None
                }
            },
        }
    }

    /// Begins a query for the UI tree of `plugin_id`: an error where it is
    /// not mounted, otherwise the builder's tree is serialized anew, without
    /// a render pass.
    pub fn get_plugin_ui(&mut self, plugin_id: &str) -> (step: Step)
        ensures
            (Turn { state: final(self)@, step: step@ }) == old(self)@.get_plugin_ui(plugin_id@),
            old(self)@.wf() ==> final(self)@.wf(),
    {
        proof {
            if self@.wf() {
                lemma_requests_keep_wf(self@, plugin_id@, plugin_id@, plugin_id@);
            }
        }
        if !self.is_idle() {
            return Step::Rejected;
        }
        match self.ui_refusal(plugin_id) {
            Some(reason) => self.fail(reason),
            None => self.ask(
                Phase::Snapshot { plugin_id: String::from_str(plugin_id) },
                HostCall::SerializeUi { plugin_id: String::from_str(plugin_id) },
            ),
        }
    }

    /// Begins a render pass of `plugin_id` after `component_id` took
    /// `value`: an error where the plugin is not mounted; otherwise the
    /// components are cleared, the plugin renders, and where it reports
    /// success the tree is stored, the event state cleared and the frontend
    /// told.
    pub fn handle_plugin_ui_update(
        &mut self,
        plugin_id: &str,
        component_id: &str,
        value: &str,
    ) -> (step: Step)
        ensures
            (Turn { state: final(self)@, step: step@ }) == old(self)@.handle_plugin_ui_update(
                plugin_id@,
                component_id@,
                value@,
            ),
            old(self)@.wf() ==> final(self)@.wf(),
    {
        proof {
            if self@.wf() {
                lemma_requests_keep_wf(self@, plugin_id@, component_id@, value@);
            }
        }
        if !self.is_idle() {
            return Step::Rejected;
        }
        match self.ui_refusal(plugin_id) {
            Some(reason) => self.settle(Outcome::Handled(Err(reason))),
            None => self.ask(
                Phase::Pass {
                    plugin_id: String::from_str(plugin_id),
                    component_id: String::from_str(component_id),
                    value: String::from_str(value),
                    pass: PassStage::ClearComponents,
                },
                HostCall::ClearComponents { plugin_id: String::from_str(plugin_id) },
            ),
        }
    }

    /// Begins dispatching the event `value` on `component_id` of
    /// `plugin_id`: an error where the plugin is not mounted; otherwise the
    /// UI builder is asked whether the component is one of its event
    /// targets, and only then does a render pass follow.
    pub fn handle_plugin_ui_event(
        &mut self,
        plugin_id: &str,
        component_id: &str,
        value: &str,
    ) -> (step: Step)
        ensures
            (Turn { state: final(self)@, step: step@ }) == old(self)@.handle_plugin_ui_event(
                plugin_id@,
                component_id@,
                value@,
            ),
            old(self)@.wf() ==> final(self)@.wf(),
    {
        proof {
            if self@.wf() {
                lemma_requests_keep_wf(self@, plugin_id@, component_id@, value@);
            }
        }
        if !self.is_idle() {
            return Step::Rejected;
        }
        match self.ui_refusal(plugin_id) {
            Some(reason) => self.settle(Outcome::Handled(Err(reason))),
            None => self.ask(
                Phase::Offer {
                    plugin_id: String::from_str(plugin_id),
                    component_id: String::from_str(component_id),
                    value: String::from_str(value),
                    repeated: false,
                },
                HostCall::OfferEvent {
                    plugin_id: String::from_str(plugin_id),
                    component_id: String::from_str(component_id),
                    value: String::from_str(value),
                },
            ),
        }
    }

    /// Begins telling the frontend that a plugin's UI changed, with
    /// `payload` as what it is told.
    pub fn notify(&mut self, payload: String) -> (step: Step)
        ensures
            (Turn { state: final(self)@, step: step@ }) == old(self)@.notify(payload@),
            old(self)@.wf() ==> final(self)@.wf(),
    {
        proof {
            if self@.wf() {
                lemma_requests_keep_wf(self@, payload@, payload@, payload@);
            }
        }
        if !self.is_idle() {
            return Step::Rejected;
        }
        match frontend_notification(payload) {
            Ok(call) => self.ask(Phase::Notify, call),
            Err(reason) => self.settle(Outcome::Notified(Err(reason))),
        }
    }

    /// Begins telling the frontend that the UI of `plugin_id` changed.
    pub fn notify_plugin_ui_update(&mut self, plugin_id: &str) -> (step: Step)
        ensures
            (Turn { state: final(self)@, step: step@ }) == old(self)@.notify_plugin_ui_update(
                plugin_id@,
            ),
            old(self)@.wf() ==> final(self)@.wf(),
    {
        proof {
            if self@.wf() {
                lemma_requests_keep_wf(self@, plugin_id@, plugin_id@, plugin_id@);
            }
        }
        self.notify(ui_update_payload(plugin_id))
    }

    /// Begins taking every mounted plugin down, one after the other and
    /// whatever their entry points report; no plugin is current afterwards.
    pub fn cleanup_all_plugins(&mut self) -> (step: Step)
        ensures
            (Turn { state: final(self)@, step: step@ }) == old(self)@.cleanup_all_plugins(),
            old(self)@.wf() ==> final(self)@.wf(),
    {
        proof {
            if self@.wf() {
                lemma_requests_keep_wf(self@, Seq::empty(), Seq::empty(), Seq::empty());
            }
        }
        if !self.is_idle() {
            return Step::Rejected;
        }
        self.proceed_cleanup()
    }

    /// Takes the answer to a call of a teardown.
    fn after_teardown(
        &mut self,
        plugin_id: String,
        stage: TeardownStage,
        trouble: Trouble,
        follow: Follow,
        answer: HostAnswer,
    ) -> (step: Step)
        ensures
            (Turn { state: final(self)@, step: step@ }) == old(self)@.after_teardown(
                plugin_id@,
                stage,
                trouble,
                follow@,
                answer@,
            ),
    {
        match stage {
            TeardownStage::Disconnect => match answer {
                HostAnswer::Status(status) => {
                    set_connected(&mut self.registry, plugin_id.as_str(), false);
                    let trouble = if status != 0 {
                        Trouble::Disconnect
                    } else {
                        trouble
                    };
                    let subject = plugin_id.clone();
                    self.ask(
                        Phase::Teardown {
                            plugin_id,
                            stage: TeardownStage::Dispose,
                            trouble,
                            follow,
                        },
                        HostCall::OnDispose { plugin_id: subject },
                    )
                },
                _ => Step::Rejected,
            },
            TeardownStage::Dispose => match answer {
                HostAnswer::Status(status) => {
                    let trouble = if status != 0 {
                        Trouble::Dispose
                    } else {
                        trouble
                    };
                    let subject = plugin_id.clone();
                    self.ask(
                        Phase::Teardown {
                            plugin_id,
                            stage: TeardownStage::Release,
                            trouble,
                            follow,
                        },
                        HostCall::Release { plugin_id: subject },
                    )
                },
                _ => Step::Rejected,
            },
            TeardownStage::Release => match answer {
                HostAnswer::Done => {
                    let name = self.label(plugin_id.as_str());
                    retire(&mut self.registry, plugin_id.as_str());
                    let was_current = match &self.current_plugin {
                        Some(current_id) => *current_id == plugin_id,
                        None => false,
                    };
                    if was_current {
                        self.current_plugin = None;
                    }
                    self.phase = Phase::Idle;
                    match follow {
                        Follow::Reply => {
                            let text = report_teardown(name.as_str(), trouble);
                            self.succeed(text)
                        },
                        Follow::Mount { plugin_id: target } => self.proceed_mount(target),
                        Follow::Cleanup => self.proceed_cleanup(),
                    }
                },
                _ => Step::Rejected,
            },
        }
    }

    /// Takes the answer of discovery during a mount of `plugin_id`.
    fn after_scan(&mut self, plugin_id: String, answer: HostAnswer) -> (step: Step)
        ensures
            (Turn { state: final(self)@, step: step@ }) == old(self)@.after_scan(
                plugin_id@,
                answer@,
            ),
    {
        match answer {
            HostAnswer::Plugins(plugins) => match find_plugin_metadata(
                &plugins,
                plugin_id.as_str(),
            ) {
                Err(text) => self.fail(text),
                Ok(metadata) => {
                    let library_path = match &metadata.library_path {
                        Some(path) => Some(path.clone()),
                        None => None,
                    };
                    match library_path {
                        None => {
                            let text = frame("插件 ", plugin_id.as_str(), " 没有找到动态库文件");
                            self.fail(text)
                        },
                        Some(library_path) => {
                            let subject = metadata.id.clone();
                            self.ask(
                                Phase::Mount { metadata, mount: MountStage::Load },
                                HostCall::Load { plugin_id: subject, library_path },
                            )
                        },
                    }
                },
            },
            _ => Step::Rejected,
        }
    }

    /// Gives a mount up: the plugin is released, and `reason` reported after.
    fn abort_mount(&mut self, metadata: PluginMetadata, reason: AbortReason) -> (step: Step)
        ensures
            (Turn { state: final(self)@, step: step@ }) == old(self)@.ask(
                PhaseView::MountAbort { plugin_id: metadata@.id, reason },
                CallView::Release { plugin_id: metadata@.id },
            ),
    {
        let subject = metadata.id.clone();
        self.ask(
            Phase::MountAbort { plugin_id: metadata.id, reason },
            HostCall::Release { plugin_id: subject },
        )
    }

    /// Takes the answer to a call of a mount.
    fn after_mount(&mut self, metadata: PluginMetadata, stage: MountStage, answer: HostAnswer) -> (step:
        Step)
        ensures
            (Turn { state: final(self)@, step: step@ }) == old(self)@.after_mount(
                metadata@,
                stage,
                answer@,
            ),
    {
        let subject = metadata.id.clone();
        match stage {
            MountStage::Load => match answer {
                HostAnswer::Loaded => self.ask(
                    Phase::Mount { metadata, mount: MountStage::Initialize },
                    HostCall::Initialize { plugin_id: subject },
                ),
                HostAnswer::LibraryFailed(reason) => {
                    let mut text = String::from_str("加载动态库失败: ");
                    text.append(reason.as_str());
                    self.fail(text)
                },
                HostAnswer::SymbolMissing(reason) => {
                    let mut text = String::from_str("找不到插件创建函数: ");
                    text.append(reason.as_str());
                    self.fail(text)
                },
                HostAnswer::NoHandler => self.fail(String::from_str("插件创建失败")),
                _ => Step::Rejected,
            },
            MountStage::Initialize => match answer {
                HostAnswer::Status(status) => {
                    if status == 0 {
                        let handed = metadata.clone();
                        self.ask(
                            Phase::Mount { metadata, mount: MountStage::OnMount },
                            HostCall::OnMount { metadata: handed },
                        )
                    } else {
                        self.abort_mount(metadata, AbortReason::Initialize)
                    }
                },
                _ => Step::Rejected,
            },
            MountStage::OnMount => match answer {
                HostAnswer::Status(status) => {
                    if status == 0 {
                        self.ask(
                            Phase::Mount { metadata, mount: MountStage::CreateUi },
                            HostCall::CreateUi { plugin_id: subject },
                        )
                    } else {
                        self.abort_mount(metadata, AbortReason::OnMount)
                    }
                },
                _ => Step::Rejected,
            },
            MountStage::CreateUi => match answer {
                HostAnswer::Done => self.ask(
                    Phase::Mount { metadata, mount: MountStage::Render },
                    HostCall::UpdateUi { plugin_id: subject, event: None },
                ),
                _ => Step::Rejected,
            },
            MountStage::Render => match answer {
                HostAnswer::Status(_) => self.ask(
                    Phase::Mount { metadata, mount: MountStage::Snapshot },
                    HostCall::SerializeUi { plugin_id: subject },
                ),
                _ => Step::Rejected,
            },
            MountStage::Snapshot => match answer {
                HostAnswer::Tree(tree) => {
                    let text = frame("插件 ", metadata.name.as_str(), " 挂载成功");
                    install(
                        &mut self.registry,
                        PluginInstance {
                            metadata,
                            is_mounted: true,
                            is_connected: false,
                            ui_data: Some(tree_or_empty(tree)),
                        },
                    );
                    self.current_plugin = Some(subject);
                    self.succeed(text)
                },
                _ => Step::Rejected,
            },
        }
    }

    /// Takes the answer to the release that gives a mount up.
    fn after_abort(&mut self, reason: AbortReason, answer: HostAnswer) -> (step: Step)
        ensures
            (Turn { state: final(self)@, step: step@ }) == old(self)@.after_abort(
                reason,
                answer@,
            ),
    {
        match answer {
            HostAnswer::Done => match reason {
                AbortReason::Initialize => self.fail(String::from_str("插件初始化失败")),
                AbortReason::OnMount => self.fail(String::from_str("插件挂载失败: 插件挂载失败")),
            },
            _ => Step::Rejected,
        }
    }

    /// Takes the answer of `on_connect`.
    fn after_connect(&mut self, plugin_id: String, answer: HostAnswer) -> (step: Step)
        ensures
            (Turn { state: final(self)@, step: step@ }) == old(self)@.after_connect(
                plugin_id@,
                answer@,
            ),
    {
        match answer {
            HostAnswer::Status(status) => {
                if status == 0 {
                    let name = self.label(plugin_id.as_str());
                    set_connected(&mut self.registry, plugin_id.as_str(), true);
                    let text = frame("插件 ", name.as_str(), " 连接成功");
                    self.succeed(text)
                } else {
                    self.fail(String::from_str("插件连接失败: 插件连接失败"))
                }
            },
            _ => Step::Rejected,
        }
    }

    /// Takes the answer of `on_disconnect`.
    fn after_disconnect(&mut self, plugin_id: String, answer: HostAnswer) -> (step: Step)
        ensures
            (Turn { state: final(self)@, step: step@ }) == old(self)@.after_disconnect(
                plugin_id@,
                answer@,
            ),
    {
        match answer {
            HostAnswer::Status(status) => {
                let name = self.label(plugin_id.as_str());
                set_connected(&mut self.registry, plugin_id.as_str(), false);
                let text = if status == 0 {
                    frame("插件 ", name.as_str(), " 断开连接成功")
                } else {
                    frame("插件 ", name.as_str(), " 断开连接完成，但有警告: 插件断开连接失败")
                };
                self.succeed(text)
            },
            _ => Step::Rejected,
        }
    }

    /// Takes the answer of `handle_message`.
    fn after_message(&mut self, answer: HostAnswer) -> (step: Step)
        ensures
            (Turn { state: final(self)@, step: step@ }) == old(self)@.after_message(answer@),
    {
        match answer {
            HostAnswer::Reply { status, text } => match text {
                Some(response) if status == 0 => self.succeed(response),
                _ => self.fail(String::from_str("插件处理消息失败")),
            },
            _ => Step::Rejected,
        }
    }

    /// Takes the serialized tree that a UI query waits for.
    fn after_snapshot(&mut self, plugin_id: String, answer: HostAnswer) -> (step: Step)
        ensures
            (Turn { state: final(self)@, step: step@ }) == old(self)@.after_snapshot(
                plugin_id@,
                answer@,
            ),
    {
        match answer {
            HostAnswer::Tree(tree) => {
                let tree = tree_or_empty(tree);
                set_snapshot(&mut self.registry, plugin_id.as_str(), tree.clone());
                self.succeed(tree)
            },
            _ => Step::Rejected,
        }
    }

    /// Takes what the UI builder says to an event that it was offered.
    fn after_offer(
        &mut self,
        plugin_id: String,
        component_id: String,
        value: String,
        repeated: bool,
        answer: HostAnswer,
    ) -> (step: Step)
        ensures
            (Turn { state: final(self)@, step: step@ }) == old(self)@.after_offer(
                plugin_id@,
                component_id@,
                value@,
                repeated,
                answer@,
            ),
    {
        match answer {
            HostAnswer::Recognized(recognized) => {
                if repeated {
                    let subject = plugin_id.clone();
                    self.ask(
                        Phase::Pass {
                            plugin_id,
                            component_id,
                            value,
                            pass: PassStage::ClearComponents,
                        },
                        HostCall::ClearComponents { plugin_id: subject },
                    )
                } else if recognized {
                    let call = HostCall::OfferEvent {
                        plugin_id: plugin_id.clone(),
                        component_id: component_id.clone(),
                        value: value.clone(),
                    };
                    self.ask(Phase::Offer { plugin_id, component_id, value, repeated: true }, call)
                } else {
                    self.settle(Outcome::Handled(Ok(false)))
                }
            },
            _ => Step::Rejected,
        }
    }

    /// Takes the answer to a call of a render pass.
    fn after_pass(
        &mut self,
        plugin_id: String,
        component_id: String,
        value: String,
        stage: PassStage,
        answer: HostAnswer,
    ) -> (step: Step)
        ensures
            (Turn { state: final(self)@, step: step@ }) == old(self)@.after_pass(
                plugin_id@,
                component_id@,
                value@,
                stage,
                answer@,
            ),
    {
        let subject = plugin_id.clone();
        match stage {
            PassStage::ClearComponents => match answer {
                HostAnswer::Done => {
                    let event = UiEvent {
                        component_id: component_id.clone(),
                        value: value.clone(),
                    };
                    self.ask(
                        Phase::Pass { plugin_id, component_id, value, pass: PassStage::Update },
                        HostCall::UpdateUi { plugin_id: subject, event: Some(event) },
                    )
                },
                _ => Step::Rejected,
            },
            PassStage::Update => match answer {
                HostAnswer::Status(status) => {
                    if status == 0 {
                        self.ask(
                            Phase::Pass {
                                plugin_id,
                                component_id,
                                value,
                                pass: PassStage::Snapshot,
                            },
                            HostCall::SerializeUi { plugin_id: subject },
                        )
                    } else {
                        self.settle(Outcome::Handled(Ok(true)))
                    }
                },
                _ => Step::Rejected,
            },
            PassStage::Snapshot => match answer {
                HostAnswer::Tree(tree) => {
                    set_snapshot(&mut self.registry, plugin_id.as_str(), tree_or_empty(tree));
                    self.ask(
                        Phase::Pass {
                            plugin_id,
                            component_id,
                            value,
                            pass: PassStage::ClearEvents,
                        },
                        HostCall::ClearEvents { plugin_id: subject },
                    )
                },
                _ => Step::Rejected,
            },
            PassStage::ClearEvents => match answer {
                HostAnswer::Done => match frontend_notification(
                    ui_update_payload(plugin_id.as_str()),
                ) {
                    Ok(call) => self.ask(
                        Phase::Pass { plugin_id, component_id, value, pass: PassStage::Notify },
                        call,
                    ),
                    Err(_) => self.settle(Outcome::Handled(Ok(true))),
                },
                _ => Step::Rejected,
            },
            PassStage::Notify => match answer {
                HostAnswer::Delivered(_) => self.settle(Outcome::Handled(Ok(true))),
                _ => Step::Rejected,
            },
        }
    }

    /// Takes the frontend's answer to a notification.
    fn after_notify(&mut self, answer: HostAnswer) -> (step: Step)
        ensures
            (Turn { state: final(self)@, step: step@ }) == old(self)@.after_notify(answer@),
    {
        match answer {
            HostAnswer::Delivered(delivered) => {
                if delivered {
                    self.settle(Outcome::Notified(Ok(())))
                } else {
                    self.settle(Outcome::Notified(Err(String::from_str("发送UI更新事件失败"))))
                }
            },
            _ => Step::Rejected,
        }
    }

    /// Takes the host's answer to the call that is out and says what comes
    /// next: another call, the outcome of the operation, or `Rejected` where
    /// no call is out or the call that is out cannot have this answer.
    pub fn resume(&mut self, answer: HostAnswer) -> (step: Step)
        ensures
            (Turn { state: final(self)@, step: step@ }) == old(self)@.resume(answer@),
            old(self)@.wf() ==> final(self)@.wf(),
    {
        proof {
            if self@.wf() {
                lemma_resume_keeps_wf(self@, answer@);
            }
        }
        let phase = self.phase.clone();
        match phase {
            Phase::Idle => Step::Rejected,
            Phase::Teardown { plugin_id, stage, trouble, follow } => self.after_teardown(
                plugin_id,
                stage,
                trouble,
                follow,
                answer,
            ),
            Phase::MountScan { plugin_id } => self.after_scan(plugin_id, answer),
            Phase::Mount { metadata, mount: stage } => self.after_mount(metadata, stage, answer),
            Phase::MountAbort { reason, .. } => self.after_abort(reason, answer),
            Phase::Connect { plugin_id } => self.after_connect(plugin_id, answer),
            Phase::Disconnect { plugin_id } => self.after_disconnect(plugin_id, answer),
            Phase::Message => self.after_message(answer),
            Phase::Snapshot { plugin_id } => self.after_snapshot(plugin_id, answer),
            Phase::Offer { plugin_id, component_id, value, repeated } => self.after_offer(
                plugin_id,
                component_id,
                value,
                repeated,
                answer,
            ),
            Phase::Pass { plugin_id, component_id, value, pass: stage } => self.after_pass(
                plugin_id,
                component_id,
                value,
                stage,
                answer,
            ),
            Phase::Notify => self.after_notify(answer),
        }
    }
}

} // verus!
