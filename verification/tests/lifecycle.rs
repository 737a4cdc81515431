use plugin_manager::manager::PluginManager;
use plugin_manager::metadata::PluginMetadata;
use plugin_manager::protocol::{HostAnswer, HostCall, Outcome, Step};

/// A plugin whose entry points answer as scripted.
struct FakePlugin {
    metadata: PluginMetadata,
    load: HostAnswer,
    initialize: i32,
    on_mount: i32,
    on_connect: i32,
    on_disconnect: i32,
    on_dispose: i32,
    update_ui: i32,
    handle_message: i32,
    responds: bool,
    tree: Option<String>,
    event_targets: Vec<String>,
}

fn plugin(id: &str, name: &str) -> FakePlugin {
    FakePlugin {
        metadata: PluginMetadata {
            id: id.to_string(),
            name: name.to_string(),
            version: "1.0.0".to_string(),
            library_path: Some(format!("/plugins/lib{}.so", id)),
        },
        load: HostAnswer::Loaded,
        initialize: 0,
        on_mount: 0,
        on_connect: 0,
        on_disconnect: 0,
        on_dispose: 0,
        update_ui: 0,
        handle_message: 0,
        responds: true,
        tree: Some("[{\"type\":\"button\",\"id\":\"btn1\"}]".to_string()),
        event_targets: vec!["btn1".to_string()],
    }
}

/// A host that performs calls against fake plugins and keeps a log.
struct FakeHost {
    plugins: Vec<FakePlugin>,
    loaded: Vec<String>,
    frontend_up: bool,
    log: Vec<String>,
    emitted: Vec<(String, String)>,
}

impl FakeHost {
    fn new(plugins: Vec<FakePlugin>) -> FakeHost {
        FakeHost { plugins, loaded: Vec::new(), frontend_up: true, log: Vec::new(), emitted: Vec::new() }
    }

    fn find(&self, id: &str) -> &FakePlugin {
        self.plugins.iter().find(|p| p.metadata.id == id).expect("a call for a plugin that the host does not have")
    }

    fn native(&self, id: &str) -> &FakePlugin {
        assert!(self.loaded.iter().any(|l| l == id), "a call into {} while it is not loaded", id);
        self.find(id)
    }

    fn perform(&mut self, call: HostCall) -> HostAnswer {
        match call {
            HostCall::Scan => {
                self.log.push("scan".to_string());
                HostAnswer::Plugins(
                    self.plugins
                        .iter()
                        .map(|p| PluginMetadata {
                            id: p.metadata.id.clone(),
                            name: p.metadata.name.clone(),
                            version: p.metadata.version.clone(),
                            library_path: p.metadata.library_path.clone(),
                        })
                        .collect(),
                )
            }
            HostCall::Load { plugin_id, library_path } => {
                self.log.push(format!("load {} {}", plugin_id, library_path));
                assert!(!self.loaded.contains(&plugin_id), "{} loaded twice", plugin_id);
                let answer = match &self.find(&plugin_id).load {
                    HostAnswer::Loaded => HostAnswer::Loaded,
                    HostAnswer::LibraryFailed(reason) => HostAnswer::LibraryFailed(reason.clone()),
                    HostAnswer::SymbolMissing(reason) => HostAnswer::SymbolMissing(reason.clone()),
                    _ => HostAnswer::NoHandler,
                };
                if answer == HostAnswer::Loaded {
                    self.loaded.push(plugin_id);
                }
                answer
            }
            HostCall::Initialize { plugin_id } => {
                self.log.push(format!("initialize {}", plugin_id));
                HostAnswer::Status(self.native(&plugin_id).initialize)
            }
            HostCall::OnMount { metadata } => {
                self.log.push(format!("on_mount {}", metadata.id));
                assert_eq!(metadata, self.find(&metadata.id).metadata);
                HostAnswer::Status(self.native(&metadata.id).on_mount)
            }
            HostCall::OnConnect { plugin_id } => {
                self.log.push(format!("on_connect {}", plugin_id));
                HostAnswer::Status(self.native(&plugin_id).on_connect)
            }
            HostCall::OnDisconnect { plugin_id } => {
                self.log.push(format!("on_disconnect {}", plugin_id));
                HostAnswer::Status(self.native(&plugin_id).on_disconnect)
            }
            HostCall::OnDispose { plugin_id } => {
                self.log.push(format!("on_dispose {}", plugin_id));
                HostAnswer::Status(self.native(&plugin_id).on_dispose)
            }
            HostCall::Release { plugin_id } => {
                self.log.push(format!("release {}", plugin_id));
                self.native(&plugin_id);
                self.loaded.retain(|l| *l != plugin_id);
                HostAnswer::Done
            }
            HostCall::HandleMessage { plugin_id, message } => {
                self.log.push(format!("handle_message {} {}", plugin_id, message));
                let p = self.native(&plugin_id);
                HostAnswer::Reply {
                    status: p.handle_message,
                    text: if p.responds { Some(format!("OK:{}", message)) } else { None },
                }
            }
            HostCall::CreateUi { plugin_id } => {
                self.log.push(format!("create_ui {}", plugin_id));
                self.native(&plugin_id);
                HostAnswer::Done
            }
            HostCall::OfferEvent { plugin_id, component_id, value } => {
                self.log.push(format!("offer {} {} {}", plugin_id, component_id, value));
                HostAnswer::Recognized(self.native(&plugin_id).event_targets.contains(&component_id))
            }
            HostCall::ClearComponents { plugin_id } => {
                self.log.push(format!("clear_components {}", plugin_id));
                HostAnswer::Done
            }
            HostCall::UpdateUi { plugin_id, event } => {
                match event {
                    Some(e) => self.log.push(format!("update_ui {} {}={}", plugin_id, e.component_id, e.value)),
                    None => self.log.push(format!("update_ui {}", plugin_id)),
                }
                HostAnswer::Status(self.native(&plugin_id).update_ui)
            }
            HostCall::SerializeUi { plugin_id } => {
                self.log.push(format!("serialize {}", plugin_id));
                HostAnswer::Tree(self.native(&plugin_id).tree.clone())
            }
            HostCall::ClearEvents { plugin_id } => {
                self.log.push(format!("clear_events {}", plugin_id));
                HostAnswer::Done
            }
            HostCall::Emit { event_name, payload } => {
                self.log.push(format!("emit {}", event_name));
                if self.frontend_up {
                    self.emitted.push((event_name, payload));
                }
                HostAnswer::Delivered(self.frontend_up)
            }
        }
    }

    /// Carries a conversation to its end.
    fn drive(&mut self, manager: &mut PluginManager, first: Step) -> Outcome {
        let mut step = first;
        loop {
            match step {
                Step::Call(call) => {
                    let answer = self.perform(call);
                    step = manager.resume(answer);
                }
                Step::Done(outcome) => {
                    assert!(manager.is_idle());
                    return outcome;
                }
                Step::Rejected => panic!("the manager rejected a turn"),
            }
        }
    }

    fn mount(&mut self, manager: &mut PluginManager, id: &str) -> Result<String, String> {
        let first = manager.mount_plugin(id);
        text(self.drive(manager, first))
    }

    fn dispose(&mut self, manager: &mut PluginManager, id: &str) -> Result<String, String> {
        let first = manager.dispose_plugin(id);
        text(self.drive(manager, first))
    }

    fn connect(&mut self, manager: &mut PluginManager, id: &str) -> Result<String, String> {
        let first = manager.connect_plugin(id);
        text(self.drive(manager, first))
    }

    fn disconnect(&mut self, manager: &mut PluginManager, id: &str) -> Result<String, String> {
        let first = manager.disconnect_plugin(id);
        text(self.drive(manager, first))
    }

    fn send(&mut self, manager: &mut PluginManager, message: &str) -> Result<String, String> {
        let first = manager.send_message_to_current_plugin(message);
        text(self.drive(manager, first))
    }

    fn ui(&mut self, manager: &mut PluginManager, id: &str) -> Result<String, String> {
        let first = manager.get_plugin_ui(id);
        text(self.drive(manager, first))
    }

    fn ui_update(&mut self, manager: &mut PluginManager, id: &str, component: &str, value: &str) -> Result<bool, String> {
        let first = manager.handle_plugin_ui_update(id, component, value);
        handled(self.drive(manager, first))
    }

    fn ui_event(&mut self, manager: &mut PluginManager, id: &str, component: &str, value: &str) -> Result<bool, String> {
        let first = manager.handle_plugin_ui_event(id, component, value);
        handled(self.drive(manager, first))
    }

    fn count(&self, prefix: &str) -> usize {
        self.log.iter().filter(|l| l.starts_with(prefix)).count()
    }
}

fn text(outcome: Outcome) -> Result<String, String> {
    match outcome {
        Outcome::Message(message) => message,
        other => panic!("not a message: {:?}", other),
    }
}

fn handled(outcome: Outcome) -> Result<bool, String> {
    match outcome {
        Outcome::Handled(result) => result,
        other => panic!("not a UI outcome: {:?}", other),
    }
}

fn ok(s: &str) -> Result<String, String> {
    Ok(s.to_string())
}

fn err(s: &str) -> Result<String, String> {
    Err(s.to_string())
}

fn two_plugins() -> FakeHost {
    FakeHost::new(vec![plugin("alpha", "Alpha"), plugin("beta", "Beta")])
}

#[test]
fn new_manager_knows_no_plugin() {
    let manager = PluginManager::new();
    assert!(manager.is_idle());
    assert_eq!(manager.get_current_plugin(), None);
    assert_eq!(manager.get_plugin_status("alpha"), None);
}

#[test]
fn mount_leaves_plugin_mounted_unconnected_and_current() {
    let mut host = two_plugins();
    let mut manager = PluginManager::new();
    assert_eq!(host.mount(&mut manager, "alpha"), ok("插件 Alpha 挂载成功"));
    assert_eq!(manager.get_plugin_status("alpha"), Some((true, false)));
    assert_eq!(manager.get_current_plugin(), Some("alpha".to_string()));
    assert_eq!(host.loaded, vec!["alpha".to_string()]);
}

#[test]
fn mount_makes_each_call_once_and_in_order() {
    let mut host = two_plugins();
    let mut manager = PluginManager::new();
    host.mount(&mut manager, "alpha").unwrap();
    assert_eq!(
        host.log,
        vec![
            "scan",
            "load alpha /plugins/libalpha.so",
            "initialize alpha",
            "on_mount alpha",
            "create_ui alpha",
            "update_ui alpha",
            "serialize alpha",
        ]
    );
}

#[test]
fn mount_hands_out_the_first_call_and_waits() {
    let mut manager = PluginManager::new();
    assert_eq!(manager.mount_plugin("alpha"), Step::Call(HostCall::Scan));
    assert!(!manager.is_idle());
    assert_eq!(manager.get_plugin_status("alpha"), None);
}

#[test]
fn second_mount_is_idempotent() {
    let mut host = two_plugins();
    let mut manager = PluginManager::new();
    host.mount(&mut manager, "alpha").unwrap();
    host.connect(&mut manager, "alpha").unwrap();
    let calls = host.log.len();
    assert_eq!(host.mount(&mut manager, "alpha"), ok("插件 Alpha 已经挂载"));
    assert_eq!(host.log.len(), calls);
    assert_eq!(manager.get_plugin_status("alpha"), Some((true, true)));
    assert_eq!(manager.get_current_plugin(), Some("alpha".to_string()));
}

#[test]
fn mounting_another_plugin_disposes_the_current_one_first() {
    let mut host = two_plugins();
    let mut manager = PluginManager::new();
    host.mount(&mut manager, "alpha").unwrap();
    host.connect(&mut manager, "alpha").unwrap();
    host.log.clear();
    assert_eq!(host.mount(&mut manager, "beta"), ok("插件 Beta 挂载成功"));
    assert_eq!(manager.get_plugin_status("alpha"), Some((false, false)));
    assert_eq!(manager.get_plugin_status("beta"), Some((true, false)));
    assert_eq!(manager.get_current_plugin(), Some("beta".to_string()));
    assert_eq!(
        &host.log[..4],
        &["on_disconnect alpha", "on_dispose alpha", "release alpha", "scan"]
    );
    assert_eq!(host.loaded, vec!["beta".to_string()]);
}

#[test]
fn failed_mount_of_another_plugin_still_disposes_the_current_one() {
    let mut host = two_plugins();
    host.plugins[1].initialize = 7;
    let mut manager = PluginManager::new();
    host.mount(&mut manager, "alpha").unwrap();
    assert_eq!(host.mount(&mut manager, "beta"), err("插件初始化失败"));
    assert_eq!(manager.get_plugin_status("alpha"), Some((false, false)));
    assert_eq!(manager.get_plugin_status("beta"), None);
    assert_eq!(manager.get_current_plugin(), None);
    assert!(host.loaded.is_empty());
}

#[test]
fn mount_of_unknown_plugin_is_not_found() {
    let mut host = two_plugins();
    let mut manager = PluginManager::new();
    assert_eq!(host.mount(&mut manager, "ghost"), err("插件 ghost 未找到"));
    assert_eq!(manager.get_plugin_status("ghost"), None);
    assert_eq!(manager.get_current_plugin(), None);
    assert_eq!(host.log, vec!["scan"]);
}

#[test]
fn mount_without_library_path_fails() {
    let mut host = two_plugins();
    host.plugins[0].metadata.library_path = None;
    let mut manager = PluginManager::new();
    assert_eq!(host.mount(&mut manager, "alpha"), err("插件 alpha 没有找到动态库文件"));
    assert_eq!(manager.get_plugin_status("alpha"), None);
    assert_eq!(host.log, vec!["scan"]);
}

#[test]
fn mount_reports_a_library_that_does_not_load() {
    let mut host = two_plugins();
    host.plugins[0].load = HostAnswer::LibraryFailed("file not found".to_string());
    let mut manager = PluginManager::new();
    assert_eq!(host.mount(&mut manager, "alpha"), err("加载动态库失败: file not found"));
    assert_eq!(manager.get_plugin_status("alpha"), None);
    assert_eq!(host.count("release"), 0);
}

#[test]
fn mount_reports_a_missing_creation_entry_point() {
    let mut host = two_plugins();
    host.plugins[0].load = HostAnswer::SymbolMissing("undefined symbol".to_string());
    let mut manager = PluginManager::new();
    assert_eq!(host.mount(&mut manager, "alpha"), err("找不到插件创建函数: undefined symbol"));
    assert_eq!(manager.get_current_plugin(), None);
}

#[test]
fn mount_reports_a_null_handler() {
    let mut host = two_plugins();
    host.plugins[0].load = HostAnswer::NoHandler;
    let mut manager = PluginManager::new();
    assert_eq!(host.mount(&mut manager, "alpha"), err("插件创建失败"));
    assert_eq!(manager.get_plugin_status("alpha"), None);
}

#[test]
fn failed_initialize_releases_the_plugin() {
    let mut host = two_plugins();
    host.plugins[0].initialize = -1;
    let mut manager = PluginManager::new();
    assert_eq!(host.mount(&mut manager, "alpha"), err("插件初始化失败"));
    assert_eq!(
        host.log,
        vec!["scan", "load alpha /plugins/libalpha.so", "initialize alpha", "release alpha"]
    );
    assert!(host.loaded.is_empty());
    assert_eq!(manager.get_plugin_status("alpha"), None);
    assert_eq!(manager.get_current_plugin(), None);
}

#[test]
fn failed_on_mount_releases_the_plugin_without_rendering() {
    let mut host = two_plugins();
    host.plugins[0].on_mount = 3;
    let mut manager = PluginManager::new();
    assert_eq!(host.mount(&mut manager, "alpha"), err("插件挂载失败: 插件挂载失败"));
    assert_eq!(host.count("update_ui"), 0);
    assert_eq!(host.count("release"), 1);
    assert!(host.loaded.is_empty());
    assert_eq!(manager.get_plugin_status("alpha"), None);
}

#[test]
fn mount_succeeds_whatever_the_first_render_reports() {
    let mut host = two_plugins();
    host.plugins[0].update_ui = 9;
    let mut manager = PluginManager::new();
    assert_eq!(host.mount(&mut manager, "alpha"), ok("插件 Alpha 挂载成功"));
    assert_eq!(manager.get_plugin_status("alpha"), Some((true, false)));
}

#[test]
fn mount_takes_the_first_of_two_records_with_one_id() {
    let mut host = FakeHost::new(vec![plugin("alpha", "First"), plugin("alpha", "Second")]);
    let mut manager = PluginManager::new();
    assert_eq!(host.mount(&mut manager, "alpha"), ok("插件 First 挂载成功"));
}

#[test]
fn dispose_of_never_mounted_plugin_is_not_found() {
    let mut host = two_plugins();
    let mut manager = PluginManager::new();
    assert_eq!(host.dispose(&mut manager, "alpha"), err("插件 alpha 未找到"));
    assert!(host.log.is_empty());
}

#[test]
fn dispose_of_unmounted_plugin_is_a_no_op() {
    let mut host = two_plugins();
    let mut manager = PluginManager::new();
    host.mount(&mut manager, "alpha").unwrap();
    assert_eq!(host.dispose(&mut manager, "alpha"), ok("插件 Alpha 卸载成功"));
    let calls = host.log.len();
    assert_eq!(host.dispose(&mut manager, "alpha"), ok("插件 Alpha 已经卸载"));
    assert_eq!(host.log.len(), calls);
    assert_eq!(manager.get_plugin_status("alpha"), Some((false, false)));
}

#[test]
fn dispose_clears_flags_and_current() {
    let mut host = two_plugins();
    let mut manager = PluginManager::new();
    host.mount(&mut manager, "alpha").unwrap();
    host.log.clear();
    assert_eq!(host.dispose(&mut manager, "alpha"), ok("插件 Alpha 卸载成功"));
    assert_eq!(host.log, vec!["on_dispose alpha", "release alpha"]);
    assert_eq!(manager.get_plugin_status("alpha"), Some((false, false)));
    assert_eq!(manager.get_current_plugin(), None);
    assert!(host.loaded.is_empty());
}

#[test]
fn dispose_disconnects_a_connected_plugin_first() {
    let mut host = two_plugins();
    let mut manager = PluginManager::new();
    host.mount(&mut manager, "alpha").unwrap();
    host.connect(&mut manager, "alpha").unwrap();
    host.log.clear();
    assert_eq!(host.dispose(&mut manager, "alpha"), ok("插件 Alpha 卸载成功"));
    assert_eq!(host.log, vec!["on_disconnect alpha", "on_dispose alpha", "release alpha"]);
    assert_eq!(manager.get_plugin_status("alpha"), Some((false, false)));
}

#[test]
fn dispose_releases_even_when_on_dispose_fails() {
    let mut host = two_plugins();
    host.plugins[0].on_dispose = 1;
    let mut manager = PluginManager::new();
    host.mount(&mut manager, "alpha").unwrap();
    assert_eq!(
        host.dispose(&mut manager, "alpha"),
        ok("插件 Alpha 卸载完成，但有警告: 插件卸载失败")
    );
    assert_eq!(host.count("release alpha"), 1);
    assert!(host.loaded.is_empty());
    assert_eq!(manager.get_plugin_status("alpha"), Some((false, false)));
    assert_eq!(manager.get_current_plugin(), None);
}

#[test]
fn dispose_warns_when_on_disconnect_fails() {
    let mut host = two_plugins();
    host.plugins[0].on_disconnect = 5;
    let mut manager = PluginManager::new();
    host.mount(&mut manager, "alpha").unwrap();
    host.connect(&mut manager, "alpha").unwrap();
    assert_eq!(
        host.dispose(&mut manager, "alpha"),
        ok("插件 Alpha 卸载完成，但有警告: 插件断开连接失败")
    );
    assert_eq!(host.count("on_dispose alpha"), 1);
    assert_eq!(host.count("release alpha"), 1);
    assert_eq!(manager.get_plugin_status("alpha"), Some((false, false)));
}

#[test]
fn dispose_names_on_dispose_when_both_entry_points_fail() {
    let mut host = two_plugins();
    host.plugins[0].on_disconnect = 5;
    host.plugins[0].on_dispose = 6;
    let mut manager = PluginManager::new();
    host.mount(&mut manager, "alpha").unwrap();
    host.connect(&mut manager, "alpha").unwrap();
    assert_eq!(
        host.dispose(&mut manager, "alpha"),
        ok("插件 Alpha 卸载完成，但有警告: 插件卸载失败")
    );
}

#[test]
fn disposed_plugin_can_be_mounted_again() {
    let mut host = two_plugins();
    let mut manager = PluginManager::new();
    host.mount(&mut manager, "alpha").unwrap();
    host.dispose(&mut manager, "alpha").unwrap();
    host.log.clear();
    assert_eq!(host.mount(&mut manager, "alpha"), ok("插件 Alpha 挂载成功"));
    assert_eq!(host.count("load alpha"), 1);
    assert_eq!(host.count("initialize alpha"), 1);
    assert_eq!(manager.get_plugin_status("alpha"), Some((true, false)));
    assert_eq!(manager.get_current_plugin(), Some("alpha".to_string()));
}

#[test]
fn connect_before_mount_is_not_mounted() {
    let mut host = two_plugins();
    let mut manager = PluginManager::new();
    assert_eq!(host.connect(&mut manager, "alpha"), err("插件 alpha 未挂载"));
    assert_eq!(host.disconnect(&mut manager, "alpha"), err("插件 alpha 未挂载"));
    assert!(host.log.is_empty());
}

#[test]
fn connect_of_disposed_plugin_is_not_mounted() {
    let mut host = two_plugins();
    let mut manager = PluginManager::new();
    host.mount(&mut manager, "alpha").unwrap();
    host.dispose(&mut manager, "alpha").unwrap();
    assert_eq!(host.connect(&mut manager, "alpha"), err("插件 Alpha 未挂载"));
    assert_eq!(host.disconnect(&mut manager, "alpha"), err("插件 Alpha 未挂载"));
}

#[test]
fn connect_then_disconnect_returns_to_mounted() {
    let mut host = two_plugins();
    let mut manager = PluginManager::new();
    host.mount(&mut manager, "alpha").unwrap();
    assert_eq!(host.connect(&mut manager, "alpha"), ok("插件 Alpha 连接成功"));
    assert_eq!(manager.get_plugin_status("alpha"), Some((true, true)));
    assert_eq!(host.disconnect(&mut manager, "alpha"), ok("插件 Alpha 断开连接成功"));
    assert_eq!(manager.get_plugin_status("alpha"), Some((true, false)));
    let calls = host.log.len();
    assert_eq!(host.disconnect(&mut manager, "alpha"), ok("插件 Alpha 已经断开连接"));
    assert_eq!(host.log.len(), calls);
    assert_eq!(manager.get_plugin_status("alpha"), Some((true, false)));
}

#[test]
fn second_connect_is_a_no_op() {
    let mut host = two_plugins();
    let mut manager = PluginManager::new();
    host.mount(&mut manager, "alpha").unwrap();
    host.connect(&mut manager, "alpha").unwrap();
    assert_eq!(host.connect(&mut manager, "alpha"), ok("插件 Alpha 已经连接"));
    assert_eq!(host.count("on_connect"), 1);
}

#[test]
fn failed_connect_leaves_the_plugin_unconnected() {
    let mut host = two_plugins();
    host.plugins[0].on_connect = 2;
    let mut manager = PluginManager::new();
    host.mount(&mut manager, "alpha").unwrap();
    assert_eq!(host.connect(&mut manager, "alpha"), err("插件连接失败: 插件连接失败"));
    assert_eq!(manager.get_plugin_status("alpha"), Some((true, false)));
}

#[test]
fn failed_disconnect_still_disconnects() {
    let mut host = two_plugins();
    host.plugins[0].on_disconnect = 2;
    let mut manager = PluginManager::new();
    host.mount(&mut manager, "alpha").unwrap();
    host.connect(&mut manager, "alpha").unwrap();
    assert_eq!(
        host.disconnect(&mut manager, "alpha"),
        ok("插件 Alpha 断开连接完成，但有警告: 插件断开连接失败")
    );
    assert_eq!(manager.get_plugin_status("alpha"), Some((true, false)));
}

#[test]
fn message_without_current_plugin_fails() {
    let mut host = two_plugins();
    let mut manager = PluginManager::new();
    assert_eq!(host.send(&mut manager, "ping"), err("没有活跃的插件"));
    host.mount(&mut manager, "alpha").unwrap();
    host.dispose(&mut manager, "alpha").unwrap();
    assert_eq!(host.send(&mut manager, "ping"), err("没有活跃的插件"));
    assert_eq!(host.count("handle_message"), 0);
}

#[test]
fn message_reaches_the_current_plugin() {
    let mut host = two_plugins();
    let mut manager = PluginManager::new();
    host.mount(&mut manager, "alpha").unwrap();
    assert_eq!(host.send(&mut manager, "ping"), ok("OK:ping"));
    assert_eq!(host.count("handle_message alpha ping"), 1);
    assert_eq!(host.send(&mut manager, ""), ok("OK:"));
}

#[test]
fn message_with_a_zero_byte_is_refused() {
    let mut host = two_plugins();
    let mut manager = PluginManager::new();
    host.mount(&mut manager, "alpha").unwrap();
    assert_eq!(host.send(&mut manager, "pi\0ng"), err("消息转换失败"));
    assert_eq!(host.count("handle_message"), 0);
    assert!(manager.is_idle());
}

#[test]
fn message_that_the_plugin_fails_is_an_error() {
    let mut host = two_plugins();
    host.plugins[0].handle_message = 4;
    let mut manager = PluginManager::new();
    host.mount(&mut manager, "alpha").unwrap();
    assert_eq!(host.send(&mut manager, "ping"), err("插件处理消息失败"));
}

#[test]
fn message_without_response_is_an_error() {
    let mut host = two_plugins();
    host.plugins[0].responds = false;
    let mut manager = PluginManager::new();
    host.mount(&mut manager, "alpha").unwrap();
    assert_eq!(host.send(&mut manager, "ping"), err("插件处理消息失败"));
}

#[test]
fn call_to_another_plugin_reaches_only_a_mounted_one() {
    let mut host = two_plugins();
    let mut manager = PluginManager::new();
    assert_eq!(manager.call_other_plugin("alpha", "hello"), None);
    host.mount(&mut manager, "alpha").unwrap();
    assert_eq!(
        manager.call_other_plugin("alpha", "hello"),
        Some(HostCall::HandleMessage {
            plugin_id: "alpha".to_string(),
            message: "hello".to_string(),
        })
    );
    assert_eq!(manager.call_other_plugin("beta", "hello"), None);
    assert_eq!(manager.call_other_plugin("alpha", "hel\0lo"), None);
    host.dispose(&mut manager, "alpha").unwrap();
    assert_eq!(manager.call_other_plugin("alpha", "hello"), None);
}

#[test]
fn call_to_another_plugin_is_routed_during_an_operation() {
    let mut host = two_plugins();
    let mut manager = PluginManager::new();
    host.mount(&mut manager, "alpha").unwrap();
    let step = manager.send_message_to_current_plugin("ping");
    assert!(!manager.is_idle());
    let call = manager.call_other_plugin("alpha", "nested").unwrap();
    assert_eq!(
        host.perform(call),
        HostAnswer::Reply { status: 0, text: Some("OK:nested".to_string()) }
    );
    assert_eq!(host.drive(&mut manager, step), Outcome::Message(Ok("OK:ping".to_string())));
}

#[test]
fn ui_of_mounted_plugin_is_its_serialized_tree() {
    let mut host = two_plugins();
    let mut manager = PluginManager::new();
    host.mount(&mut manager, "alpha").unwrap();
    let renders = host.count("update_ui");
    assert_eq!(host.ui(&mut manager, "alpha"), ok("[{\"type\":\"button\",\"id\":\"btn1\"}]"));
    assert_eq!(host.count("update_ui"), renders);
}

#[test]
fn ui_is_an_empty_list_when_serializing_fails() {
    let mut host = two_plugins();
    host.plugins[0].tree = None;
    let mut manager = PluginManager::new();
    host.mount(&mut manager, "alpha").unwrap();
    assert_eq!(host.ui(&mut manager, "alpha"), ok("[]"));
}

#[test]
fn ui_of_unknown_or_unmounted_plugin_is_an_error() {
    let mut host = two_plugins();
    let mut manager = PluginManager::new();
    assert_eq!(host.ui(&mut manager, "alpha"), err("插件未找到"));
    assert_eq!(host.ui_update(&mut manager, "alpha", "btn1", "x"), Err("插件未找到".to_string()));
    assert_eq!(host.ui_event(&mut manager, "alpha", "btn1", "x"), Err("插件未找到".to_string()));
    host.mount(&mut manager, "alpha").unwrap();
    host.dispose(&mut manager, "alpha").unwrap();
    assert_eq!(host.ui(&mut manager, "alpha"), err("插件未挂载"));
    assert_eq!(host.ui_update(&mut manager, "alpha", "btn1", "x"), Err("插件未挂载".to_string()));
    assert_eq!(host.ui_event(&mut manager, "alpha", "btn1", "x"), Err("插件未挂载".to_string()));
}

#[test]
fn recognized_event_renders_once_and_notifies_once() {
    let mut host = two_plugins();
    let mut manager = PluginManager::new();
    host.mount(&mut manager, "alpha").unwrap();
    host.log.clear();
    assert_eq!(host.ui_event(&mut manager, "alpha", "btn1", "click"), Ok(true));
    assert_eq!(
        host.log,
        vec![
            "offer alpha btn1 click",
            "offer alpha btn1 click",
            "clear_components alpha",
            "update_ui alpha btn1=click",
            "serialize alpha",
            "clear_events alpha",
            "emit plugin-ui-updated",
        ]
    );
    assert_eq!(
        host.emitted,
        vec![("plugin-ui-updated".to_string(), "{\"plugin\":\"alpha\"}".to_string())]
    );
}

#[test]
fn unrecognized_event_is_not_handled() {
    let mut host = two_plugins();
    let mut manager = PluginManager::new();
    host.mount(&mut manager, "alpha").unwrap();
    host.log.clear();
    assert_eq!(host.ui_event(&mut manager, "alpha", "nothing", "click"), Ok(false));
    assert_eq!(host.log, vec!["offer alpha nothing click"]);
    assert!(host.emitted.is_empty());
}

#[test]
fn update_renders_without_asking_the_builder() {
    let mut host = two_plugins();
    let mut manager = PluginManager::new();
    host.mount(&mut manager, "alpha").unwrap();
    host.log.clear();
    host.plugins[0].tree = Some("[{\"type\":\"text\",\"value\":\"42\"}]".to_string());
    assert_eq!(host.ui_update(&mut manager, "alpha", "field", "42"), Ok(true));
    assert_eq!(
        host.log,
        vec![
            "clear_components alpha",
            "update_ui alpha field=42",
            "serialize alpha",
            "clear_events alpha",
            "emit plugin-ui-updated",
        ]
    );
    host.log.clear();
    assert_eq!(host.ui(&mut manager, "alpha"), ok("[{\"type\":\"text\",\"value\":\"42\"}]"));
}

#[test]
fn failed_render_neither_stores_nor_notifies() {
    let mut host = two_plugins();
    let mut manager = PluginManager::new();
    host.mount(&mut manager, "alpha").unwrap();
    host.plugins[0].update_ui = 1;
    host.log.clear();
    assert_eq!(host.ui_update(&mut manager, "alpha", "field", "42"), Ok(true));
    assert_eq!(host.log, vec!["clear_components alpha", "update_ui alpha field=42"]);
    assert_eq!(host.ui_event(&mut manager, "alpha", "btn1", "click"), Ok(true));
    assert_eq!(host.count("emit"), 0);
    assert_eq!(host.count("clear_events"), 0);
}

#[test]
fn render_succeeds_when_the_frontend_is_down() {
    let mut host = two_plugins();
    host.frontend_up = false;
    let mut manager = PluginManager::new();
    host.mount(&mut manager, "alpha").unwrap();
    assert_eq!(host.ui_event(&mut manager, "alpha", "btn1", "click"), Ok(true));
    assert_eq!(host.count("emit"), 1);
}

#[test]
fn notification_carries_the_plugin_as_json() {
    let mut host = two_plugins();
    let mut manager = PluginManager::new();
    let first = manager.notify_plugin_ui_update("alpha");
    assert_eq!(
        first,
        Step::Call(HostCall::Emit {
            event_name: "plugin-ui-updated".to_string(),
            payload: "{\"plugin\":\"alpha\"}".to_string(),
        })
    );
    assert_eq!(host.drive(&mut manager, first), Outcome::Notified(Ok(())));
}

#[test]
fn notification_escapes_the_plugin_id() {
    let mut manager = PluginManager::new();
    assert_eq!(
        manager.notify_plugin_ui_update("a\"b\\c\0"),
        Step::Call(HostCall::Emit {
            event_name: "plugin-ui-updated".to_string(),
            payload: "{\"plugin\":\"a\\\"b\\\\c\\u0000\"}".to_string(),
        })
    );
}

#[test]
fn notification_that_is_not_delivered_is_an_error() {
    let mut host = two_plugins();
    host.frontend_up = false;
    let mut manager = PluginManager::new();
    let first = manager.notify_plugin_ui_update("alpha");
    assert_eq!(
        host.drive(&mut manager, first),
        Outcome::Notified(Err("发送UI更新事件失败".to_string()))
    );
}

#[test]
fn notification_with_a_zero_byte_in_the_payload_is_refused() {
    let mut manager = PluginManager::new();
    assert_eq!(
        manager.notify("{\"plugin\":\"a\0\"}".to_string()),
        Step::Done(Outcome::Notified(Err("载荷转换失败".to_string())))
    );
    assert!(manager.is_idle());
}

#[test]
fn cleanup_disposes_the_mounted_plugin_once() {
    let mut host = two_plugins();
    host.plugins[1].on_dispose = 1;
    let mut manager = PluginManager::new();
    host.mount(&mut manager, "alpha").unwrap();
    host.mount(&mut manager, "beta").unwrap();
    host.connect(&mut manager, "beta").unwrap();
    host.log.clear();
    let first = manager.cleanup_all_plugins();
    assert_eq!(host.drive(&mut manager, first), Outcome::Cleaned);
    assert_eq!(host.log, vec!["on_disconnect beta", "on_dispose beta", "release beta"]);
    assert_eq!(manager.get_plugin_status("alpha"), Some((false, false)));
    assert_eq!(manager.get_plugin_status("beta"), Some((false, false)));
    assert_eq!(manager.get_current_plugin(), None);
    assert!(host.loaded.is_empty());
}

#[test]
fn cleanup_with_nothing_mounted_makes_no_call() {
    let mut manager = PluginManager::new();
    assert_eq!(manager.cleanup_all_plugins(), Step::Done(Outcome::Cleaned));
    assert_eq!(manager.get_current_plugin(), None);
    let mut host = two_plugins();
    host.mount(&mut manager, "alpha").unwrap();
    host.dispose(&mut manager, "alpha").unwrap();
    assert_eq!(manager.cleanup_all_plugins(), Step::Done(Outcome::Cleaned));
}

#[test]
fn request_during_an_operation_is_rejected() {
    let mut manager = PluginManager::new();
    assert_eq!(manager.mount_plugin("alpha"), Step::Call(HostCall::Scan));
    assert_eq!(manager.mount_plugin("beta"), Step::Rejected);
    assert_eq!(manager.dispose_plugin("alpha"), Step::Rejected);
    assert_eq!(manager.connect_plugin("alpha"), Step::Rejected);
    assert_eq!(manager.disconnect_plugin("alpha"), Step::Rejected);
    assert_eq!(manager.send_message_to_current_plugin("ping"), Step::Rejected);
    assert_eq!(manager.get_plugin_ui("alpha"), Step::Rejected);
    assert_eq!(manager.handle_plugin_ui_update("alpha", "a", "b"), Step::Rejected);
    assert_eq!(manager.handle_plugin_ui_event("alpha", "a", "b"), Step::Rejected);
    assert_eq!(manager.notify_plugin_ui_update("alpha"), Step::Rejected);
    assert_eq!(manager.cleanup_all_plugins(), Step::Rejected);
    assert!(!manager.is_idle());
    let mut host = two_plugins();
    let answer = host.perform(HostCall::Scan);
    let step = manager.resume(answer);
    assert_eq!(host.drive(&mut manager, step), Outcome::Message(Ok("插件 Alpha 挂载成功".to_string())));
}

#[test]
fn answer_that_does_not_fit_is_rejected() {
    let mut manager = PluginManager::new();
    assert_eq!(manager.resume(HostAnswer::Done), Step::Rejected);
    assert!(manager.is_idle());
    assert_eq!(manager.mount_plugin("alpha"), Step::Call(HostCall::Scan));
    assert_eq!(manager.resume(HostAnswer::Status(0)), Step::Rejected);
    assert_eq!(manager.resume(HostAnswer::Loaded), Step::Rejected);
    assert!(!manager.is_idle());
    assert_eq!(
        manager.resume(HostAnswer::Plugins(Vec::new())),
        Step::Done(Outcome::Message(Err("插件 alpha 未找到".to_string())))
    );
    assert!(manager.is_idle());
}
