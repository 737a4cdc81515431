use plugin_manager::callbacks::{app_config_value, other_plugin_reply};
use plugin_manager::instance::{
    PluginInstance, find_mounted, find_slot, install, retire, set_connected, set_snapshot,
};
use plugin_manager::manager::frontend_notification;
use plugin_manager::metadata::{PluginMetadata, find_plugin_metadata};
use plugin_manager::protocol::HostCall;
use plugin_manager::text::{fits_c_string, frame};

fn record(id: &str, name: &str, path: Option<&str>) -> PluginMetadata {
    PluginMetadata {
        id: id.to_string(),
        name: name.to_string(),
        version: "0.1.0".to_string(),
        library_path: path.map(|p| p.to_string()),
    }
}

fn instance(id: &str, mounted: bool, connected: bool) -> PluginInstance {
    PluginInstance {
        metadata: record(id, id, Some("/lib.so")),
        is_mounted: mounted,
        is_connected: connected,
        ui_data: None,
    }
}

#[test]
fn text_without_zero_byte_fits() {
    assert!(fits_c_string(""));
    assert!(fits_c_string("ping"));
    assert!(fits_c_string("插件"));
}

#[test]
fn text_with_zero_byte_does_not_fit() {
    assert!(!fits_c_string("\0"));
    assert!(!fits_c_string("a\0b"));
    assert!(!fits_c_string("end\0"));
}

#[test]
fn frame_joins_three_parts() {
    assert_eq!(frame("插件 ", "Alpha", " 挂载成功"), "插件 Alpha 挂载成功");
    assert_eq!(frame("", "", ""), "");
}

#[test]
fn metadata_is_found_by_id() {
    let plugins = vec![record("a", "A", None), record("b", "B", Some("/b.so")), record("b", "B2", None)];
    assert_eq!(find_plugin_metadata(&plugins, "b"), Ok(record("b", "B", Some("/b.so"))));
    assert_eq!(find_plugin_metadata(&plugins, "a"), Ok(record("a", "A", None)));
}

#[test]
fn missing_metadata_is_reported() {
    let plugins = vec![record("a", "A", None)];
    assert_eq!(find_plugin_metadata(&plugins, "c"), Err("插件 c 未找到".to_string()));
    assert_eq!(find_plugin_metadata(&Vec::new(), "a"), Err("插件 a 未找到".to_string()));
}

#[test]
fn metadata_clone_keeps_every_field() {
    let m = record("a", "A", Some("/a.so"));
    assert_eq!(m.clone(), m);
    let n = record("a", "A", None);
    assert_eq!(n.clone(), n);
}

#[test]
fn registry_lookup_finds_the_entry() {
    let registry = vec![instance("a", false, false), instance("b", true, false)];
    assert_eq!(find_slot(&registry, "a"), Some(0));
    assert_eq!(find_slot(&registry, "b"), Some(1));
    assert_eq!(find_slot(&registry, "c"), None);
    assert_eq!(find_mounted(&registry), Some(1));
    assert_eq!(find_mounted(&vec![instance("a", false, false)]), None);
}

#[test]
fn registry_updates_touch_one_entry() {
    let mut registry = vec![instance("a", true, false), instance("b", false, false)];
    set_connected(&mut registry, "a", true);
    assert_eq!(registry, vec![instance("a", true, true), instance("b", false, false)]);
    set_connected(&mut registry, "zz", true);
    assert_eq!(registry, vec![instance("a", true, true), instance("b", false, false)]);
    retire(&mut registry, "a");
    assert_eq!(registry, vec![instance("a", false, false), instance("b", false, false)]);
    set_snapshot(&mut registry, "b", "[]".to_string());
    assert_eq!(registry[1].ui_data, Some("[]".to_string()));
    assert_eq!(registry[0].ui_data, None);
}

#[test]
fn install_replaces_or_appends() {
    let mut registry = vec![instance("a", false, false)];
    install(&mut registry, instance("b", true, false));
    assert_eq!(registry, vec![instance("a", false, false), instance("b", true, false)]);
    install(&mut registry, instance("a", true, false));
    assert_eq!(registry, vec![instance("a", true, false), instance("b", true, false)]);
}

#[test]
fn app_config_is_derived_from_the_key() {
    assert_eq!(app_config_value("theme"), Some("config_value_for_theme".to_string()));
    assert_eq!(app_config_value(""), Some("config_value_for_".to_string()));
    assert_eq!(app_config_value("a\0b"), None);
}

#[test]
fn reply_of_another_plugin_is_relayed_on_success() {
    assert_eq!(other_plugin_reply(0, Some("pong".to_string())), Some("pong".to_string()));
    assert_eq!(other_plugin_reply(0, Some(String::new())), Some(String::new()));
}

#[test]
fn reply_of_another_plugin_is_dropped_on_failure() {
    assert_eq!(other_plugin_reply(1, Some("pong".to_string())), None);
    assert_eq!(other_plugin_reply(-1, Some("pong".to_string())), None);
    assert_eq!(other_plugin_reply(0, None), None);
    assert_eq!(other_plugin_reply(0, Some("po\0ng".to_string())), None);
}

#[test]
fn notification_needs_a_payload_without_zero_byte() {
    assert_eq!(
        frontend_notification("{}".to_string()),
        Ok(HostCall::Emit { event_name: "plugin-ui-updated".to_string(), payload: "{}".to_string() })
    );
    assert_eq!(frontend_notification("\0".to_string()), Err("载荷转换失败".to_string()));
}
