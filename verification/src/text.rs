//! The messages shown to the user, and the test for text that can cross the
//! plugin boundary as a null-terminated string.

use vstd::prelude::*;
use vstd::string::*;
use vstd::utf8::{encode_utf8, is_ascii_chars, is_ascii_chars_encode_utf8};

verus! {

/// Whether `bytes` holds a zero byte.
pub open spec fn has_nul(bytes: Seq<u8>) -> bool {
    exists|i: int| 0 <= i < bytes.len() && bytes[i] == 0u8
}

/// Whether `text` can be handed over as a null-terminated byte string: its
/// UTF-8 encoding holds no zero byte.
pub open spec fn crosses_boundary(text: Seq<char>) -> bool {
    !has_nul(encode_utf8(text))
}

/// Decides whether `text` can be handed over as a null-terminated byte string.
pub fn fits_c_string(text: &str) -> (fits: bool)
    ensures
        fits == crosses_boundary(text@),
{
    let bytes = text.as_bytes();
    let mut i: usize = 0;
    while i < bytes.len()
        invariant
            i <= bytes.len(),
            bytes@ == encode_utf8(text@),
            forall|j: int| 0 <= j < i ==> bytes@[j] != 0u8,
        decreases bytes.len() - i,
    {
        if bytes[i] == 0 {
            return false;
        }
        i += 1;
    }
    true
}

/// Text of ASCII characters other than the null character can be handed
/// over as a null-terminated byte string.
pub proof fn lemma_ascii_crosses_boundary(text: Seq<char>)
    requires
        forall|i: int| 0 <= i < text.len() ==> '\0' < #[trigger] text[i] <= '\u{7f}',
    ensures
        crosses_boundary(text),
{
    assert(is_ascii_chars(text));
    is_ascii_chars_encode_utf8(text);
    let bytes = encode_utf8(text);
    assert forall|i: int| 0 <= i < bytes.len() implies bytes[i] != 0u8 by {
        let c = text[i];
        assert('\0' < c <= '\u{7f}');
        assert(c as u8 == bytes[i]);
    }
}

/// `head`, then `middle`, then `tail`.
pub open spec fn framed(head: Seq<char>, middle: Seq<char>, tail: Seq<char>) -> Seq<char> {
    head + middle + tail
}

/// Builds `head`, then `middle`, then `tail`.
pub fn frame(head: &str, middle: &str, tail: &str) -> (text: String)
    ensures
        text@ == framed(head@, middle@, tail@),
{
    let mut text = String::from_str(head);
    text.append(middle);
    text.append(tail);
    text
}

/// No plugin with the id `plugin_id` is known.
pub open spec fn not_found_text(plugin_id: Seq<char>) -> Seq<char> {
    framed("插件 "@, plugin_id, " 未找到"@)
}

/// The plugin `plugin_id` has no library to load.
pub open spec fn missing_library_text(plugin_id: Seq<char>) -> Seq<char> {
    framed("插件 "@, plugin_id, " 没有找到动态库文件"@)
}

/// The library could not be loaded, for `reason`.
pub open spec fn library_failed_text(reason: Seq<char>) -> Seq<char> {
    "加载动态库失败: "@ + reason
}

/// The library has no creation entry point, for `reason`.
pub open spec fn symbol_missing_text(reason: Seq<char>) -> Seq<char> {
    "找不到插件创建函数: "@ + reason
}

/// The creation entry point gave no handler.
pub open spec fn create_failed_text() -> Seq<char> {
    "插件创建失败"@
}

/// `initialize` reported a failure.
pub open spec fn init_failed_text() -> Seq<char> {
    "插件初始化失败"@
}

/// `on_mount` reported a failure.
pub open spec fn mount_failed_text() -> Seq<char> {
    "插件挂载失败: 插件挂载失败"@
}

/// The plugin `name` is mounted now.
pub open spec fn mounted_text(name: Seq<char>) -> Seq<char> {
    framed("插件 "@, name, " 挂载成功"@)
}

/// The plugin `name` was mounted already.
pub open spec fn already_mounted_text(name: Seq<char>) -> Seq<char> {
    framed("插件 "@, name, " 已经挂载"@)
}

/// The plugin `name` is disposed now.
pub open spec fn disposed_text(name: Seq<char>) -> Seq<char> {
    framed("插件 "@, name, " 卸载成功"@)
}

/// The plugin `name` was disposed already.
pub open spec fn already_disposed_text(name: Seq<char>) -> Seq<char> {
    framed("插件 "@, name, " 已经卸载"@)
}

/// The plugin `name` is disposed, though its `on_dispose` reported a failure.
pub open spec fn dispose_warning_text(name: Seq<char>) -> Seq<char> {
    framed("插件 "@, name, " 卸载完成，但有警告: 插件卸载失败"@)
}

/// The plugin `name` is disposed, though its `on_disconnect` reported a
/// failure on the way.
pub open spec fn dispose_disconnect_warning_text(name: Seq<char>) -> Seq<char> {
    framed("插件 "@, name, " 卸载完成，但有警告: 插件断开连接失败"@)
}

/// The plugin called `label` is not mounted.
pub open spec fn not_mounted_text(label: Seq<char>) -> Seq<char> {
    framed("插件 "@, label, " 未挂载"@)
}

/// The plugin `name` is connected now.
pub open spec fn connected_text(name: Seq<char>) -> Seq<char> {
    framed("插件 "@, name, " 连接成功"@)
}

/// The plugin `name` was connected already.
pub open spec fn already_connected_text(name: Seq<char>) -> Seq<char> {
    framed("插件 "@, name, " 已经连接"@)
}

/// `on_connect` reported a failure.
pub open spec fn connect_failed_text() -> Seq<char> {
    "插件连接失败: 插件连接失败"@
}

/// The plugin `name` is disconnected now.
pub open spec fn disconnected_text(name: Seq<char>) -> Seq<char> {
    framed("插件 "@, name, " 断开连接成功"@)
}

/// The plugin `name` was disconnected already.
pub open spec fn already_disconnected_text(name: Seq<char>) -> Seq<char> {
    framed("插件 "@, name, " 已经断开连接"@)
}

/// The plugin `name` is disconnected, though its `on_disconnect` reported a
/// failure.
pub open spec fn disconnect_warning_text(name: Seq<char>) -> Seq<char> {
    framed("插件 "@, name, " 断开连接完成，但有警告: 插件断开连接失败"@)
}

/// No plugin is current.
pub open spec fn no_active_plugin_text() -> Seq<char> {
    "没有活跃的插件"@
}

/// The current plugin has no registry entry.
pub open spec fn current_not_found_text() -> Seq<char> {
    "当前插件未找到"@
}

/// The current plugin is not mounted.
pub open spec fn current_not_mounted_text() -> Seq<char> {
    "当前插件未挂载"@
}

/// The message cannot cross the plugin boundary.
pub open spec fn encoding_failed_text() -> Seq<char> {
    "消息转换失败"@
}

/// `handle_message` reported a failure or left no response.
pub open spec fn handling_failed_text() -> Seq<char> {
    "插件处理消息失败"@
}

/// The plugin of a UI request has no registry entry.
pub open spec fn ui_not_found_text() -> Seq<char> {
    "插件未找到"@
}

/// The plugin of a UI request is not mounted.
pub open spec fn ui_not_mounted_text() -> Seq<char> {
    "插件未挂载"@
}

/// The UI tree of a plugin that could not be serialized.
pub open spec fn empty_tree_text() -> Seq<char> {
    "[]"@
}

/// The name under which the frontend learns that a plugin's UI changed.
pub open spec fn ui_updated_event_text() -> Seq<char> {
    "plugin-ui-updated"@
}

/// The name of the event can cross the boundary to the frontend.
pub proof fn lemma_event_name_crosses_boundary()
    ensures
        crosses_boundary(ui_updated_event_text()),
{
    reveal_strlit("plugin-ui-updated");
    lemma_ascii_crosses_boundary("plugin-ui-updated"@);
}

/// The payload cannot cross the boundary to the frontend.
pub open spec fn payload_failed_text() -> Seq<char> {
    "载荷转换失败"@
}

/// The frontend did not take the event.
pub open spec fn delivery_failed_text() -> Seq<char> {
    "发送UI更新事件失败"@
}

} // verus!
