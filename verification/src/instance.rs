//! One registry entry, and the registry as a sequence of entries.

use vstd::prelude::*;
use vstd::string::*;
use crate::metadata::{MetadataView, PluginMetadata, optional_text};

verus! {

/// The manager's record of one plugin. The native handler and library live
/// with the host; they exist exactly while `is_mounted` holds.
#[derive(Debug, PartialEq, Eq)]
pub struct PluginInstance {
    pub metadata: PluginMetadata,
    pub is_mounted: bool,
    pub is_connected: bool,
    /// The UI tree as it was last serialized.
    pub ui_data: Option<String>,
}

/// The mathematical value of a [`PluginInstance`].
pub struct InstanceView {
    pub metadata: MetadataView,
    pub is_mounted: bool,
    pub is_connected: bool,
    pub ui_data: Option<Seq<char>>,
}

impl View for PluginInstance {
    type V = InstanceView;

    open spec fn view(&self) -> InstanceView {
        InstanceView {
            metadata: self.metadata@,
            is_mounted: self.is_mounted,
            is_connected: self.is_connected,
            ui_data: optional_text(self.ui_data),
        }
    }
}

impl Clone for PluginInstance {
    fn clone(&self) -> (copy: Self)
        ensures
            copy == *self,
    {
        let ui_data = match &self.ui_data {
            Some(tree) => Some(tree.clone()),
            None => None,
        };
        PluginInstance {
            metadata: self.metadata.clone(),
            is_mounted: self.is_mounted,
            is_connected: self.is_connected,
            ui_data,
        }
    }
}

/// The views of the entries of a registry.
pub open spec fn instance_views(registry: Seq<PluginInstance>) -> Seq<InstanceView> {
    registry.map_values(|p: PluginInstance| p@)
}

/// Whether `registry[i]` is the first entry of the plugin `plugin_id`.
pub open spec fn is_first_entry(registry: Seq<InstanceView>, plugin_id: Seq<char>, i: int) -> bool {
    &&& 0 <= i < registry.len()
    &&& registry[i].metadata.id == plugin_id
    &&& forall|j: int| 0 <= j < i ==> registry[j].metadata.id != plugin_id
}

/// Whether the registry holds an entry for `plugin_id`.
pub open spec fn registered(registry: Seq<InstanceView>, plugin_id: Seq<char>) -> bool {
    exists|i: int| is_first_entry(registry, plugin_id, i)
}

/// Where the registry holds the entry of `plugin_id`.
pub open spec fn slot(registry: Seq<InstanceView>, plugin_id: Seq<char>) -> int {
    choose|i: int| is_first_entry(registry, plugin_id, i)
}

/// The entry of `plugin_id`.
pub open spec fn entry(registry: Seq<InstanceView>, plugin_id: Seq<char>) -> InstanceView {
    registry[slot(registry, plugin_id)]
}

/// Whether `plugin_id` has an entry that is mounted.
pub open spec fn mounted(registry: Seq<InstanceView>, plugin_id: Seq<char>) -> bool {
    registered(registry, plugin_id) && entry(registry, plugin_id).is_mounted
}

/// The lifecycle flags of `plugin_id`, mounted first, connected second.
pub open spec fn status(registry: Seq<InstanceView>, plugin_id: Seq<char>) -> Option<(bool, bool)> {
    if registered(registry, plugin_id) {
        Some((entry(registry, plugin_id).is_mounted, entry(registry, plugin_id).is_connected))
    } else {
        None
    }
}

/// The registry with the connected flag of `plugin_id` set to `connected`.
pub open spec fn with_connected(
    registry: Seq<InstanceView>,
    plugin_id: Seq<char>,
    connected: bool,
) -> Seq<InstanceView> {
    if registered(registry, plugin_id) {
        registry.update(
            slot(registry, plugin_id),
            InstanceView { is_connected: connected, ..entry(registry, plugin_id) },
        )
    } else {
        registry
    }
}

/// The registry with the entry of `plugin_id` retired: neither mounted nor
/// connected, everything else kept.
pub open spec fn retired(registry: Seq<InstanceView>, plugin_id: Seq<char>) -> Seq<InstanceView> {
    if registered(registry, plugin_id) {
        registry.update(
            slot(registry, plugin_id),
            InstanceView {
                is_mounted: false,
                is_connected: false,
                ..entry(registry, plugin_id)
            },
        )
    } else {
        registry
    }
}

/// The registry with `tree` as the UI snapshot of `plugin_id`.
pub open spec fn with_snapshot(
    registry: Seq<InstanceView>,
    plugin_id: Seq<char>,
    tree: Seq<char>,
) -> Seq<InstanceView> {
    if registered(registry, plugin_id) {
        registry.update(
            slot(registry, plugin_id),
            InstanceView { ui_data: Some(tree), ..entry(registry, plugin_id) },
        )
    } else {
        registry
    }
}

/// The registry with `instance` in the place of the entry of its plugin, or
/// at the end where the plugin had none.
pub open spec fn installed(registry: Seq<InstanceView>, instance: InstanceView) -> Seq<
    InstanceView,
> {
    if registered(registry, instance.metadata.id) {
        registry.update(slot(registry, instance.metadata.id), instance)
    } else {
        registry.push(instance)
    }
}

/// Whether `registry[i]` is the first mounted entry.
pub open spec fn is_first_mounted(registry: Seq<InstanceView>, i: int) -> bool {
    &&& 0 <= i < registry.len()
    &&& registry[i].is_mounted
    &&& forall|j: int| 0 <= j < i ==> !registry[j].is_mounted
}

/// Whether any entry is mounted.
pub open spec fn any_mounted(registry: Seq<InstanceView>) -> bool {
    exists|i: int| is_first_mounted(registry, i)
}

/// The first mounted entry.
pub open spec fn first_mounted(registry: Seq<InstanceView>) -> InstanceView {
    registry[choose|i: int| is_first_mounted(registry, i)]
}

/// A first entry is the one that `slot` names.
pub proof fn lemma_slot(registry: Seq<InstanceView>, plugin_id: Seq<char>, i: int)
    requires
        is_first_entry(registry, plugin_id, i),
    ensures
        registered(registry, plugin_id),
        slot(registry, plugin_id) == i,
{
    let k = slot(registry, plugin_id);
    assert(is_first_entry(registry, plugin_id, k));
}

/// The plugin of every entry is registered.
pub proof fn lemma_registered(registry: Seq<InstanceView>, i: int)
    requires
        0 <= i < registry.len(),
    ensures
        registered(registry, registry[i].metadata.id),
    decreases i,
{
    let plugin_id = registry[i].metadata.id;
    if forall|j: int| 0 <= j < i ==> registry[j].metadata.id != plugin_id {
        assert(is_first_entry(registry, plugin_id, i));
    } else {
        let j = choose|j: int| 0 <= j < i && registry[j].metadata.id == plugin_id;
        lemma_registered(registry, j);
    }
}

/// Where an entry is mounted, some entry is the first mounted one.
pub proof fn lemma_any_mounted(registry: Seq<InstanceView>, i: int)
    requires
        0 <= i < registry.len(),
        registry[i].is_mounted,
    ensures
        any_mounted(registry),
    decreases i,
{
    if forall|j: int| 0 <= j < i ==> !registry[j].is_mounted {
        assert(is_first_mounted(registry, i));
    } else {
        let j = choose|j: int| 0 <= j < i && registry[j].is_mounted;
        lemma_any_mounted(registry, j);
    }
}

/// A first mounted entry is the one that `first_mounted` names.
pub proof fn lemma_first_mounted(registry: Seq<InstanceView>, i: int)
    requires
        is_first_mounted(registry, i),
    ensures
        any_mounted(registry),
        first_mounted(registry) == registry[i],
{
    let k = choose|k: int| is_first_mounted(registry, k);
    assert(is_first_mounted(registry, k));
}

/// Whether no two entries belong to one plugin.
pub open spec fn distinct_ids(registry: Seq<InstanceView>) -> bool {
    forall|i: int, j: int|
        0 <= i < j < registry.len() ==> registry[i].metadata.id != registry[j].metadata.id
}

/// Whether two registries hold the same plugins at the same places.
pub open spec fn same_ids(before: Seq<InstanceView>, after: Seq<InstanceView>) -> bool {
    &&& before.len() == after.len()
    &&& forall|i: int| 0 <= i < before.len() ==> before[i].metadata.id == after[i].metadata.id
}

/// Registries with the same plugins at the same places find each plugin at
/// the same place.
pub proof fn lemma_same_ids(before: Seq<InstanceView>, after: Seq<InstanceView>, plugin_id: Seq<char>)
    requires
        same_ids(before, after),
    ensures
        registered(after, plugin_id) == registered(before, plugin_id),
        registered(before, plugin_id) ==> slot(after, plugin_id) == slot(before, plugin_id),
        distinct_ids(before) ==> distinct_ids(after),
{
    if registered(before, plugin_id) {
        let i = slot(before, plugin_id);
        assert(is_first_entry(after, plugin_id, i));
        lemma_slot(after, plugin_id, i);
    }
    if registered(after, plugin_id) {
        let i = slot(after, plugin_id);
        assert(is_first_entry(before, plugin_id, i));
    }
}

/// Where no two entries belong to one plugin, each entry is the one that
/// `slot` names for its plugin.
pub proof fn lemma_distinct_slot(registry: Seq<InstanceView>, i: int)
    requires
        distinct_ids(registry),
        0 <= i < registry.len(),
    ensures
        registered(registry, registry[i].metadata.id),
        slot(registry, registry[i].metadata.id) == i,
{
    assert(is_first_entry(registry, registry[i].metadata.id, i));
    lemma_slot(registry, registry[i].metadata.id, i);
}

/// A plugin without an entry is the plugin of no entry.
pub proof fn lemma_unregistered(registry: Seq<InstanceView>, plugin_id: Seq<char>)
    requires
        !registered(registry, plugin_id),
    ensures
        forall|i: int| 0 <= i < registry.len() ==> registry[i].metadata.id != plugin_id,
{
    assert forall|i: int| 0 <= i < registry.len() implies registry[i].metadata.id
        != plugin_id by {
        lemma_registered(registry, i);
    }
}

/// Looks the plugin `plugin_id` up: the index of its entry, if it has one.
pub fn find_slot(registry: &Vec<PluginInstance>, plugin_id: &str) -> (found: Option<usize>)
    ensures
        match found {
            Some(i) => registered(instance_views(registry@), plugin_id@) && i == slot(
                instance_views(registry@),
                plugin_id@,
            ) && i < registry.len(),
            None => !registered(instance_views(registry@), plugin_id@),
        },
{
    let wanted = String::from_str(plugin_id);
    let ghost views = instance_views(registry@);
    let mut i: usize = 0;
    while i < registry.len()
        invariant
            i <= registry.len(),
            wanted@ == plugin_id@,
            views == instance_views(registry@),
            forall|j: int| 0 <= j < i ==> views[j].metadata.id != plugin_id@,
        decreases registry.len() - i,
    {
        if registry[i].metadata.id == wanted {
            proof {
                lemma_slot(views, plugin_id@, i as int);
            }
            return Some(i);
        }
        i += 1;
    }
    None
}

/// Looks for a mounted entry: the index of the first one, if any.
pub fn find_mounted(registry: &Vec<PluginInstance>) -> (found: Option<usize>)
    ensures
        match found {
            Some(i) => i < registry.len() && is_first_mounted(instance_views(registry@), i as int),
            None => !any_mounted(instance_views(registry@)),
        },
{
    let ghost views = instance_views(registry@);
    let mut i: usize = 0;
    while i < registry.len()
        invariant
            i <= registry.len(),
            views == instance_views(registry@),
            forall|j: int| 0 <= j < i ==> !views[j].is_mounted,
        decreases registry.len() - i,
    {
        if registry[i].is_mounted {
            return Some(i);
        }
        i += 1;
    }
    None
}

/// Replaces the entry at `i` by `instance`.
fn replace_entry(registry: &mut Vec<PluginInstance>, i: usize, instance: PluginInstance)
    requires
        i < old(registry).len(),
    ensures
        instance_views(final(registry)@) == instance_views(old(registry)@).update(
            i as int,
            instance@,
        ),
{
    registry.set(i, instance);
    assert(instance_views(registry@) =~= instance_views(old(registry)@).update(
        i as int,
        instance@,
    ));
}

/// Adds `instance` at the end.
fn append_entry(registry: &mut Vec<PluginInstance>, instance: PluginInstance)
    ensures
        instance_views(final(registry)@) == instance_views(old(registry)@).push(instance@),
{
    registry.push(instance);
    assert(instance_views(registry@) =~= instance_views(old(registry)@).push(instance@));
}

/// Sets the connected flag of `plugin_id`, where it has an entry.
pub fn set_connected(registry: &mut Vec<PluginInstance>, plugin_id: &str, connected: bool)
    ensures
        instance_views(final(registry)@) == with_connected(
            instance_views(old(registry)@),
            plugin_id@,
            connected,
        ),
{
    if let Some(i) = find_slot(registry, plugin_id) {
        let mut instance = registry[i].clone();
        instance.is_connected = connected;
        replace_entry(registry, i, instance);
    }
}

/// Retires the entry of `plugin_id`, where it has one.
pub fn retire(registry: &mut Vec<PluginInstance>, plugin_id: &str)
    ensures
        instance_views(final(registry)@) == retired(instance_views(old(registry)@), plugin_id@),
{
    if let Some(i) = find_slot(registry, plugin_id) {
        let mut instance = registry[i].clone();
        instance.is_mounted = false;
        instance.is_connected = false;
        replace_entry(registry, i, instance);
    }
}

/// Stores `tree` as the UI snapshot of `plugin_id`, where it has an entry.
pub fn set_snapshot(registry: &mut Vec<PluginInstance>, plugin_id: &str, tree: String)
    ensures
        instance_views(final(registry)@) == with_snapshot(
            instance_views(old(registry)@),
            plugin_id@,
            tree@,
        ),
{
    if let Some(i) = find_slot(registry, plugin_id) {
        let mut instance = registry[i].clone();
        instance.ui_data = Some(tree);
        replace_entry(registry, i, instance);
    }
}

/// Puts `instance` in the place of the entry of its plugin, or at the end
/// where the plugin had none.
pub fn install(registry: &mut Vec<PluginInstance>, instance: PluginInstance)
    ensures
        instance_views(final(registry)@) == installed(instance_views(old(registry)@), instance@),
{
    match find_slot(registry, instance.metadata.id.as_str()) {
        Some(i) => replace_entry(registry, i, instance),
        None => append_entry(registry, instance),
    }
}

} // verus!
