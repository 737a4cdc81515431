//! Plugin metadata as discovery reports it.

use vstd::prelude::*;
use vstd::string::*;
use crate::text::{frame, not_found_text};

verus! {

/// What discovery reports about one plugin. An entry without a library path
/// was found but is not installed, and cannot be mounted.
#[derive(Debug, PartialEq, Eq)]
pub struct PluginMetadata {
    pub id: String,
    pub name: String,
    pub version: String,
    pub library_path: Option<String>,
}

/// The mathematical value of a [`PluginMetadata`].
pub struct MetadataView {
    pub id: Seq<char>,
    pub name: Seq<char>,
    pub version: Seq<char>,
    pub library_path: Option<Seq<char>>,
}

/// The characters of an optional string.
pub open spec fn optional_text(text: Option<String>) -> Option<Seq<char>> {
    match text {
        Some(t) => Some(t@),
        None => None,
    }
}

impl View for PluginMetadata {
    type V = MetadataView;

    open spec fn view(&self) -> MetadataView {
        MetadataView {
            id: self.id@,
            name: self.name@,
            version: self.version@,
            library_path: optional_text(self.library_path),
        }
    }
}

impl Clone for PluginMetadata {
    fn clone(&self) -> (copy: Self)
        ensures
            copy == *self,
    {
        let library_path = match &self.library_path {
            Some(path) => Some(path.clone()),
            None => None,
        };
        PluginMetadata {
            id: self.id.clone(),
            name: self.name.clone(),
            version: self.version.clone(),
            library_path,
        }
    }
}

/// The views of a list of metadata records.
pub open spec fn metadata_views(plugins: Seq<PluginMetadata>) -> Seq<MetadataView> {
    plugins.map_values(|p: PluginMetadata| p@)
}

/// The first record of `plugins` whose id is `plugin_id`, if there is one.
pub open spec fn first_with_id(plugins: Seq<MetadataView>, plugin_id: Seq<char>) -> Option<
    MetadataView,
> {
    if exists|i: int| is_first_with_id(plugins, plugin_id, i) {
        Some(plugins[choose|i: int| is_first_with_id(plugins, plugin_id, i)])
    } else {
        None
    }
}

/// Whether `plugins[i]` is the first record whose id is `plugin_id`.
pub open spec fn is_first_with_id(plugins: Seq<MetadataView>, plugin_id: Seq<char>, i: int) -> bool {
    &&& 0 <= i < plugins.len()
    &&& plugins[i].id == plugin_id
    &&& forall|j: int| 0 <= j < i ==> plugins[j].id != plugin_id
}

/// Finds the metadata of `plugin_id` among the discovered `plugins`: the
/// first record with that id, or the message that none exists.
pub fn find_plugin_metadata(plugins: &Vec<PluginMetadata>, plugin_id: &str) -> (found: Result<
    PluginMetadata,
    String,
>)
    ensures
        match first_with_id(metadata_views(plugins@), plugin_id@) {
            Some(m) => found is Ok && found->Ok_0@ == m,
            None => found is Err && found->Err_0@ == not_found_text(plugin_id@),
        },
{
    let wanted = String::from_str(plugin_id);
    let ghost views = metadata_views(plugins@);
    let mut i: usize = 0;
    while i < plugins.len()
        invariant
            i <= plugins.len(),
            wanted@ == plugin_id@,
            views == metadata_views(plugins@),
            forall|j: int| 0 <= j < i ==> views[j].id != plugin_id@,
        decreases plugins.len() - i,
    {
        if plugins[i].id == wanted {
            proof {
                assert(is_first_with_id(views, plugin_id@, i as int));
                let k = choose|k: int| is_first_with_id(views, plugin_id@, k);
                assert(k == i);
            }
            return Ok(plugins[i].clone());
        }
        i += 1;
    }
    Err(frame("插件 ", plugin_id, " 未找到"))
}

} // verus!
