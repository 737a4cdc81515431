//! Where an operation stands between two turns of the conversation.

use vstd::prelude::*;
use vstd::string::*;
use crate::metadata::{MetadataView, PluginMetadata};

verus! {

/// The three calls that take a mounted plugin down, in their order.
#[derive(Clone, Copy, Debug)]
pub enum TeardownStage {
    Disconnect,
    Dispose,
    Release,
}

/// What went wrong while a plugin was taken down. The resources are released
/// all the same; a failure of `on_dispose` is reported before one of
/// `on_disconnect`.
#[derive(Clone, Copy, Debug)]
pub enum Trouble {
    Clean,
    Disconnect,
    Dispose,
}

/// The calls that bring a plugin up, in their order.
#[derive(Clone, Copy, Debug)]
pub enum MountStage {
    Load,
    Initialize,
    OnMount,
    CreateUi,
    Render,
    Snapshot,
}

/// The entry point whose failure ends a mount.
#[derive(Clone, Copy, Debug)]
pub enum AbortReason {
    Initialize,
    OnMount,
}

/// The calls of one render pass after a UI event, in their order.
#[derive(Clone, Copy, Debug)]
pub enum PassStage {
    ClearComponents,
    Update,
    Snapshot,
    ClearEvents,
    Notify,
}

/// What follows once a plugin has been taken down.
#[derive(Debug)]
pub enum Follow {
    /// The plugin was disposed for its own sake: report it.
    Reply,
    /// The plugin made room for another: go on mounting `plugin_id`.
    Mount { plugin_id: String },
    /// Every plugin is being taken down: go on with the next.
    Cleanup,
}

/// The mathematical value of a [`Follow`].
pub enum FollowView {
    Reply,
    Mount { plugin_id: Seq<char> },
    Cleanup,
}

impl View for Follow {
    type V = FollowView;

    open spec fn view(&self) -> FollowView {
        match *self {
            Follow::Reply => FollowView::Reply,
            Follow::Mount { plugin_id } => FollowView::Mount { plugin_id: plugin_id@ },
            Follow::Cleanup => FollowView::Cleanup,
        }
    }
}

impl Clone for Follow {
    fn clone(&self) -> (copy: Self)
        ensures
            copy == *self,
    {
        match self {
            Follow::Reply => Follow::Reply,
            Follow::Mount { plugin_id } => Follow::Mount { plugin_id: plugin_id.clone() },
            Follow::Cleanup => Follow::Cleanup,
        }
    }
}

/// The operation under way and the call whose answer it waits for.
#[derive(Debug)]
pub enum Phase {
    /// No operation is under way.
    Idle,
    /// `plugin_id` is being taken down; the call of `stage` is out.
    Teardown { plugin_id: String, stage: TeardownStage, trouble: Trouble, follow: Follow },
    /// `plugin_id` is to be mounted; discovery is being asked.
    MountScan { plugin_id: String },
    /// The plugin of `metadata` is being mounted; the call of `mount` is out.
    Mount { metadata: PluginMetadata, mount: MountStage },
    /// The mount of `plugin_id` failed at `reason`; the plugin is being
    /// released.
    MountAbort { plugin_id: String, reason: AbortReason },
    /// `on_connect` of `plugin_id` is out.
    Connect { plugin_id: String },
    /// `on_disconnect` of `plugin_id` is out.
    Disconnect { plugin_id: String },
    /// `handle_message` of the current plugin is out.
    Message,
    /// The UI tree of `plugin_id` is being serialized for a query.
    Snapshot { plugin_id: String },
    /// The UI builder of `plugin_id` is being offered an event, for the
    /// first time or, once it took it, again.
    Offer { plugin_id: String, component_id: String, value: String, repeated: bool },
    /// The UI of `plugin_id` is rendered anew after an event; the call of
    /// `pass` is out.
    Pass { plugin_id: String, component_id: String, value: String, pass: PassStage },
    /// The frontend is being told that a plugin's UI changed.
    Notify,
}

impl Clone for Phase {
    fn clone(&self) -> (copy: Self)
        ensures
            copy == *self,
    {
        match self {
            Phase::Idle => Phase::Idle,
            Phase::Teardown { plugin_id, stage, trouble, follow } => Phase::Teardown {
                plugin_id: plugin_id.clone(),
                stage: *stage,
                trouble: *trouble,
                follow: follow.clone(),
            },
            Phase::MountScan { plugin_id } => Phase::MountScan { plugin_id: plugin_id.clone() },
            Phase::Mount { metadata, mount } => Phase::Mount {
                metadata: metadata.clone(),
                mount: *mount,
            },
            Phase::MountAbort { plugin_id, reason } => Phase::MountAbort {
                plugin_id: plugin_id.clone(),
                reason: *reason,
            },
            Phase::Connect { plugin_id } => Phase::Connect { plugin_id: plugin_id.clone() },
            Phase::Disconnect { plugin_id } => Phase::Disconnect { plugin_id: plugin_id.clone() },
            Phase::Message => Phase::Message,
            Phase::Snapshot { plugin_id } => Phase::Snapshot { plugin_id: plugin_id.clone() },
            Phase::Offer { plugin_id, component_id, value, repeated } => Phase::Offer {
                plugin_id: plugin_id.clone(),
                component_id: component_id.clone(),
                value: value.clone(),
                repeated: *repeated,
            },
            Phase::Pass { plugin_id, component_id, value, pass } => Phase::Pass {
                plugin_id: plugin_id.clone(),
                component_id: component_id.clone(),
                value: value.clone(),
                pass: *pass,
            },
            Phase::Notify => Phase::Notify,
        }
    }
}

/// The mathematical value of a [`Phase`].
pub enum PhaseView {
    Idle,
    Teardown { plugin_id: Seq<char>, stage: TeardownStage, trouble: Trouble, follow: FollowView },
    MountScan { plugin_id: Seq<char> },
    Mount { metadata: MetadataView, mount: MountStage },
    MountAbort { plugin_id: Seq<char>, reason: AbortReason },
    Connect { plugin_id: Seq<char> },
    Disconnect { plugin_id: Seq<char> },
    Message,
    Snapshot { plugin_id: Seq<char> },
    Offer { plugin_id: Seq<char>, component_id: Seq<char>, value: Seq<char>, repeated: bool },
    Pass { plugin_id: Seq<char>, component_id: Seq<char>, value: Seq<char>, pass: PassStage },
    Notify,
}

impl View for Phase {
    type V = PhaseView;

    open spec fn view(&self) -> PhaseView {
        match *self {
            Phase::Idle => PhaseView::Idle,
            Phase::Teardown { plugin_id, stage, trouble, follow } => PhaseView::Teardown {
                plugin_id: plugin_id@,
                stage,
                trouble,
                follow: follow@,
            },
            Phase::MountScan { plugin_id } => PhaseView::MountScan { plugin_id: plugin_id@ },
            Phase::Mount { metadata, mount } => PhaseView::Mount { metadata: metadata@, mount },
            Phase::MountAbort { plugin_id, reason } => PhaseView::MountAbort {
                plugin_id: plugin_id@,
                reason,
            },
            Phase::Connect { plugin_id } => PhaseView::Connect { plugin_id: plugin_id@ },
            Phase::Disconnect { plugin_id } => PhaseView::Disconnect { plugin_id: plugin_id@ },
            Phase::Message => PhaseView::Message,
            Phase::Snapshot { plugin_id } => PhaseView::Snapshot { plugin_id: plugin_id@ },
            Phase::Offer { plugin_id, component_id, value, repeated } => PhaseView::Offer {
                plugin_id: plugin_id@,
                component_id: component_id@,
                value: value@,
                repeated,
            },
            Phase::Pass { plugin_id, component_id, value, pass } => PhaseView::Pass {
                plugin_id: plugin_id@,
                component_id: component_id@,
                value: value@,
                pass,
            },
            Phase::Notify => PhaseView::Notify,
        }
    }
}

} // verus!
