//! What the manager and its host say to each other.
//!
//! An operation is a conversation. The manager hands out one [`HostCall`]; the
//! host performs it against the plugin's entry points, the UI builder or the
//! frontend, and reports the result as a [`HostAnswer`]; the manager then
//! hands out the next call or the operation's [`Outcome`].

use vstd::prelude::*;
use vstd::string::*;
use crate::metadata::{MetadataView, PluginMetadata, metadata_views, optional_text};

verus! {

/// A change of one UI component that the frontend reports.
#[derive(Debug, PartialEq, Eq)]
pub struct UiEvent {
    pub component_id: String,
    pub value: String,
}

/// The mathematical value of a [`UiEvent`].
pub struct UiEventView {
    pub component_id: Seq<char>,
    pub value: Seq<char>,
}

impl View for UiEvent {
    type V = UiEventView;

    open spec fn view(&self) -> UiEventView {
        UiEventView { component_id: self.component_id@, value: self.value@ }
    }
}

/// One piece of work that only the host can do.
#[derive(Debug, PartialEq, Eq)]
pub enum HostCall {
    /// Ask discovery for the known plugins. Answer: `Plugins`.
    Scan,
    /// Load the shared library at `library_path`, resolve the creation entry
    /// point and invoke it. The host keeps library and handler under
    /// `plugin_id` on success and lets go of the library otherwise.
    /// Answer: `Loaded`, `LibraryFailed`, `SymbolMissing` or `NoHandler`.
    Load { plugin_id: String, library_path: String },
    /// Invoke `initialize` with the callback table. Answer: `Status`.
    Initialize { plugin_id: String },
    /// Invoke `on_mount` with the metadata in its call-compatible form, and
    /// free that form afterwards. Answer: `Status`.
    OnMount { metadata: PluginMetadata },
    /// Invoke `on_connect`. Answer: `Status`.
    OnConnect { plugin_id: String },
    /// Invoke `on_disconnect`. Answer: `Status`.
    OnDisconnect { plugin_id: String },
    /// Invoke `on_dispose`. Answer: `Status`.
    OnDispose { plugin_id: String },
    /// Invoke the destroy entry point on the handler and drop the library.
    /// Answer: `Done`.
    Release { plugin_id: String },
    /// Invoke `handle_message`, copy the response and free the plugin's
    /// buffer. Answer: `Reply`.
    HandleMessage { plugin_id: String, message: String },
    /// Give the plugin a fresh, empty UI builder. Answer: `Done`.
    CreateUi { plugin_id: String },
    /// Ask the UI builder whether `component_id` is one of its event targets,
    /// and let it note the event if so. Answer: `Recognized`.
    OfferEvent { plugin_id: String, component_id: String, value: String },
    /// Empty the builder's components and keep its event state.
    /// Answer: `Done`.
    ClearComponents { plugin_id: String },
    /// Invoke `update_ui` with a render context that carries `event`.
    /// Answer: `Status`.
    UpdateUi { plugin_id: String, event: Option<UiEvent> },
    /// Serialize the builder's components. Answer: `Tree`.
    SerializeUi { plugin_id: String },
    /// Empty the builder's event state. Answer: `Done`.
    ClearEvents { plugin_id: String },
    /// Send `payload` to the frontend under the name `event_name`.
    /// Answer: `Delivered`.
    Emit { event_name: String, payload: String },
}

/// The mathematical value of a [`HostCall`].
pub enum CallView {
    Scan,
    Load { plugin_id: Seq<char>, library_path: Seq<char> },
    Initialize { plugin_id: Seq<char> },
    OnMount { metadata: MetadataView },
    OnConnect { plugin_id: Seq<char> },
    OnDisconnect { plugin_id: Seq<char> },
    OnDispose { plugin_id: Seq<char> },
    Release { plugin_id: Seq<char> },
    HandleMessage { plugin_id: Seq<char>, message: Seq<char> },
    CreateUi { plugin_id: Seq<char> },
    OfferEvent { plugin_id: Seq<char>, component_id: Seq<char>, value: Seq<char> },
    ClearComponents { plugin_id: Seq<char> },
    UpdateUi { plugin_id: Seq<char>, event: Option<UiEventView> },
    SerializeUi { plugin_id: Seq<char> },
    ClearEvents { plugin_id: Seq<char> },
    Emit { event_name: Seq<char>, payload: Seq<char> },
}

/// The view of an optional UI event.
pub open spec fn optional_event(event: Option<UiEvent>) -> Option<UiEventView> {
    match event {
        Some(e) => Some(e@),
        None => None,
    }
}

impl View for HostCall {
    type V = CallView;

    open spec fn view(&self) -> CallView {
        match *self {
            HostCall::Scan => CallView::Scan,
            HostCall::Load { plugin_id, library_path } => CallView::Load {
                plugin_id: plugin_id@,
                library_path: library_path@,
            },
            HostCall::Initialize { plugin_id } => CallView::Initialize { plugin_id: plugin_id@ },
            HostCall::OnMount { metadata } => CallView::OnMount { metadata: metadata@ },
            HostCall::OnConnect { plugin_id } => CallView::OnConnect { plugin_id: plugin_id@ },
            HostCall::OnDisconnect { plugin_id } => CallView::OnDisconnect {
                plugin_id: plugin_id@,
            },
            HostCall::OnDispose { plugin_id } => CallView::OnDispose { plugin_id: plugin_id@ },
            HostCall::Release { plugin_id } => CallView::Release { plugin_id: plugin_id@ },
            HostCall::HandleMessage { plugin_id, message } => CallView::HandleMessage {
                plugin_id: plugin_id@,
                message: message@,
            },
            HostCall::CreateUi { plugin_id } => CallView::CreateUi { plugin_id: plugin_id@ },
            HostCall::OfferEvent { plugin_id, component_id, value } => CallView::OfferEvent {
                plugin_id: plugin_id@,
                component_id: component_id@,
                value: value@,
            },
            HostCall::ClearComponents { plugin_id } => CallView::ClearComponents {
                plugin_id: plugin_id@,
            },
            HostCall::UpdateUi { plugin_id, event } => CallView::UpdateUi {
                plugin_id: plugin_id@,
                event: optional_event(event),
            },
            HostCall::SerializeUi { plugin_id } => CallView::SerializeUi { plugin_id: plugin_id@ },
            HostCall::ClearEvents { plugin_id } => CallView::ClearEvents { plugin_id: plugin_id@ },
            HostCall::Emit { event_name, payload } => CallView::Emit {
                event_name: event_name@,
                payload: payload@,
            },
        }
    }
}

/// The view of an optional call.
pub open spec fn optional_call(call: Option<HostCall>) -> Option<CallView> {
    match call {
        Some(c) => Some(c@),
        None => None,
    }
}

/// What the host reports back after a [`HostCall`].
#[derive(Debug, PartialEq, Eq)]
pub enum HostAnswer {
    /// The call was made; it has no result.
    Done,
    /// The status that an entry point returned: zero for success.
    Status(i32),
    /// The plugins that discovery found.
    Plugins(Vec<PluginMetadata>),
    /// The library is loaded and the creation entry point gave a handler.
    Loaded,
    /// The library could not be loaded; the text says why.
    LibraryFailed(String),
    /// The library has no creation entry point; the text says why.
    SymbolMissing(String),
    /// The creation entry point gave a null handler.
    NoHandler,
    /// The status of `handle_message` and the response it left, if any.
    Reply { status: i32, text: Option<String> },
    /// Whether the UI builder took the event as one of its own.
    Recognized(bool),
    /// The serialized UI tree, or `None` where serializing failed.
    Tree(Option<String>),
    /// Whether the frontend took the event.
    Delivered(bool),
}

/// The mathematical value of a [`HostAnswer`].
pub enum AnswerView {
    Done,
    Status(i32),
    Plugins(Seq<MetadataView>),
    Loaded,
    LibraryFailed(Seq<char>),
    SymbolMissing(Seq<char>),
    NoHandler,
    Reply { status: i32, text: Option<Seq<char>> },
    Recognized(bool),
    Tree(Option<Seq<char>>),
    Delivered(bool),
}

impl View for HostAnswer {
    type V = AnswerView;

    open spec fn view(&self) -> AnswerView {
        match *self {
            HostAnswer::Done => AnswerView::Done,
            HostAnswer::Status(status) => AnswerView::Status(status),
            HostAnswer::Plugins(plugins) => AnswerView::Plugins(metadata_views(plugins@)),
            HostAnswer::Loaded => AnswerView::Loaded,
            HostAnswer::LibraryFailed(reason) => AnswerView::LibraryFailed(reason@),
            HostAnswer::SymbolMissing(reason) => AnswerView::SymbolMissing(reason@),
            HostAnswer::NoHandler => AnswerView::NoHandler,
            HostAnswer::Reply { status, text } => AnswerView::Reply {
                status,
                text: optional_text(text),
            },
            HostAnswer::Recognized(recognized) => AnswerView::Recognized(recognized),
            HostAnswer::Tree(tree) => AnswerView::Tree(optional_text(tree)),
            HostAnswer::Delivered(delivered) => AnswerView::Delivered(delivered),
        }
    }
}

/// How an operation ended.
#[derive(Debug, PartialEq, Eq)]
pub enum Outcome {
    /// A lifecycle operation, a message or a UI query: the text for the user,
    /// or the error text.
    Message(Result<String, String>),
    /// A UI update or event: whether it was handled, or the error text.
    Handled(Result<bool, String>),
    /// A notification of the frontend: delivered, or the error text.
    Notified(Result<(), String>),
    /// The cleanup of all plugins: done.
    Cleaned,
}

/// The mathematical value of an [`Outcome`].
pub enum OutcomeView {
    Message(Result<Seq<char>, Seq<char>>),
    Handled(Result<bool, Seq<char>>),
    Notified(Result<(), Seq<char>>),
    Cleaned,
}

impl View for Outcome {
    type V = OutcomeView;

    open spec fn view(&self) -> OutcomeView {
        match *self {
            Outcome::Message(Ok(text)) => OutcomeView::Message(Ok(text@)),
            Outcome::Message(Err(text)) => OutcomeView::Message(Err(text@)),
            Outcome::Handled(Ok(handled)) => OutcomeView::Handled(Ok(handled)),
            Outcome::Handled(Err(text)) => OutcomeView::Handled(Err(text@)),
            Outcome::Notified(Ok(())) => OutcomeView::Notified(Ok(())),
            Outcome::Notified(Err(text)) => OutcomeView::Notified(Err(text@)),
            Outcome::Cleaned => OutcomeView::Cleaned,
        }
    }
}

/// What the manager says after each turn of the conversation.
#[derive(Debug, PartialEq, Eq)]
pub enum Step {
    /// The host is to make this call and come back with its answer.
    Call(HostCall),
    /// The operation is over.
    Done(Outcome),
    /// The request or answer does not fit the conversation: a request while
    /// an operation is under way, or an answer that the outstanding call
    /// cannot have. Nothing has changed.
    Rejected,
}

/// The mathematical value of a [`Step`].
pub enum StepView {
    Call(CallView),
    Done(OutcomeView),
    Rejected,
}

impl View for Step {
    type V = StepView;

    open spec fn view(&self) -> StepView {
        match *self {
            Step::Call(call) => StepView::Call(call@),
            Step::Done(outcome) => StepView::Done(outcome@),
            Step::Rejected => StepView::Rejected,
        }
    }
}

} // verus!
