//! One invocation of the tool, as a state machine.
//!
//! Creating a thread and setting its title are the host's work: only the
//! host's entity store can do either, and the second may fail. The tool
//! decides what is asked of the host and in which order. A run starts in
//! [`RunState::Scheduled`]; the host reports what happened as a [`RunEvent`],
//! and each event is answered by the next state and a [`RunAction`] for the
//! host to perform. [`transition`] is the whole protocol.
//!
//! An event that the current state is not waiting for changes nothing and is
//! answered by [`RunAction::Wait`]. A run that is dropped before it has
//! finished is abandoned as it stands: a thread that was already created
//! stays with the entity store.

use vstd::prelude::*;
use crate::entity::EntityId;

verus! {

/// Why a run failed. Each variant carries the host's message.
#[derive(Debug, PartialEq, Eq)]
pub enum RunError {
    /// The thread was created, but setting its title failed. The thread stays
    /// as it was constructed, without the requested title.
    TitleUpdate(String),
    /// The scheduler or the entity store was gone before the run could finish.
    HostUnavailable(String),
}

/// Mathematical form of a [`RunError`].
pub enum RunErrorView {
    TitleUpdate(Seq<char>),
    HostUnavailable(Seq<char>),
}

impl View for RunError {
    type V = RunErrorView;

    open spec fn view(&self) -> RunErrorView {
        match self {
            RunError::TitleUpdate(message) => RunErrorView::TitleUpdate(message@),
            RunError::HostUnavailable(message) => RunErrorView::HostUnavailable(message@),
        }
    }
}

impl RunErrorView {
    /// The host's message.
    pub open spec fn message(self) -> Seq<char> {
        match self {
            RunErrorView::TitleUpdate(message) => message,
            RunErrorView::HostUnavailable(message) => message,
        }
    }
}

impl RunError {
    /// The host's message.
    pub fn message(&self) -> (message: &String)
        ensures
            message@ == self@.message(),
    {
        match self {
            RunError::TitleUpdate(message) => message,
            RunError::HostUnavailable(message) => message,
        }
    }
}

/// What the host reports to a run.
#[derive(Debug, PartialEq, Eq)]
pub enum RunEvent {
    /// The scheduled unit of work has begun to execute.
    Started,
    /// The entity store constructed the thread and assigned it this identifier.
    ThreadCreated(EntityId),
    /// The title was set.
    TitleApplied,
    /// Setting the title failed, with the host's message.
    TitleRejected(String),
    /// The scheduler or the entity store is gone, with the host's message.
    HostUnavailable(String),
}

/// Mathematical form of a [`RunEvent`].
pub enum RunEventView {
    Started,
    ThreadCreated(EntityId),
    TitleApplied,
    TitleRejected(Seq<char>),
    HostUnavailable(Seq<char>),
}

impl View for RunEvent {
    type V = RunEventView;

    open spec fn view(&self) -> RunEventView {
        match self {
            RunEvent::Started => RunEventView::Started,
            RunEvent::ThreadCreated(thread) => RunEventView::ThreadCreated(*thread),
            RunEvent::TitleApplied => RunEventView::TitleApplied,
            RunEvent::TitleRejected(message) => RunEventView::TitleRejected(message@),
            RunEvent::HostUnavailable(message) => RunEventView::HostUnavailable(message@),
        }
    }
}

/// Where a run stands.
#[derive(Debug, PartialEq, Eq)]
pub enum RunState {
    /// Handed to the scheduler, not yet executing.
    Scheduled { title: Option<String> },
    /// The host was asked to create the thread.
    AwaitingThread { title: Option<String> },
    /// The thread exists and the host was asked to set its title.
    AwaitingTitle { thread: EntityId },
    /// The run has resolved.
    Finished,
}

/// Mathematical form of a [`RunState`].
pub enum RunStateView {
    Scheduled { title: Option<Seq<char>> },
    AwaitingThread { title: Option<Seq<char>> },
    AwaitingTitle { thread: EntityId },
    Finished,
}

impl View for RunState {
    type V = RunStateView;

    open spec fn view(&self) -> RunStateView {
        match self {
            RunState::Scheduled { title } => RunStateView::Scheduled { title: text_view(*title) },
            RunState::AwaitingThread { title } => RunStateView::AwaitingThread {
                title: text_view(*title),
            },
            RunState::AwaitingTitle { thread } => RunStateView::AwaitingTitle { thread: *thread },
            RunState::Finished => RunStateView::Finished,
        }
    }
}

/// The characters of an optional text.
pub open spec fn text_view(title: Option<String>) -> Option<Seq<char>> {
    match title {
        Some(title) => Some(title@),
        None => None,
    }
}

/// What a new thread is constructed from: the tool's four dependencies, by
/// reference, and the language model to start with. Without a model the
/// thread resolves the system default when it is first used.
#[derive(Debug, PartialEq, Eq)]
pub struct NewThread<'a, P, C, R, T> {
    pub project: &'a P,
    pub project_context: &'a C,
    pub context_server_registry: &'a R,
    pub templates: &'a T,
    pub model: Option<String>,
}

/// Mathematical form of a [`NewThread`].
pub struct NewThreadView<P, C, R, T> {
    pub project: P,
    pub project_context: C,
    pub context_server_registry: R,
    pub templates: T,
    pub model: Option<Seq<char>>,
}

impl<'a, P, C, R, T> View for NewThread<'a, P, C, R, T> {
    type V = NewThreadView<P, C, R, T>;

    open spec fn view(&self) -> NewThreadView<P, C, R, T> {
        NewThreadView {
            project: *self.project,
            project_context: *self.project_context,
            context_server_registry: *self.context_server_registry,
            templates: *self.templates,
            model: text_view(self.model),
        }
    }
}

/// What the host is to do next.
#[derive(Debug, PartialEq, Eq)]
pub enum RunAction<'a, P, C, R, T> {
    /// Construct a thread from these parts and report `ThreadCreated`.
    CreateThread(NewThread<'a, P, C, R, T>),
    /// Set the title of this thread and report `TitleApplied` or `TitleRejected`.
    SetTitle { thread: EntityId, title: String },
    /// Hand this result to the caller: the thread's identifier, or the failure.
    Resolve(Result<String, RunError>),
    /// Nothing: the event was not one the run was waiting for.
    Wait,
}

/// Mathematical form of a [`RunAction`].
pub enum RunActionView<P, C, R, T> {
    CreateThread(NewThreadView<P, C, R, T>),
    SetTitle { thread: EntityId, title: Seq<char> },
    Resolve(Result<Seq<char>, RunErrorView>),
    Wait,
}

impl<P, C, R, T> RunActionView<P, C, R, T> {
    /// Whether this asks for a thread made from `request`.
    pub open spec fn creates_thread(self, request: NewThreadView<P, C, R, T>) -> bool {
        self == RunActionView::CreateThread(request)
    }

    /// Whether this asks for `title` to be set on `thread`.
    pub open spec fn sets_title(self, thread: EntityId, title: Seq<char>) -> bool {
        self == (RunActionView::<P, C, R, T>::SetTitle { thread, title })
    }

    /// Whether this hands `result` to the caller.
    pub open spec fn resolves_with(self, result: Result<Seq<char>, RunErrorView>) -> bool {
        self == RunActionView::<P, C, R, T>::Resolve(result)
    }
}

impl<'a, P, C, R, T> View for RunAction<'a, P, C, R, T> {
    type V = RunActionView<P, C, R, T>;

    open spec fn view(&self) -> RunActionView<P, C, R, T> {
        match self {
            RunAction::CreateThread(request) => RunActionView::CreateThread(request@),
            RunAction::SetTitle { thread, title } => RunActionView::SetTitle {
                thread: *thread,
                title: title@,
            },
            RunAction::Resolve(Ok(identifier)) => RunActionView::Resolve(Ok(identifier@)),
            RunAction::Resolve(Err(error)) => RunActionView::Resolve(Err(error@)),
            RunAction::Wait => RunActionView::Wait,
        }
    }
}

/// The protocol: the state that follows `state` on `event`, and what the host
/// is asked to do. `request` is what a thread is created from.
///
/// - A scheduled run that starts asks for the thread.
/// - When the thread exists, a run without a title resolves with the thread's
///   identifier; a run with a title asks for the title to be set on that
///   thread.
/// - When the title is set, the run resolves with the thread's identifier;
///   when setting it failed, with that failure.
/// - A run that has not finished resolves with a failure as soon as the host
///   is gone.
/// - Any other event is not waited for.
pub open spec fn transition<P, C, R, T>(
    request: NewThreadView<P, C, R, T>,
    state: RunStateView,
    event: RunEventView,
) -> (RunStateView, RunActionView<P, C, R, T>) {
    match (state, event) {
        (RunStateView::Scheduled { title }, RunEventView::Started) => (
            RunStateView::AwaitingThread { title },
            RunActionView::CreateThread(request),
        ),
        (RunStateView::AwaitingThread { title: None }, RunEventView::ThreadCreated(thread)) => (
            RunStateView::Finished,
            RunActionView::Resolve(Ok(thread.identifier())),
        ),
        (
            RunStateView::AwaitingThread { title: Some(title) },
            RunEventView::ThreadCreated(thread),
        ) => (RunStateView::AwaitingTitle { thread }, RunActionView::SetTitle { thread, title }),
        (RunStateView::AwaitingTitle { thread }, RunEventView::TitleApplied) => (
            RunStateView::Finished,
            RunActionView::Resolve(Ok(thread.identifier())),
        ),
        (RunStateView::AwaitingTitle { thread }, RunEventView::TitleRejected(message)) => (
            RunStateView::Finished,
            RunActionView::Resolve(Err(RunErrorView::TitleUpdate(message))),
        ),
        (RunStateView::Finished, _) => (RunStateView::Finished, RunActionView::Wait),
        (_, RunEventView::HostUnavailable(message)) => (
            RunStateView::Finished,
            RunActionView::Resolve(Err(RunErrorView::HostUnavailable(message))),
        ),
        _ => (state, RunActionView::Wait),
    }
}

/// The state of the run that began in `start`, after the first `count` of `events`.
pub open spec fn state_after<P, C, R, T>(
    request: NewThreadView<P, C, R, T>,
    start: RunStateView,
    events: Seq<RunEventView>,
    count: nat,
) -> RunStateView
    decreases count,
{
    if count == 0 {
        start
    } else {
        transition(
            request,
            state_after(request, start, events, (count - 1) as nat),
            events[count - 1],
        ).0
    }
}

/// What the host is asked to do in answer to event number `index` of `events`.
pub open spec fn action_at<P, C, R, T>(
    request: NewThreadView<P, C, R, T>,
    start: RunStateView,
    events: Seq<RunEventView>,
    index: int,
) -> RunActionView<P, C, R, T> {
    transition(request, state_after(request, start, events, index as nat), events[index]).1
}

/// How far a run has come: each state's place in the order in which a run
/// passes through them.
pub open spec fn phase(state: RunStateView) -> nat {
    match state {
        RunStateView::Scheduled { .. } => 0,
        RunStateView::AwaitingThread { .. } => 1,
        RunStateView::AwaitingTitle { .. } => 2,
        RunStateView::Finished => 3,
    }
}

} // verus!
