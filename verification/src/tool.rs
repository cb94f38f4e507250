//! The tool: what it is called, how it is classified, how an invocation is
//! labelled, and how an invocation runs.

use vstd::prelude::*;
use agent_client_protocol::schema::v1::ToolKind;
use crate::input::CreateThreadToolInput;
use crate::run::{
    transition, NewThread, NewThreadView, RunAction, RunError, RunEvent, RunState, RunStateView,
};

verus! {

/// The name under which the tool is dispatched.
pub open spec fn tool_name() -> Seq<char> {
    "create_thread"@
}

/// The label of an invocation whose title is not known.
pub open spec fn generic_title() -> Seq<char> {
    "Create thread"@
}

/// The label of an invocation, given the title that was decoded from its input.
pub open spec fn title_label(title: Option<Seq<char>>) -> Seq<char> {
    match title {
        Some(title) => "Create thread: "@ + title,
        None => generic_title(),
    }
}

/// The label of an invocation, given the outcome of decoding its input: a
/// decoded input is labelled by its title, and input that did not decode gets
/// the generic label.
pub open spec fn initial_title_of(
    input: Result<CreateThreadToolInput, serde_json::Value>,
) -> Seq<char> {
    match input {
        Ok(input) => title_label(input@),
        Err(_) => generic_title(),
    }
}

/// Tool that creates a new thread for the current project.
///
/// It holds shared handles to the four things a thread is wired to and never
/// changes them. It keeps nothing from one invocation to the next.
pub struct CreateThreadTool<P, C, R, T> {
    project: P,
    project_context: C,
    context_server_registry: R,
    templates: T,
}

impl<P, C, R, T> CreateThreadTool<P, C, R, T> {
    /// The project that new threads belong to.
    pub closed spec fn project(&self) -> P {
        self.project
    }

    /// The project context handed to new threads.
    pub closed spec fn project_context(&self) -> C {
        self.project_context
    }

    /// The context-server registry handed to new threads.
    pub closed spec fn context_server_registry(&self) -> R {
        self.context_server_registry
    }

    /// The prompt templates handed to new threads.
    pub closed spec fn templates(&self) -> T {
        self.templates
    }

    /// What every thread of this tool is created from: the four dependencies
    /// and no explicit model.
    pub open spec fn thread_request(&self) -> NewThreadView<P, C, R, T> {
        NewThreadView {
            project: self.project(),
            project_context: self.project_context(),
            context_server_registry: self.context_server_registry(),
            templates: self.templates(),
            model: None,
        }
    }

    /// Binds the tool to the dependencies that its threads are wired to.
    pub fn new(project: P, project_context: C, context_server_registry: R, templates: T) -> (tool:
        Self)
        ensures
            tool.project() == project,
            tool.project_context() == project_context,
            tool.context_server_registry() == context_server_registry,
            tool.templates() == templates,
    {
        Self { project, project_context, context_server_registry, templates }
    }

    /// The key under which the tool is dispatched and its results are correlated.
    pub fn name() -> (name: &'static str)
        ensures
            name@ == tool_name(),
    {
        "create_thread"
    }

    /// The tool edits, reads and executes nothing: its kind is `Other`.
    pub fn kind() -> (kind: ToolKind)
        ensures
            kind == ToolKind::Other,
    {
        ToolKind::Other
    }

    /// The label shown before and while the tool runs. It never fails: input
    /// that did not decode is labelled like input without a title.
    pub fn initial_title(&self, input: Result<CreateThreadToolInput, serde_json::Value>) -> (label:
        String)
        ensures
            label@ == initial_title_of(input),
    {
        match input {
            Ok(CreateThreadToolInput { title: Some(title) }) => {
                let mut label = String::from_str("Create thread: ");
                label.append(title.as_str());
                label
            },
            _ => String::from_str("Create thread"),
        }
    }

    /// Schedules one invocation. Nothing has been asked of the host yet:
    /// the run waits to be started.
    pub fn run(&self, input: CreateThreadToolInput) -> (state: RunState)
        ensures
            state@ == (RunStateView::Scheduled { title: input@ }),
    {
        RunState::Scheduled { title: input.title }
    }

    /// Advances a run by one event, as [`transition`] says, with the
    /// thread created from this tool's dependencies.
    pub fn step(&self, state: RunState, event: RunEvent) -> (next: (
        RunState,
        RunAction<'_, P, C, R, T>,
    ))
        ensures
            (next.0@, next.1@) == transition(self.thread_request(), state@, event@),
    {
        match state {
            RunState::Scheduled { title } => match event {
                RunEvent::Started => {
                    let request = NewThread {
                        project: &self.project,
                        project_context: &self.project_context,
                        context_server_registry: &self.context_server_registry,
                        templates: &self.templates,
                        model: None,
                    };
                    (RunState::AwaitingThread { title }, RunAction::CreateThread(request))
                },
                RunEvent::HostUnavailable(message) => (
                    RunState::Finished,
                    RunAction::Resolve(Err(RunError::HostUnavailable(message))),
                ),
                _ => (RunState::Scheduled { title }, RunAction::Wait),
            },
            RunState::AwaitingThread { title } => match event {
                RunEvent::ThreadCreated(thread) => match title {
                    Some(title) => (
                        RunState::AwaitingTitle { thread },
                        RunAction::SetTitle { thread, title },
                    ),
                    None => (RunState::Finished, RunAction::Resolve(Ok(thread.to_string()))),
                },
                RunEvent::HostUnavailable(message) => (
                    RunState::Finished,
                    RunAction::Resolve(Err(RunError::HostUnavailable(message))),
                ),
                _ => (RunState::AwaitingThread { title }, RunAction::Wait),
            },
            RunState::AwaitingTitle { thread } => match event {
                RunEvent::TitleApplied => (
                    RunState::Finished,
                    RunAction::Resolve(Ok(thread.to_string())),
                ),
                RunEvent::TitleRejected(message) => (
                    RunState::Finished,
                    RunAction::Resolve(Err(RunError::TitleUpdate(message))),
                ),
                RunEvent::HostUnavailable(message) => (
                    RunState::Finished,
                    RunAction::Resolve(Err(RunError::HostUnavailable(message))),
                ),
                _ => (RunState::AwaitingTitle { thread }, RunAction::Wait),
            },
            RunState::Finished => (RunState::Finished, RunAction::Wait),
        }
    }
}

} // verus!
