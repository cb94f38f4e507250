//! What holds of every run, proved from the protocol.
//!
//! A run is the state it began in and the events the host reported, in
//! order. [`state_after`] and [`action_at`] give the state after each event
//! and the action that answered it.

use vstd::prelude::*;
use crate::entity::{lemma_decimal_digits, lemma_decimal_injective, EntityId};
use crate::run::{
    action_at, phase, state_after, transition, NewThreadView, RunActionView, RunErrorView,
    RunEventView, RunStateView,
};

verus! {

/// The state in which every run of an input with this title begins.
pub open spec fn scheduled(title: Option<Seq<char>>) -> RunStateView {
    RunStateView::Scheduled { title }
}

/// A run never goes back: along the events, its phase does not decrease.
pub proof fn law_runs_only_advance<P, C, R, T>(
    request: NewThreadView<P, C, R, T>,
    start: RunStateView,
    events: Seq<RunEventView>,
    earlier: nat,
    later: nat,
)
    requires
        earlier <= later,
    ensures
        phase(state_after(request, start, events, earlier)) <= phase(
            state_after(request, start, events, later),
        ),
    decreases later,
{
    if earlier < later {
        law_runs_only_advance(request, start, events, earlier, (later - 1) as nat);
    }
}

/// A finished run stays finished, and asks nothing more of the host,
/// whatever is reported to it.
pub proof fn law_finished_is_final<P, C, R, T>(
    request: NewThreadView<P, C, R, T>,
    start: RunStateView,
    events: Seq<RunEventView>,
    finished: nat,
    index: int,
)
    requires
        state_after(request, start, events, finished) is Finished,
        finished <= index,
    ensures
        state_after(request, start, events, index as nat) is Finished,
        action_at(request, start, events, index) is Wait,
{
    law_runs_only_advance(request, start, events, finished, index as nat);
}

/// A run resolves at most once: after the action that resolves it, every
/// action is `Wait`.
pub proof fn law_resolves_at_most_once<P, C, R, T>(
    request: NewThreadView<P, C, R, T>,
    start: RunStateView,
    events: Seq<RunEventView>,
    resolved: int,
    index: int,
)
    requires
        0 <= resolved < index,
        action_at(request, start, events, resolved) is Resolve,
    ensures
        action_at(request, start, events, index) is Wait,
{
    assert(state_after(request, start, events, (resolved + 1) as nat) is Finished);
    law_finished_is_final(request, start, events, (resolved + 1) as nat, index);
}

/// A run asks for a thread at most once, and then for a thread made from
/// `request`.
pub proof fn law_at_most_one_thread<P, C, R, T>(
    request: NewThreadView<P, C, R, T>,
    start: RunStateView,
    events: Seq<RunEventView>,
    first: int,
    second: int,
)
    requires
        0 <= first < second,
        action_at(request, start, events, first) is CreateThread,
    ensures
        action_at(request, start, events, first).creates_thread(request),
        !(action_at(request, start, events, second) is CreateThread),
{
    assert(phase(state_after(request, start, events, (first + 1) as nat)) == 1);
    law_runs_only_advance(request, start, events, (first + 1) as nat, second as nat);
}

/// The title is set at most once in a run.
pub proof fn law_title_set_at_most_once<P, C, R, T>(
    request: NewThreadView<P, C, R, T>,
    start: RunStateView,
    events: Seq<RunEventView>,
    first: int,
    second: int,
)
    requires
        0 <= first < second,
        action_at(request, start, events, first) is SetTitle,
    ensures
        !(action_at(request, start, events, second) is SetTitle),
{
    assert(phase(state_after(request, start, events, (first + 1) as nat)) == 2);
    law_runs_only_advance(request, start, events, (first + 1) as nat, second as nat);
}

/// Until a scheduled run has finished, it remembers the title it was given.
proof fn lemma_title_is_kept<P, C, R, T>(
    request: NewThreadView<P, C, R, T>,
    title: Option<Seq<char>>,
    events: Seq<RunEventView>,
    count: nat,
)
    ensures
        match state_after(request, scheduled(title), events, count) {
            RunStateView::Scheduled { title: kept } => kept == title,
            RunStateView::AwaitingThread { title: kept } => kept == title,
            RunStateView::AwaitingTitle { .. } => title is Some,
            RunStateView::Finished => true,
        },
    decreases count,
{
    if count > 0 {
        lemma_title_is_kept(request, title, events, (count - 1) as nat);
    }
}

/// A run that waits for its thread or for its title has asked for the
/// thread, in answer to an earlier event.
proof fn lemma_thread_was_requested<P, C, R, T>(
    request: NewThreadView<P, C, R, T>,
    title: Option<Seq<char>>,
    events: Seq<RunEventView>,
    count: nat,
)
    requires
        1 <= phase(state_after(request, scheduled(title), events, count)) <= 2,
    ensures
        exists|created: int|
            0 <= created < count && (#[trigger] action_at(
                request,
                scheduled(title),
                events,
                created,
            )).creates_thread(request),
    decreases count,
{
    let start = scheduled(title);
    if count > 0 {
        let before = state_after(request, start, events, (count - 1) as nat);
        if before is Scheduled {
            assert(action_at(request, start, events, count - 1).creates_thread(request));
        } else {
            lemma_thread_was_requested(request, title, events, (count - 1) as nat);
        }
    }
}

/// The title is set only on a thread that exists: the action that sets it
/// answers the report that this very thread was created, it carries the title
/// that the input supplied, and the thread was asked for before.
pub proof fn law_title_follows_creation<P, C, R, T>(
    request: NewThreadView<P, C, R, T>,
    title: Option<Seq<char>>,
    events: Seq<RunEventView>,
    index: int,
)
    requires
        0 <= index,
        action_at(request, scheduled(title), events, index) is SetTitle,
    ensures
        title is Some,
        events[index] is ThreadCreated,
        action_at(request, scheduled(title), events, index).sets_title(
            events[index]->ThreadCreated_0,
            title->Some_0,
        ),
        exists|created: int|
            0 <= created < index && (#[trigger] action_at(
                request,
                scheduled(title),
                events,
                created,
            )).creates_thread(request),
{
    lemma_title_is_kept(request, title, events, index as nat);
    lemma_thread_was_requested(request, title, events, index as nat);
}

/// A run of an input without a title never asks for a title to be set,
/// whatever the host reports.
pub proof fn law_untitled_run_never_sets_title<P, C, R, T>(
    request: NewThreadView<P, C, R, T>,
    events: Seq<RunEventView>,
    index: int,
)
    requires
        0 <= index,
    ensures
        !(action_at(request, scheduled(None), events, index) is SetTitle),
{
    lemma_title_is_kept(request, None, events, index as nat);
}

/// A run that resolves with success has created exactly one thread: it asked
/// for a thread made from `request` before it resolved, and
/// [`law_at_most_one_thread`] says it asked once. What it resolves with is
/// the identifier of a thread.
pub proof fn law_success_created_one_thread<P, C, R, T>(
    request: NewThreadView<P, C, R, T>,
    title: Option<Seq<char>>,
    events: Seq<RunEventView>,
    index: int,
)
    requires
        0 <= index,
        action_at(request, scheduled(title), events, index) matches RunActionView::Resolve(Ok(_)),
    ensures
        exists|created: int|
            0 <= created < index && (#[trigger] action_at(
                request,
                scheduled(title),
                events,
                created,
            )).creates_thread(request),
        exists|thread: EntityId|
            action_at(request, scheduled(title), events, index).resolves_with(
                Ok(#[trigger] thread.identifier()),
            ),
{
    let start = scheduled(title);
    lemma_thread_was_requested(request, title, events, index as nat);
    match state_after(request, start, events, index as nat) {
        RunStateView::AwaitingThread { .. } => {
            let thread = events[index]->ThreadCreated_0;
            assert(action_at(request, start, events, index).resolves_with(
                Ok(thread.identifier()),
            ));
        },
        RunStateView::AwaitingTitle { thread } => {
            assert(action_at(request, start, events, index).resolves_with(
                Ok(thread.identifier()),
            ));
        },
        _ => {},
    }
}

/// The successful run of an input without a title: started, it asks for one
/// thread made from `request`; told that the thread exists, it resolves with
/// the thread's identifier, which is not empty, and has finished.
pub proof fn law_untitled_run<P, C, R, T>(request: NewThreadView<P, C, R, T>, thread: EntityId)
    ensures
        ({
            let events = seq![RunEventView::Started, RunEventView::ThreadCreated(thread)];
            let start = scheduled(None);
            &&& action_at(request, start, events, 0).creates_thread(request)
            &&& action_at(request, start, events, 1).resolves_with(Ok(thread.identifier()))
            &&& state_after(request, start, events, 2) is Finished
        }),
        thread.identifier().len() >= 1,
{
    let events = seq![RunEventView::Started, RunEventView::ThreadCreated(thread)];
    let start = scheduled(None);
    assert(state_after(request, start, events, 0) == start);
    assert(state_after(request, start, events, 1) == (RunStateView::AwaitingThread {
        title: None,
    }));
    assert(state_after(request, start, events, 2) is Finished);
    lemma_decimal_digits(thread.0 as nat);
}

/// The successful run of an input with a title: started, it asks for one
/// thread made from `request`; told that the thread exists, it asks for the
/// title to be set on that thread, to the title supplied; told that the title
/// is set, it resolves with the thread's identifier and has finished.
pub proof fn law_titled_run<P, C, R, T>(
    request: NewThreadView<P, C, R, T>,
    title: Seq<char>,
    thread: EntityId,
)
    ensures
        ({
            let events = seq![
                RunEventView::Started,
                RunEventView::ThreadCreated(thread),
                RunEventView::TitleApplied,
            ];
            let start = scheduled(Some(title));
            &&& action_at(request, start, events, 0).creates_thread(request)
            &&& action_at(request, start, events, 1).sets_title(thread, title)
            &&& action_at(request, start, events, 2).resolves_with(Ok(thread.identifier()))
            &&& state_after(request, start, events, 3) is Finished
        }),
{
    let events = seq![
        RunEventView::Started,
        RunEventView::ThreadCreated(thread),
        RunEventView::TitleApplied,
    ];
    let start = scheduled(Some(title));
    assert(state_after(request, start, events, 0) == start);
    assert(state_after(request, start, events, 1) == (RunStateView::AwaitingThread {
        title: Some(title),
    }));
    assert(state_after(request, start, events, 2) == (RunStateView::AwaitingTitle { thread }));
    assert(state_after(request, start, events, 3) is Finished);
}

/// When setting the title fails, the run resolves with that failure and
/// nothing further happens: whatever the host reports afterwards, the run
/// stays finished and asks for nothing.
pub proof fn law_failed_title_update<P, C, R, T>(
    request: NewThreadView<P, C, R, T>,
    title: Seq<char>,
    thread: EntityId,
    message: Seq<char>,
    afterwards: Seq<RunEventView>,
    index: int,
)
    requires
        3 <= index,
    ensures
        ({
            let events = seq![
                RunEventView::Started,
                RunEventView::ThreadCreated(thread),
                RunEventView::TitleRejected(message),
            ] + afterwards;
            let start = scheduled(Some(title));
            &&& action_at(request, start, events, 0).creates_thread(request)
            &&& action_at(request, start, events, 1).sets_title(thread, title)
            &&& action_at(request, start, events, 2).resolves_with(
                Err(RunErrorView::TitleUpdate(message)),
            )
            &&& state_after(request, start, events, index as nat) is Finished
            &&& action_at(request, start, events, index) is Wait
        }),
{
    let events = seq![
        RunEventView::Started,
        RunEventView::ThreadCreated(thread),
        RunEventView::TitleRejected(message),
    ] + afterwards;
    let start = scheduled(Some(title));
    assert(events[0] == RunEventView::Started);
    assert(events[1] == RunEventView::ThreadCreated(thread));
    assert(events[2] == RunEventView::TitleRejected(message));
    assert(state_after(request, start, events, 0) == start);
    assert(state_after(request, start, events, 1) == (RunStateView::AwaitingThread {
        title: Some(title),
    }));
    assert(state_after(request, start, events, 2) == (RunStateView::AwaitingTitle { thread }));
    assert(state_after(request, start, events, 3) is Finished);
    law_finished_is_final(request, start, events, 3, index);
}

/// When the host is gone before a run has finished, the run resolves with
/// that failure and has finished.
pub proof fn law_host_unavailable<P, C, R, T>(
    request: NewThreadView<P, C, R, T>,
    state: RunStateView,
    message: Seq<char>,
)
    requires
        !(state is Finished),
    ensures
        transition(request, state, RunEventView::HostUnavailable(message)).0 is Finished,
        transition(request, state, RunEventView::HostUnavailable(message)).1.resolves_with(
            Err(RunErrorView::HostUnavailable(message)),
        ),
{
}

/// Runs that created different threads resolve with different identifiers.
pub proof fn law_distinct_threads_distinct_identifiers(first: EntityId, second: EntityId)
    requires
        first != second,
    ensures
        first.identifier() != second.identifier(),
{
    if first.identifier() == second.identifier() {
        lemma_decimal_injective(first.0 as nat, second.0 as nat);
    }
}

} // verus!
