//! Whole invocations: what holds after every sequence of events, whatever the host
//! reports and in whatever order.

use vstd::prelude::*;
use crate::invocation::{step, ActionView, EventView, InvocationView, Mode};

verus! {

/// The state of the invocation `inv` after it was told `events`, one after another.
pub open spec fn state_after(inv: InvocationView, events: Seq<EventView>) -> InvocationView
    decreases events.len(),
{
    if events.len() == 0 {
        inv
    } else {
        step(state_after(inv, events.drop_last()), events.last()).0
    }
}

/// The answer to the last of `events`.
pub open spec fn last_answer(inv: InvocationView, events: Seq<EventView>) -> ActionView
    recommends
        events.len() > 0,
{
    step(state_after(inv, events.drop_last()), events.last()).1
}

/// The file that the host reports to have created, where the invocation waits for
/// its file: the written file, or what a failed write left behind.
pub open spec fn file_created(inv: InvocationView, event: EventView) -> Option<Seq<char>> {
    if inv.stage is Transformed {
        match event {
            EventView::FileWritten { path } => Some(path),
            EventView::WriteFailed { partial, .. } => partial,
            _ => None,
        }
    } else {
        None
    }
}

/// The file that an answer hands out for removal.
pub open spec fn file_released(action: ActionView) -> Option<Seq<char>> {
    match action {
        ActionView::Finish { remove, .. } => remove,
        _ => None,
    }
}

/// A list with the file in it, or the empty list.
pub open spec fn file_list(file: Option<Seq<char>>) -> Seq<Seq<char>> {
    match file {
        Some(path) => seq![path],
        None => Seq::<Seq<char>>::empty(),
    }
}

/// The files that the host created for the invocation in the course of `events`.
pub open spec fn files_created(inv: InvocationView, events: Seq<EventView>) -> Seq<Seq<char>>
    decreases events.len(),
{
    if events.len() == 0 {
        Seq::<Seq<char>>::empty()
    } else {
        files_created(inv, events.drop_last()) + file_list(
            file_created(state_after(inv, events.drop_last()), events.last()),
        )
    }
}

/// The files that the invocation handed out for removal in the course of `events`.
pub open spec fn files_released(inv: InvocationView, events: Seq<EventView>) -> Seq<Seq<char>>
    decreases events.len(),
{
    if events.len() == 0 {
        Seq::<Seq<char>>::empty()
    } else {
        files_released(inv, events.drop_last()) + file_list(
            file_released(last_answer(inv, events)),
        )
    }
}

/// Whether an answer ends the invocation for the caller: it carries the result, or
/// hands the process over.
pub open spec fn is_final_answer(action: ActionView) -> bool {
    action is Finish || action is Detach
}

/// How many of the answers to `events` ended the invocation for the caller.
pub open spec fn final_answers(inv: InvocationView, events: Seq<EventView>) -> nat
    decreases events.len(),
{
    if events.len() == 0 {
        0
    } else {
        final_answers(inv, events.drop_last()) + if is_final_answer(last_answer(inv, events)) {
            1nat
        } else {
            0nat
        }
    }
}

/// The mode of an invocation never changes.
pub proof fn lemma_mode_is_kept(inv: InvocationView, events: Seq<EventView>)
    ensures
        state_after(inv, events).mode == inv.mode,
    decreases events.len(),
{
    if events.len() > 0 {
        lemma_mode_is_kept(inv, events.drop_last());
    }
}

/// A synchronous run is never found in `Running`.
pub proof fn lemma_run_is_never_running(inv: InvocationView, events: Seq<EventView>)
    requires
        inv.mode == Mode::Run,
        inv.stage is Created,
    ensures
        !(state_after(inv, events).stage is Running),
    decreases events.len(),
{
    if events.len() > 0 {
        lemma_mode_is_kept(inv, events.drop_last());
        lemma_run_is_never_running(inv, events.drop_last());
    }
}

/// A detached invocation never comes to wait for its process: it is never found in
/// `Launched` or `Completed`, and none of its answers asks the host to wait.
pub proof fn lemma_spawn_never_waits(inv: InvocationView, events: Seq<EventView>)
    requires
        inv.mode == Mode::Spawn,
        inv.stage is Created,
    ensures
        !(state_after(inv, events).stage is Launched),
        !(state_after(inv, events).stage is Completed),
        events.len() > 0 ==> !(last_answer(inv, events) is WaitForExit),
    decreases events.len(),
{
    if events.len() > 0 {
        lemma_mode_is_kept(inv, events.drop_last());
        lemma_spawn_never_waits(inv, events.drop_last());
    }
}

/// Every file that the host created for an invocation is, at every moment, either the
/// staged file that the invocation still answers for or a file that it has handed out
/// for removal. The one exception is the file of a detached process, which stays with
/// the caller.
pub proof fn lemma_files_are_accounted_for(inv: InvocationView, events: Seq<EventView>)
    requires
        inv.stage is Created,
    ensures
        !(state_after(inv, events).stage is Running) ==> files_created(inv, events)
            == files_released(inv, events) + file_list(
            state_after(inv, events).stage.staged_file(),
        ),
        state_after(inv, events).stage is Running ==> files_created(inv, events).len()
            == files_released(inv, events).len() + 1,
    decreases events.len(),
{
    if events.len() > 0 {
        let before = events.drop_last();
        lemma_files_are_accounted_for(inv, before);
        let state = state_after(inv, before);
        let held = file_list(state.stage.staged_file());
        let created = file_list(file_created(state, events.last()));
        let released = file_list(file_released(last_answer(inv, events)));
        let kept = file_list(state_after(inv, events).stage.staged_file());
        if !(state.stage is Running) {
            if !(state_after(inv, events).stage is Running) {
                assert(held + created =~= released + kept);
                assert(files_created(inv, before) + created =~= files_released(inv, before) + (held
                    + created));
                assert(files_released(inv, before) + (released + kept) =~= files_released(
                    inv,
                    before,
                ) + released + kept);
            } else {
                assert(created.len() == 0);
                assert(released.len() == 0);
                assert(held.len() == 1);
            }
        }
    } else {
        assert(files_created(inv, events) =~= files_released(inv, events) + file_list(
            state_after(inv, events).stage.staged_file(),
        ));
    }
}

/// When a synchronous run is over, no file of its is left: whatever the host reported
/// along the way, and however the run ended, every file that was created for it has
/// been handed out for removal.
pub proof fn lemma_finished_run_leaves_no_file(inv: InvocationView, events: Seq<EventView>)
    requires
        inv.mode == Mode::Run,
        inv.stage is Created,
        state_after(inv, events).stage.is_terminal(),
    ensures
        files_released(inv, events) == files_created(inv, events),
{
    lemma_run_is_never_running(inv, events);
    lemma_files_are_accounted_for(inv, events);
    assert(file_list(state_after(inv, events).stage.staged_file()) =~= Seq::<Seq<char>>::empty());
    assert(files_released(inv, events) + Seq::<Seq<char>>::empty() =~= files_released(
        inv,
        events,
    ));
}

/// The caller gets exactly one outcome: as long as the invocation goes on, none of
/// the answers has ended it, and once it is over, exactly one has, however many
/// events follow.
pub proof fn lemma_one_outcome(inv: InvocationView, events: Seq<EventView>)
    requires
        inv.stage is Created,
    ensures
        final_answers(inv, events) == if state_after(inv, events).stage.is_terminal() {
            1nat
        } else {
            0nat
        },
    decreases events.len(),
{
    if events.len() > 0 {
        lemma_one_outcome(inv, events.drop_last());
    }
}

} // verus!
