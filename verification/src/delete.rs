//! How a session is deleted.

use vstd::prelude::*;

use crate::daemon::POLL_MILLIS;
use crate::lifecycle::{changed, Change};
use crate::protocal::{answers, RequestView, Response};
use crate::sessions::SessionTable;

verus! {

/// How often the daemon looks whether a killed process has exited, before it drops the session.
pub const KILL_POLLS: u32 = 50;

/// How a deletion ends.
#[derive(Debug, Clone, Copy, PartialEq, Eq, Structural)]
pub enum Verdict {
    /// The process had exited.
    Safe,
    /// The process is running, and was left alone.
    NotExited,
    /// The process was killed.
    Forced,
    /// The process could not be killed, or was not seen to exit.
    Dropped,
}

/// The next piece of work in the deletion of a session that the table has.
#[derive(Debug, Clone, Copy, PartialEq, Eq, Structural)]
pub enum DeleteStep {
    /// See whether the process of the session has exited.
    Inspect,
    /// Kill the process.
    Kill,
    /// Wait for a moment, then see whether the process has exited; so many looks are left.
    Poll { left: u32 },
    /// Bring the deletion to its end with `finish_delete`.
    Finish(Verdict),
}

/// What a piece of that work came to.
#[derive(Debug, Clone, Copy, PartialEq, Eq, Structural)]
pub enum DeleteAnswer {
    Exited(bool),
    KillStarted(bool),
}

/// What comes after `step` once it came to `answer`. An answer to something else changes nothing.
pub open spec fn delete_next(step: DeleteStep, force: bool, answer: DeleteAnswer) -> DeleteStep {
    match (step, answer) {
        (DeleteStep::Inspect, DeleteAnswer::Exited(exited)) => if exited {
            DeleteStep::Finish(Verdict::Safe)
        } else if force {
            DeleteStep::Kill
        } else {
            DeleteStep::Finish(Verdict::NotExited)
        },
        (DeleteStep::Kill, DeleteAnswer::KillStarted(started)) => if started {
            DeleteStep::Poll { left: KILL_POLLS }
        } else {
            DeleteStep::Finish(Verdict::Dropped)
        },
        (DeleteStep::Poll { left }, DeleteAnswer::Exited(exited)) => if exited {
            DeleteStep::Finish(Verdict::Forced)
        } else if left > 1 {
            DeleteStep::Poll { left: (left - 1) as u32 }
        } else {
            DeleteStep::Finish(Verdict::Dropped)
        },
        _ => step,
    }
}

/// The first step of a deletion.
pub fn begin_delete() -> (res: DeleteStep)
    ensures
        res == DeleteStep::Inspect,
{
    DeleteStep::Inspect
}

/// Decides how a deletion goes on: what to do next after `step` came to `answer`. The first step
/// is that of `begin_delete`.
pub fn handle_delete(step: DeleteStep, force: bool, answer: DeleteAnswer) -> (res: DeleteStep)
    ensures
        res == delete_next(step, force, answer),
{
    match (step, answer) {
        (DeleteStep::Inspect, DeleteAnswer::Exited(exited)) => if exited {
            DeleteStep::Finish(Verdict::Safe)
        } else if force {
            DeleteStep::Kill
        } else {
            DeleteStep::Finish(Verdict::NotExited)
        },
        (DeleteStep::Kill, DeleteAnswer::KillStarted(started)) => if started {
            DeleteStep::Poll { left: KILL_POLLS }
        } else {
            DeleteStep::Finish(Verdict::Dropped)
        },
        (DeleteStep::Poll { left }, DeleteAnswer::Exited(exited)) => if exited {
            DeleteStep::Finish(Verdict::Forced)
        } else if left > 1 {
            DeleteStep::Poll { left: left - 1 }
        } else {
            DeleteStep::Finish(Verdict::Dropped)
        },
        _ => step,
    }
}

/// The response that tells how a deletion ended.
pub open spec fn verdict_response(verdict: Verdict) -> Response {
    match verdict {
        Verdict::Safe => Response::SessionDeletedSafely,
        Verdict::NotExited => Response::SessionProcessNotExited,
        Verdict::Forced => Response::SessionDeletedForcely,
        Verdict::Dropped => Response::SessionDropped,
    }
}

/// The sessions after a deletion under a name ended: only one that was left alone is still there.
pub open spec fn after_delete<S>(
    sessions: Map<Seq<char>, S>,
    name: Seq<char>,
    verdict: Verdict,
) -> Map<Seq<char>, S> {
    if verdict is NotExited {
        sessions
    } else {
        sessions.remove(name)
    }
}

/// Brings a deletion to its end: takes the name out of the table, unless the session was left
/// alone, and gives the response.
pub fn finish_delete<S>(
    sessions: &mut SessionTable<S>,
    name: &String,
    verdict: Verdict,
) -> (response: Response)
    ensures
        final(sessions)@ == after_delete(old(sessions)@, name@, verdict),
        final(sessions)@ == changed(old(sessions)@, Change::Deleted(name@, verdict)),
        response == verdict_response(verdict),
        verdict is NotExited ==> final(sessions)@ == old(sessions)@,
        !(verdict is NotExited) ==> final(sessions)@ == old(sessions)@.remove(name@),
        response is SessionDeletedSafely <==> verdict is Safe,
        response is SessionProcessNotExited <==> verdict is NotExited,
        response is SessionDeletedForcely <==> verdict is Forced,
        response is SessionDropped <==> verdict is Dropped,
        forall|force: bool| #[trigger]
            answers(RequestView::Delete { name: name@, force }, response),
{
    match verdict {
        Verdict::Safe => {
            sessions.remove(name);
            Response::SessionDeletedSafely
        },
        Verdict::NotExited => Response::SessionProcessNotExited,
        Verdict::Forced => {
            sessions.remove(name);
            Response::SessionDeletedForcely
        },
        Verdict::Dropped => {
            sessions.remove(name);
            Response::SessionDropped
        },
    }
}

/// Where a deletion stands after a series of answers.
pub open spec fn delete_run(force: bool, series: Seq<DeleteAnswer>) -> DeleteStep
    decreases series.len(),
{
    if series.len() == 0 {
        DeleteStep::Inspect
    } else {
        delete_next(delete_run(force, series.drop_last()), force, series.last())
    }
}

/// A deletion that has come to its end stays there.
pub proof fn a_verdict_is_final(force: bool, series: Seq<DeleteAnswer>, later: Seq<DeleteAnswer>)
    requires
        delete_run(force, series) is Finish,
    ensures
        delete_run(force, series + later) == delete_run(force, series),
    decreases later.len(),
{
    if later.len() == 0 {
        assert(series + later =~= series);
    } else {
        a_verdict_is_final(force, series, later.drop_last());
        assert((series + later).drop_last() =~= series + later.drop_last());
    }
}

/// Without force no process is killed and no session is taken from a process that runs: the only
/// verdicts are that it had exited, and that it was left alone.
pub proof fn without_force_nothing_is_killed(series: Seq<DeleteAnswer>)
    ensures
        ({
            let step = delete_run(false, series);
            ||| step is Inspect
            ||| step == DeleteStep::Finish(Verdict::Safe)
            ||| step == DeleteStep::Finish(Verdict::NotExited)
        }),
    decreases series.len(),
{
    if series.len() > 0 {
        without_force_nothing_is_killed(series.drop_last());
    }
}

/// With or without force, a session whose process had exited is deleted safely.
pub proof fn an_exited_session_is_deleted_safely(force: bool, later: Seq<DeleteAnswer>)
    ensures
        delete_run(force, seq![DeleteAnswer::Exited(true)] + later) == DeleteStep::Finish(
            Verdict::Safe,
        ),
{
    let series = seq![DeleteAnswer::Exited(true)];
    reveal_with_fuel(delete_run, 2);
    assert(series.drop_last() =~= seq![]);
    a_verdict_is_final(force, series, later);
}

/// Without force a session whose process runs is left alone.
pub proof fn a_running_session_is_left_alone(later: Seq<DeleteAnswer>)
    ensures
        delete_run(false, seq![DeleteAnswer::Exited(false)] + later) == DeleteStep::Finish(
            Verdict::NotExited,
        ),
{
    let series = seq![DeleteAnswer::Exited(false)];
    reveal_with_fuel(delete_run, 2);
    assert(series.drop_last() =~= seq![]);
    a_verdict_is_final(false, series, later);
}

/// Where the kill of a running process cannot be started, the session is dropped at once.
pub proof fn a_failed_kill_drops_the_session(later: Seq<DeleteAnswer>)
    ensures
        delete_run(
            true,
            seq![DeleteAnswer::Exited(false), DeleteAnswer::KillStarted(false)] + later,
        ) == DeleteStep::Finish(Verdict::Dropped),
{
    let series = seq![DeleteAnswer::Exited(false), DeleteAnswer::KillStarted(false)];
    reveal_with_fuel(delete_run, 3);
    assert(series.drop_last().drop_last() =~= seq![]);
    a_verdict_is_final(true, series, later);
}

/// The answers of a forced deletion in which the kill could be started and `looks` looks have
/// shown the process running.
pub open spec fn killed_and_waited(looks: nat) -> Seq<DeleteAnswer> {
    seq![DeleteAnswer::Exited(false), DeleteAnswer::KillStarted(true)] + Seq::new(
        looks,
        |i: int| DeleteAnswer::Exited(false),
    )
}

/// After a kill the daemon looks for the exit of the process as often as `KILL_POLLS` says and no
/// more, then drops the session.
pub proof fn a_killed_process_is_given_time(looks: nat)
    requires
        looks <= KILL_POLLS,
    ensures
        delete_run(true, killed_and_waited(looks)) == (if looks < KILL_POLLS {
            DeleteStep::Poll { left: (KILL_POLLS - looks) as u32 }
        } else {
            DeleteStep::Finish(Verdict::Dropped)
        }),
    decreases looks,
{
    let series = killed_and_waited(looks);
    if looks == 0 {
        reveal_with_fuel(delete_run, 3);
        assert(series =~= seq![DeleteAnswer::Exited(false), DeleteAnswer::KillStarted(true)]);
        assert(series.drop_last().drop_last() =~= seq![]);
    } else {
        a_killed_process_is_given_time((looks - 1) as nat);
        assert(series.drop_last() =~= killed_and_waited((looks - 1) as nat));
        assert(series.last() == DeleteAnswer::Exited(false));
    }
}

/// A killed process that is seen to exit in that time was deleted by force.
pub proof fn a_killed_process_is_deleted_by_force(looks: nat, later: Seq<DeleteAnswer>)
    requires
        looks < KILL_POLLS,
    ensures
        delete_run(true, killed_and_waited(looks).push(DeleteAnswer::Exited(true)) + later)
            == DeleteStep::Finish(Verdict::Forced),
{
    a_killed_process_is_given_time(looks);
    let series = killed_and_waited(looks).push(DeleteAnswer::Exited(true));
    assert(series.drop_last() =~= killed_and_waited(looks));
    a_verdict_is_final(true, series, later);
}

/// A deletion touches no other session, and leaves its own name free unless the session was left
/// alone.
pub proof fn a_deletion_touches_one_name<S>(
    sessions: Map<Seq<char>, S>,
    name: Seq<char>,
    verdict: Verdict,
    other: Seq<char>,
)
    requires
        other != name,
    ensures
        after_delete(sessions, name, verdict).contains_key(other) == sessions.contains_key(other),
        sessions.contains_key(other) ==> after_delete(sessions, name, verdict)[other]
            == sessions[other],
        !(verdict is NotExited) ==> !after_delete(sessions, name, verdict).contains_key(name),
        verdict is NotExited ==> after_delete(sessions, name, verdict) == sessions,
{
}

/// What is seen of the process, and the force that was asked for, decide the deletion: a process
/// that has exited makes it safe, with or without force; one that runs is killed exactly where force
/// was asked for, and left alone otherwise.
pub proof fn only_force_kills(force: bool)
    ensures
        delete_next(DeleteStep::Inspect, force, DeleteAnswer::Exited(true)) == DeleteStep::Finish(
            Verdict::Safe,
        ),
        delete_next(DeleteStep::Inspect, force, DeleteAnswer::Exited(false)) is Kill <==> force,
        !force ==> delete_next(DeleteStep::Inspect, force, DeleteAnswer::Exited(false))
            == DeleteStep::Finish(Verdict::NotExited),
{
}

/// After a kill that could be started the process is looked at up to fifty times, and no look more:
/// the first that sees it gone, whichever it is, ends the deletion as forced; each other costs a
/// look, and the last drops the session, as does a kill that could not be started.
pub proof fn each_look_at_a_killed_process_counts(force: bool, left: u32)
    ensures
        delete_next(DeleteStep::Kill, force, DeleteAnswer::KillStarted(true)) == (
        DeleteStep::Poll { left: 50 }),
        delete_next(DeleteStep::Kill, force, DeleteAnswer::KillStarted(false))
            == DeleteStep::Finish(Verdict::Dropped),
        delete_next(DeleteStep::Poll { left }, force, DeleteAnswer::Exited(true))
            == DeleteStep::Finish(Verdict::Forced),
        left > 1 ==> delete_next(DeleteStep::Poll { left }, force, DeleteAnswer::Exited(false)) == (
        DeleteStep::Poll { left: (left - 1) as u32 }),
        left <= 1 ==> delete_next(DeleteStep::Poll { left }, force, DeleteAnswer::Exited(false))
            == DeleteStep::Finish(Verdict::Dropped),
{
}

/// An answer to something else changes nothing, and nothing changes a verdict.
pub proof fn a_deletion_heeds_its_own_answers_only(
    step: DeleteStep,
    force: bool,
    answer: DeleteAnswer,
)
    requires
        step is Inspect || step is Poll ==> answer is KillStarted,
        step is Kill ==> answer is Exited,
    ensures
        delete_next(step, force, answer) == step,
{
}

/// The user is told of a deletion what it came to: each verdict has a response of its own.
pub proof fn each_verdict_has_its_response(verdict: Verdict)
    ensures
        verdict_response(verdict) is SessionDeletedSafely <==> verdict is Safe,
        verdict_response(verdict) is SessionProcessNotExited <==> verdict is NotExited,
        verdict_response(verdict) is SessionDeletedForcely <==> verdict is Forced,
        verdict_response(verdict) is SessionDropped <==> verdict is Dropped,
{
}

/// A process that was killed has five seconds to exit before its session is dropped.
pub proof fn a_killed_process_has_five_seconds()
    ensures
        KILL_POLLS * POLL_MILLIS == 5000,
{
}

} // verus!
