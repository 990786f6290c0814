//! What becomes of the sessions of the daemon in the course of its requests.

use vstd::prelude::*;

use crate::delete::{after_delete, Verdict};
use crate::protocal::{RequestView, Response};

verus! {

/// A request that has changed the sessions, or left them alone at its end.
pub ghost enum Change<S> {
    /// A session was started under the name.
    Started(Seq<char>, S),
    /// The start of a session failed.
    StartFailed,
    /// A deletion under the name came to this verdict.
    Deleted(Seq<char>, Verdict),
}

/// The sessions after a change, as `handle_run` and `finish_delete` leave them.
pub open spec fn changed<S>(sessions: Map<Seq<char>, S>, change: Change<S>) -> Map<Seq<char>, S> {
    match change {
        Change::Started(name, session) => sessions.insert(name, session),
        Change::StartFailed => sessions,
        Change::Deleted(name, verdict) => after_delete(sessions, name, verdict),
    }
}

/// The sessions of a daemon that began without any, after a series of changes.
pub open spec fn sessions_after<S>(series: Seq<Change<S>>) -> Map<Seq<char>, S>
    decreases series.len(),
{
    if series.len() == 0 {
        Map::empty()
    } else {
        changed(sessions_after(series.drop_last()), series.last())
    }
}

/// Whether a change gives the name to a session or takes it from one.
pub open spec fn concerns<S>(change: Change<S>, name: Seq<char>) -> bool {
    match change {
        Change::Started(other, _) => other == name,
        Change::StartFailed => false,
        Change::Deleted(other, verdict) => other == name && !(verdict is NotExited),
    }
}

/// The last change that concerns a name decides whether the daemon has a session of that name and
/// which: a session that was started is there, and the same, until it is deleted or another one
/// takes its place; one that was deleted is gone until one is started again.
pub proof fn the_last_change_of_a_name_decides<S>(series: Seq<Change<S>>, at: int, name: Seq<char>)
    requires
        0 <= at < series.len(),
        concerns(series[at], name),
        forall|i: int| at < i < series.len() ==> !concerns(#[trigger] series[i], name),
    ensures
        match series[at] {
            Change::Started(_, session) => sessions_after(series).contains_key(name)
                && sessions_after(series)[name] == session,
            _ => !sessions_after(series).contains_key(name),
        },
    decreases series.len(),
{
    if at < series.len() - 1 {
        assert(!concerns(series[series.len() - 1], name));
        assert forall|i: int| at < i < series.drop_last().len() implies !concerns(
            #[trigger] series.drop_last()[i],
            name,
        ) by {
            assert(!concerns(series[i], name));
        }
        the_last_change_of_a_name_decides(series.drop_last(), at, name);
    }
}

/// A name under which no session was ever started is free.
pub proof fn a_name_never_used_is_free<S>(series: Seq<Change<S>>, name: Seq<char>)
    requires
        forall|i: int|
            0 <= i < series.len() ==> !(#[trigger] series[i] matches Change::Started(other, _)
                && other == name),
    ensures
        !sessions_after(series).contains_key(name),
    decreases series.len(),
{
    if series.len() > 0 {
        assert forall|i: int| 0 <= i < series.drop_last().len() implies !(
        #[trigger] series.drop_last()[i] matches Change::Started(other, _) && other == name) by {
            assert(series.drop_last()[i] == series[i]);
        }
        a_name_never_used_is_free(series.drop_last(), name);
        assert(series[series.len() - 1] == series.last());
    }
}

/// What there is to do for a request, given the sessions.
pub ghost enum Asked<S> {
    /// Answer that there is no such session.
    Missing,
    /// Answer with these names.
    List(Set<Seq<char>>),
    /// Answer that the name is taken by this session.
    Occupied(S),
    /// Start this command under this name.
    Launch { name: Seq<char>, command: Seq<Seq<char>> },
    /// Attach the client to this session.
    Attach(S),
    /// Delete this session.
    Delete { session: S, name: Seq<char>, force: bool },
    /// Answer something else.
    Other(Response),
}

/// What there is to do for a request: what it says, with the session of the name that it gives.
pub open spec fn asked<S>(sessions: Map<Seq<char>, S>, request: RequestView) -> Asked<S> {
    match request {
        RequestView::Run { name, command } => if sessions.contains_key(name) {
            Asked::Occupied(sessions[name])
        } else {
            Asked::Launch { name, command }
        },
        RequestView::Attach { name } => if sessions.contains_key(name) {
            Asked::Attach(sessions[name])
        } else {
            Asked::Missing
        },
        RequestView::List => Asked::List(sessions.dom()),
        RequestView::Delete { name, force } => if sessions.contains_key(name) {
            Asked::Delete { session: sessions[name], name, force }
        } else {
            Asked::Missing
        },
    }
}

/// A session that was started is the one that is found under its name, whatever other sessions there
/// are: clients attach to it, it is listed, it holds its name against a second one, and it can be
/// deleted, by force exactly where that is asked for.
pub proof fn a_started_session_is_found<S>(
    sessions: Map<Seq<char>, S>,
    name: Seq<char>,
    session: S,
    command: Seq<Seq<char>>,
    force: bool,
)
    ensures
        ({
            let after = changed(sessions, Change::Started(name, session));
            &&& asked(after, RequestView::Attach { name }) == Asked::Attach(session)
            &&& asked(after, RequestView::Run { name, command }) == Asked::Occupied(session)
            &&& asked(after, RequestView::Delete { name, force }) == (Asked::Delete {
                session,
                name,
                force,
            })
            &&& asked(after, RequestView::List) == Asked::<S>::List(sessions.dom().insert(name))
        }),
{
    assert(changed(sessions, Change::Started(name, session)).dom() =~= sessions.dom().insert(name));
}

/// A session whose deletion came to an end is not found any more, and its name is free: the command
/// of whoever asks for it is started as it was given. One that was left alone, or whose start
/// failed, changes nothing for anyone.
pub proof fn a_deleted_session_is_gone<S>(
    sessions: Map<Seq<char>, S>,
    name: Seq<char>,
    verdict: Verdict,
    command: Seq<Seq<char>>,
    force: bool,
)
    ensures
        ({
            let after = changed(sessions, Change::Deleted(name, verdict));
            &&& !(verdict is NotExited) ==> {
                &&& asked(after, RequestView::Attach { name }) is Missing
                &&& asked(after, RequestView::Delete { name, force }) is Missing
                &&& asked(after, RequestView::Run { name, command }) == (Asked::<S>::Launch {
                    name,
                    command,
                })
                &&& asked(after, RequestView::List) == Asked::<S>::List(sessions.dom().remove(name))
            }
            &&& verdict is NotExited ==> after == sessions
            &&& changed(sessions, Change::StartFailed) == sessions
        }),
{
    assert(sessions.remove(name).dom() =~= sessions.dom().remove(name));
}

/// What is done under one name is nothing to those who ask for another.
pub proof fn other_names_are_not_concerned<S>(
    sessions: Map<Seq<char>, S>,
    change: Change<S>,
    name: Seq<char>,
    command: Seq<Seq<char>>,
    force: bool,
)
    requires
        change matches Change::Started(other, _) ==> other != name,
        change matches Change::Deleted(other, _) ==> other != name,
    ensures
        ({
            let after = changed(sessions, change);
            &&& asked(after, RequestView::Attach { name }) == asked(
                sessions,
                RequestView::Attach { name },
            )
            &&& asked(after, RequestView::Run { name, command }) == asked(
                sessions,
                RequestView::Run { name, command },
            )
            &&& asked(after, RequestView::Delete { name, force }) == asked(
                sessions,
                RequestView::Delete { name, force },
            )
        }),
{
}

} // verus!
