//! The daemon: how it starts, and what it does with a request.

use vstd::prelude::*;
use vstd::utf8::{decode_utf8, valid_utf8};

use crate::history::History;
use crate::lifecycle::{asked, changed, Asked, Change};
use crate::protocal::{answers, Request, RequestView, Response};
use crate::sessions::SessionTable;
use crate::text::{
    a_text_is_found_where_it_stands, a_text_that_is_found_stands_there, contains_text, decimal,
    decimal_text, occurs_in, texts,
};

verus! {

/// Where the daemon listens: on a port of the machine itself that the system picks.
pub const LISTEN_ADDRESS: &'static str = "127.0.0.1:0";

/// How many milliseconds pass between one look at something that is waited for and the next.
pub const POLL_MILLIS: u64 = 100;

/// How a client finds the daemon.
#[derive(Debug, Clone, Copy, PartialEq, Eq, Structural)]
pub struct DeamonInfo {
    pub port: u16,
    pub pid: u32,
}

/// Whether the process of a session still runs, and if not, how it ended.
#[derive(Debug, PartialEq, Eq)]
pub enum SessionState {
    Running,
    Exited(String),
}

/// What a session begins with: its process runs, and nothing has gone through it.
pub fn begin_session() -> (res: (SessionState, History))
    ensures
        res.0 == SessionState::Running,
        res.1@ == Seq::<Seq<u8>>::empty(),
{
    (SessionState::Running, History::new())
}

/// What a look at the process of a session shows.
pub enum Polled {
    Exited(String),
    StillRunning,
    Failed(String),
}

impl SessionState {
    /// Whether the process has exited.
    pub fn is_exited(&self) -> (res: bool)
        ensures
            res == (*self is Exited),
    {
        match self {
            SessionState::Exited(_) => true,
            SessionState::Running => false,
        }
    }

    /// Takes note of a look at the process. The result says whether the session has come to its
    /// end, so that no further look is needed.
    pub fn observe(&mut self, polled: Polled) -> (done: bool)
        ensures
            *final(self) == observed(*old(self), polled),
            done == !(polled is StillRunning),
            polled matches Polled::Exited(status) ==> *final(self) == SessionState::Exited(status),
            polled matches Polled::Failed(error) ==> *final(self) == SessionState::Exited(error),
            polled is StillRunning ==> *final(self) == *old(self),
    {
        match polled {
            Polled::Exited(status) => {
                *self = SessionState::Exited(status);
                true
            },
            Polled::StillRunning => false,
            Polled::Failed(error) => {
                *self = SessionState::Exited(error);
                true
            },
        }
    }
}

/// The state of a session after a look at its process.
pub open spec fn observed(state: SessionState, polled: Polled) -> SessionState {
    match polled {
        Polled::Exited(status) => SessionState::Exited(status),
        Polled::StillRunning => state,
        Polled::Failed(error) => SessionState::Exited(error),
    }
}

/// The state of a session after looks at its process until one ends them.
pub open spec fn watched(state: SessionState, looks: Seq<Polled>) -> SessionState
    decreases looks.len(),
{
    if looks.len() == 0 {
        state
    } else if looks[0] is StillRunning {
        watched(state, looks.drop_first())
    } else {
        observed(state, looks[0])
    }
}

/// A session is running as long as each look shows its process running; the first look that shows
/// something else ends it, with what that look showed, whatever would come later.
pub proof fn a_session_ends_once(quiet: Seq<Polled>, last: Polled, later: Seq<Polled>)
    requires
        forall|i: int| 0 <= i < quiet.len() ==> #[trigger] quiet[i] is StillRunning,
        !(last is StillRunning),
    ensures
        watched(SessionState::Running, quiet) == SessionState::Running,
        watched(SessionState::Running, quiet.push(last) + later) == observed(
            SessionState::Running,
            last,
        ),
        watched(SessionState::Running, quiet.push(last) + later) is Exited,
    decreases quiet.len(),
{
    let looks = quiet.push(last) + later;
    if quiet.len() > 0 {
        let tail = quiet.drop_first();
        assert forall|i: int| 0 <= i < tail.len() implies #[trigger] tail[i] is StillRunning by {
            assert(quiet[i + 1] is StillRunning);
        }
        a_session_ends_once(tail, last, later);
        assert(quiet[0] is StillRunning);
        assert(looks[0] == quiet[0]);
        assert(looks.drop_first() =~= tail.push(last) + later);
    } else {
        assert(looks[0] == last);
    }
}

/// The next piece of work on the way to a daemon that serves.
#[derive(Debug, PartialEq, Eq)]
pub enum StartStep {
    /// See whether a daemon has left word of itself.
    CheckInfo,
    /// Read what it left.
    ReadInfo,
    /// See whether the process of this number is there.
    CheckPid(u32),
    /// Listen at `LISTEN_ADDRESS`.
    Bind,
    /// Leave word of this daemon, and create the directory for it first.
    Announce(DeamonInfo),
    /// Take connections.
    Serve,
    /// Give up with the text of `already_running`.
    Refuse,
    /// Give up with this error.
    Fail(String),
}

/// What a piece of that work came to. To read what a daemon left, to listen and to leave word can
/// fail, each with an error.
#[derive(Debug, PartialEq, Eq)]
pub enum StartAnswer {
    Exists(bool),
    Info(DeamonInfo),
    Running(bool),
    Bound { port: u16, pid: u32 },
    Announced,
    Failed(String),
}

/// What comes after `step` once it came to `answer`. An answer to something else changes nothing.
pub open spec fn start_next(step: StartStep, answer: StartAnswer) -> StartStep {
    match (step, answer) {
        (StartStep::CheckInfo, StartAnswer::Exists(there)) => if there {
            StartStep::ReadInfo
        } else {
            StartStep::Bind
        },
        (StartStep::ReadInfo, StartAnswer::Info(info)) => StartStep::CheckPid(info.pid),
        (StartStep::CheckPid(_), StartAnswer::Running(running)) => if running {
            StartStep::Refuse
        } else {
            StartStep::Bind
        },
        (StartStep::Bind, StartAnswer::Bound { port, pid }) => StartStep::Announce(
            DeamonInfo { port, pid },
        ),
        (StartStep::Announce(_), StartAnswer::Announced) => StartStep::Serve,
        (StartStep::ReadInfo, StartAnswer::Failed(error)) => StartStep::Fail(error),
        (StartStep::Bind, StartAnswer::Failed(error)) => StartStep::Fail(error),
        (StartStep::Announce(_), StartAnswer::Failed(error)) => StartStep::Fail(error),
        _ => step,
    }
}

/// The first step on the way to a daemon that serves.
pub fn begin_start() -> (res: StartStep)
    ensures
        res == StartStep::CheckInfo,
{
    StartStep::CheckInfo
}

/// Why a daemon does not start beside another one.
pub fn already_running() -> (res: String)
    ensures
        res@ == "Daemon is running already"@,
{
    "Daemon is running already".to_owned()
}

/// What the daemon tells of a request that could not be read.
pub fn request_failure(error: &str) -> (res: String)
    ensures
        res@ == "error in handling request: "@ + error@,
{
    "error in handling request: ".to_owned().concat(error)
}

/// Decides how the daemon starts: what to do next after `step` came to `answer`. The first step is
/// that of `begin_start`.
pub fn run_daemon(step: StartStep, answer: StartAnswer) -> (res: StartStep)
    ensures
        res == start_next(step, answer),
{
    match (step, answer) {
        (StartStep::CheckInfo, StartAnswer::Exists(there)) => if there {
            StartStep::ReadInfo
        } else {
            StartStep::Bind
        },
        (StartStep::ReadInfo, StartAnswer::Info(info)) => StartStep::CheckPid(info.pid),
        (StartStep::CheckPid(_), StartAnswer::Running(running)) => if running {
            StartStep::Refuse
        } else {
            StartStep::Bind
        },
        (StartStep::Bind, StartAnswer::Bound { port, pid }) => StartStep::Announce(
            DeamonInfo { port, pid },
        ),
        (StartStep::Announce(_), StartAnswer::Announced) => StartStep::Serve,
        (StartStep::ReadInfo, StartAnswer::Failed(error)) => StartStep::Fail(error),
        (StartStep::Bind, StartAnswer::Failed(error)) => StartStep::Fail(error),
        (StartStep::Announce(_), StartAnswer::Failed(error)) => StartStep::Fail(error),
        (step, _) => step,
    }
}

/// Where a start stands after a series of answers.
pub open spec fn start_run(series: Seq<StartAnswer>) -> StartStep
    decreases series.len(),
{
    if series.len() == 0 {
        StartStep::CheckInfo
    } else {
        start_next(start_run(series.drop_last()), series.last())
    }
}

/// Whether the answer at `i` showed that no other daemon is running: there was no word of one, or
/// the process that left the word was gone.
pub open spec fn shows_free_place(series: Seq<StartAnswer>, i: int) -> bool {
    let step = start_run(series.take(i));
    &&& 0 <= i < series.len()
    &&& (step is CheckInfo && series[i] == StartAnswer::Exists(false)) || (step is CheckPid
        && series[i] == StartAnswer::Running(false))
}

/// A daemon that comes to listen, to announce itself or to serve has found that no other daemon is
/// running.
pub proof fn a_daemon_starts_in_a_free_place(series: Seq<StartAnswer>)
    requires
        start_run(series) is Bind || start_run(series) is Announce || start_run(series) is Serve,
    ensures
        exists|i: int| shows_free_place(series, i),
    decreases series.len(),
{
    let before = start_run(series.drop_last());
    if before is CheckInfo || before is CheckPid {
        assert(series.take(series.len() - 1) =~= series.drop_last());
        assert(shows_free_place(series, series.len() - 1));
    } else {
        a_daemon_starts_in_a_free_place(series.drop_last());
        let i = choose|i: int| shows_free_place(series.drop_last(), i);
        assert(series.drop_last().take(i) =~= series.take(i));
        assert(shows_free_place(series, i));
    }
}

/// Beside a daemon that left word of itself and still runs, no second one starts, whatever comes
/// after.
pub proof fn a_running_daemon_stays_alone(info: DeamonInfo, later: Seq<StartAnswer>)
    ensures
        start_run(
            seq![StartAnswer::Exists(true), StartAnswer::Info(info), StartAnswer::Running(true)]
                + later,
        ) == StartStep::Refuse,
    decreases later.len(),
{
    let found = seq![
        StartAnswer::Exists(true),
        StartAnswer::Info(info),
        StartAnswer::Running(true),
    ];
    if later.len() == 0 {
        reveal_with_fuel(start_run, 4);
        assert(found + later =~= found);
        assert(found.drop_last().drop_last().drop_last() =~= seq![]);
    } else {
        a_running_daemon_stays_alone(info, later.drop_last());
        assert((found + later).drop_last() =~= found + later.drop_last());
    }
}

/// Where no daemon has left word of itself, or one that is gone, a daemon serves once it listens,
/// and the word it leaves is its own port and process.
pub proof fn a_daemon_announces_itself(stale: Option<DeamonInfo>, port: u16, pid: u32)
    ensures
        ({
            let look = match stale {
                None => seq![StartAnswer::Exists(false)],
                Some(info) => seq![
                    StartAnswer::Exists(true),
                    StartAnswer::Info(info),
                    StartAnswer::Running(false),
                ],
            };
            let bound = look.push(StartAnswer::Bound { port, pid });
            &&& start_run(bound) == StartStep::Announce(DeamonInfo { port, pid })
            &&& start_run(bound.push(StartAnswer::Announced)) == StartStep::Serve
        }),
{
    let look = match stale {
        None => seq![StartAnswer::Exists(false)],
        Some(info) => seq![
            StartAnswer::Exists(true),
            StartAnswer::Info(info),
            StartAnswer::Running(false),
        ],
    };
    let bound = look.push(StartAnswer::Bound { port, pid });
    reveal_with_fuel(start_run, 4);
    assert(start_run(look) == StartStep::Bind) by {
        match stale {
            None => {
                assert(look.drop_last() =~= seq![]);
            },
            Some(_) => {
                assert(look.drop_last().drop_last().drop_last() =~= seq![]);
            },
        }
    }
    assert(bound.drop_last() =~= look);
    assert(bound.push(StartAnswer::Announced).drop_last() =~= bound);
}

/// Whether a start has come to its end at a step.
pub open spec fn start_ended(step: StartStep) -> bool {
    step is Serve || step is Refuse || step is Fail
}

/// Once a start has come to its end nothing more is done, whatever comes after.
pub proof fn an_ended_start_stays_ended(series: Seq<StartAnswer>, later: Seq<StartAnswer>)
    requires
        start_ended(start_run(series)),
    ensures
        start_run(series + later) == start_run(series),
    decreases later.len(),
{
    if later.len() == 0 {
        assert(series + later =~= series);
    } else {
        an_ended_start_stays_ended(series, later.drop_last());
        assert((series + later).drop_last() =~= series + later.drop_last());
    }
}

/// Where what a daemon left cannot be read, or the daemon cannot listen or leave word of itself, it
/// does not start, whatever comes after: it gives up with that error.
pub proof fn a_failure_ends_the_start(
    series: Seq<StartAnswer>,
    error: String,
    later: Seq<StartAnswer>,
)
    requires
        start_run(series) is ReadInfo || start_run(series) is Bind || start_run(series) is Announce,
    ensures
        start_run(series.push(StartAnswer::Failed(error)) + later) == StartStep::Fail(error),
{
    assert(series.push(StartAnswer::Failed(error)).drop_last() =~= series);
    an_ended_start_stays_ended(series.push(StartAnswer::Failed(error)), later);
}

/// Whether a start has come past listening in the course of a series of answers.
pub open spec fn has_bound(series: Seq<StartAnswer>) -> bool {
    exists|i: int|
        0 <= i < series.len() && start_run(#[trigger] series.take(i)) is Bind && series[i] is Bound
}

/// A daemon leaves word of itself, in place of what another may have left, only once it listens.
pub proof fn nothing_is_announced_before_it_listens(series: Seq<StartAnswer>)
    requires
        start_run(series) is Announce || start_run(series) is Serve,
    ensures
        has_bound(series),
    decreases series.len(),
{
    let before = start_run(series.drop_last());
    if before is Bind {
        let i = series.len() - 1;
        assert(series.take(i) =~= series.drop_last());
        assert(start_run(series.take(i)) is Bind);
    } else {
        nothing_is_announced_before_it_listens(series.drop_last());
        let i = choose|i: int|
            0 <= i < series.drop_last().len() && start_run(
                #[trigger] series.drop_last().take(i),
            ) is Bind && series.drop_last()[i] is Bound;
        assert(series.drop_last().take(i) =~= series.take(i));
        assert(start_run(series.take(i)) is Bind);
    }
}

/// What the system says of a process: whether it has an entry in the process file system, or,
/// where there is none, what the program that lists the processes of that number put out, if it
/// could be run.
pub enum Probe {
    ProcEntry(bool),
    Listing(Option<Vec<u8>>),
}

/// The text that `String::from_utf8_lossy` makes of bytes.
pub uninterp spec fn lossy_text(bytes: Seq<u8>) -> Seq<char>;

/// `String::from_utf8_lossy`: the text that the bytes encode, with a replacement character for what
/// encodes none; where all of them are valid UTF-8, that is the text as they encode it.
#[verifier::external_body]
fn read_lossily(bytes: &Vec<u8>) -> (res: String)
    ensures
        res@ == lossy_text(bytes@),
        valid_utf8(bytes@) ==> res@ == decode_utf8(bytes@),
{
    String::from_utf8_lossy(bytes).into_owned()
}

/// Whether a process is there by what the system says.
pub open spec fn alive(pid: u32, probe: Probe) -> bool {
    match probe {
        Probe::ProcEntry(there) => there,
        Probe::Listing(Some(output)) => occurs_in(
            decimal_text(pid as nat),
            lossy_text(output@),
        ),
        Probe::Listing(None) => false,
    }
}

/// Whether a listing of processes has the number of this one in it.
pub fn listed(pid: u32, listing: &String) -> (res: bool)
    ensures
        res == occurs_in(decimal_text(pid as nat), listing@),
{
    contains_text(listing.as_str(), decimal(pid as u64).as_str())
}

/// Decides whether the daemon of this process number is running.
pub fn daemon_running(pid: u32, probe: &Probe) -> (res: bool)
    ensures
        res == alive(pid, *probe),
        probe matches Probe::Listing(Some(output)) ==> (valid_utf8(output@) ==> res == occurs_in(
            decimal_text(pid as nat),
            decode_utf8(output@),
        )),
{
    match probe {
        Probe::ProcEntry(there) => *there,
        Probe::Listing(Some(output)) => listed(pid, &read_lossily(output)),
        Probe::Listing(None) => false,
    }
}

/// The entry of a process in the process file system.
pub fn proc_entry(pid: u32) -> (res: String)
    ensures
        res@ == "/proc/"@ + decimal_text(pid as nat),
{
    "/proc/".to_owned().concat(decimal(pid as u64).as_str())
}

/// The arguments with which `tasklist` lists the process of a number.
pub fn tasklist_args(pid: u32) -> (res: Vec<String>)
    ensures
        texts(res@) == seq!["/FI"@, "PID eq "@ + decimal_text(pid as nat), "/FO"@, "CSV"@],
{
    let mut res: Vec<String> = Vec::new();
    res.push("/FI".to_owned());
    res.push("PID eq ".to_owned().concat(decimal(pid as u64).as_str()));
    res.push("/FO".to_owned());
    res.push("CSV".to_owned());
    assert(texts(res@) =~= seq!["/FI"@, "PID eq "@ + decimal_text(pid as nat), "/FO"@, "CSV"@]);
    res
}

/// What there is to do for a request.
pub enum RequestStep<'a, S> {
    /// Send this response.
    Respond(Response),
    /// The name is taken by this session: send what `name_occupied` makes of its state.
    Occupied(&'a S),
    /// Start the command; `handle_run` takes what came of it.
    Launch { name: String, command: Vec<String> },
    /// Attach the client to this session.
    Attach(&'a S),
    /// Delete this session, which is found under the name.
    Delete { session: &'a S, name: String, force: bool },
}

/// What a step for a request comes to, with its names and words as sequences of characters.
pub open spec fn to_do<S>(step: RequestStep<S>) -> Asked<S> {
    match step {
        RequestStep::Respond(Response::SessionNotExists) => Asked::Missing,
        RequestStep::Respond(Response::SessionList(names)) => Asked::List(texts(names@).to_set()),
        RequestStep::Respond(response) => Asked::Other(response),
        RequestStep::Occupied(session) => Asked::Occupied(*session),
        RequestStep::Launch { name, command } => Asked::Launch {
            name: name@,
            command: texts(command@),
        },
        RequestStep::Attach(session) => Asked::Attach(*session),
        RequestStep::Delete { session, name, force } => Asked::Delete {
            session: *session,
            name: name@,
            force,
        },
    }
}

/// Decides what there is to do for a request.
pub fn handle_request<'a, S>(sessions: &'a SessionTable<S>, request: Request) -> (step: RequestStep<
    'a,
    S,
>)
    ensures
        match request {
            Request::Run { name, command } => if sessions@.contains_key(name@) {
                step == RequestStep::Occupied(&sessions@[name@])
            } else {
                step matches RequestStep::Launch { name: n, command: c } && n == name && c == command
            },
            Request::Attach { name } => if sessions@.contains_key(name@) {
                step == RequestStep::Attach(&sessions@[name@])
            } else {
                step matches RequestStep::Respond(Response::SessionNotExists)
            },
            Request::List => {
                &&& step matches RequestStep::Respond(Response::SessionList(names))
                &&& texts(names@).no_duplicates()
                &&& forall|name: Seq<char>| #[trigger]
                    texts(names@).contains(name) <==> sessions@.contains_key(name)
            },
            Request::Delete { name, force } => if sessions@.contains_key(name@) {
                step == (RequestStep::Delete { session: &sessions@[name@], name, force })
            } else {
                step matches RequestStep::Respond(Response::SessionNotExists)
            },
        },
        step matches RequestStep::Respond(response) ==> answers(request@, response),
        to_do(step) == asked(sessions@, request@),
{
    let step = match request {
        Request::Run { name, command } => match sessions.get(&name) {
            Some(session) => RequestStep::Occupied(session),
            None => RequestStep::Launch { name, command },
        },
        Request::Attach { name } => match handle_attach(sessions, &name) {
            Ok(session) => RequestStep::Attach(session),
            Err(response) => RequestStep::Respond(response),
        },
        Request::List => RequestStep::Respond(Response::SessionList(sessions.names())),
        Request::Delete { name, force } => match sessions.get(&name) {
            Some(session) => RequestStep::Delete { session, name, force },
            None => RequestStep::Respond(Response::SessionNotExists),
        },
    };
    proof {
        if request is List {
            let names = texts(step->Respond_0->SessionList_0@);
            assert forall|name: Seq<char>| #[trigger]
                names.to_set().contains(name) <==> sessions@.dom().contains(name) by {
                assert(names.contains(name) <==> sessions@.contains_key(name));
            }
            assert(names.to_set() =~= sessions@.dom());
        }
    }
    step
}

/// Finds the session to which a client is to be attached, or the response where there is none.
pub fn handle_attach<'a, S>(sessions: &'a SessionTable<S>, name: &String) -> (res: Result<
    &'a S,
    Response,
>)
    ensures
        res == (if sessions@.contains_key(name@) {
            Ok::<&S, Response>(&sessions@[name@])
        } else {
            Err(Response::SessionNotExists)
        }),
{
    match sessions.get(name) {
        Some(session) => Ok(session),
        None => Err(Response::SessionNotExists),
    }
}

/// The response to a request to run a session under a name that another one has.
pub fn name_occupied(state: &SessionState) -> (response: Response)
    ensures
        response == Response::SessionNameOccupied(*state is Exited),
        forall|name: Seq<char>, command: Seq<Seq<char>>| #[trigger]
            answers(RequestView::Run { name, command }, response),
{
    Response::SessionNameOccupied(state.is_exited())
}

/// Parts a command into the program and its arguments.
pub fn command_parts(command: Vec<String>) -> (res: (String, Vec<String>))
    requires
        command@.len() > 0,
    ensures
        res.0 == command@[0],
        res.1@ == command@.skip(1),
{
    let mut args = command;
    let program = args.remove(0);
    assert(args@ =~= command@.skip(1));
    (program, args)
}

/// Enters a session whose process was started, and gives the response for either outcome.
pub fn handle_run<S>(
    sessions: &mut SessionTable<S>,
    name: String,
    started: Result<S, String>,
) -> (response: Response)
    ensures
        match started {
            Ok(session) => {
                &&& final(sessions)@ == old(sessions)@.insert(name@, session)
                &&& response == Response::RunSuccess
            },
            Err(error) => {
                &&& final(sessions)@ == old(sessions)@
                &&& response == Response::RunFailed(error)
            },
        },
        forall|command: Seq<Seq<char>>| #[trigger]
            answers(RequestView::Run { name: name@, command }, response),
        final(sessions)@ == changed(
            old(sessions)@,
            match started {
                Ok(session) => Change::Started(name@, session),
                Err(_) => Change::StartFailed,
            },
        ),
{
    match started {
        Ok(session) => {
            sessions.insert(name, session);
            Response::RunSuccess
        },
        Err(error) => Response::RunFailed(error),
    }
}

/// A session ends with what the look at its process showed, to the last character, be it how the
/// process exited or why it could not be looked at; a look that shows the process running changes
/// nothing.
pub proof fn a_session_ends_with_what_was_seen(state: SessionState, text: String)
    ensures
        observed(state, Polled::Exited(text)) == SessionState::Exited(text),
        observed(state, Polled::Failed(text)) == SessionState::Exited(text),
        observed(state, Polled::StillRunning) == state,
{
}

/// A process is there exactly where it has an entry, or where its number stands in what the listing
/// put out, whatever stands around it; where nothing could be listed it is not there.
pub proof fn a_process_is_there_where_it_is_listed(pid: u32, output: Vec<u8>)
    ensures
        alive(pid, Probe::ProcEntry(true)),
        !alive(pid, Probe::ProcEntry(false)),
        !alive(pid, Probe::Listing(None)),
        forall|before: Seq<char>, after: Seq<char>|
            lossy_text(output@) == #[trigger] (before + decimal_text(pid as nat) + after) ==> alive(
                pid,
                Probe::Listing(Some(output)),
            ),
        alive(pid, Probe::Listing(Some(output))) ==> exists|before: Seq<char>, after: Seq<char>|
            lossy_text(output@) == #[trigger] (before + decimal_text(pid as nat) + after),
{
    let number = decimal_text(pid as nat);
    assert forall|before: Seq<char>, after: Seq<char>|
        lossy_text(output@) == #[trigger] (before + number + after) implies alive(
        pid,
        Probe::Listing(Some(output)),
    ) by {
        a_text_is_found_where_it_stands(before, number, after);
    }
    if alive(pid, Probe::Listing(Some(output))) {
        a_text_that_is_found_stands_there(number, lossy_text(output@));
    }
}

/// Whether an answer belongs to the piece of work at hand in the start of the daemon.
pub open spec fn belongs_to_start(step: StartStep, answer: StartAnswer) -> bool {
    match step {
        StartStep::CheckInfo => answer is Exists,
        StartStep::ReadInfo => answer is Info || answer is Failed,
        StartStep::CheckPid(_) => answer is Running,
        StartStep::Bind => answer is Bound || answer is Failed,
        StartStep::Announce(_) => answer is Announced || answer is Failed,
        _ => false,
    }
}

/// Each answer that belongs to the piece of work at hand moves the start on; any other changes
/// nothing.
pub proof fn each_answer_of_its_own_moves_the_start_on(step: StartStep, answer: StartAnswer)
    ensures
        belongs_to_start(step, answer) <==> start_next(step, answer) != step,
{
}

/// A start looks at the very process whose number was left, and refuses exactly where it runs; it
/// announces the very port and process that it listens with, and serves once that is done.
pub proof fn a_start_goes_by_what_it_finds(info: DeamonInfo, pid: u32, port: u16, error: String)
    ensures
        start_next(StartStep::CheckInfo, StartAnswer::Exists(true)) is ReadInfo,
        start_next(StartStep::CheckInfo, StartAnswer::Exists(false)) is Bind,
        start_next(StartStep::ReadInfo, StartAnswer::Info(info)) == StartStep::CheckPid(info.pid),
        start_next(StartStep::CheckPid(pid), StartAnswer::Running(true)) is Refuse,
        start_next(StartStep::CheckPid(pid), StartAnswer::Running(false)) is Bind,
        start_next(StartStep::Bind, StartAnswer::Bound { port, pid }) == StartStep::Announce(
            DeamonInfo { port, pid },
        ),
        start_next(StartStep::Announce(info), StartAnswer::Announced) is Serve,
        start_next(StartStep::ReadInfo, StartAnswer::Failed(error)) == StartStep::Fail(error),
        start_next(StartStep::Bind, StartAnswer::Failed(error)) == StartStep::Fail(error),
        start_next(StartStep::Announce(info), StartAnswer::Failed(error)) == StartStep::Fail(error),
{
}

} // verus!
