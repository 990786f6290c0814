//! What the client does for a command of its user.

use vstd::prelude::*;

use crate::notice::Notice;
use crate::protocal::{answers, Request, RequestView, Response};
use crate::text::texts;

verus! {

/// A command of the user.
#[derive(Debug, PartialEq, Eq)]
pub enum Cmd {
    Run { name: String, command: Vec<String> },
    Attach { name: String },
    List,
    Daemon,
    Delete { name: String, force: bool },
}

/// The answer that a question has where the user gives none.
pub const CONFIRM_BY_DEFAULT: bool = false;

/// The code with which the client exits where a program that it ran left none.
pub const FAILURE_CODE: i32 = 1;

/// What the client does next.
#[derive(Debug, PartialEq, Eq)]
pub enum ClientStep {
    /// Send this to the daemon, and wait for the response.
    Send(Request),
    /// Be the daemon.
    Serve,
    /// Carry bytes between the terminal and the daemon until one of them ends it.
    Forward,
    /// Ask the user this.
    Confirm(Notice),
    /// Run this program itself with these arguments, and afterwards with those of `after`.
    Invoke { args: Vec<String>, after: Option<Vec<String>> },
    /// Exit with this code.
    Exit(i32),
    Finish,
    /// Fail with the notice of `wrong_response`.
    Reject(Response),
    /// Fail with this error.
    Fail(String),
}

/// What came of it. All that the client does but to end can fail with an error.
#[derive(Debug, PartialEq, Eq)]
pub enum ClientAnswer {
    Replied(Response),
    Detached,
    Confirmed(bool),
    Ran { success: bool, code: Option<i32> },
    Failed(String),
}

/// A step of the client with its texts as sequences of characters.
pub ghost enum ClientView {
    Send(RequestView),
    Serve,
    Forward,
    Confirm(Notice),
    Invoke { args: Seq<Seq<char>>, after: Option<Seq<Seq<char>>> },
    Exit(i32),
    Finish,
    Reject(Response),
    Fail(String),
}

impl View for ClientStep {
    type V = ClientView;

    open spec fn view(&self) -> ClientView {
        match *self {
            ClientStep::Send(request) => ClientView::Send(request@),
            ClientStep::Serve => ClientView::Serve,
            ClientStep::Forward => ClientView::Forward,
            ClientStep::Confirm(question) => ClientView::Confirm(question),
            ClientStep::Invoke { args, after } => ClientView::Invoke {
                args: texts(args@),
                after: match after {
                    Some(more) => Some(texts(more@)),
                    None => None,
                },
            },
            ClientStep::Exit(code) => ClientView::Exit(code),
            ClientStep::Finish => ClientView::Finish,
            ClientStep::Reject(response) => ClientView::Reject(response),
            ClientStep::Fail(error) => ClientView::Fail(error),
        }
    }
}

/// The request that a command makes; none for the one that makes this process the daemon.
pub open spec fn request_of(cmd: Cmd) -> Option<RequestView> {
    match cmd {
        Cmd::Run { name, command } => Some(
            RequestView::Run { name: name@, command: texts(command@) },
        ),
        Cmd::Attach { name } => Some(RequestView::Attach { name: name@ }),
        Cmd::List => Some(RequestView::List),
        Cmd::Daemon => None,
        Cmd::Delete { name, force } => Some(RequestView::Delete { name: name@, force }),
    }
}

fn copy_texts(list: &Vec<String>) -> (res: Vec<String>)
    ensures
        res@ == list@,
{
    let mut res: Vec<String> = Vec::new();
    let mut i: usize = 0;
    while i < list.len()
        invariant
            i <= list@.len(),
            res@ == list@.take(i as int),
        decreases list@.len() - i,
    {
        res.push(list[i].clone());
        i = i + 1;
        assert(res@ =~= list@.take(i as int));
    }
    assert(res@ =~= list@);
    res
}

/// The first thing that the client does for a command.
pub fn begin_command(cmd: &Cmd) -> (step: ClientStep)
    ensures
        step@ == (match request_of(*cmd) {
            Some(request) => ClientView::Send(request),
            None => ClientView::Serve,
        }),
        cmd matches Cmd::Run { name, command } ==> (step matches ClientStep::Send(
            Request::Run { name: n, command: c },
        ) && n == name && c@ == command@),
        cmd matches Cmd::Attach { name } ==> (step matches ClientStep::Send(
            Request::Attach { name: n },
        ) && n == name),
        cmd is List ==> step matches ClientStep::Send(Request::List),
        cmd is Daemon ==> step is Serve,
        cmd matches Cmd::Delete { name, force } ==> (step matches ClientStep::Send(
            Request::Delete { name: n, force: f },
        ) && n == name && f == force),
{
    match cmd {
        Cmd::Run { name, command } => ClientStep::Send(
            Request::Run { name: name.clone(), command: copy_texts(command) },
        ),
        Cmd::Attach { name } => ClientStep::Send(Request::Attach { name: name.clone() }),
        Cmd::List => ClientStep::Send(Request::List),
        Cmd::Daemon => ClientStep::Serve,
        Cmd::Delete { name, force } => ClientStep::Send(
            Request::Delete { name: name.clone(), force: *force },
        ),
    }
}

/// What is told of a list of sessions.
pub open spec fn listing(names: Seq<String>) -> Seq<Notice> {
    if names.len() == 0 {
        seq![Notice::NoSessions]
    } else {
        seq![Notice::Listing { count: names.len() as usize }] + names.map_values(
            |name: String| Notice::Listed { name },
        )
    }
}

/// What a response of the daemon leads to, and what the user is told of it.
pub open spec fn reply_next(cmd: Cmd, response: Response) -> (ClientView, Seq<Notice>) {
    match (cmd, response) {
        (Cmd::Run { name, .. }, Response::SessionNameOccupied(exited)) => if exited {
            (
                ClientView::Confirm(Notice::AskReplace { name }),
                seq![Notice::NameOccupied { name }],
            )
        } else {
            (
                ClientView::Finish,
                seq![
                    Notice::NameOccupied { name },
                    Notice::StillRunning { name },
                    Notice::Cancelled,
                ],
            )
        },
        (Cmd::Run { name, .. }, Response::RunSuccess) => (
            ClientView::Finish,
            seq![Notice::Started { name }],
        ),
        (Cmd::Run { name, .. }, Response::RunFailed(error)) => (
            ClientView::Finish,
            seq![Notice::RunFailed { name, error }],
        ),
        (Cmd::Attach { name }, Response::ForwardingReady) => (
            ClientView::Forward,
            seq![Notice::Attaching { name }],
        ),
        (Cmd::Attach { name }, Response::SessionNotExists) => (
            ClientView::Finish,
            seq![Notice::NoSuchSession { name }],
        ),
        (Cmd::List, Response::SessionList(names)) => (ClientView::Finish, listing(names@)),
        (Cmd::Delete { name, .. }, Response::SessionDeletedSafely) => (
            ClientView::Finish,
            seq![Notice::DeletedSafely { name }],
        ),
        (Cmd::Delete { name, .. }, Response::SessionProcessNotExited) => (
            ClientView::Confirm(Notice::AskTerminate { name }),
            seq![],
        ),
        (Cmd::Delete { name, .. }, Response::SessionDeletedForcely) => (
            ClientView::Finish,
            seq![Notice::DeletedForcely { name }],
        ),
        (Cmd::Delete { name, .. }, Response::SessionDropped) => (
            ClientView::Finish,
            seq![Notice::Dropped { name }],
        ),
        (Cmd::Delete { name, .. }, Response::SessionNotExists) => (
            ClientView::Finish,
            seq![Notice::NoSuchSession { name }],
        ),
        _ => (ClientView::Reject(response), seq![]),
    }
}

/// What the client runs once the user has agreed to its question: for a session to be replaced its
/// deletion and then the command once more, for a process to be killed its deletion by force.
pub open spec fn confirmed_next(cmd: Cmd) -> ClientView {
    match cmd {
        Cmd::Run { name, command } => ClientView::Invoke {
            args: seq!["delete"@, name@],
            after: Some(seq!["run"@, name@, "--"@] + texts(command@)),
        },
        Cmd::Delete { name, .. } => ClientView::Invoke {
            args: seq!["delete"@, name@, "--force"@],
            after: None,
        },
        _ => ClientView::Finish,
    }
}

/// What comes after `step` once it came to `answer`, and what the user is told of it. An answer to
/// something else changes nothing.
pub open spec fn client_next(cmd: Cmd, step: ClientView, answer: ClientAnswer) -> (
    ClientView,
    Seq<Notice>,
) {
    match (step, answer) {
        (ClientView::Send(_), ClientAnswer::Replied(response)) => reply_next(cmd, response),
        (ClientView::Forward, ClientAnswer::Detached) => (
            ClientView::Exit(0),
            match cmd {
                Cmd::Attach { name } => seq![Notice::Detached { name }],
                _ => seq![],
            },
        ),
        (ClientView::Confirm(_), ClientAnswer::Confirmed(confirmed)) => if confirmed {
            (confirmed_next(cmd), seq![])
        } else {
            (ClientView::Finish, seq![Notice::Cancelled])
        },
        (ClientView::Invoke { after, .. }, ClientAnswer::Ran { success, code }) => if success {
            match after {
                Some(args) => (ClientView::Invoke { args, after: None }, seq![]),
                None => (ClientView::Finish, seq![]),
            }
        } else {
            match code {
                Some(code) => (ClientView::Exit(code), seq![]),
                None => (ClientView::Exit(FAILURE_CODE), seq![]),
            }
        },
        (ClientView::Send(_), ClientAnswer::Failed(error)) => (ClientView::Fail(error), seq![]),
        (ClientView::Serve, ClientAnswer::Failed(error)) => (ClientView::Fail(error), seq![]),
        (ClientView::Forward, ClientAnswer::Failed(error)) => (ClientView::Fail(error), seq![]),
        (ClientView::Confirm(_), ClientAnswer::Failed(error)) => (
            ClientView::Fail(error),
            seq![],
        ),
        (ClientView::Invoke { .. }, ClientAnswer::Failed(error)) => (
            ClientView::Fail(error),
            seq![],
        ),
        _ => (step, seq![]),
    }
}

/// What the user is told of a response that is no answer to the request, given how it is shown.
pub fn wrong_response(response: String) -> (res: Notice)
    ensures
        res == (Notice::WrongResponse { response }),
{
    Notice::WrongResponse { response }
}

fn one(notice: Notice) -> (res: Vec<Notice>)
    ensures
        res@ == seq![notice],
{
    let mut res: Vec<Notice> = Vec::new();
    res.push(notice);
    assert(res@ =~= seq![notice]);
    res
}

fn list_notices(names: Vec<String>) -> (res: Vec<Notice>)
    ensures
        res@ == listing(names@),
{
    if names.len() == 0 {
        return one(Notice::NoSessions);
    }
    let mut res = one(Notice::Listing { count: names.len() });
    let ghost listed = names@.map_values(|name: String| Notice::Listed { name });
    let mut i: usize = 0;
    while i < names.len()
        invariant
            i <= names@.len(),
            listed == names@.map_values(|name: String| Notice::Listed { name }),
            res@ == seq![Notice::Listing { count: names@.len() as usize }] + listed.take(i as int),
        decreases names@.len() - i,
    {
        let ghost before = res@;
        res.push(Notice::Listed { name: names[i].clone() });
        i = i + 1;
        assert(listed.take(i as int) =~= listed.take(i - 1).push(listed[i - 1]));
        assert(res@ =~= seq![Notice::Listing { count: names@.len() as usize }] + listed.take(
            i as int,
        ));
    }
    assert(listed.take(i as int) =~= listed);
    res
}

/// Decides what a response of the daemon leads to, and what the user is told of it.
pub fn receive_reply(cmd: &Cmd, response: Response) -> (res: (ClientStep, Vec<Notice>))
    ensures
        (res.0@, res.1@) == reply_next(*cmd, response),
{
    match (cmd, response) {
        (Cmd::Run { name, .. }, Response::SessionNameOccupied(exited)) => {
            let mut notices = one(Notice::NameOccupied { name: name.clone() });
            if exited {
                (ClientStep::Confirm(Notice::AskReplace { name: name.clone() }), notices)
            } else {
                notices.push(Notice::StillRunning { name: name.clone() });
                notices.push(Notice::Cancelled);
                assert(notices@ =~= reply_next(*cmd, response).1);
                (ClientStep::Finish, notices)
            }
        },
        (Cmd::Run { name, .. }, Response::RunSuccess) => (
            ClientStep::Finish,
            one(Notice::Started { name: name.clone() }),
        ),
        (Cmd::Run { name, .. }, Response::RunFailed(error)) => (
            ClientStep::Finish,
            one(Notice::RunFailed { name: name.clone(), error }),
        ),
        (Cmd::Attach { name }, Response::ForwardingReady) => (
            ClientStep::Forward,
            one(Notice::Attaching { name: name.clone() }),
        ),
        (Cmd::Attach { name }, Response::SessionNotExists) => (
            ClientStep::Finish,
            one(Notice::NoSuchSession { name: name.clone() }),
        ),
        (Cmd::List, Response::SessionList(names)) => (ClientStep::Finish, list_notices(names)),
        (Cmd::Delete { name, .. }, Response::SessionDeletedSafely) => (
            ClientStep::Finish,
            one(Notice::DeletedSafely { name: name.clone() }),
        ),
        (Cmd::Delete { name, .. }, Response::SessionProcessNotExited) => (
            ClientStep::Confirm(Notice::AskTerminate { name: name.clone() }),
            Vec::new(),
        ),
        (Cmd::Delete { name, .. }, Response::SessionDeletedForcely) => (
            ClientStep::Finish,
            one(Notice::DeletedForcely { name: name.clone() }),
        ),
        (Cmd::Delete { name, .. }, Response::SessionDropped) => (
            ClientStep::Finish,
            one(Notice::Dropped { name: name.clone() }),
        ),
        (Cmd::Delete { name, .. }, Response::SessionNotExists) => (
            ClientStep::Finish,
            one(Notice::NoSuchSession { name: name.clone() }),
        ),
        (_, response) => (ClientStep::Reject(response), Vec::new()),
    }
}

fn confirmed_step(cmd: &Cmd) -> (res: ClientStep)
    ensures
        res@ == confirmed_next(*cmd),
{
    match cmd {
        Cmd::Run { name, command } => {
            let mut args: Vec<String> = Vec::new();
            args.push("delete".to_owned());
            args.push(name.clone());
            assert(texts(args@) =~= seq!["delete"@, name@]);
            let mut more: Vec<String> = Vec::new();
            more.push("run".to_owned());
            more.push(name.clone());
            more.push("--".to_owned());
            let ghost head = more@;
            let mut copied = copy_texts(command);
            more.append(&mut copied);
            assert(more@ == head + command@);
            assert(texts(more@) =~= seq!["run"@, name@, "--"@] + texts(command@));
            ClientStep::Invoke { args, after: Some(more) }
        },
        Cmd::Delete { name, .. } => {
            let mut args: Vec<String> = Vec::new();
            args.push("delete".to_owned());
            args.push(name.clone());
            args.push("--force".to_owned());
            assert(texts(args@) =~= seq!["delete"@, name@, "--force"@]);
            ClientStep::Invoke { args, after: None }
        },
        _ => ClientStep::Finish,
    }
}

/// Decides what the client does next for a command after `step` came to `answer`, and what the user
/// is told before it does. The first step is that of `begin_command`.
pub fn continue_command(cmd: &Cmd, step: ClientStep, answer: ClientAnswer) -> (res: (
    ClientStep,
    Vec<Notice>,
))
    ensures
        (res.0@, res.1@) == client_next(*cmd, step@, answer),
{
    match (step, answer) {
        (ClientStep::Send(_), ClientAnswer::Replied(response)) => receive_reply(cmd, response),
        (ClientStep::Forward, ClientAnswer::Detached) => {
            let notices = match cmd {
                Cmd::Attach { name } => one(Notice::Detached { name: name.clone() }),
                _ => Vec::new(),
            };
            (ClientStep::Exit(0), notices)
        },
        (ClientStep::Confirm(_), ClientAnswer::Confirmed(confirmed)) => if confirmed {
            (confirmed_step(cmd), Vec::new())
        } else {
            (ClientStep::Finish, one(Notice::Cancelled))
        },
        (ClientStep::Invoke { after, .. }, ClientAnswer::Ran { success, code }) => if success {
            match after {
                Some(args) => (ClientStep::Invoke { args, after: None }, Vec::new()),
                None => (ClientStep::Finish, Vec::new()),
            }
        } else {
            match code {
                Some(code) => (ClientStep::Exit(code), Vec::new()),
                None => (ClientStep::Exit(FAILURE_CODE), Vec::new()),
            }
        },
        (ClientStep::Send(_), ClientAnswer::Failed(error)) => (ClientStep::Fail(error), Vec::new()),
        (ClientStep::Serve, ClientAnswer::Failed(error)) => (ClientStep::Fail(error), Vec::new()),
        (ClientStep::Forward, ClientAnswer::Failed(error)) => (ClientStep::Fail(error), Vec::new()),
        (ClientStep::Confirm(_), ClientAnswer::Failed(error)) => (
            ClientStep::Fail(error),
            Vec::new(),
        ),
        (ClientStep::Invoke { .. }, ClientAnswer::Failed(error)) => (
            ClientStep::Fail(error),
            Vec::new(),
        ),
        (step, _) => (step, Vec::new()),
    }
}

/// Where the client stands for a command after a series of answers.
pub open spec fn client_run(cmd: Cmd, series: Seq<ClientAnswer>) -> ClientView
    decreases series.len(),
{
    if series.len() == 0 {
        match request_of(cmd) {
            Some(request) => ClientView::Send(request),
            None => ClientView::Serve,
        }
    } else {
        client_next(cmd, client_run(cmd, series.drop_last()), series.last()).0
    }
}

/// The client understands every answer that the daemon has to its request, and no other.
pub proof fn the_answers_of_the_daemon_are_understood(cmd: Cmd, response: Response)
    ensures
        match request_of(cmd) {
            Some(request) => reply_next(cmd, response).0 is Reject <==> !answers(request, response),
            None => true,
        },
{
}

/// The client deletes or replaces a session on its own only after its user has agreed.
pub proof fn nothing_is_invoked_without_consent(cmd: Cmd, series: Seq<ClientAnswer>)
    requires
        client_run(cmd, series) is Invoke,
    ensures
        exists|i: int|
            0 <= i < series.len() && client_run(cmd, #[trigger] series.take(i)) is Confirm
                && series[i] == ClientAnswer::Confirmed(true),
    decreases series.len(),
{
    let before = client_run(cmd, series.drop_last());
    if before is Invoke {
        nothing_is_invoked_without_consent(cmd, series.drop_last());
        let i = choose|i: int|
            0 <= i < series.drop_last().len() && client_run(
                cmd,
                #[trigger] series.drop_last().take(i),
            ) is Confirm && series.drop_last()[i] == ClientAnswer::Confirmed(true);
        assert(series.drop_last().take(i) =~= series.take(i));
        assert(client_run(cmd, series.take(i)) is Confirm);
    } else {
        let i = series.len() - 1;
        assert(series.take(i) =~= series.drop_last());
        assert(client_run(cmd, series.take(i)) is Confirm);
    }
}

/// A session is replaced only where its process has exited, and a process killed only where the
/// daemon said that it runs: what the client asks the user rests on the response.
pub proof fn questions_rest_on_the_response(cmd: Cmd, response: Response)
    ensures
        reply_next(cmd, response).0 is Confirm <==> (cmd is Run && response
            == Response::SessionNameOccupied(true)) || (cmd is Delete && response
            == Response::SessionProcessNotExited),
{
}

/// Whether the client has come to its end at a step.
pub open spec fn client_ended(step: ClientView) -> bool {
    step is Exit || step is Finish || step is Reject || step is Fail
}

/// Whatever fails on the way ends the command with its error, whatever comes after.
pub proof fn a_failure_ends_the_command(
    cmd: Cmd,
    series: Seq<ClientAnswer>,
    error: String,
    later: Seq<ClientAnswer>,
)
    requires
        !client_ended(client_run(cmd, series)),
    ensures
        client_run(cmd, series.push(ClientAnswer::Failed(error)) + later) == ClientView::Fail(
            error,
        ),
    decreases later.len(),
{
    let failed = series.push(ClientAnswer::Failed(error));
    if later.len() == 0 {
        assert(failed + later =~= failed);
        assert(failed.drop_last() =~= series);
    } else {
        a_failure_ends_the_command(cmd, series, error, later.drop_last());
        assert((failed + later).drop_last() =~= failed + later.drop_last());
    }
}

/// A step of the client stands for all that it holds.
pub proof fn a_step_of_the_client_shows_all_that_it_holds(step: ClientStep)
    ensures
        step matches ClientStep::Send(request) ==> step@ == ClientView::Send(request@),
        step is Serve ==> step@ is Serve,
        step is Forward ==> step@ is Forward,
        step matches ClientStep::Confirm(question) ==> step@ == ClientView::Confirm(question),
        step matches ClientStep::Invoke { args, after } ==> {
            &&& step@ matches ClientView::Invoke { args: a, after: f }
            &&& a == args@.map_values(|s: String| s@)
            &&& f is Some <==> after is Some
            &&& after is Some ==> f->Some_0 == after->Some_0@.map_values(|s: String| s@)
        },
        step matches ClientStep::Exit(code) ==> step@ == ClientView::Exit(code),
        step is Finish ==> step@ is Finish,
        step matches ClientStep::Reject(response) ==> step@ == ClientView::Reject(response),
        step matches ClientStep::Fail(error) ==> step@ == ClientView::Fail(error),
{
}

/// What a command asks of the daemon is what the user asked for: the same name, the same command
/// word by word, and the force that was given and no other.
pub proof fn a_request_is_what_the_command_says(cmd: Cmd)
    ensures
        cmd matches Cmd::Run { name, command } ==> request_of(cmd) == Some(
            RequestView::Run { name: name@, command: command@.map_values(|s: String| s@) },
        ),
        cmd matches Cmd::Attach { name } ==> request_of(cmd) == Some(
            RequestView::Attach { name: name@ },
        ),
        cmd is List ==> request_of(cmd) == Some(RequestView::List),
        cmd matches Cmd::Delete { name, force } ==> request_of(cmd) == Some(
            RequestView::Delete { name: name@, force },
        ),
        request_of(cmd) is None <==> cmd is Daemon,
{
}

/// By force is deleted only what the user said to delete by force.
pub proof fn force_is_asked_for_only_where_it_was_given(cmd: Cmd, name: Seq<char>)
    requires
        request_of(cmd) == Some(RequestView::Delete { name, force: true }),
    ensures
        cmd matches Cmd::Delete { name: given, force } && force && given@ == name,
{
}

/// Two commands that make the same request are the same command.
pub proof fn different_commands_make_different_requests(one: Cmd, other: Cmd)
    requires
        request_of(one) == request_of(other),
    ensures
        one is Run <==> other is Run,
        one is Attach <==> other is Attach,
        one is List <==> other is List,
        one is Daemon <==> other is Daemon,
        one is Delete <==> other is Delete,
        one is Run ==> one->Run_name@ == other->Run_name@ && texts(one->command@) == texts(
            other->command@,
        ),
        one is Attach ==> one->Attach_name@ == other->Attach_name@,
        one is Delete ==> one->Delete_name@ == other->Delete_name@ && one->force == other->force,
{
}

/// The request that the program makes when it is run with these arguments, as far as it runs itself
/// with them: a deletion, with or without force, or a command to be run.
pub open spec fn request_with(args: Seq<Seq<char>>) -> Option<RequestView> {
    if args.len() == 2 && args[0] == "delete"@ {
        Some(RequestView::Delete { name: args[1], force: false })
    } else if args.len() == 3 && args[0] == "delete"@ && args[2] == "--force"@ {
        Some(RequestView::Delete { name: args[1], force: true })
    } else if args.len() >= 3 && args[0] == "run"@ && args[2] == "--"@ {
        Some(RequestView::Run { name: args[1], command: args.skip(3) })
    } else {
        None
    }
}

/// What the client runs itself for, once its user has agreed, is what the question was about: a
/// session is replaced by its deletion, without force, and then the very same command; a process is
/// killed by the deletion of its session with force.
pub proof fn what_is_invoked_is_what_was_agreed_to(cmd: Cmd, question: Notice)
    ensures
        ({
            let next = client_next(
                cmd,
                ClientView::Confirm(question),
                ClientAnswer::Confirmed(true),
            ).0;
            &&& cmd matches Cmd::Run { name, command } ==> {
                &&& next matches ClientView::Invoke { args, after }
                &&& request_with(args) == Some(
                    RequestView::Delete { name: name@, force: false },
                )
                &&& after is Some
                &&& request_with(after->Some_0) == request_of(cmd)
            }
            &&& cmd matches Cmd::Delete { name, force } ==> {
                &&& next matches ClientView::Invoke { args, after }
                &&& request_with(args) == Some(RequestView::Delete { name: name@, force: true })
                &&& after is None
            }
        }),
{
    reveal_strlit("delete");
    reveal_strlit("run");
    match cmd {
        Cmd::Run { name, command } => {
            let more = seq!["run"@, name@, "--"@] + texts(command@);
            assert(more.skip(3) =~= texts(command@));
            assert(more[0] == "run"@ && more[1] == name@ && more[2] == "--"@);
            assert("run"@.len() != "delete"@.len());
        },
        _ => {},
    }
}

/// A user who says nothing, or says no, has not agreed: nothing is run, and the user is told that
/// the operation is cancelled.
pub proof fn silence_is_no_consent(cmd: Cmd, question: Notice)
    ensures
        ({
            let silent = client_next(
                cmd,
                ClientView::Confirm(question),
                ClientAnswer::Confirmed(CONFIRM_BY_DEFAULT),
            );
            &&& silent.0 is Finish
            &&& silent.1 == seq![Notice::Cancelled]
            &&& silent == client_next(
                cmd,
                ClientView::Confirm(question),
                ClientAnswer::Confirmed(false),
            )
        }),
{
}

/// The client ends as the program that it ran: with what is to be run after it only where that
/// succeeded, and otherwise with its code, or a failure where it left none.
pub proof fn the_client_ends_as_what_it_ran(
    cmd: Cmd,
    args: Seq<Seq<char>>,
    more: Seq<Seq<char>>,
    code: Option<i32>,
    left: i32,
)
    ensures
        client_next(
            cmd,
            ClientView::Invoke { args, after: Some(more) },
            ClientAnswer::Ran { success: true, code },
        ) == (ClientView::Invoke { args: more, after: None }, Seq::<Notice>::empty()),
        client_next(
            cmd,
            ClientView::Invoke { args, after: None },
            ClientAnswer::Ran { success: true, code },
        ) == (ClientView::Finish, Seq::<Notice>::empty()),
        forall|after: Option<Seq<Seq<char>>>|
            #[trigger] client_next(
                cmd,
                ClientView::Invoke { args, after },
                ClientAnswer::Ran { success: false, code: Some(left) },
            ) == (ClientView::Exit(left), Seq::<Notice>::empty()),
        forall|after: Option<Seq<Seq<char>>>|
            #[trigger] client_next(
                cmd,
                ClientView::Invoke { args, after },
                ClientAnswer::Ran { success: false, code: None },
            ) == (ClientView::Exit(1), Seq::<Notice>::empty()),
{
}

/// A client that has detached says so of its session, and exits without a failure.
pub proof fn a_client_detaches_in_peace(name: String)
    ensures
        client_next(Cmd::Attach { name }, ClientView::Forward, ClientAnswer::Detached) == (
            ClientView::Exit(0),
            seq![Notice::Detached { name }],
        ),
{
}

/// Whether an answer belongs to what the client is doing.
pub open spec fn belongs_to_client(step: ClientView, answer: ClientAnswer) -> bool {
    match step {
        ClientView::Send(_) => answer is Replied || answer is Failed,
        ClientView::Serve => answer is Failed,
        ClientView::Forward => answer is Detached || answer is Failed,
        ClientView::Confirm(_) => answer is Confirmed || answer is Failed,
        ClientView::Invoke { .. } => answer is Ran || answer is Failed,
        _ => false,
    }
}

/// An answer that does not belong to what the client is doing changes nothing and is not told of; a
/// failure ends the command with that very error.
pub proof fn the_client_heeds_its_own_answers_only(cmd: Cmd, step: ClientView, answer: ClientAnswer)
    ensures
        !belongs_to_client(step, answer) ==> client_next(cmd, step, answer) == (
            step,
            Seq::<Notice>::empty(),
        ),
        belongs_to_client(step, answer) ==> (answer matches ClientAnswer::Failed(error)
            ==> client_next(cmd, step, answer) == (
            ClientView::Fail(error),
            Seq::<Notice>::empty(),
        )),
        step is Send ==> (answer matches ClientAnswer::Replied(response) ==> client_next(
            cmd,
            step,
            answer,
        ) == reply_next(cmd, response)),
{
}

/// What the daemon made of a command to run is told of the session that was named: that it runs, or
/// with the whole error why not, or that the name is taken; where it is taken by a session that has
/// ended the user is asked, and where it is taken by one that runs nothing is done.
pub proof fn a_run_is_told(name: String, command: Vec<String>, error: String)
    ensures
        ({
            let cmd = Cmd::Run { name, command };
            &&& reply_next(cmd, Response::RunSuccess) == (
                ClientView::Finish,
                seq![Notice::Started { name }],
            )
            &&& reply_next(cmd, Response::RunFailed(error)) == (
                ClientView::Finish,
                seq![Notice::RunFailed { name, error }],
            )
            &&& reply_next(cmd, Response::SessionNameOccupied(true)) == (
                ClientView::Confirm(Notice::AskReplace { name }),
                seq![Notice::NameOccupied { name }],
            )
            &&& reply_next(cmd, Response::SessionNameOccupied(false)) == (
                ClientView::Finish,
                seq![
                    Notice::NameOccupied { name },
                    Notice::StillRunning { name },
                    Notice::Cancelled,
                ],
            )
        }),
{
}

/// A client attaches where the daemon is ready for it, and is told where there is no such session.
pub proof fn an_attachment_is_told(name: String)
    ensures
        reply_next(Cmd::Attach { name }, Response::ForwardingReady) == (
            ClientView::Forward,
            seq![Notice::Attaching { name }],
        ),
        reply_next(Cmd::Attach { name }, Response::SessionNotExists) == (
            ClientView::Finish,
            seq![Notice::NoSuchSession { name }],
        ),
{
}

/// A deletion is told of the session that was named, as the daemon brought it to its end; only where
/// the process runs is the user asked, with or without force. None of it depends on the force that
/// was given.
pub proof fn a_deletion_is_told(name: String, force: bool)
    ensures
        ({
            let cmd = Cmd::Delete { name, force };
            &&& reply_next(cmd, Response::SessionDeletedSafely) == (
                ClientView::Finish,
                seq![Notice::DeletedSafely { name }],
            )
            &&& reply_next(cmd, Response::SessionDeletedForcely) == (
                ClientView::Finish,
                seq![Notice::DeletedForcely { name }],
            )
            &&& reply_next(cmd, Response::SessionDropped) == (
                ClientView::Finish,
                seq![Notice::Dropped { name }],
            )
            &&& reply_next(cmd, Response::SessionNotExists) == (
                ClientView::Finish,
                seq![Notice::NoSuchSession { name }],
            )
            &&& reply_next(cmd, Response::SessionProcessNotExited) == (
                ClientView::Confirm(Notice::AskTerminate { name }),
                Seq::<Notice>::empty(),
            )
        }),
{
}

/// All sessions are listed: first their number, then each by its name, in the order in which the
/// daemon gave them; where there are none the user is told that.
pub proof fn each_session_is_listed(names: Vec<String>)
    ensures
        ({
            let told = reply_next(Cmd::List, Response::SessionList(names));
            &&& told.0 is Finish
            &&& names@.len() == 0 ==> told.1 == seq![Notice::NoSessions]
            &&& names@.len() > 0 ==> told.1.len() == names@.len() + 1 && told.1[0] == (
            Notice::Listing { count: names@.len() as usize })
            &&& names@.len() > 0 ==> forall|i: int|
                0 <= i < names@.len() ==> #[trigger] told.1[i + 1] == (Notice::Listed {
                    name: names@[i],
                })
        }),
{
}

/// A response that is no answer to the command is rejected as it came, and nothing else is told.
pub proof fn a_wrong_response_is_rejected_as_it_came(cmd: Cmd, response: Response)
    requires
        request_of(cmd) matches Some(request) ==> !answers(request, response),
    ensures
        reply_next(cmd, response) == (ClientView::Reject(response), Seq::<Notice>::empty()),
{
}

} // verus!
