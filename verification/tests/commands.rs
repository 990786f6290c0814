use frun::client::{
    begin_command, continue_command, receive_reply, wrong_response, ClientAnswer, ClientStep, Cmd,
};
use frun::notice::{Color, Notice, Span};
use frun::protocal::{Request, Response};

fn text(s: &str) -> String {
    s.to_string()
}

fn run_cmd() -> Cmd {
    Cmd::Run { name: text("a"), command: vec![text("ls"), text("-l")] }
}

fn delete_cmd() -> Cmd {
    Cmd::Delete { name: text("a"), force: false }
}

fn responses() -> Vec<Response> {
    vec![
        Response::SessionNameOccupied(true),
        Response::SessionNameOccupied(false),
        Response::RunSuccess,
        Response::RunFailed(text("no")),
        Response::ForwardingReady,
        Response::SessionNotExists,
        Response::SessionList(vec![]),
        Response::SessionDeletedSafely,
        Response::SessionProcessNotExited,
        Response::SessionDeletedForcely,
        Response::SessionDropped,
    ]
}

#[test]
fn commands_make_requests() {
    assert_eq!(
        begin_command(&run_cmd()),
        ClientStep::Send(Request::Run { name: text("a"), command: vec![text("ls"), text("-l")] })
    );
    assert_eq!(
        begin_command(&Cmd::Attach { name: text("a") }),
        ClientStep::Send(Request::Attach { name: text("a") })
    );
    assert_eq!(begin_command(&Cmd::List), ClientStep::Send(Request::List));
    assert_eq!(begin_command(&Cmd::Daemon), ClientStep::Serve);
    assert_eq!(
        begin_command(&Cmd::Delete { name: text("a"), force: true }),
        ClientStep::Send(Request::Delete { name: text("a"), force: true })
    );
}

#[test]
fn run_is_reported() {
    assert_eq!(
        receive_reply(&run_cmd(), Response::RunSuccess),
        (ClientStep::Finish, vec![Notice::Started { name: text("a") }])
    );
    assert_eq!(
        receive_reply(&run_cmd(), Response::RunFailed(text("no"))),
        (ClientStep::Finish, vec![Notice::RunFailed { name: text("a"), error: text("no") }])
    );
    assert_eq!(
        receive_reply(&run_cmd(), Response::SessionNameOccupied(false)),
        (
            ClientStep::Finish,
            vec![
                Notice::NameOccupied { name: text("a") },
                Notice::StillRunning { name: text("a") },
                Notice::Cancelled
            ]
        )
    );
}

#[test]
fn exited_session_is_replaced_on_consent() {
    let (step, notices) = receive_reply(&run_cmd(), Response::SessionNameOccupied(true));
    assert_eq!(step, ClientStep::Confirm(Notice::AskReplace { name: text("a") }));
    assert_eq!(notices, vec![Notice::NameOccupied { name: text("a") }]);
    let (step, _) = continue_command(&run_cmd(), step, ClientAnswer::Confirmed(true));
    let again = vec![text("run"), text("a"), text("--"), text("ls"), text("-l")];
    assert_eq!(
        step,
        ClientStep::Invoke {
            args: vec![text("delete"), text("a")],
            after: Some(vec![text("run"), text("a"), text("--"), text("ls"), text("-l")])
        }
    );
    let ran = || ClientAnswer::Ran { success: true, code: Some(0) };
    let (step, _) = continue_command(&run_cmd(), step, ran());
    assert_eq!(step, ClientStep::Invoke { args: again, after: None });
    let (step, notices) = continue_command(&run_cmd(), step, ran());
    assert_eq!(step, ClientStep::Finish);
    assert!(notices.is_empty());
}

#[test]
fn nothing_is_done_without_consent() {
    for (cmd, question) in [
        (run_cmd(), Notice::AskReplace { name: text("a") }),
        (delete_cmd(), Notice::AskTerminate { name: text("a") }),
    ] {
        let step = ClientStep::Confirm(question);
        assert_eq!(
            continue_command(&cmd, step, ClientAnswer::Confirmed(false)),
            (ClientStep::Finish, vec![Notice::Cancelled])
        );
    }
}

#[test]
fn client_exits_as_the_program_it_ran() {
    let invoke = || ClientStep::Invoke { args: vec![text("delete")], after: Some(vec![]) };
    for (code, exit) in [(Some(3), 3), (None, 1)] {
        let (step, _) =
            continue_command(&run_cmd(), invoke(), ClientAnswer::Ran { success: false, code });
        assert_eq!(step, ClientStep::Exit(exit));
    }
}

#[test]
fn attach_forwards_and_detaches() {
    let cmd = Cmd::Attach { name: text("a") };
    let (step, notices) = receive_reply(&cmd, Response::ForwardingReady);
    assert_eq!(step, ClientStep::Forward);
    assert_eq!(notices, vec![Notice::Attaching { name: text("a") }]);
    assert_eq!(
        continue_command(&cmd, step, ClientAnswer::Detached),
        (ClientStep::Exit(0), vec![Notice::Detached { name: text("a") }])
    );
    assert_eq!(
        receive_reply(&cmd, Response::SessionNotExists),
        (ClientStep::Finish, vec![Notice::NoSuchSession { name: text("a") }])
    );
}

#[test]
fn list_is_told() {
    assert_eq!(
        receive_reply(&Cmd::List, Response::SessionList(vec![])),
        (ClientStep::Finish, vec![Notice::NoSessions])
    );
    assert_eq!(
        receive_reply(&Cmd::List, Response::SessionList(vec![text("b"), text("a")])),
        (
            ClientStep::Finish,
            vec![
                Notice::Listing { count: 2 },
                Notice::Listed { name: text("b") },
                Notice::Listed { name: text("a") }
            ]
        )
    );
}

#[test]
fn delete_is_told() {
    for (response, notice) in [
        (Response::SessionDeletedSafely, Notice::DeletedSafely { name: text("a") }),
        (Response::SessionDeletedForcely, Notice::DeletedForcely { name: text("a") }),
        (Response::SessionDropped, Notice::Dropped { name: text("a") }),
        (Response::SessionNotExists, Notice::NoSuchSession { name: text("a") }),
    ] {
        assert_eq!(receive_reply(&delete_cmd(), response), (ClientStep::Finish, vec![notice]));
    }
    let (step, notices) = receive_reply(&delete_cmd(), Response::SessionProcessNotExited);
    assert_eq!(step, ClientStep::Confirm(Notice::AskTerminate { name: text("a") }));
    assert!(notices.is_empty());
    let (step, _) = continue_command(&delete_cmd(), step, ClientAnswer::Confirmed(true));
    assert_eq!(
        step,
        ClientStep::Invoke {
            args: vec![text("delete"), text("a"), text("--force")],
            after: None
        }
    );
}

#[test]
fn other_responses_are_rejected() {
    let understood = |cmd: &Cmd| {
        responses()
            .into_iter()
            .map(|response| receive_reply(cmd, response).0)
            .map(|step| !matches!(step, ClientStep::Reject(_)))
            .collect::<Vec<bool>>()
    };
    let (y, n) = (true, false);
    assert_eq!(understood(&run_cmd()), vec![y, y, y, y, n, n, n, n, n, n, n]);
    assert_eq!(
        understood(&Cmd::Attach { name: text("a") }),
        vec![n, n, n, n, y, y, n, n, n, n, n]
    );
    assert_eq!(understood(&Cmd::List), vec![n, n, n, n, n, n, y, n, n, n, n]);
    assert_eq!(understood(&delete_cmd()), vec![n, n, n, n, n, y, n, y, y, y, y]);
    assert_eq!(
        receive_reply(&Cmd::List, Response::RunSuccess),
        (ClientStep::Reject(Response::RunSuccess), vec![])
    );
    assert_eq!(
        wrong_response(text("RunSuccess")),
        Notice::WrongResponse { response: text("RunSuccess") }
    );
}

#[test]
fn answer_to_another_step_is_ignored() {
    assert_eq!(
        continue_command(&Cmd::List, ClientStep::Finish, ClientAnswer::Confirmed(true)),
        (ClientStep::Finish, vec![])
    );
}

fn words(notice: Notice) -> String {
    notice.render().iter().map(|span| span.text.as_str()).collect()
}

#[test]
fn notices_are_worded() {
    let name = || text("web");
    let cases = [
        (
            Notice::NameOccupied { name: name() },
            "[W] There's already a session called 'web' exists.",
        ),
        (
            Notice::AskReplace { name: name() },
            "[I] The process in session 'web' is already exited. Delete it and run new one?",
        ),
        (
            Notice::StillRunning { name: name() },
            "[W] The process in session 'web' is still running. Please delete it manually first.",
        ),
        (Notice::Cancelled, "[I] Operation cancelled."),
        (Notice::Started { name: name() }, "[S] Successfully started session : 'web'"),
        (
            Notice::RunFailed { name: name(), error: text("no") },
            "[E] Failed to run session : 'web' : no",
        ),
        (Notice::Attaching { name: name() }, "[T] Attaching to session: 'web'"),
        (Notice::Detached { name: name() }, "[T] Detached from session: 'web'"),
        (Notice::NoSuchSession { name: name() }, "[I] No session named 'web'"),
        (Notice::NoSessions, "[I] There aren't any session created."),
        (Notice::Listing { count: 12 }, "[I] All 12 sessions listed as below:"),
        (Notice::Listed { name: name() }, "    web"),
        (
            Notice::DeletedSafely { name: name() },
            "[S] Process already exited and session 'web' deleted safely.",
        ),
        (
            Notice::AskTerminate { name: name() },
            "[W] Process in session 'web' is still running! Terminate it forcibly?",
        ),
        (
            Notice::DeletedForcely { name: name() },
            "[S] Process terminated and session 'web' deleted.",
        ),
        (
            Notice::Dropped { name: name() },
            "[W] Session 'web' dropped and process exited unsafely.",
        ),
        (
            Notice::WrongResponse { response: text("RunSuccess") },
            "[E] Daemon responded with wrong response type : RunSuccess",
        ),
        (
            Notice::ConnectFailed { address: text("127.0.0.1:1"), error: text("no") },
            "[E] Failed to connect to daemon on '127.0.0.1:1' : no",
        ),
        (Notice::GaveUp { retries: 5 }, "[E] Failed to run after 5 retries."),
        (Notice::DaemonNotStarted, "[E] Daemon failed to start"),
    ];
    for (notice, expected) in cases {
        assert_eq!(words(notice), expected);
    }
}

#[test]
fn notices_are_styled() {
    let span = |s: &str, color: Color, bold: bool| Span { text: text(s), color, bold };
    assert_eq!(
        Notice::Started { name: text("web") }.render(),
        vec![
            span("[", Color::Plain, false),
            span("S", Color::Green, true),
            span("] ", Color::Plain, false),
            span("Successfully started session", Color::Green, false),
            span(" : '", Color::Plain, false),
            span("web", Color::Cyan, true),
            span("'", Color::Plain, false),
        ]
    );
    assert_eq!(
        Notice::DaemonNotStarted.render(),
        vec![
            span("[", Color::Plain, false),
            span("E", Color::Red, false),
            span("] ", Color::Plain, false),
            span("Daemon failed to start", Color::Red, false),
        ]
    );
}

#[test]
fn errors_go_to_stderr() {
    assert!(Notice::RunFailed { name: text("a"), error: text("no") }.for_stderr());
    assert!(Notice::ConnectFailed { address: text("x"), error: text("no") }.for_stderr());
    assert!(!Notice::Cancelled.for_stderr());
    assert!(!Notice::NoSuchSession { name: text("a") }.for_stderr());
}

#[test]
fn failure_ends_the_command() {
    let failed = || ClientAnswer::Failed(text("broken"));
    let fail = || (ClientStep::Fail(text("broken")), Vec::new());
    let question = Notice::AskTerminate { name: text("a") };
    let steps = vec![
        begin_command(&run_cmd()),
        ClientStep::Serve,
        ClientStep::Forward,
        ClientStep::Confirm(question),
        ClientStep::Invoke { args: vec![text("delete")], after: None },
    ];
    for step in steps {
        assert_eq!(continue_command(&run_cmd(), step, failed()), fail());
    }
    let (step, _) = fail();
    let replied = ClientAnswer::Replied(Response::RunSuccess);
    assert_eq!(continue_command(&run_cmd(), step, replied), fail());
    assert_eq!(
        continue_command(&run_cmd(), ClientStep::Finish, failed()),
        (ClientStep::Finish, Vec::new())
    );
}
