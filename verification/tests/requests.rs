use frun::daemon::{
    already_running, begin_session, begin_start, command_parts, daemon_running, handle_attach,
    handle_request, handle_run, listed, name_occupied, proc_entry, request_failure, run_daemon,
    tasklist_args, DeamonInfo, Polled, Probe, RequestStep, SessionState, StartAnswer, StartStep,
};
use frun::protocal::{Request, Response};
use frun::sessions::SessionTable;

fn name(text: &str) -> String {
    text.to_string()
}

fn started(series: Vec<StartAnswer>) -> StartStep {
    series.into_iter().fold(begin_start(), run_daemon)
}

#[test]
fn daemon_starts_where_there_is_none() {
    assert_eq!(started(Vec::new()), StartStep::CheckInfo);
    assert_eq!(started(vec![StartAnswer::Exists(false)]), StartStep::Bind);
    let bound = vec![StartAnswer::Exists(false), StartAnswer::Bound { port: 4711, pid: 12 }];
    let step = started(bound);
    assert_eq!(step, StartStep::Announce(DeamonInfo { port: 4711, pid: 12 }));
    assert_eq!(run_daemon(step, StartAnswer::Announced), StartStep::Serve);
}

#[test]
fn daemon_takes_the_place_of_one_that_is_gone() {
    let info = DeamonInfo { port: 1, pid: 77 };
    assert_eq!(started(vec![StartAnswer::Exists(true)]), StartStep::ReadInfo);
    let step = started(vec![StartAnswer::Exists(true), StartAnswer::Info(info)]);
    assert_eq!(step, StartStep::CheckPid(77));
    assert_eq!(run_daemon(step, StartAnswer::Running(false)), StartStep::Bind);
}

#[test]
fn daemon_does_not_start_beside_another() {
    let info = DeamonInfo { port: 1, pid: 77 };
    let step = started(vec![
        StartAnswer::Exists(true),
        StartAnswer::Info(info),
        StartAnswer::Running(true),
    ]);
    assert_eq!(step, StartStep::Refuse);
    let step = run_daemon(step, StartAnswer::Running(false));
    let step = run_daemon(step, StartAnswer::Bound { port: 2, pid: 3 });
    assert_eq!(step, StartStep::Refuse);
    assert_eq!(already_running(), "Daemon is running already");
    assert_eq!(frun::daemon::LISTEN_ADDRESS, "127.0.0.1:0");
}

#[test]
fn answers_to_something_else_change_nothing() {
    assert_eq!(started(vec![StartAnswer::Announced]), StartStep::CheckInfo);
    assert_eq!(started(vec![StartAnswer::Running(false)]), StartStep::CheckInfo);
}

#[test]
fn daemon_runs_if_its_entry_is_there() {
    assert!(daemon_running(5, &Probe::ProcEntry(true)));
    assert!(!daemon_running(5, &Probe::ProcEntry(false)));
    assert_eq!(proc_entry(0), "/proc/0");
    assert_eq!(proc_entry(4294967295), "/proc/4294967295");
}

#[test]
fn daemon_runs_if_it_is_listed() {
    let listing = |text: &[u8]| Probe::Listing(Some(text.to_vec()));
    assert!(daemon_running(1234, &listing(b"\"frun.exe\",\"1234\",\"Console\"")));
    assert!(!daemon_running(1234, &listing(b"\"frun.exe\",\"123\",\"Console\"")));
    assert!(!daemon_running(1234, &listing(b"")));
    assert!(!daemon_running(1234, &Probe::Listing(None)));
    assert!(daemon_running(1234, &listing(b"\xff\xfe1234\xff")));
    assert!(!daemon_running(1234, &listing(b"12\xff34")));
    assert!(listed(12, &name("pid 12")));
    assert_eq!(tasklist_args(42), vec!["/FI", "PID eq 42", "/FO", "CSV"]);
}

#[test]
fn state_follows_the_process() {
    let mut state = SessionState::Running;
    assert!(!state.is_exited());
    assert!(!state.observe(Polled::StillRunning));
    assert_eq!(state, SessionState::Running);
    assert!(state.observe(Polled::Exited(name("exit status: 3"))));
    assert_eq!(state, SessionState::Exited(name("exit status: 3")));
    assert!(state.is_exited());
}

#[test]
fn state_ends_where_the_process_cannot_be_watched() {
    let mut state = SessionState::Running;
    assert!(state.observe(Polled::Failed(name("no child"))));
    assert_eq!(state, SessionState::Exited(name("no child")));
}

#[test]
fn run_under_a_free_name_is_launched() {
    let mut table: SessionTable<u32> = SessionTable::new();
    table.insert(name("b"), 2);
    let request = Request::Run { name: name("a"), command: vec![name("ls"), name("-l")] };
    match handle_request(&table, request) {
        RequestStep::Launch { name, command } => {
            assert_eq!(name, "a");
            assert_eq!(command, vec!["ls", "-l"]);
        }
        _ => panic!("not launched"),
    }
}

#[test]
fn run_under_a_taken_name_is_not_launched() {
    let mut table: SessionTable<u32> = SessionTable::new();
    table.insert(name("a"), 1);
    match handle_request(&table, Request::Run { name: name("a"), command: vec![name("ls")] }) {
        RequestStep::Occupied(session) => assert_eq!(*session, 1),
        _ => panic!("not occupied"),
    }
    assert_eq!(name_occupied(&SessionState::Running), Response::SessionNameOccupied(false));
    assert_eq!(
        name_occupied(&SessionState::Exited(name("exit status: 0"))),
        Response::SessionNameOccupied(true)
    );
}

#[test]
fn command_is_parted_into_program_and_arguments() {
    let (program, args) = command_parts(vec![name("python"), name("-u"), name("a.py")]);
    assert_eq!(program, "python");
    assert_eq!(args, vec!["-u", "a.py"]);
    let (program, args) = command_parts(vec![name("ls")]);
    assert_eq!(program, "ls");
    assert!(args.is_empty());
}

#[test]
fn started_session_is_entered() {
    let mut table: SessionTable<u32> = SessionTable::new();
    assert_eq!(handle_run(&mut table, name("a"), Ok(1)), Response::RunSuccess);
    assert_eq!(handle_attach(&table, &name("a")), Ok(&1));
    assert_eq!(handle_run(&mut table, name("a"), Ok(2)), Response::RunSuccess);
    assert_eq!(handle_attach(&table, &name("a")), Ok(&2));
}

#[test]
fn failed_start_leaves_the_sessions_alone() {
    let mut table: SessionTable<u32> = SessionTable::new();
    table.insert(name("b"), 2);
    assert_eq!(
        handle_run(&mut table, name("a"), Err(name("No such file"))),
        Response::RunFailed(name("No such file"))
    );
    assert_eq!(table.names(), vec!["b"]);
}

#[test]
fn attach_finds_the_session() {
    let mut table: SessionTable<u32> = SessionTable::new();
    table.insert(name("a"), 1);
    match handle_request(&table, Request::Attach { name: name("a") }) {
        RequestStep::Attach(session) => assert_eq!(*session, 1),
        _ => panic!("not attached"),
    }
    match handle_request(&table, Request::Attach { name: name("b") }) {
        RequestStep::Respond(response) => assert_eq!(response, Response::SessionNotExists),
        _ => panic!("not refused"),
    }
    assert_eq!(handle_attach(&table, &name("b")), Err(Response::SessionNotExists));
}

#[test]
fn list_names_every_session_once() {
    let mut table: SessionTable<u32> = SessionTable::new();
    for text in ["c", "a", "b", "a"] {
        table.insert(name(text), 0);
    }
    match handle_request(&table, Request::List) {
        RequestStep::Respond(Response::SessionList(mut names)) => {
            names.sort();
            assert_eq!(names, vec!["a", "b", "c"]);
        }
        _ => panic!("not listed"),
    }
}

#[test]
fn delete_finds_the_session() {
    let mut table: SessionTable<u32> = SessionTable::new();
    table.insert(name("a"), 1);
    match handle_request(&table, Request::Delete { name: name("a"), force: true }) {
        RequestStep::Delete { session, name, force } => {
            assert_eq!((*session, name.as_str(), force), (1, "a", true));
        }
        _ => panic!("not deleted"),
    }
    match handle_request(&table, Request::Delete { name: name("b"), force: false }) {
        RequestStep::Respond(response) => assert_eq!(response, Response::SessionNotExists),
        _ => panic!("not refused"),
    }
}

#[test]
fn failure_ends_the_start() {
    let failed = || StartAnswer::Failed(name("broken"));
    let fail = || StartStep::Fail(name("broken"));
    let step = started(vec![StartAnswer::Exists(true), failed()]);
    assert_eq!(step, fail());
    assert_eq!(run_daemon(step, StartAnswer::Bound { port: 2, pid: 3 }), fail());
    assert_eq!(started(vec![StartAnswer::Exists(false), failed()]), fail());
    let bound = StartAnswer::Bound { port: 2, pid: 3 };
    assert_eq!(started(vec![StartAnswer::Exists(false), bound, failed()]), fail());
    assert_eq!(started(vec![failed()]), StartStep::CheckInfo);
}

#[test]
fn session_begins_running_with_nothing_in_its_history() {
    let (state, history) = begin_session();
    assert_eq!(state, SessionState::Running);
    assert!(history.snapshot().is_empty());
}

#[test]
fn failed_request_is_told() {
    assert_eq!(request_failure("broken pipe"), "error in handling request: broken pipe");
}
