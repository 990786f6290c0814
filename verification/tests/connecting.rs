use frun::connect::{
    begin_connect, begin_launch, connect_failure, create_daemon_process, daemon_address, daemon_args,
    gave_up, get_daemon, not_started, ConnectAnswer, ConnectStep, LaunchAnswer, LaunchStep,
};
use frun::daemon::DeamonInfo;
use frun::notice::Notice;

const INFO: DeamonInfo = DeamonInfo { port: 4711, pid: 12 };

fn connect(series: Vec<ConnectAnswer>) -> ConnectStep {
    series.into_iter().fold(begin_connect(), get_daemon)
}

fn launch(series: Vec<LaunchAnswer>) -> LaunchStep {
    series.into_iter().fold(begin_launch(), create_daemon_process)
}

fn waited(times: usize) -> Vec<LaunchAnswer> {
    let mut series = vec![LaunchAnswer::Spawned];
    for _ in 0..times {
        series.push(LaunchAnswer::Exists(false));
        series.push(LaunchAnswer::Slept);
    }
    series
}

#[test]
fn daemon_that_is_there_is_connected_to() {
    assert_eq!(begin_connect(), ConnectStep::Look { left: 5 });
    assert_eq!(connect(vec![ConnectAnswer::Exists(true)]), ConnectStep::Read { left: 5 });
    let read = || vec![ConnectAnswer::Exists(true), ConnectAnswer::Info(INFO)];
    assert_eq!(connect(read()), ConnectStep::Connect { left: 5, info: INFO });
    let mut series = read();
    series.push(ConnectAnswer::Connected);
    assert_eq!(connect(series), ConnectStep::Done);
    assert_eq!(daemon_address(4711), "127.0.0.1:4711");
    assert_eq!(daemon_address(0), "127.0.0.1:0");
}

#[test]
fn daemon_is_launched_where_there_is_none() {
    assert_eq!(connect(vec![ConnectAnswer::Exists(false)]), ConnectStep::Launch { left: 5 });
    assert_eq!(
        connect(vec![ConnectAnswer::Exists(false), ConnectAnswer::Launched]),
        ConnectStep::Look { left: 4 }
    );
}

fn refused() -> Vec<ConnectAnswer> {
    vec![
        ConnectAnswer::Exists(true),
        ConnectAnswer::Info(INFO),
        ConnectAnswer::Refused("refused".to_string()),
    ]
}

#[test]
fn word_of_a_daemon_that_is_gone_is_removed() {
    let error = "refused".to_string();
    assert_eq!(connect(refused()), ConnectStep::CheckPid { left: 5, info: INFO, error });
    let mut series = refused();
    series.push(ConnectAnswer::Running(false));
    assert_eq!(connect(series), ConnectStep::Forget { left: 5 });
    let mut series = refused();
    series.push(ConnectAnswer::Running(false));
    series.push(ConnectAnswer::Forgotten);
    assert_eq!(connect(series), ConnectStep::Look { left: 4 });
}

#[test]
fn daemon_that_runs_is_tried_again() {
    let mut series = refused();
    series.push(ConnectAnswer::Running(true));
    let error = "refused".to_string();
    assert_eq!(connect(series), ConnectStep::Pause { left: 5, info: INFO, error });
    assert_eq!(
        connect_failure(INFO, "refused".to_string()),
        Notice::ConnectFailed {
            address: "127.0.0.1:4711".to_string(),
            error: "refused".to_string()
        }
    );
}

#[test]
fn client_gives_up_after_five_attempts() {
    let mut series = Vec::new();
    for _ in 0..4 {
        series.push(ConnectAnswer::Exists(false));
        series.push(ConnectAnswer::Launched);
    }
    let step = connect(series);
    assert_eq!(step, ConnectStep::Look { left: 1 });
    let step = get_daemon(step, ConnectAnswer::Exists(false));
    let step = get_daemon(step, ConnectAnswer::Launched);
    assert_eq!(step, ConnectStep::GiveUp);
    assert_eq!(gave_up(), Notice::GaveUp { retries: 5 });
    assert_eq!(get_daemon(step, ConnectAnswer::Connected), ConnectStep::GiveUp);
}

#[test]
fn launched_daemon_is_waited_for() {
    assert_eq!(begin_launch(), LaunchStep::Spawn);
    assert_eq!(daemon_args(), vec!["daemon"]);
    assert_eq!(launch(waited(0)), LaunchStep::Check { left: 10 });
    let looked = vec![LaunchAnswer::Spawned, LaunchAnswer::Exists(false)];
    assert_eq!(launch(looked), LaunchStep::Sleep { left: 10 });
    assert_eq!(launch(waited(1)), LaunchStep::Check { left: 9 });
    let there = || {
        let mut series = waited(1);
        series.push(LaunchAnswer::Exists(true));
        series
    };
    assert_eq!(launch(there()), LaunchStep::LastCheck);
    let mut ready = there();
    ready.push(LaunchAnswer::Exists(true));
    ready.push(LaunchAnswer::Killed);
    assert_eq!(launch(ready), LaunchStep::Ready);
}

#[test]
fn launched_daemon_is_killed_after_ten_looks() {
    assert_eq!(launch(waited(9)), LaunchStep::Check { left: 1 });
    assert_eq!(launch(waited(10)), LaunchStep::LastCheck);
    let step = create_daemon_process(launch(waited(10)), LaunchAnswer::Exists(false));
    assert_eq!(step, LaunchStep::Kill);
    assert_eq!(create_daemon_process(step, LaunchAnswer::Killed), LaunchStep::NotStarted);
    assert_eq!(not_started(), Notice::DaemonNotStarted);
}

#[test]
fn failure_on_the_way_to_the_daemon_is_the_last_step() {
    let failed = || ConnectAnswer::Failed("broken".to_string());
    let fail = || ConnectStep::Fail("broken".to_string());
    let series = vec![ConnectAnswer::Exists(true), failed()];
    assert_eq!(connect(series), fail());
    let mut series = refused();
    series.push(ConnectAnswer::Running(false));
    series.push(failed());
    series.push(ConnectAnswer::Exists(false));
    assert_eq!(connect(series), fail());
    assert_eq!(connect(vec![failed()]), ConnectStep::Look { left: 5 });
}

#[test]
fn failed_launch_costs_one_attempt() {
    let step = connect(vec![
        ConnectAnswer::Exists(false),
        ConnectAnswer::NotLaunched("broken".to_string()),
    ]);
    assert_eq!(step, ConnectStep::Report { left: 5, error: "broken".to_string() });
    assert_eq!(get_daemon(step, ConnectAnswer::Reported), ConnectStep::Look { left: 4 });
}

#[test]
fn failure_to_spawn_or_kill_is_the_last_step() {
    let failed = || LaunchAnswer::Failed("broken".to_string());
    let fail = || LaunchStep::Fail("broken".to_string());
    assert_eq!(launch(vec![failed(), LaunchAnswer::Spawned]), fail());
    let mut series = waited(10);
    series.push(LaunchAnswer::Exists(false));
    series.push(failed());
    assert_eq!(launch(series), fail());
    assert_eq!(launch(vec![LaunchAnswer::Spawned, failed()]), LaunchStep::Check { left: 10 });
}
