//! How a client reaches the daemon, and starts one where none is there.

use vstd::prelude::*;

use crate::daemon::{DeamonInfo, POLL_MILLIS};
use crate::notice::Notice;
use crate::text::{decimal, decimal_notation_has_the_value, decimal_text, texts, value_of};

verus! {

/// In how many attempts a client tries to reach the daemon.
pub const MAX_RETRIES: u32 = 5;

/// How often a client looks whether a daemon that it has started has left word of itself.
pub const LAUNCH_POLLS: u32 = 10;

/// The next piece of work on the way to the daemon; `left` counts the attempt at hand and those
/// after it.
#[derive(Debug, PartialEq, Eq)]
pub enum ConnectStep {
    /// See whether a daemon has left word of itself.
    Look { left: u32 },
    /// Read what it left.
    Read { left: u32 },
    /// Connect to the `daemon_address` of its port.
    Connect { left: u32, info: DeamonInfo },
    /// See whether its process is there, after the connection failed.
    CheckPid { left: u32, info: DeamonInfo, error: String },
    /// Tell the user the `connect_failure`, and wait for a moment.
    Pause { left: u32, info: DeamonInfo, error: String },
    /// Remove what a daemon that is gone left.
    Forget { left: u32 },
    /// Start a daemon.
    Launch { left: u32 },
    /// Tell the user this error, with which the daemon could not be started.
    Report { left: u32, error: String },
    /// The connection stands.
    Done,
    /// Give up with the notice of `gave_up`.
    GiveUp,
    /// Give up with this error.
    Fail(String),
}

/// What a piece of that work came to. To read and to remove what a daemon left can fail, each with
/// an error.
#[derive(Debug, PartialEq, Eq)]
pub enum ConnectAnswer {
    Exists(bool),
    Info(DeamonInfo),
    Connected,
    Refused(String),
    Running(bool),
    Paused,
    Forgotten,
    Launched,
    NotLaunched(String),
    Reported,
    Failed(String),
}

/// What comes after an attempt that failed.
pub open spec fn retry(left: u32) -> ConnectStep {
    if left > 1 {
        ConnectStep::Look { left: (left - 1) as u32 }
    } else {
        ConnectStep::GiveUp
    }
}

/// What comes after `step` once it came to `answer`. An answer to something else changes nothing.
pub open spec fn connect_next(step: ConnectStep, answer: ConnectAnswer) -> ConnectStep {
    match (step, answer) {
        (ConnectStep::Look { left }, ConnectAnswer::Exists(there)) => if there {
            ConnectStep::Read { left }
        } else {
            ConnectStep::Launch { left }
        },
        (ConnectStep::Read { left }, ConnectAnswer::Info(info)) => ConnectStep::Connect {
            left,
            info,
        },
        (ConnectStep::Connect { .. }, ConnectAnswer::Connected) => ConnectStep::Done,
        (
            ConnectStep::Connect { left, info },
            ConnectAnswer::Refused(error),
        ) => ConnectStep::CheckPid { left, info, error },
        (ConnectStep::CheckPid { left, info, error }, ConnectAnswer::Running(running)) => if running {
            ConnectStep::Pause { left, info, error }
        } else {
            ConnectStep::Forget { left }
        },
        (ConnectStep::Pause { left, .. }, ConnectAnswer::Paused) => retry(left),
        (ConnectStep::Forget { left }, ConnectAnswer::Forgotten) => retry(left),
        (ConnectStep::Launch { left }, ConnectAnswer::Launched) => retry(left),
        (ConnectStep::Launch { left }, ConnectAnswer::NotLaunched(error)) => ConnectStep::Report {
            left,
            error,
        },
        (ConnectStep::Report { left, .. }, ConnectAnswer::Reported) => retry(left),
        (ConnectStep::Read { .. }, ConnectAnswer::Failed(error)) => ConnectStep::Fail(error),
        (ConnectStep::Forget { .. }, ConnectAnswer::Failed(error)) => ConnectStep::Fail(error),
        _ => step,
    }
}

fn next_attempt(left: u32) -> (res: ConnectStep)
    ensures
        res == retry(left),
{
    if left > 1 {
        ConnectStep::Look { left: left - 1 }
    } else {
        ConnectStep::GiveUp
    }
}

/// The first step on the way to the daemon.
pub fn begin_connect() -> (res: ConnectStep)
    ensures
        res == (ConnectStep::Look { left: MAX_RETRIES }),
{
    ConnectStep::Look { left: MAX_RETRIES }
}

/// Decides how a client goes on to reach the daemon: what to do next after `step` came to `answer`.
pub fn get_daemon(step: ConnectStep, answer: ConnectAnswer) -> (res: ConnectStep)
    ensures
        res == connect_next(step, answer),
{
    match (step, answer) {
        (ConnectStep::Look { left }, ConnectAnswer::Exists(there)) => if there {
            ConnectStep::Read { left }
        } else {
            ConnectStep::Launch { left }
        },
        (ConnectStep::Read { left }, ConnectAnswer::Info(info)) => ConnectStep::Connect {
            left,
            info,
        },
        (ConnectStep::Connect { .. }, ConnectAnswer::Connected) => ConnectStep::Done,
        (
            ConnectStep::Connect { left, info },
            ConnectAnswer::Refused(error),
        ) => ConnectStep::CheckPid { left, info, error },
        (ConnectStep::CheckPid { left, info, error }, ConnectAnswer::Running(running)) => if running {
            ConnectStep::Pause { left, info, error }
        } else {
            ConnectStep::Forget { left }
        },
        (ConnectStep::Pause { left, .. }, ConnectAnswer::Paused) => next_attempt(left),
        (ConnectStep::Forget { left }, ConnectAnswer::Forgotten) => next_attempt(left),
        (ConnectStep::Launch { left }, ConnectAnswer::Launched) => next_attempt(left),
        (ConnectStep::Launch { left }, ConnectAnswer::NotLaunched(error)) => ConnectStep::Report {
            left,
            error,
        },
        (ConnectStep::Report { left, .. }, ConnectAnswer::Reported) => next_attempt(left),
        (ConnectStep::Read { .. }, ConnectAnswer::Failed(error)) => ConnectStep::Fail(error),
        (ConnectStep::Forget { .. }, ConnectAnswer::Failed(error)) => ConnectStep::Fail(error),
        (step, _) => step,
    }
}

/// Where the daemon that listens on a port is reached.
pub open spec fn address_text(port: u16) -> Seq<char> {
    "127.0.0.1:"@ + decimal_text(port as nat)
}

/// Where the daemon that listens on a port is reached.
pub fn daemon_address(port: u16) -> (res: String)
    ensures
        res@ == address_text(port),
        res@ == "127.0.0.1:"@ + decimal_text(port as nat),
{
    "127.0.0.1:".to_owned().concat(decimal(port as u64).as_str())
}

/// What the user is told when a daemon that is there could not be reached.
pub fn connect_failure(info: DeamonInfo, error: String) -> (res: Notice)
    ensures
        res matches Notice::ConnectFailed { address, error: e } && address@ == address_text(info.port)
            && e == error,
{
    Notice::ConnectFailed { address: daemon_address(info.port), error }
}

/// What the user is told when all attempts to reach the daemon have failed.
pub fn gave_up() -> (res: Notice)
    ensures
        res == (Notice::GaveUp { retries: MAX_RETRIES }),
{
    Notice::GaveUp { retries: MAX_RETRIES }
}

/// Where a client stands after a series of answers.
pub open spec fn connect_run(series: Seq<ConnectAnswer>) -> ConnectStep
    decreases series.len(),
{
    if series.len() == 0 {
        ConnectStep::Look { left: MAX_RETRIES }
    } else {
        connect_next(connect_run(series.drop_last()), series.last())
    }
}

/// Whether `answer` ends an attempt that stands at `step` in failure.
pub open spec fn attempt_fails(step: ConnectStep, answer: ConnectAnswer) -> bool {
    ||| step is Pause && answer is Paused
    ||| step is Forget && answer is Forgotten
    ||| step is Launch && answer is Launched
    ||| step is Report && answer is Reported
}

/// How many attempts have failed in the course of a series of answers.
pub open spec fn failures(series: Seq<ConnectAnswer>) -> nat
    decreases series.len(),
{
    if series.len() == 0 {
        0
    } else {
        failures(series.drop_last()) + if attempt_fails(
            connect_run(series.drop_last()),
            series.last(),
        ) {
            1nat
        } else {
            0nat
        }
    }
}

/// The number of attempts that are left at a step, the one at hand included.
pub open spec fn attempts_left(step: ConnectStep) -> Option<u32> {
    match step {
        ConnectStep::Look { left } => Some(left),
        ConnectStep::Read { left } => Some(left),
        ConnectStep::Connect { left, .. } => Some(left),
        ConnectStep::CheckPid { left, .. } => Some(left),
        ConnectStep::Pause { left, .. } => Some(left),
        ConnectStep::Forget { left } => Some(left),
        ConnectStep::Launch { left } => Some(left),
        ConnectStep::Report { left, .. } => Some(left),
        ConnectStep::Done => None,
        ConnectStep::GiveUp => None,
        ConnectStep::Fail(_) => None,
    }
}

/// A client makes no more attempts than `MAX_RETRIES`, and gives up when all of them have failed
/// and not before.
pub proof fn attempts_are_bounded(series: Seq<ConnectAnswer>)
    ensures
        failures(series) <= MAX_RETRIES,
        connect_run(series) is GiveUp <==> failures(series) == MAX_RETRIES,
        attempts_left(connect_run(series)) matches Some(left) ==> left + failures(series)
            == MAX_RETRIES && left > 0,
    decreases series.len(),
{
    if series.len() > 0 {
        attempts_are_bounded(series.drop_last());
    }
}

/// How far a step is from the end, at most.
pub open spec fn connect_rank(step: ConnectStep) -> int {
    match step {
        ConnectStep::Look { left } => 5 * left + 4,
        ConnectStep::Read { left } => 5 * left + 3,
        ConnectStep::Connect { left, .. } => 5 * left + 2,
        ConnectStep::CheckPid { left, .. } => 5 * left + 1,
        ConnectStep::Pause { left, .. } => 5 * left,
        ConnectStep::Forget { left } => 5 * left,
        ConnectStep::Launch { left } => 5 * left + 1,
        ConnectStep::Report { left, .. } => 5 * left,
        ConnectStep::Done => 0,
        ConnectStep::GiveUp => 0,
        ConnectStep::Fail(_) => 0,
    }
}

/// Whatever comes of a step brings the end nearer or is no answer to it, so a client does not try
/// forever.
pub proof fn every_answer_brings_the_end_nearer(series: Seq<ConnectAnswer>, answer: ConnectAnswer)
    ensures
        ({
            let step = connect_run(series);
            let after = connect_run(series.push(answer));
            &&& 0 <= connect_rank(step) <= 5 * MAX_RETRIES + 4
            &&& after == step || connect_rank(after) < connect_rank(step)
            &&& connect_rank(step) == 0 <==> step is Done || step is GiveUp
                || step is Fail
        }),
{
    attempts_are_bounded(series);
    assert(series.push(answer).drop_last() =~= series);
}

/// What a daemon left is removed only after its process was found gone, and a daemon is started
/// only where none has left word of itself.
pub proof fn a_running_daemon_is_not_forgotten(series: Seq<ConnectAnswer>, answer: ConnectAnswer)
    ensures
        ({
            let step = connect_run(series);
            let after = connect_run(series.push(answer));
            &&& after is Forget && after != step ==> step is CheckPid && answer
                == ConnectAnswer::Running(false)
            &&& after is Launch && after != step ==> step is Look && answer
                == ConnectAnswer::Exists(false)
            &&& after is Done && after != step ==> step is Connect && answer
                == ConnectAnswer::Connected
        }),
{
    assert(series.push(answer).drop_last() =~= series);
}

/// Once a client is done or has given up it makes no further attempt, whatever comes after.
pub proof fn an_ended_search_stays_ended(series: Seq<ConnectAnswer>, later: Seq<ConnectAnswer>)
    requires
        attempts_left(connect_run(series)) is None,
    ensures
        connect_run(series + later) == connect_run(series),
    decreases later.len(),
{
    if later.len() == 0 {
        assert(series + later =~= series);
    } else {
        an_ended_search_stays_ended(series, later.drop_last());
        assert((series + later).drop_last() =~= series + later.drop_last());
    }
}

/// Where what a daemon left cannot be read or removed, a client gives up with that error at once,
/// whatever attempts were left: it starts no daemon and makes no further attempt.
pub proof fn a_failure_ends_the_search(
    series: Seq<ConnectAnswer>,
    error: String,
    later: Seq<ConnectAnswer>,
)
    requires
        connect_run(series) is Read || connect_run(series) is Forget,
    ensures
        connect_run(series.push(ConnectAnswer::Failed(error)) + later) == ConnectStep::Fail(error),
{
    assert(series.push(ConnectAnswer::Failed(error)).drop_last() =~= series);
    an_ended_search_stays_ended(series.push(ConnectAnswer::Failed(error)), later);
}

/// A daemon that could not be started costs its attempt and no more: once the user is told, the
/// client goes on as after any other attempt that failed.
pub proof fn a_failed_launch_is_one_failed_attempt(
    series: Seq<ConnectAnswer>,
    left: u32,
    error: String,
)
    requires
        connect_run(series) == (ConnectStep::Launch { left }),
    ensures
        ({
            let reported = series.push(ConnectAnswer::NotLaunched(error));
            &&& connect_run(reported) == (ConnectStep::Report { left, error })
            &&& connect_run(reported.push(ConnectAnswer::Reported)) == connect_run(
                series.push(ConnectAnswer::Launched),
            )
        }),
{
    let reported = series.push(ConnectAnswer::NotLaunched(error));
    assert(reported.drop_last() =~= series);
    assert(reported.push(ConnectAnswer::Reported).drop_last() =~= reported);
    assert(series.push(ConnectAnswer::Launched).drop_last() =~= series);
}

/// The arguments with which this program, run by itself, is the daemon.
pub fn daemon_args() -> (res: Vec<String>)
    ensures
        texts(res@) == seq!["daemon"@],
{
    let mut args: Vec<String> = Vec::new();
    args.push("daemon".to_owned());
    assert(texts(args@) =~= seq!["daemon"@]);
    args
}

/// The next piece of work for a client that starts a daemon; `left` counts the looks that are left.
#[derive(Debug, PartialEq, Eq)]
pub enum LaunchStep {
    /// Run this program itself with the `daemon_args`.
    Spawn,
    /// See whether the daemon has left word of itself.
    Check { left: u32 },
    /// Wait for a moment.
    Sleep { left: u32 },
    /// See for the last time whether it has.
    LastCheck,
    /// The daemon is there.
    Ready,
    /// Kill the process that was started.
    Kill,
    /// Give up with the notice of `not_started`.
    NotStarted,
    /// Give up with this error.
    Fail(String),
}

/// What a piece of that work came to. To run the program and to kill it can fail, each with an
/// error.
#[derive(Debug, PartialEq, Eq)]
pub enum LaunchAnswer {
    Spawned,
    Exists(bool),
    Slept,
    Killed,
    Failed(String),
}

/// What comes after `step` once it came to `answer`. An answer to something else changes nothing.
pub open spec fn launch_next(step: LaunchStep, answer: LaunchAnswer) -> LaunchStep {
    match (step, answer) {
        (LaunchStep::Spawn, LaunchAnswer::Spawned) => LaunchStep::Check { left: LAUNCH_POLLS },
        (LaunchStep::Check { left }, LaunchAnswer::Exists(there)) => if there {
            LaunchStep::LastCheck
        } else {
            LaunchStep::Sleep { left }
        },
        (LaunchStep::Sleep { left }, LaunchAnswer::Slept) => if left > 1 {
            LaunchStep::Check { left: (left - 1) as u32 }
        } else {
            LaunchStep::LastCheck
        },
        (LaunchStep::LastCheck, LaunchAnswer::Exists(there)) => if there {
            LaunchStep::Ready
        } else {
            LaunchStep::Kill
        },
        (LaunchStep::Kill, LaunchAnswer::Killed) => LaunchStep::NotStarted,
        (LaunchStep::Spawn, LaunchAnswer::Failed(error)) => LaunchStep::Fail(error),
        (LaunchStep::Kill, LaunchAnswer::Failed(error)) => LaunchStep::Fail(error),
        _ => step,
    }
}

/// The first step of a client that starts a daemon.
pub fn begin_launch() -> (res: LaunchStep)
    ensures
        res == LaunchStep::Spawn,
{
    LaunchStep::Spawn
}

/// What the user is told when a daemon was started and left no word of itself.
pub fn not_started() -> (res: Notice)
    ensures
        res == Notice::DaemonNotStarted,
{
    Notice::DaemonNotStarted
}

/// Decides how a client goes on that starts a daemon: what to do next after `step` came to
/// `answer`.
pub fn create_daemon_process(step: LaunchStep, answer: LaunchAnswer) -> (res: LaunchStep)
    ensures
        res == launch_next(step, answer),
{
    match (step, answer) {
        (LaunchStep::Spawn, LaunchAnswer::Spawned) => LaunchStep::Check { left: LAUNCH_POLLS },
        (LaunchStep::Check { left }, LaunchAnswer::Exists(there)) => if there {
            LaunchStep::LastCheck
        } else {
            LaunchStep::Sleep { left }
        },
        (LaunchStep::Sleep { left }, LaunchAnswer::Slept) => if left > 1 {
            LaunchStep::Check { left: left - 1 }
        } else {
            LaunchStep::LastCheck
        },
        (LaunchStep::LastCheck, LaunchAnswer::Exists(there)) => if there {
            LaunchStep::Ready
        } else {
            LaunchStep::Kill
        },
        (LaunchStep::Kill, LaunchAnswer::Killed) => LaunchStep::NotStarted,
        (LaunchStep::Spawn, LaunchAnswer::Failed(error)) => LaunchStep::Fail(error),
        (LaunchStep::Kill, LaunchAnswer::Failed(error)) => LaunchStep::Fail(error),
        (step, _) => step,
    }
}

/// Where a client that starts a daemon stands after a series of answers.
pub open spec fn launch_run(series: Seq<LaunchAnswer>) -> LaunchStep
    decreases series.len(),
{
    if series.len() == 0 {
        LaunchStep::Spawn
    } else {
        launch_next(launch_run(series.drop_last()), series.last())
    }
}

/// The answers in the course of which a client has run a daemon, looked in vain and waited so many
/// times.
pub open spec fn waited(times: nat) -> Seq<LaunchAnswer>
    decreases times,
{
    if times == 0 {
        seq![LaunchAnswer::Spawned]
    } else {
        waited((times - 1) as nat).push(LaunchAnswer::Exists(false)).push(LaunchAnswer::Slept)
    }
}

/// A daemon that was started is waited for as often as `LAUNCH_POLLS` says and no more.
pub proof fn a_started_daemon_is_given_time(times: nat)
    requires
        times <= LAUNCH_POLLS,
    ensures
        launch_run(waited(times)) == (if times < LAUNCH_POLLS {
            LaunchStep::Check { left: (LAUNCH_POLLS - times) as u32 }
        } else {
            LaunchStep::LastCheck
        }),
    decreases times,
{
    if times > 0 {
        a_started_daemon_is_given_time((times - 1) as nat);
        let looked = waited((times - 1) as nat).push(LaunchAnswer::Exists(false));
        assert(looked.drop_last() =~= waited((times - 1) as nat));
        assert(launch_run(looked) is Sleep);
        assert(waited(times).drop_last() =~= looked);
    } else {
        reveal_with_fuel(launch_run, 2);
        assert(waited(times).drop_last() =~= seq![]);
    }
}

/// A daemon counts as started where the last look finds what it left, and only there; otherwise
/// its process is killed before the client gives up.
pub proof fn the_last_look_decides(series: Seq<LaunchAnswer>, answer: LaunchAnswer)
    ensures
        ({
            let step = launch_run(series);
            let after = launch_run(series.push(answer));
            &&& after is Ready && after != step <==> step is LastCheck && answer
                == LaunchAnswer::Exists(true)
            &&& after is Kill && after != step <==> step is LastCheck && answer
                == LaunchAnswer::Exists(false)
            &&& after is NotStarted && after != step <==> step is Kill && answer is Killed
        }),
{
    assert(series.push(answer).drop_last() =~= series);
}

/// Whether the start of a daemon has come to its end at a step.
pub open spec fn launch_ended(step: LaunchStep) -> bool {
    step is Ready || step is NotStarted || step is Fail
}

/// Once the start of a daemon has come to its end nothing more is done, whatever comes after; above
/// all a daemon that is there is not killed.
pub proof fn an_ended_launch_stays_ended(series: Seq<LaunchAnswer>, later: Seq<LaunchAnswer>)
    requires
        launch_ended(launch_run(series)),
    ensures
        launch_run(series + later) == launch_run(series),
    decreases later.len(),
{
    if later.len() == 0 {
        assert(series + later =~= series);
    } else {
        an_ended_launch_stays_ended(series, later.drop_last());
        assert((series + later).drop_last() =~= series + later.drop_last());
    }
}

/// Where the program cannot be run or cannot be killed, the client gives up with that error at
/// once, whatever comes after.
pub proof fn a_failure_ends_the_launch(
    series: Seq<LaunchAnswer>,
    error: String,
    later: Seq<LaunchAnswer>,
)
    requires
        launch_run(series) is Spawn || launch_run(series) is Kill,
    ensures
        launch_run(series.push(LaunchAnswer::Failed(error)) + later) == LaunchStep::Fail(error),
{
    assert(series.push(LaunchAnswer::Failed(error)).drop_last() =~= series);
    an_ended_launch_stays_ended(series.push(LaunchAnswer::Failed(error)), later);
}

/// Where a daemon is reached is this machine and its own port, for every port there is.
pub proof fn the_address_has_the_port(port: u16)
    ensures
        "127.0.0.1:"@.is_prefix_of(address_text(port)),
        value_of(address_text(port).skip("127.0.0.1:"@.len() as int)) == port,
{
    decimal_notation_has_the_value(port as nat);
    let host = "127.0.0.1:"@;
    assert(address_text(port).take(host.len() as int) =~= host);
    assert(address_text(port).skip(host.len() as int) =~= decimal_text(port as nat));
}

/// Whether an answer belongs to the piece of work at hand.
pub open spec fn belongs(step: ConnectStep, answer: ConnectAnswer) -> bool {
    match step {
        ConnectStep::Look { .. } => answer is Exists,
        ConnectStep::Read { .. } => answer is Info || answer is Failed,
        ConnectStep::Connect { .. } => answer is Connected || answer is Refused,
        ConnectStep::CheckPid { .. } => answer is Running,
        ConnectStep::Pause { .. } => answer is Paused,
        ConnectStep::Forget { .. } => answer is Forgotten || answer is Failed,
        ConnectStep::Launch { .. } => answer is Launched || answer is NotLaunched,
        ConnectStep::Report { .. } => answer is Reported,
        _ => false,
    }
}

/// Each answer that belongs to the piece of work at hand leads to another piece of work, in whatever
/// attempt, and nearer to the end; any other changes nothing.
pub proof fn each_answer_of_its_own_moves_the_search_on(step: ConnectStep, answer: ConnectAnswer)
    ensures
        belongs(step, answer) <==> connect_next(step, answer) != step,
        belongs(step, answer) && (attempts_left(step) matches Some(left) && left > 0)
            ==> connect_rank(connect_next(step, answer)) < connect_rank(step),
{
}

/// A connection that stands ends the search, in whichever attempt it is made and to whatever daemon.
pub proof fn a_connection_that_stands_ends_the_search(
    left: u32,
    info: DeamonInfo,
    series: Seq<ConnectAnswer>,
)
    ensures
        connect_next(ConnectStep::Connect { left, info }, ConnectAnswer::Connected) is Done,
        connect_run(series) is Connect ==> connect_run(series.push(ConnectAnswer::Connected)) is Done,
{
    assert(series.push(ConnectAnswer::Connected).drop_last() =~= series);
}

/// In whatever attempt a client looks for the daemon, one that has left word of itself and takes
/// connections is reached, by the word that it left.
pub proof fn a_daemon_that_is_there_is_reached(
    series: Seq<ConnectAnswer>,
    left: u32,
    info: DeamonInfo,
)
    requires
        connect_run(series) == (ConnectStep::Look { left }),
    ensures
        ({
            let found = series.push(ConnectAnswer::Exists(true));
            let read = found.push(ConnectAnswer::Info(info));
            let connected = read.push(ConnectAnswer::Connected);
            &&& connect_run(found) == (ConnectStep::Read { left })
            &&& connect_run(read) == (ConnectStep::Connect { left, info })
            &&& connect_run(connected) is Done
        }),
{
    let found = series.push(ConnectAnswer::Exists(true));
    let read = found.push(ConnectAnswer::Info(info));
    let connected = read.push(ConnectAnswer::Connected);
    assert(found.drop_last() =~= series);
    assert(connect_run(found) == (ConnectStep::Read { left }));
    assert(read.drop_last() =~= found);
    assert(connect_run(read) == (ConnectStep::Connect { left, info }));
    assert(connected.drop_last() =~= read);
}

/// Where no daemon has left word of itself one is started, and reached in the next attempt, if there
/// is one and the daemon has left word of itself by then.
pub proof fn a_daemon_that_is_started_is_reached(
    series: Seq<ConnectAnswer>,
    left: u32,
    info: DeamonInfo,
)
    requires
        connect_run(series) == (ConnectStep::Look { left }),
        left > 1,
    ensures
        ({
            let missing = series.push(ConnectAnswer::Exists(false));
            let launched = missing.push(ConnectAnswer::Launched);
            let connected = launched.push(ConnectAnswer::Exists(true)).push(
                ConnectAnswer::Info(info),
            ).push(ConnectAnswer::Connected);
            &&& connect_run(missing) == (ConnectStep::Launch { left })
            &&& connect_run(launched) == (ConnectStep::Look { left: (left - 1) as u32 })
            &&& connect_run(connected) is Done
        }),
{
    let missing = series.push(ConnectAnswer::Exists(false));
    let launched = missing.push(ConnectAnswer::Launched);
    assert(missing.drop_last() =~= series);
    assert(connect_run(missing) == (ConnectStep::Launch { left }));
    assert(launched.drop_last() =~= missing);
    a_daemon_that_is_there_is_reached(launched, (left - 1) as u32, info);
}

/// A daemon that does not take a connection is looked into with the word that it left and the error:
/// where its process runs the user is told of both, where it is gone its word is removed.
pub proof fn a_refused_connection_is_looked_into(left: u32, info: DeamonInfo, error: String)
    ensures
        ({
            let refused = connect_next(
                ConnectStep::Connect { left, info },
                ConnectAnswer::Refused(error),
            );
            &&& refused == (ConnectStep::CheckPid { left, info, error })
            &&& connect_next(refused, ConnectAnswer::Running(true)) == (ConnectStep::Pause {
                left,
                info,
                error,
            })
            &&& connect_next(refused, ConnectAnswer::Running(false)) == (ConnectStep::Forget {
                left,
            })
        }),
{
}

/// After an attempt that came to nothing, for whatever reason, the client looks again, with one
/// attempt less, or gives up where it was the last.
pub proof fn the_next_attempt_begins_with_a_look(left: u32, info: DeamonInfo, error: String)
    ensures
        ({
            let ended = seq![
                connect_next(ConnectStep::Pause { left, info, error }, ConnectAnswer::Paused),
                connect_next(ConnectStep::Forget { left }, ConnectAnswer::Forgotten),
                connect_next(ConnectStep::Launch { left }, ConnectAnswer::Launched),
                connect_next(ConnectStep::Report { left, error }, ConnectAnswer::Reported),
            ];
            forall|i: int|
                0 <= i < 4 ==> #[trigger] ended[i] == (if left > 1 {
                    ConnectStep::Look { left: (left - 1) as u32 }
                } else {
                    ConnectStep::GiveUp
                })
        }),
{
}

/// A client gives up when five attempts have failed, and not before.
pub proof fn there_are_five_attempts(series: Seq<ConnectAnswer>)
    ensures
        failures(series) <= 5,
        connect_run(series) is GiveUp <==> failures(series) == 5,
{
    attempts_are_bounded(series);
}

/// The word that a daemon leaves of itself ends the wait for it at the next look, whichever look it
/// is; each look in vain is followed by a moment of waiting and then by the next look, or by the last
/// one where none is left.
pub proof fn a_started_daemon_is_looked_for(left: u32)
    ensures
        launch_next(LaunchStep::Spawn, LaunchAnswer::Spawned) == (LaunchStep::Check { left: 10 }),
        launch_next(LaunchStep::Check { left }, LaunchAnswer::Exists(true)) is LastCheck,
        launch_next(LaunchStep::Check { left }, LaunchAnswer::Exists(false)) == (
        LaunchStep::Sleep { left }),
        left > 1 ==> launch_next(LaunchStep::Sleep { left }, LaunchAnswer::Slept) == (
        LaunchStep::Check { left: (left - 1) as u32 }),
        left <= 1 ==> launch_next(LaunchStep::Sleep { left }, LaunchAnswer::Slept) is LastCheck,
{
}

/// A daemon that the last look finds is ready and is never killed; one that it does not find is
/// killed, and the client says so once that is done.
pub proof fn a_daemon_that_is_found_is_kept(answer: LaunchAnswer)
    ensures
        launch_next(LaunchStep::LastCheck, LaunchAnswer::Exists(true)) is Ready,
        launch_next(LaunchStep::Ready, answer) is Ready,
        launch_next(LaunchStep::LastCheck, LaunchAnswer::Exists(false)) is Kill,
        launch_next(LaunchStep::Kill, LaunchAnswer::Killed) is NotStarted,
{
}

/// Whether an answer belongs to the piece of work at hand in the start of a daemon.
pub open spec fn belongs_to_launch(step: LaunchStep, answer: LaunchAnswer) -> bool {
    match step {
        LaunchStep::Spawn => answer is Spawned || answer is Failed,
        LaunchStep::Check { .. } => answer is Exists,
        LaunchStep::Sleep { .. } => answer is Slept,
        LaunchStep::LastCheck => answer is Exists,
        LaunchStep::Kill => answer is Killed || answer is Failed,
        _ => false,
    }
}

/// Each answer that belongs to the piece of work at hand moves the start of a daemon on; any other
/// changes nothing.
pub proof fn each_answer_of_its_own_moves_the_launch_on(step: LaunchStep, answer: LaunchAnswer)
    ensures
        belongs_to_launch(step, answer) <==> launch_next(step, answer) != step,
{
}

/// What could not be done ends the search or the start of a daemon with that very error, in whatever
/// attempt.
pub proof fn an_error_is_given_up_with_as_it_is(left: u32, error: String)
    ensures
        connect_next(ConnectStep::Read { left }, ConnectAnswer::Failed(error))
            == ConnectStep::Fail(error),
        connect_next(ConnectStep::Forget { left }, ConnectAnswer::Failed(error))
            == ConnectStep::Fail(error),
        connect_next(ConnectStep::Launch { left }, ConnectAnswer::NotLaunched(error)) == (
        ConnectStep::Report { left, error }),
        launch_next(LaunchStep::Spawn, LaunchAnswer::Failed(error)) == LaunchStep::Fail(error),
        launch_next(LaunchStep::Kill, LaunchAnswer::Failed(error)) == LaunchStep::Fail(error),
{
}

/// A daemon that was started has one second to leave word of itself before it is killed.
pub proof fn a_started_daemon_has_one_second()
    ensures
        LAUNCH_POLLS * POLL_MILLIS == 1000,
{
}

} // verus!
