use bytes::Bytes;
use frun::daemon::SessionState;
use frun::history::History;
use frun::protocal::Response;
use frun::pump::{PumpAnswer, PumpStep};
use frun::relay::{
    begin_attach, begin_input, continue_attach, forward_input, live_output, read_output, write_input, AttachStep, InputAnswer,
    InputStep, LiveStep, OutputStep, Received,
};

fn exited() -> SessionState {
    SessionState::Exited("exit status: 0".to_string())
}

#[test]
fn output_is_recorded_and_broadcast() {
    let mut history = History::new();
    for state in [SessionState::Running, exited()] {
        match read_output(&mut history, &state, Some(b"out")) {
            OutputStep::Broadcast(data) => assert_eq!(data, b"out"),
            _ => panic!("not broadcast"),
        }
    }
    assert_eq!(
        history.snapshot(),
        vec![Bytes::from_static(b"out"), Bytes::from_static(b"out")]
    );
}

#[test]
fn output_ends_only_after_the_process() {
    let mut history = History::new();
    assert!(matches!(
        read_output(&mut history, &SessionState::Running, Some(b"")),
        OutputStep::Read
    ));
    assert!(matches!(read_output(&mut history, &exited(), Some(b"")), OutputStep::Stop));
    assert!(history.snapshot().is_empty());
}

#[test]
fn output_ends_where_it_cannot_be_read() {
    let mut history = History::new();
    assert!(matches!(
        read_output(&mut history, &SessionState::Running, None),
        OutputStep::Stop
    ));
    assert!(history.snapshot().is_empty());
}

#[test]
fn input_is_recorded_once_it_is_flushed() {
    let mut history = History::new();
    let step = PumpStep::Read;
    let step = write_input(&mut history, step, PumpAnswer::Read(Some(b"in".to_vec())));
    assert_eq!(step, PumpStep::Write(b"in".to_vec()));
    let step = write_input(&mut history, step, PumpAnswer::Wrote(Ok(())));
    assert_eq!(step, PumpStep::Flush(b"in".to_vec()));
    assert!(history.snapshot().is_empty());
    let step = write_input(&mut history, step, PumpAnswer::Flushed(Ok(())));
    assert_eq!(step, PumpStep::Read);
    assert_eq!(history.snapshot(), vec![Bytes::from_static(b"in")]);
    let step = write_input(&mut history, step, PumpAnswer::Read(None));
    assert_eq!(step, PumpStep::Stop(None));
}

#[test]
fn input_that_does_not_arrive_is_not_recorded() {
    let mut history = History::new();
    let step = write_input(
        &mut history,
        PumpStep::Write(b"in".to_vec()),
        PumpAnswer::Wrote(Err("broken pipe".to_string())),
    );
    assert_eq!(step, PumpStep::Stop(Some("Error writing to stdin: broken pipe".to_string())));
    let step = write_input(
        &mut history,
        PumpStep::Flush(b"in".to_vec()),
        PumpAnswer::Flushed(Err("broken pipe".to_string())),
    );
    assert_eq!(step, PumpStep::Stop(Some("Error flushing stdin: broken pipe".to_string())));
    assert!(history.snapshot().is_empty());
}

fn chunk_to_write(step: &AttachStep) -> &[u8] {
    match step {
        AttachStep::Replay { chunks, next } => &chunks[*next],
        _ => panic!("no history"),
    }
}

#[test]
fn attaching_client_gets_history_then_stream() {
    let mut history = History::new();
    assert!(matches!(begin_attach(), AttachStep::Subscribe));
    let step = continue_attach(&history, begin_attach(), true);
    assert!(matches!(step, AttachStep::Respond(Response::ForwardingReady)));
    history.push(Bytes::from_static(b"one"));
    history.push(Bytes::from_static(b"two"));
    let step = continue_attach(&history, step, false);
    assert_eq!(chunk_to_write(&step), b"one");
    history.push(Bytes::from_static(b"three"));
    let step = continue_attach(&history, step, true);
    assert_eq!(chunk_to_write(&step), b"two");
    assert!(matches!(continue_attach(&history, step, true), AttachStep::Stream));
    assert!(matches!(continue_attach(&history, AttachStep::Stream, true), AttachStep::Stream));
    assert!(matches!(continue_attach(&history, AttachStep::Stop, true), AttachStep::Stop));
}

#[test]
fn live_output_reaches_the_client() {
    match live_output(&SessionState::Running, Received::Data(b"x".to_vec())) {
        LiveStep::Send(data) => assert_eq!(data, b"x"),
        _ => panic!("not sent"),
    }
    assert!(matches!(live_output(&exited(), Received::Lagged), LiveStep::Wait));
    assert!(matches!(live_output(&SessionState::Running, Received::Closed), LiveStep::Wait));
    assert!(matches!(live_output(&exited(), Received::Closed), LiveStep::Stop));
}

#[test]
fn client_input_goes_to_the_session() {
    let step = forward_input(InputStep::Read, InputAnswer::Read(Some(b"x".to_vec())));
    match &step {
        InputStep::Send(data) => assert_eq!(data, b"x"),
        _ => panic!("not sent"),
    }
    let step = forward_input(step, InputAnswer::Sent(true));
    assert!(matches!(step, InputStep::Read));
    let step = forward_input(step, InputAnswer::Sent(false));
    assert!(matches!(step, InputStep::Read));
}

#[test]
fn client_input_ends_with_the_client_or_the_session() {
    let closed = forward_input(InputStep::Read, InputAnswer::Read(Some(Vec::new())));
    assert!(matches!(closed, InputStep::Stop));
    let failed = forward_input(InputStep::Read, InputAnswer::Read(None));
    assert!(matches!(failed, InputStep::Stop));
    let dropped = forward_input(InputStep::Send(b"x".to_vec()), InputAnswer::Sent(false));
    assert!(matches!(dropped, InputStep::Stop));
}

#[test]
fn session_gives_back_what_went_through_it() {
    let mut history = History::new();
    let state = SessionState::Running;
    read_output(&mut history, &state, Some(b"$ "));
    let mut step = PumpStep::Read;
    for answer in [
        PumpAnswer::Read(Some(b"date\n".to_vec())),
        PumpAnswer::Wrote(Ok(())),
        PumpAnswer::Flushed(Ok(())),
    ] {
        step = write_input(&mut history, step, answer);
    }
    read_output(&mut history, &state, Some(b""));
    read_output(&mut history, &state, Some(b"Monday\n"));
    read_output(&mut history, &state, None);
    let replayed: Vec<u8> = history.snapshot().iter().flat_map(|c| c.to_vec()).collect();
    assert_eq!(replayed, b"$ date\nMonday\n");
}

#[test]
fn client_input_is_sent_piece_by_piece() {
    let mut step = begin_input();
    assert!(matches!(step, InputStep::Read));
    let mut sent: Vec<u8> = Vec::new();
    for piece in ["one ", "two ", "three"] {
        step = forward_input(step, InputAnswer::Read(Some(piece.as_bytes().to_vec())));
        match &step {
            InputStep::Send(data) => sent.extend_from_slice(data),
            _ => panic!("not sent"),
        }
        step = forward_input(step, InputAnswer::Sent(true));
    }
    assert_eq!(sent, b"one two three");
}

#[test]
fn chunk_that_cannot_be_written_ends_the_replay() {
    let mut history = History::new();
    history.push(Bytes::from_static(b"one"));
    history.push(Bytes::from_static(b"two"));
    let respond = || AttachStep::Respond(Response::ForwardingReady);
    let step = continue_attach(&history, respond(), true);
    assert!(matches!(continue_attach(&history, step, false), AttachStep::Stop));
    let step = continue_attach(&history, respond(), true);
    let step = continue_attach(&history, step, true);
    assert_eq!(chunk_to_write(&step), b"two");
    assert!(matches!(continue_attach(&history, step, false), AttachStep::Stop));
}

#[test]
fn empty_history_is_not_replayed() {
    let respond = AttachStep::Respond(Response::ForwardingReady);
    assert!(matches!(continue_attach(&History::new(), respond, true), AttachStep::Stream));
}

#[test]
fn output_during_the_replay_is_in_the_history_or_in_the_stream() {
    let mut history = History::new();
    let state = SessionState::Running;
    let mut stream: Vec<Vec<u8>> = Vec::new();
    let mut shown: Vec<Vec<u8>> = Vec::new();

    read_output(&mut history, &state, Some(b"before"));
    let mut step = continue_attach(&history, AttachStep::Subscribe, true);
    match read_output(&mut history, &state, Some(b"meanwhile")) {
        OutputStep::Broadcast(data) => stream.push(data),
        _ => panic!("not handed out"),
    }
    step = continue_attach(&history, step, true);
    match read_output(&mut history, &state, Some(b"after")) {
        OutputStep::Broadcast(data) => stream.push(data),
        _ => panic!("not handed out"),
    }
    while let AttachStep::Replay { .. } = &step {
        shown.push(chunk_to_write(&step).to_vec());
        step = continue_attach(&history, step, true);
    }
    assert!(matches!(step, AttachStep::Stream));
    for data in stream {
        match live_output(&state, Received::Data(data)) {
            LiveStep::Send(data) => shown.push(data),
            _ => panic!("not sent"),
        }
    }
    assert_eq!(shown, [&b"before"[..], b"meanwhile", b"meanwhile", b"after"]);
}

#[test]
fn equal_pieces_are_each_shown() {
    let mut history = History::new();
    let state = SessionState::Running;
    let mut shown: Vec<Vec<u8>> = Vec::new();
    for _ in 0..2 {
        read_output(&mut history, &state, Some(b"tick"));
    }
    let mut step = continue_attach(&history, begin_attach(), true);
    step = continue_attach(&history, step, true);
    while let AttachStep::Replay { .. } = &step {
        shown.push(chunk_to_write(&step).to_vec());
        step = continue_attach(&history, step, true);
    }
    for _ in 0..2 {
        let data = match read_output(&mut history, &state, Some(b"tick")) {
            OutputStep::Broadcast(data) => data,
            _ => panic!("not handed out"),
        };
        match live_output(&state, Received::Data(data)) {
            LiveStep::Send(data) => shown.push(data),
            _ => panic!("not sent"),
        }
    }
    assert_eq!(shown, vec![b"tick".to_vec(); 4]);
}
