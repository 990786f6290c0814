use frun::forward::{begin_forward, forward_shown, forward_typed, ForwardEvent};
use frun::pump::{begin_pump, pump, Line, PumpAnswer, PumpStep};

fn read(data: &[u8]) -> PumpAnswer {
    PumpAnswer::Read(Some(data.to_vec()))
}

#[test]
fn pieces_are_carried_in_order() {
    for line in [Line::SessionInput, Line::ClientInput, Line::ClientOutput] {
        let mut step = begin_pump();
        let mut written: Vec<u8> = Vec::new();
        for piece in ["one ", "two ", "three"] {
            step = pump(line, step, read(piece.as_bytes()));
            match &step {
                PumpStep::Write(data) => written.extend_from_slice(data),
                _ => panic!("not written"),
            }
            step = pump(line, step, PumpAnswer::Wrote(Ok(())));
            assert_eq!(step, PumpStep::Flush(piece.as_bytes().to_vec()));
            step = pump(line, step, PumpAnswer::Flushed(Ok(())));
            assert_eq!(step, PumpStep::Read);
        }
        assert_eq!(written, b"one two three");
    }
}

#[test]
fn empty_read_ends_a_client_loop_only() {
    for line in [Line::ClientInput, Line::ClientOutput] {
        assert_eq!(pump(line, PumpStep::Read, read(b"")), PumpStep::Stop(None));
    }
    assert_eq!(
        pump(Line::SessionInput, PumpStep::Read, read(b"")),
        PumpStep::Write(Vec::new())
    );
}

#[test]
fn failed_read_ends_a_loop() {
    for line in [Line::SessionInput, Line::ClientInput, Line::ClientOutput] {
        assert_eq!(pump(line, PumpStep::Read, PumpAnswer::Read(None)), PumpStep::Stop(None));
    }
}

#[test]
fn failures_are_told_by_line() {
    let cases = [
        (Line::SessionInput, "Error writing to stdin: x", "Error flushing stdin: x"),
        (Line::ClientInput, "Failed to write to stream: x", "Failed to flush stream: x"),
        (Line::ClientOutput, "Error writing to stdout: x", "Error flushing stdout: x"),
    ];
    for (line, write, flush) in cases {
        let error = || Err("x".to_string());
        assert_eq!(
            pump(line, PumpStep::Write(vec![1]), PumpAnswer::Wrote(error())),
            PumpStep::Stop(Some(write.to_string()))
        );
        assert_eq!(
            pump(line, PumpStep::Flush(vec![1]), PumpAnswer::Flushed(error())),
            PumpStep::Stop(Some(flush.to_string()))
        );
    }
}

#[test]
fn stopped_loop_stays_stopped() {
    let stop = || PumpStep::Stop(Some("why".to_string()));
    assert_eq!(pump(Line::ClientInput, stop(), read(b"x")), stop());
    assert_eq!(pump(Line::ClientInput, stop(), PumpAnswer::Idle(false)), stop());
}

#[test]
fn interrupt_ends_the_input() {
    let mut exit = false;
    let step = forward_typed(&mut exit, PumpStep::Read, ForwardEvent::Answer(read(b"x")));
    assert_eq!(step, PumpStep::Write(b"x".to_vec()));
    assert!(!exit);
    let step = forward_typed(&mut exit, PumpStep::Read, ForwardEvent::Signal);
    assert_eq!(step, PumpStep::Stop(None));
    assert!(exit);
}

#[test]
fn output_ends_after_the_input() {
    assert_eq!(forward_shown(false, PumpStep::Read, ForwardEvent::Signal), PumpStep::Read);
    assert_eq!(forward_shown(true, PumpStep::Read, ForwardEvent::Signal), PumpStep::Stop(None));
    let writing = PumpStep::Write(b"x".to_vec());
    assert_eq!(
        forward_shown(true, writing, ForwardEvent::Signal),
        PumpStep::Write(b"x".to_vec())
    );
    assert_eq!(
        forward_shown(false, PumpStep::Read, ForwardEvent::Answer(read(b""))),
        PumpStep::Stop(None)
    );
}

#[test]
fn client_loops_begin_with_a_read() {
    assert_eq!(begin_forward(), (PumpStep::Read, PumpStep::Read, false));
}
