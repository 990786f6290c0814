//! The loops that carry bytes from where they are read to where they are written.

use vstd::prelude::*;

verus! {

/// From where to where a loop carries bytes.
#[derive(Debug, Clone, Copy, PartialEq, Eq, Structural)]
pub enum Line {
    /// From the clients of a session to its process.
    SessionInput,
    /// From the terminal of a client to the daemon.
    ClientInput,
    /// From the daemon to the terminal of a client.
    ClientOutput,
}

/// What a loop does next.
#[derive(Debug, PartialEq, Eq)]
pub enum PumpStep {
    /// Read the next piece.
    Read,
    /// Write this piece.
    Write(Vec<u8>),
    /// Flush, now that this piece is written.
    Flush(Vec<u8>),
    /// Stop, and tell of what went wrong, if anything did.
    Stop(Option<String>),
}

/// What came of it.
#[derive(Debug, PartialEq, Eq)]
pub enum PumpAnswer {
    /// A piece was read; `None` where the read failed or no more can come.
    Read(Option<Vec<u8>>),
    /// Nothing was read yet; whether the loop is to end.
    Idle(bool),
    Wrote(Result<(), String>),
    Flushed(Result<(), String>),
}

/// A step of a loop with its bytes and texts as sequences.
pub ghost enum PumpView {
    Read,
    Write(Seq<u8>),
    Flush(Seq<u8>),
    Stop(Option<Seq<char>>),
}

impl View for PumpStep {
    type V = PumpView;

    open spec fn view(&self) -> PumpView {
        match *self {
            PumpStep::Read => PumpView::Read,
            PumpStep::Write(data) => PumpView::Write(data@),
            PumpStep::Flush(data) => PumpView::Flush(data@),
            PumpStep::Stop(None) => PumpView::Stop(None),
            PumpStep::Stop(Some(message)) => PumpView::Stop(Some(message@)),
        }
    }
}

/// How the message of a write that failed begins.
pub open spec fn write_failed(line: Line) -> Seq<char> {
    match line {
        Line::SessionInput => "Error writing to stdin: "@,
        Line::ClientInput => "Failed to write to stream: "@,
        Line::ClientOutput => "Error writing to stdout: "@,
    }
}

/// How the message of a flush that failed begins.
pub open spec fn flush_failed(line: Line) -> Seq<char> {
    match line {
        Line::SessionInput => "Error flushing stdin: "@,
        Line::ClientInput => "Failed to flush stream: "@,
        Line::ClientOutput => "Error flushing stdout: "@,
    }
}

/// Whether a piece that was read marks the end: at a terminal or a connection one without bytes
/// does.
pub open spec fn marks_end(line: Line, data: Seq<u8>) -> bool {
    !(line is SessionInput) && data.len() == 0
}

/// What comes after `step` once it came to `answer`. An answer to something else changes nothing.
pub open spec fn pump_next(line: Line, step: PumpView, answer: PumpAnswer) -> PumpView {
    match (step, answer) {
        (PumpView::Read, PumpAnswer::Read(Some(data))) => if marks_end(line, data@) {
            PumpView::Stop(None)
        } else {
            PumpView::Write(data@)
        },
        (PumpView::Read, PumpAnswer::Read(None)) => PumpView::Stop(None),
        (PumpView::Read, PumpAnswer::Idle(end)) => if end {
            PumpView::Stop(None)
        } else {
            PumpView::Read
        },
        (PumpView::Write(data), PumpAnswer::Wrote(Ok(_))) => PumpView::Flush(data),
        (PumpView::Write(_), PumpAnswer::Wrote(Err(error))) => PumpView::Stop(
            Some(write_failed(line) + error@),
        ),
        (PumpView::Flush(_), PumpAnswer::Flushed(Ok(_))) => PumpView::Read,
        (PumpView::Flush(_), PumpAnswer::Flushed(Err(error))) => PumpView::Stop(
            Some(flush_failed(line) + error@),
        ),
        _ => step,
    }
}

/// The piece that is taken by the loop once `step` came to `answer`.
pub open spec fn pump_takes(line: Line, step: PumpView, answer: PumpAnswer) -> Option<Seq<u8>> {
    match (step, answer) {
        (PumpView::Read, PumpAnswer::Read(Some(data))) => if marks_end(line, data@) {
            None
        } else {
            Some(data@)
        },
        _ => None,
    }
}

/// The piece that is delivered once `step` came to `answer`.
pub open spec fn pump_delivers(step: PumpView, answer: PumpAnswer) -> Option<Seq<u8>> {
    match (step, answer) {
        (PumpView::Flush(data), PumpAnswer::Flushed(Ok(_))) => Some(data),
        _ => None,
    }
}

fn write_failure(line: Line, error: &String) -> (res: String)
    ensures
        res@ == write_failed(line) + error@,
        error@.is_suffix_of(res@),
{
    let start = match line {
        Line::SessionInput => "Error writing to stdin: ",
        Line::ClientInput => "Failed to write to stream: ",
        Line::ClientOutput => "Error writing to stdout: ",
    };
    start.to_owned().concat(error.as_str())
}

fn flush_failure(line: Line, error: &String) -> (res: String)
    ensures
        res@ == flush_failed(line) + error@,
        error@.is_suffix_of(res@),
{
    let start = match line {
        Line::SessionInput => "Error flushing stdin: ",
        Line::ClientInput => "Failed to flush stream: ",
        Line::ClientOutput => "Error flushing stdout: ",
    };
    start.to_owned().concat(error.as_str())
}

/// The first step of a loop.
pub fn begin_pump() -> (res: PumpStep)
    ensures
        res == PumpStep::Read,
{
    PumpStep::Read
}

/// Decides what a loop does next after `step` came to `answer`. The first step is that of
/// `begin_pump`.
pub fn pump(line: Line, step: PumpStep, answer: PumpAnswer) -> (res: PumpStep)
    ensures
        res@ == pump_next(line, step@, answer),
        answer matches PumpAnswer::Read(Some(data)) ==> (step is Read && (line is SessionInput
            || data@.len() > 0) ==> res == PumpStep::Write(data)),
        answer matches PumpAnswer::Read(Some(data)) ==> (step is Read && !(line is SessionInput)
            && data@.len() == 0 ==> res == PumpStep::Stop(None)),
        step is Read && (answer is Idle || answer == PumpAnswer::Read(None)) ==> res == (
        if answer == PumpAnswer::Idle(false) {
            PumpStep::Read
        } else {
            PumpStep::Stop(None)
        }),
        step matches PumpStep::Write(data) ==> (answer matches PumpAnswer::Wrote(Ok(_)) ==> res
            == PumpStep::Flush(data)),
        answer matches PumpAnswer::Flushed(Ok(_)) ==> (step is Flush ==> res == PumpStep::Read),
        answer matches PumpAnswer::Wrote(Err(error)) ==> (step is Write ==> (
        res matches PumpStep::Stop(Some(message)) && error@.is_suffix_of(message@))),
        answer matches PumpAnswer::Flushed(Err(error)) ==> (step is Flush ==> (
        res matches PumpStep::Stop(Some(message)) && error@.is_suffix_of(message@))),
        step is Stop ==> res == step,
{
    match step {
        PumpStep::Read => match answer {
            PumpAnswer::Read(Some(data)) => {
                let end = match line {
                    Line::SessionInput => false,
                    _ => data.len() == 0,
                };
                if end {
                    PumpStep::Stop(None)
                } else {
                    PumpStep::Write(data)
                }
            },
            PumpAnswer::Read(None) => PumpStep::Stop(None),
            PumpAnswer::Idle(true) => PumpStep::Stop(None),
            _ => PumpStep::Read,
        },
        PumpStep::Write(data) => match answer {
            PumpAnswer::Wrote(Ok(_)) => PumpStep::Flush(data),
            PumpAnswer::Wrote(Err(error)) => PumpStep::Stop(Some(write_failure(line, &error))),
            _ => PumpStep::Write(data),
        },
        PumpStep::Flush(data) => match answer {
            PumpAnswer::Flushed(Ok(_)) => PumpStep::Read,
            PumpAnswer::Flushed(Err(error)) => PumpStep::Stop(Some(flush_failure(line, &error))),
            _ => PumpStep::Flush(data),
        },
        PumpStep::Stop(message) => PumpStep::Stop(message),
    }
}

/// Where a loop stands after a series of answers.
pub open spec fn pump_run(line: Line, series: Seq<PumpAnswer>) -> PumpView
    decreases series.len(),
{
    if series.len() == 0 {
        PumpView::Read
    } else {
        pump_next(line, pump_run(line, series.drop_last()), series.last())
    }
}

/// A list with one more piece at the end, if there is one.
pub open spec fn with_piece(pieces: Seq<Seq<u8>>, piece: Option<Seq<u8>>) -> Seq<Seq<u8>> {
    match piece {
        Some(data) => pieces.push(data),
        None => pieces,
    }
}

/// The pieces that a loop has taken in the course of a series of answers.
pub open spec fn taken(line: Line, series: Seq<PumpAnswer>) -> Seq<Seq<u8>>
    decreases series.len(),
{
    if series.len() == 0 {
        seq![]
    } else {
        with_piece(
            taken(line, series.drop_last()),
            pump_takes(line, pump_run(line, series.drop_last()), series.last()),
        )
    }
}

/// The pieces that a loop has delivered in the course of a series of answers.
pub open spec fn delivered(line: Line, series: Seq<PumpAnswer>) -> Seq<Seq<u8>>
    decreases series.len(),
{
    if series.len() == 0 {
        seq![]
    } else {
        with_piece(
            delivered(line, series.drop_last()),
            pump_delivers(pump_run(line, series.drop_last()), series.last()),
        )
    }
}

/// The piece that is still to be delivered when a loop stands at a step.
pub open spec fn at_hand(step: PumpView) -> Option<Seq<u8>> {
    match step {
        PumpView::Write(data) => Some(data),
        PumpView::Flush(data) => Some(data),
        _ => None,
    }
}

/// A loop delivers the pieces that it has taken, in the order in which it took them, each once and
/// unchanged. As long as it goes on, all but the one at hand are delivered; when it has stopped,
/// all, or all but the last.
pub proof fn bytes_are_carried_in_order(line: Line, series: Seq<PumpAnswer>)
    ensures
        !(pump_run(line, series) is Stop) ==> taken(line, series) == with_piece(
            delivered(line, series),
            at_hand(pump_run(line, series)),
        ),
        pump_run(line, series) is Stop ==> exists|last: Option<Seq<u8>>|
            taken(line, series) == #[trigger] with_piece(delivered(line, series), last),
        pump_run(line, series) == PumpView::Stop(None) ==> taken(line, series) == delivered(
            line,
            series,
        ),
    decreases series.len(),
{
    if series.len() > 0 {
        bytes_are_carried_in_order(line, series.drop_last());
        let before = pump_run(line, series.drop_last());
        if pump_run(line, series) is Stop && !(before is Stop) {
            assert(taken(line, series) == with_piece(delivered(line, series), at_hand(before)));
        }
        if before is Stop {
            let last = choose|last: Option<Seq<u8>>|
                taken(line, series.drop_last()) == #[trigger] with_piece(
                    delivered(line, series.drop_last()),
                    last,
                );
            assert(taken(line, series) == with_piece(delivered(line, series), last));
        }
    }
}

/// A loop that has stopped takes and delivers nothing more.
pub proof fn a_stopped_loop_is_done(line: Line, series: Seq<PumpAnswer>, later: Seq<PumpAnswer>)
    requires
        pump_run(line, series) is Stop,
    ensures
        pump_run(line, series + later) == pump_run(line, series),
        taken(line, series + later) == taken(line, series),
        delivered(line, series + later) == delivered(line, series),
    decreases later.len(),
{
    if later.len() == 0 {
        assert(series + later =~= series);
    } else {
        a_stopped_loop_is_done(line, series, later.drop_last());
        assert((series + later).drop_last() =~= series + later.drop_last());
    }
}

/// A step of a loop stands for all that it holds, to the last byte and character.
pub proof fn a_step_of_a_loop_shows_all_that_it_holds(step: PumpStep)
    ensures
        step is Read ==> step@ is Read,
        step matches PumpStep::Write(data) ==> step@ == PumpView::Write(data@),
        step matches PumpStep::Flush(data) ==> step@ == PumpView::Flush(data@),
        step == PumpStep::Stop(None) ==> step@ == PumpView::Stop(None),
        step matches PumpStep::Stop(Some(message)) ==> step@ == PumpView::Stop(Some(message@)),
{
}

/// A piece with bytes in it, whatever they are and however many, is written as it was read, then
/// flushed, then counts as delivered, and the loop reads on; on the way to a process so does a piece
/// without bytes.
pub proof fn a_piece_goes_all_the_way(line: Line, series: Seq<PumpAnswer>, data: Vec<u8>)
    requires
        pump_run(line, series) is Read,
        line is SessionInput || data@.len() > 0,
    ensures
        ({
            let read = series.push(PumpAnswer::Read(Some(data)));
            let wrote = read.push(PumpAnswer::Wrote(Ok(())));
            let flushed = wrote.push(PumpAnswer::Flushed(Ok(())));
            &&& pump_run(line, read) == PumpView::Write(data@)
            &&& pump_run(line, wrote) == PumpView::Flush(data@)
            &&& pump_run(line, flushed) is Read
            &&& taken(line, read) == taken(line, series).push(data@)
            &&& delivered(line, wrote) == delivered(line, series)
            &&& delivered(line, flushed) == delivered(line, series).push(data@)
        }),
{
    let read = series.push(PumpAnswer::Read(Some(data)));
    let wrote = read.push(PumpAnswer::Wrote(Ok(())));
    let flushed = wrote.push(PumpAnswer::Flushed(Ok(())));
    assert(read.drop_last() =~= series);
    assert(pump_run(line, read) == PumpView::Write(data@));
    assert(delivered(line, read) == delivered(line, series));
    assert(wrote.drop_last() =~= read);
    assert(pump_run(line, wrote) == PumpView::Flush(data@));
    assert(delivered(line, wrote) == delivered(line, series));
    assert(flushed.drop_last() =~= wrote);
}

/// A loop ends where a read failed or gave nothing, where it is told to end while it reads, or where
/// a write or a flush failed, and nowhere else. To read nothing ends no loop to a process.
pub proof fn a_loop_ends_only_for_a_reason(line: Line, step: PumpView, answer: PumpAnswer)
    requires
        !(step is Stop),
    ensures
        pump_next(line, step, answer) is Stop <==> {
            ||| step is Read && answer == PumpAnswer::Read(None)
            ||| step is Read && answer == PumpAnswer::Idle(true)
            ||| step is Read && !(line is SessionInput) && (answer matches PumpAnswer::Read(
                Some(data),
            ) && data@.len() == 0)
            ||| step is Write && answer matches PumpAnswer::Wrote(Err(_))
            ||| step is Flush && answer matches PumpAnswer::Flushed(Err(_))
        },
        step is Read && pump_next(line, step, answer) is Stop ==> pump_next(line, step, answer)
            == PumpView::Stop(None),
{
}

/// An answer that does not belong to the piece of work at hand changes nothing, nor does the word
/// that the loop is not to end.
pub proof fn a_loop_heeds_its_own_answers_only(line: Line, step: PumpView, answer: PumpAnswer)
    requires
        step is Read ==> answer is Wrote || answer is Flushed || answer == PumpAnswer::Idle(false),
        step is Write ==> !(answer is Wrote),
        step is Flush ==> !(answer is Flushed),
    ensures
        pump_next(line, step, answer) == step,
        pump_takes(line, step, answer) is None,
        pump_delivers(step, answer) is None,
{
}

/// A write or a flush that failed is told with the whole error, after words that say what failed on
/// which line.
pub proof fn a_failure_is_told_with_its_error(line: Line, data: Seq<u8>, error: String)
    ensures
        pump_next(line, PumpView::Write(data), PumpAnswer::Wrote(Err(error))) == PumpView::Stop(
            Some(
                (if line is SessionInput {
                    "Error writing to stdin: "@
                } else if line is ClientInput {
                    "Failed to write to stream: "@
                } else {
                    "Error writing to stdout: "@
                }) + error@,
            ),
        ),
        pump_next(line, PumpView::Flush(data), PumpAnswer::Flushed(Err(error))) == PumpView::Stop(
            Some(
                (if line is SessionInput {
                    "Error flushing stdin: "@
                } else if line is ClientInput {
                    "Failed to flush stream: "@
                } else {
                    "Error flushing stdout: "@
                }) + error@,
            ),
        ),
{
}

/// All bytes that came of the reads of a loop, one after the other.
pub open spec fn bytes_read(line: Line, series: Seq<PumpAnswer>) -> Seq<u8>
    decreases series.len(),
{
    if series.len() == 0 {
        seq![]
    } else {
        let before = bytes_read(line, series.drop_last());
        match series.last() {
            PumpAnswer::Read(Some(data)) => if pump_run(line, series.drop_last()) is Read {
                before + data@
            } else {
                before
            },
            _ => before,
        }
    }
}

/// The bytes that a loop delivers are the bytes that it reads: as long as it goes on all of them but
/// for the piece at hand, and when it has ended without a failure all of them.
pub proof fn what_is_read_is_what_is_delivered(line: Line, series: Seq<PumpAnswer>)
    ensures
        taken(line, series).flatten() == bytes_read(line, series),
        pump_run(line, series) is Read || pump_run(line, series) == PumpView::Stop(None)
            ==> delivered(line, series).flatten() == bytes_read(line, series),
        pump_run(line, series) matches PumpView::Write(data) ==> delivered(line, series).flatten()
            + data == bytes_read(line, series),
        pump_run(line, series) matches PumpView::Flush(data) ==> delivered(line, series).flatten()
            + data == bytes_read(line, series),
    decreases series.len(),
{
    bytes_are_carried_in_order(line, series);
    delivered(line, series).lemma_flatten_push(at_hand(pump_run(line, series)).unwrap_or(seq![]));
    if series.len() > 0 {
        what_is_read_is_what_is_delivered(line, series.drop_last());
        let before = taken(line, series.drop_last());
        match series.last() {
            PumpAnswer::Read(Some(data)) => {
                before.lemma_flatten_push(data@);
                if data@.len() == 0 {
                    assert(before.flatten() + data@ =~= before.flatten());
                }
            },
            _ => {},
        }
    }
}

} // verus!
