//! How a client that is attached to a session carries bytes between the terminal and the daemon.

use vstd::prelude::*;

use crate::pump::{
    a_piece_goes_all_the_way, begin_pump, pump, pump_next, pump_run, Line, PumpAnswer, PumpStep,
    PumpView,
};

verus! {

/// What happens to one of the two loops of a client.
pub enum ForwardEvent {
    /// Its last piece of work came to this.
    Answer(PumpAnswer),
    /// While it was reading, the user interrupted the client or, for the loop to the terminal, a
    /// moment has passed.
    Signal,
}

/// The first steps of the loop from the terminal and of the loop to it, and what the first tells the
/// second at the beginning.
pub fn begin_forward() -> (res: (PumpStep, PumpStep, bool))
    ensures
        res == (PumpStep::Read, PumpStep::Read, false),
        (Forwarding { typed: res.0@, shown: res.1@, exit: res.2 }) == forward_run(seq![]),
{
    (begin_pump(), begin_pump(), false)
}

/// Decides what the loop from the terminal does next. An interrupt ends it. `exit` tells the other
/// loop that this one has ended.
pub fn forward_typed(exit: &mut bool, step: PumpStep, event: ForwardEvent) -> (res: PumpStep)
    ensures
        res@ == (match event {
            ForwardEvent::Answer(answer) => pump_next(Line::ClientInput, step@, answer),
            ForwardEvent::Signal => pump_next(Line::ClientInput, step@, PumpAnswer::Idle(true)),
        }),
        *final(exit) == (*old(exit) || res@ is Stop),
        step is Read && event is Signal ==> res == PumpStep::Stop(None) && *final(exit),
        step is Write && event is Signal ==> res@ == step@,
        step is Flush && event is Signal ==> res@ == step@,
        event matches ForwardEvent::Answer(PumpAnswer::Read(Some(data))) ==> (step is Read
            && data@.len() > 0 ==> res == PumpStep::Write(data) && *final(exit) == *old(exit)),
{
    let res = match event {
        ForwardEvent::Answer(answer) => pump(Line::ClientInput, step, answer),
        ForwardEvent::Signal => pump(Line::ClientInput, step, PumpAnswer::Idle(true)),
    };
    match &res {
        PumpStep::Stop(_) => {
            *exit = true;
        },
        _ => {},
    }
    res
}

/// Decides what the loop to the terminal does next. It looks at `exit` from time to time, and ends
/// once the other loop has ended.
pub fn forward_shown(exit: bool, step: PumpStep, event: ForwardEvent) -> (res: PumpStep)
    ensures
        res@ == (match event {
            ForwardEvent::Answer(answer) => pump_next(Line::ClientOutput, step@, answer),
            ForwardEvent::Signal => pump_next(Line::ClientOutput, step@, PumpAnswer::Idle(exit)),
        }),
        step is Read && event is Signal ==> res == (if exit {
            PumpStep::Stop(None)
        } else {
            PumpStep::Read
        }),
        event matches ForwardEvent::Answer(PumpAnswer::Read(Some(data))) ==> (step is Read
            && data@.len() > 0 ==> res == PumpStep::Write(data)),
{
    match event {
        ForwardEvent::Answer(answer) => pump(Line::ClientOutput, step, answer),
        ForwardEvent::Signal => pump(Line::ClientOutput, step, PumpAnswer::Idle(exit)),
    }
}

/// An event of one of the two loops.
pub ghost enum ClientEvent {
    Typed(ForwardEvent),
    Shown(ForwardEvent),
}

/// Where the two loops of a client stand, and what the first tells the second.
pub ghost struct Forwarding {
    pub typed: PumpView,
    pub shown: PumpView,
    pub exit: bool,
}

/// What an event makes of the two loops.
pub open spec fn forward_next(at: Forwarding, event: ClientEvent) -> Forwarding {
    match event {
        ClientEvent::Typed(event) => {
            let typed = match event {
                ForwardEvent::Answer(answer) => pump_next(Line::ClientInput, at.typed, answer),
                ForwardEvent::Signal => pump_next(
                    Line::ClientInput,
                    at.typed,
                    PumpAnswer::Idle(true),
                ),
            };
            Forwarding { typed, exit: at.exit || typed is Stop, ..at }
        },
        ClientEvent::Shown(event) => {
            let shown = match event {
                ForwardEvent::Answer(answer) => pump_next(Line::ClientOutput, at.shown, answer),
                ForwardEvent::Signal => pump_next(
                    Line::ClientOutput,
                    at.shown,
                    PumpAnswer::Idle(at.exit),
                ),
            };
            Forwarding { shown, ..at }
        },
    }
}

/// Where the two loops stand after a series of events.
pub open spec fn forward_run(series: Seq<ClientEvent>) -> Forwarding
    decreases series.len(),
{
    if series.len() == 0 {
        Forwarding { typed: PumpView::Read, shown: PumpView::Read, exit: false }
    } else {
        forward_next(forward_run(series.drop_last()), series.last())
    }
}

/// The loop to the terminal is told to end exactly when the loop from the terminal has ended.
pub proof fn exit_means_the_input_has_ended(series: Seq<ClientEvent>)
    ensures
        forward_run(series).exit <==> forward_run(series).typed is Stop,
    decreases series.len(),
{
    if series.len() > 0 {
        exit_means_the_input_has_ended(series.drop_last());
    }
}

/// As long as the loop from the terminal goes on, the passing of time does not end the loop to the
/// terminal; once it has ended, a moment in which nothing is read does.
pub proof fn the_output_ends_with_the_input(series: Seq<ClientEvent>)
    ensures
        ({
            let at = forward_run(series);
            let later = forward_run(series.push(ClientEvent::Shown(ForwardEvent::Signal)));
            &&& !(at.typed is Stop) ==> later == at
            &&& at.typed is Stop && at.shown is Read ==> later.shown == PumpView::Stop(None)
        }),
{
    exit_means_the_input_has_ended(series);
    let signalled = series.push(ClientEvent::Shown(ForwardEvent::Signal));
    assert(signalled.drop_last() =~= series);
}

/// The answers that the loop from the terminal gets in the course of a series of events; an
/// interrupt tells it to end.
pub open spec fn typed_answers(series: Seq<ClientEvent>) -> Seq<PumpAnswer>
    decreases series.len(),
{
    if series.len() == 0 {
        seq![]
    } else {
        match series.last() {
            ClientEvent::Typed(ForwardEvent::Answer(answer)) => typed_answers(
                series.drop_last(),
            ).push(answer),
            ClientEvent::Typed(ForwardEvent::Signal) => typed_answers(series.drop_last()).push(
                PumpAnswer::Idle(true),
            ),
            ClientEvent::Shown(_) => typed_answers(series.drop_last()),
        }
    }
}

/// The answers that the loop to the terminal gets in the course of a series of events; from time to
/// time it is told to end exactly if the other loop has ended.
pub open spec fn shown_answers(series: Seq<ClientEvent>) -> Seq<PumpAnswer>
    decreases series.len(),
{
    if series.len() == 0 {
        seq![]
    } else {
        match series.last() {
            ClientEvent::Shown(ForwardEvent::Answer(answer)) => shown_answers(
                series.drop_last(),
            ).push(answer),
            ClientEvent::Shown(ForwardEvent::Signal) => shown_answers(series.drop_last()).push(
                PumpAnswer::Idle(
                    pump_run(Line::ClientInput, typed_answers(series.drop_last())) is Stop,
                ),
            ),
            ClientEvent::Typed(_) => shown_answers(series.drop_last()),
        }
    }
}

/// The two loops of a client go their own ways: each carries its own bytes as a loop on its own
/// would, and all that one knows of the other is whether the loop from the terminal has ended.
pub proof fn the_two_loops_are_apart(series: Seq<ClientEvent>)
    ensures
        forward_run(series).typed == pump_run(Line::ClientInput, typed_answers(series)),
        forward_run(series).shown == pump_run(Line::ClientOutput, shown_answers(series)),
    decreases series.len(),
{
    if series.len() > 0 {
        let before = series.drop_last();
        the_two_loops_are_apart(before);
        exit_means_the_input_has_ended(before);
        assert forall|answers: Seq<PumpAnswer>, answer: PumpAnswer| #[trigger]
            answers.push(answer).drop_last() == answers by {
            assert(answers.push(answer).drop_last() =~= answers);
        }
    }
}

/// Whatever a user types goes to the daemon byte for byte, and whatever the daemon sends is shown
/// byte for byte, without ending the client.
pub proof fn what_is_typed_is_sent_and_what_comes_is_shown(series: Seq<ClientEvent>, data: Vec<u8>)
    requires
        data@.len() > 0,
    ensures
        ({
            let at = forward_run(series);
            let answer = ForwardEvent::Answer(PumpAnswer::Read(Some(data)));
            let typed = forward_run(series.push(ClientEvent::Typed(answer)));
            let shown = forward_run(series.push(ClientEvent::Shown(answer)));
            &&& at.typed is Read ==> typed.typed == PumpView::Write(data@) && !typed.exit
            &&& typed.shown == at.shown
            &&& at.shown is Read ==> shown.shown == PumpView::Write(data@)
            &&& shown.typed == at.typed && shown.exit == at.exit
        }),
{
    let answer = ForwardEvent::Answer(PumpAnswer::Read(Some(data)));
    let typed = series.push(ClientEvent::Typed(answer));
    let shown = series.push(ClientEvent::Shown(answer));
    assert(typed.drop_last() =~= series);
    assert(shown.drop_last() =~= series);
    the_two_loops_are_apart(series);
    exit_means_the_input_has_ended(series);
    if forward_run(series).typed is Read {
        a_piece_goes_all_the_way(Line::ClientInput, typed_answers(series), data);
    }
    if forward_run(series).shown is Read {
        a_piece_goes_all_the_way(Line::ClientOutput, shown_answers(series), data);
    }
}

/// An interrupt while the client waits for its user detaches it: the loop from the terminal ends
/// without a failure, and the other is told.
pub proof fn an_interrupt_detaches(series: Seq<ClientEvent>)
    requires
        forward_run(series).typed is Read,
    ensures
        ({
            let after = forward_run(series.push(ClientEvent::Typed(ForwardEvent::Signal)));
            &&& after.typed == PumpView::Stop(None)
            &&& after.exit
            &&& after.shown == forward_run(series).shown
        }),
{
    let signalled = series.push(ClientEvent::Typed(ForwardEvent::Signal));
    assert(signalled.drop_last() =~= series);
}

} // verus!
