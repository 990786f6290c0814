//! How the daemon passes bytes between a session and its clients.

use bytes::Bytes;
use vstd::prelude::*;

use crate::chunk::{chunk_bytes, chunk_from, chunk_to_vec, copy_chunk, share_chunk};
use crate::daemon::SessionState;
use crate::history::{
    a_replay_is_the_end_of_the_stream, history_holds_the_latest_chunks, latest, remember_all,
    remember_piece, History, HISTORY_LIMIT,
};
use crate::protocal::{answers, RequestView, Response};
use crate::pump::{
    pump, pump_delivers, pump_next, with_piece, Line, PumpAnswer, PumpStep, PumpView,
};

verus! {

/// How many pieces of input may wait for the process of a session.
pub const INPUT_QUEUE: usize = 64;

/// How many pieces of output may wait for a client before it misses some.
pub const OUTPUT_QUEUE: usize = 256;

/// How many bytes are read at once from the process of a session.
pub const OUTPUT_BUFFER: usize = 4096;

/// How many bytes are read at once from a client.
pub const INPUT_BUFFER: usize = 1024;

/// What the reader of a process's output does next.
pub enum OutputStep {
    /// Read on.
    Read,
    /// Hand this to the clients that are attached, then read on.
    Broadcast(Vec<u8>),
    Stop,
}

/// The piece of output that a read gives: none where it failed or met the end.
pub open spec fn output_piece(read: Option<Seq<u8>>) -> Option<Seq<u8>> {
    match read {
        Some(data) => if data.len() > 0 {
            Some(data)
        } else {
            None
        },
        None => None,
    }
}

/// The bytes of a read.
pub open spec fn read_bytes(read: Option<&[u8]>) -> Option<Seq<u8>> {
    match read {
        Some(data) => Some(data@),
        None => None,
    }
}

/// Decides what becomes of a read from the output of a session's process: `None` for one that
/// failed, no bytes for the end of the output. What was read is entered in the history before it
/// goes to the clients. The end of the output counts only once the process has exited.
pub fn read_output(history: &mut History, state: &SessionState, read: Option<&[u8]>) -> (step:
    OutputStep)
    ensures
        match output_piece(read_bytes(read)) {
            Some(data) => step matches OutputStep::Broadcast(sent) && sent@ == data,
            None => step == (if read is Some && !(*state is Exited) {
                OutputStep::Read
            } else {
                OutputStep::Stop
            }),
        },
        final(history)@ == remember_piece(old(history)@, output_piece(read_bytes(read))),
        read matches Some(data) ==> (data@.len() > 0 ==> {
            &&& step matches OutputStep::Broadcast(sent)
            &&& sent@ == data@
            &&& final(history)@.len() > 0
            &&& final(history)@.last() == data@
        }),
        read matches Some(data) ==> (data@.len() == 0 ==> final(history)@ == old(history)@ && step
            == (if *state is Exited {
            OutputStep::Stop
        } else {
            OutputStep::Read
        })),
        read is None ==> final(history)@ == old(history)@ && step == OutputStep::Stop,
{
    match read {
        Some(data) => {
            if data.len() > 0 {
                let chunk = copy_chunk(data);
                history.push(share_chunk(&chunk));
                OutputStep::Broadcast(chunk_to_vec(&chunk))
            } else if state.is_exited() {
                OutputStep::Stop
            } else {
                OutputStep::Read
            }
        },
        None => OutputStep::Stop,
    }
}

/// Decides what the writer of a process's input does next after `step` came to `answer`. The first
/// step is that of `begin_pump`, which takes a piece that some client has put in. A piece is entered in the
/// history once it has reached the process.
pub fn write_input(history: &mut History, step: PumpStep, answer: PumpAnswer) -> (res: PumpStep)
    ensures
        res@ == pump_next(Line::SessionInput, step@, answer),
        final(history)@ == remember_piece(old(history)@, pump_delivers(step@, answer)),
        step matches PumpStep::Flush(data) ==> (answer matches PumpAnswer::Flushed(Ok(_)) ==> {
            &&& res == PumpStep::Read
            &&& final(history)@.len() > 0
            &&& final(history)@.last() == data@
        }),
        !(step is Flush && answer is Flushed) ==> final(history)@ == old(history)@,
        answer matches PumpAnswer::Flushed(Err(_)) ==> final(history)@ == old(history)@,
        answer matches PumpAnswer::Read(Some(data)) ==> (step is Read ==> res == PumpStep::Write(
            data,
        )),
        step matches PumpStep::Write(data) ==> (answer matches PumpAnswer::Wrote(Ok(_)) ==> res
            == PumpStep::Flush(data)),
{
    match step {
        PumpStep::Flush(data) => match answer {
            PumpAnswer::Flushed(Ok(_)) => {
                history.push(chunk_from(data));
                PumpStep::Read
            },
            _ => pump(Line::SessionInput, PumpStep::Flush(data), answer),
        },
        _ => pump(Line::SessionInput, step, answer),
    }
}

/// Something that a session goes through: a read from the output of its process, or an answer in
/// the loop that writes its input.
pub ghost enum Passage {
    Output(Option<Seq<u8>>),
    Input(PumpView, PumpAnswer),
}

/// The piece that has gone through the session with it.
pub open spec fn passed(passage: Passage) -> Option<Seq<u8>> {
    match passage {
        Passage::Output(read) => output_piece(read),
        Passage::Input(step, answer) => pump_delivers(step, answer),
    }
}

/// All pieces that have gone through a session, in the order of the series.
pub open spec fn session_log(series: Seq<Passage>) -> Seq<Seq<u8>>
    decreases series.len(),
{
    if series.len() == 0 {
        seq![]
    } else {
        with_piece(session_log(series.drop_last()), passed(series.last()))
    }
}

/// The history of a session after a series, as `read_output` and `write_input` leave it.
pub open spec fn session_history(series: Seq<Passage>) -> Seq<Seq<u8>>
    decreases series.len(),
{
    if series.len() == 0 {
        seq![]
    } else {
        remember_piece(session_history(series.drop_last()), passed(series.last()))
    }
}

/// Whatever a read gives, if only there is something in it, is the piece that is remembered and
/// handed out, to the last byte; only of a read that failed or gave nothing there is no piece.
pub proof fn a_read_is_passed_on_whole(read: Option<Seq<u8>>)
    ensures
        read matches Some(data) ==> (data.len() > 0 ==> output_piece(read) == Some(data)),
        output_piece(read) is None <==> (read is None || read->Some_0.len() == 0),
        passed(Passage::Output(read)) == output_piece(read),
{
}

/// Of the input of a process a piece has gone through the session once it is flushed, whole, and not
/// before.
pub proof fn input_counts_once_it_is_flushed(step: PumpView, answer: PumpAnswer)
    ensures
        step matches PumpView::Flush(data) ==> (answer matches PumpAnswer::Flushed(Ok(_)) ==> passed(
            Passage::Input(step, answer),
        ) == Some(data)),
        passed(Passage::Input(step, answer)) is Some ==> step is Flush
            && answer matches PumpAnswer::Flushed(Ok(_)),
{
}

/// The bytes that go through a session with a passage: all that was read, or all that was flushed.
pub open spec fn bytes_of(passage: Passage) -> Seq<u8> {
    match passage {
        Passage::Output(Some(data)) => data,
        Passage::Input(PumpView::Flush(data), PumpAnswer::Flushed(Ok(_))) => data,
        _ => seq![],
    }
}

/// The bytes that go through a session in the course of a series.
pub open spec fn bytes_through(series: Seq<Passage>) -> Seq<u8>
    decreases series.len(),
{
    if series.len() == 0 {
        seq![]
    } else {
        bytes_through(series.drop_last()) + bytes_of(series.last())
    }
}

/// The log of a session has every byte that was read from its process and every byte that its
/// process was given, in order, and no others; up to five thousand pieces, so has its history.
pub proof fn the_log_has_every_byte(series: Seq<Passage>)
    ensures
        session_log(series).flatten() == bytes_through(series),
        session_log(series).len() <= 5000 ==> session_history(series).flatten() == bytes_through(
            series,
        ),
    decreases series.len(),
{
    if series.len() > 0 {
        the_log_has_every_byte(series.drop_last());
        let before = session_log(series.drop_last());
        before.lemma_flatten_push(bytes_of(series.last()));
        if bytes_of(series.last()).len() == 0 {
            assert(before.flatten() + bytes_of(series.last()) =~= before.flatten());
        }
    }
    lemma_history_of_log(series);
    history_holds_the_latest_chunks(session_log(series));
}

/// The pieces of a series that its process has put out.
pub open spec fn pieces_put_out(series: Seq<Passage>) -> Seq<Seq<u8>>
    decreases series.len(),
{
    if series.len() == 0 {
        seq![]
    } else if series.last() is Output {
        with_piece(pieces_put_out(series.drop_last()), passed(series.last()))
    } else {
        pieces_put_out(series.drop_last())
    }
}

/// All bytes that were read from the output of a process in the course of a series.
pub open spec fn bytes_put_out(series: Seq<Passage>) -> Seq<u8>
    decreases series.len(),
{
    if series.len() == 0 {
        seq![]
    } else {
        match series.last() {
            Passage::Output(Some(data)) => bytes_put_out(series.drop_last()) + data,
            _ => bytes_put_out(series.drop_last()),
        }
    }
}

/// The pieces of output of a session are, one after the other, all bytes that were read from its
/// process.
pub proof fn no_byte_of_output_is_lost(series: Seq<Passage>)
    ensures
        pieces_put_out(series).flatten() == bytes_put_out(series),
    decreases series.len(),
{
    if series.len() > 0 {
        no_byte_of_output_is_lost(series.drop_last());
        let before = pieces_put_out(series.drop_last());
        before.lemma_flatten_push(bytes_of(series.last()));
        if bytes_of(series.last()).len() == 0 {
            assert(before.flatten() + bytes_of(series.last()) =~= before.flatten());
        }
    }
}

proof fn lemma_history_of_log(series: Seq<Passage>)
    ensures
        session_history(series) == remember_all(session_log(series)),
    decreases series.len(),
{
    if series.len() > 0 {
        lemma_history_of_log(series.drop_last());
        let before = session_log(series.drop_last());
        match passed(series.last()) {
            Some(piece) => {
                a_replay_is_the_end_of_the_stream(before, piece);
            },
            None => {},
        }
    }
}

/// What a client that attaches is given of a session is what went through it, input and output in
/// the order in which they did, the most recent chunks up to the limit: nothing is lost before the
/// limit is reached, and beyond it only what is oldest.
pub proof fn a_session_gives_back_what_went_through_it(series: Seq<Passage>)
    ensures
        session_history(series) == latest(session_log(series), HISTORY_LIMIT as nat),
        session_log(series).len() <= HISTORY_LIMIT ==> session_history(series).flatten()
            == session_log(series).flatten(),
        session_log(series).len() > HISTORY_LIMIT ==> session_log(series).flatten()
            == session_log(series).take(session_log(series).len() - HISTORY_LIMIT).flatten()
            + session_history(series).flatten(),
{
    lemma_history_of_log(series);
    history_holds_the_latest_chunks(session_log(series));
    a_replay_is_the_end_of_the_stream(session_log(series), seq![]);
}

/// What the daemon does next for a client that attaches to a session.
pub enum AttachStep {
    /// Subscribe the client to the output of the session.
    Subscribe,
    /// Send this response.
    Respond(Response),
    /// Write the chunk at `next` to the client.
    Replay { chunks: Vec<Bytes>, next: usize },
    /// Pass on what the session puts out and what the client puts in.
    Stream,
    Stop,
}

/// A step for a client that attaches, with the bytes of the chunks that are left to be written.
pub ghost enum AttachView {
    Subscribe,
    Respond(Response),
    Replay(Seq<Seq<u8>>),
    Stream,
    Stop,
}

impl View for AttachStep {
    type V = AttachView;

    open spec fn view(&self) -> AttachView {
        match *self {
            AttachStep::Subscribe => AttachView::Subscribe,
            AttachStep::Respond(response) => AttachView::Respond(response),
            AttachStep::Replay { chunks, next } => AttachView::Replay(
                if next < chunks@.len() {
                    chunks@.map_values(|chunk: Bytes| chunk_bytes(chunk)).skip(next as int)
                } else {
                    seq![]
                },
            ),
            AttachStep::Stream => AttachView::Stream,
            AttachStep::Stop => AttachView::Stop,
        }
    }
}

/// The step for a client to which these chunks are left to be written.
pub open spec fn replaying(left: Seq<Seq<u8>>) -> AttachView {
    if left.len() > 0 {
        AttachView::Replay(left)
    } else {
        AttachView::Stream
    }
}

/// What comes after `step` once it was done or, where `done` is false, could not be: after the
/// subscription the response, then the history as it is at that moment, chunk by chunk up to the
/// first that cannot be written, then the stream.
pub open spec fn attach_next(step: AttachView, history: Seq<Seq<u8>>, done: bool) -> AttachView {
    match step {
        AttachView::Subscribe => AttachView::Respond(Response::ForwardingReady),
        AttachView::Respond(_) => replaying(history),
        AttachView::Replay(left) => if !done {
            AttachView::Stop
        } else if left.len() > 0 {
            replaying(left.drop_first())
        } else {
            AttachView::Stream
        },
        AttachView::Stream => AttachView::Stream,
        AttachView::Stop => AttachView::Stop,
    }
}

/// The first step for a client that attaches.
pub fn begin_attach() -> (res: AttachStep)
    ensures
        res == AttachStep::Subscribe,
        res@ == scene_start().attach,
{
    AttachStep::Subscribe
}

/// Decides what the daemon does next for a client that attaches, after `step` was done or, where
/// `done` is false, could not be. The first step is that of `begin_attach`. Once the response is
/// out the client gets the history as it then is, whether or not the response reached it; once it
/// has the history, the stream.
pub fn continue_attach(history: &History, step: AttachStep, done: bool) -> (res: AttachStep)
    ensures
        res@ == attach_next(step@, history@, done),
        res matches AttachStep::Replay { chunks, next } ==> next < chunks@.len(),
        step is Subscribe ==> res == AttachStep::Respond(Response::ForwardingReady),
        step is Respond && history@.len() == 0 ==> res is Stream,
        step is Respond && history@.len() > 0 ==> (res matches AttachStep::Replay { chunks, next }
            && next == 0 && chunks@.len() == history@.len() && forall|i: int|
            0 <= i < history@.len() ==> chunk_bytes(#[trigger] chunks@[i]) == history@[i]),
        step matches AttachStep::Replay { chunks, next } ==> {
            &&& !done ==> res is Stop
            &&& done && next + 1 < chunks@.len() ==> res == (AttachStep::Replay {
                chunks,
                next: (next + 1) as usize,
            })
            &&& done && next + 1 >= chunks@.len() ==> res is Stream
        },
        step is Stream ==> res is Stream,
        step is Stop ==> res is Stop,
        forall|name: Seq<char>|
            step is Subscribe ==> #[trigger] answers(
                RequestView::Attach { name },
                res->Respond_0,
            ),
{
    match step {
        AttachStep::Subscribe => AttachStep::Respond(Response::ForwardingReady),
        AttachStep::Respond(_) => {
            let chunks = history.snapshot();
            let ghost left = chunks@.map_values(|chunk: Bytes| chunk_bytes(chunk));
            if chunks.len() > 0 {
                assert(left.skip(0) =~= left);
                AttachStep::Replay { chunks, next: 0 }
            } else {
                AttachStep::Stream
            }
        },
        AttachStep::Replay { chunks, next } => {
            let ghost left = chunks@.map_values(|chunk: Bytes| chunk_bytes(chunk));
            if !done {
                AttachStep::Stop
            } else if next < chunks.len() && next + 1 < chunks.len() {
                assert(left.skip(next as int).drop_first() =~= left.skip(next + 1));
                AttachStep::Replay { chunks, next: next + 1 }
            } else {
                AttachStep::Stream
            }
        },
        AttachStep::Stream => AttachStep::Stream,
        AttachStep::Stop => AttachStep::Stop,
    }
}

/// A step for a client that attaches stands for all that it holds: the bytes of the chunk to be
/// written and of all chunks after it.
pub proof fn an_attach_step_shows_all_that_it_holds(step: AttachStep)
    ensures
        step is Subscribe <==> step@ is Subscribe,
        step is Stream <==> step@ is Stream,
        step is Stop <==> step@ is Stop,
        step matches AttachStep::Respond(response) ==> step@ == AttachView::Respond(response),
        step matches AttachStep::Replay { chunks, next } ==> (next <= chunks@.len() ==> {
            &&& step@ matches AttachView::Replay(left)
            &&& left.len() == chunks@.len() - next
            &&& forall|i: int|
                0 <= i < left.len() ==> #[trigger] left[i] == chunk_bytes(chunks@[next + i])
        }),
{
}

/// An attachment goes forward. After the subscription comes the response; after the response,
/// whether or not it was written, comes the whole history, whatever it holds; after each chunk that
/// was written the rest of it, and after the last the stream, which stays.
pub proof fn an_attachment_goes_forward(history: Seq<Seq<u8>>, response: Response, done: bool)
    ensures
        attach_next(AttachView::Subscribe, history, done) == AttachView::Respond(
            Response::ForwardingReady,
        ),
        history.len() > 0 ==> attach_next(AttachView::Respond(response), history, done)
            == AttachView::Replay(history),
        history.len() == 0 ==> attach_next(AttachView::Respond(response), history, done)
            == AttachView::Stream,
        forall|left: Seq<Seq<u8>>|
            left.len() > 1 ==> #[trigger] attach_next(AttachView::Replay(left), history, true)
                == AttachView::Replay(left.drop_first()),
        forall|left: Seq<Seq<u8>>|
            left.len() <= 1 ==> #[trigger] attach_next(AttachView::Replay(left), history, true)
                == AttachView::Stream,
        attach_next(AttachView::Stream, history, done) == AttachView::Stream,
{
}

/// What happens around a session to which a client attaches.
pub ghost enum SessionEvent {
    /// Something goes through the session.
    Passed(Passage),
    /// The piece of output of this number in the log is handed to the clients that are subscribed,
    /// where that is still to be done.
    HandedOut(int),
    /// The step at hand for the client that attaches was done, or could not be.
    Attached(bool),
    /// The client that has the stream is written the oldest piece that waits for it.
    Shown,
    /// The client lags behind, and misses the oldest piece that waits for it.
    Lagged,
}

/// A session to which a client attaches. A piece of output is known by its number, its place in the
/// log.
pub ghost struct Scene {
    /// All pieces that have gone through the session.
    pub log: Seq<Seq<u8>>,
    /// The history, as the session keeps it.
    pub history: Seq<Seq<u8>>,
    /// The numbers of the pieces that the process has put out.
    pub outputs: Set<int>,
    /// Those of them that are still to be handed to the clients.
    pub owed: Set<int>,
    /// Those that wait for the client, the oldest first.
    pub waiting: Seq<int>,
    /// Those that the client was written from the stream.
    pub streamed: Seq<int>,
    /// Those that the client missed since it lagged behind.
    pub missed: Set<int>,
    /// The step at hand for the client.
    pub attach: AttachView,
    /// The history that the client is given, and how long the log was then.
    pub given: Seq<Seq<u8>>,
    pub until: nat,
    /// What the client was written after the response.
    pub shown: Seq<Seq<u8>>,
}

/// A session at its beginning, with a client that is about to attach.
pub open spec fn scene_start() -> Scene {
    Scene {
        log: seq![],
        history: seq![],
        outputs: Set::empty(),
        owed: Set::empty(),
        waiting: seq![],
        streamed: seq![],
        missed: Set::empty(),
        attach: AttachView::Subscribe,
        given: seq![],
        until: 0,
        shown: seq![],
    }
}

/// What an event makes of a scene, as the functions of the session have it: `read_output` enters a
/// piece in the history and has it handed out afterwards, `write_input` enters one, and
/// `continue_attach` leads the client from the subscription to the stream, of which `live_output`
/// has all that comes written.
pub open spec fn scene_next(scene: Scene, event: SessionEvent) -> Scene {
    match event {
        SessionEvent::Passed(passage) => {
            let number = scene.log.len() as int;
            let logged = Scene {
                log: with_piece(scene.log, passed(passage)),
                history: remember_piece(scene.history, passed(passage)),
                ..scene
            };
            if passage is Output && passed(passage) is Some {
                Scene {
                    outputs: scene.outputs.insert(number),
                    owed: scene.owed.insert(number),
                    ..logged
                }
            } else {
                logged
            }
        },
        SessionEvent::HandedOut(number) => if scene.owed.contains(number) {
            Scene {
                owed: scene.owed.remove(number),
                waiting: if scene.attach is Subscribe {
                    scene.waiting
                } else {
                    scene.waiting.push(number)
                },
                ..scene
            }
        } else {
            scene
        },
        SessionEvent::Attached(done) => {
            let after = Scene { attach: attach_next(scene.attach, scene.history, done), ..scene };
            match scene.attach {
                AttachView::Respond(_) => Scene {
                    given: scene.history,
                    until: scene.log.len(),
                    ..after
                },
                AttachView::Replay(left) => if done && left.len() > 0 {
                    Scene { shown: scene.shown.push(left.first()), ..after }
                } else {
                    after
                },
                _ => after,
            }
        },
        SessionEvent::Shown => if scene.attach is Stream && scene.waiting.len() > 0 {
            Scene {
                waiting: scene.waiting.drop_first(),
                streamed: scene.streamed.push(scene.waiting.first()),
                shown: scene.shown.push(scene.log[scene.waiting.first()]),
                ..scene
            }
        } else {
            scene
        },
        SessionEvent::Lagged => if scene.waiting.len() > 0 {
            Scene {
                waiting: scene.waiting.drop_first(),
                missed: scene.missed.insert(scene.waiting.first()),
                ..scene
            }
        } else {
            scene
        },
    }
}

/// The scene after a series of events.
pub open spec fn scene_run(series: Seq<SessionEvent>) -> Scene
    decreases series.len(),
{
    if series.len() == 0 {
        scene_start()
    } else {
        scene_next(scene_run(series.drop_last()), series.last())
    }
}

/// Whether the client is given the history or has been given it.
pub open spec fn is_given(step: AttachView) -> bool {
    step is Replay || step is Stream
}

/// Whether the piece of this number has come to the client by the stream, or is on its way.
pub open spec fn comes_by_stream(scene: Scene, number: int) -> bool {
    ||| scene.owed.contains(number)
    ||| scene.waiting.contains(number)
    ||| scene.streamed.contains(number)
    ||| scene.missed.contains(number)
}

spec fn scene_holds(scene: Scene) -> bool {
    &&& scene.history == remember_all(scene.log)
    &&& forall|n: int| #[trigger] scene.outputs.contains(n) ==> 0 <= n < scene.log.len()
    &&& forall|n: int| #[trigger] scene.owed.contains(n) ==> scene.outputs.contains(n)
    &&& forall|k: int|
        0 <= k < scene.waiting.len() ==> scene.outputs.contains(#[trigger] scene.waiting[k])
    &&& forall|k: int|
        0 <= k < scene.streamed.len() ==> scene.outputs.contains(#[trigger] scene.streamed[k])
    &&& scene.attach is Subscribe || scene.attach is Respond ==> scene.shown.len() == 0
    &&& scene.attach !is Stream && scene.attach !is Stop ==> scene.streamed.len() == 0
    &&& is_given(scene.attach) ==> {
        &&& scene.until <= scene.log.len()
        &&& scene.given == remember_all(scene.log.take(scene.until as int))
        &&& forall|n: int| #[trigger]
            scene.outputs.contains(n) && n >= scene.until ==> comes_by_stream(scene, n)
    }
    &&& scene.attach matches AttachView::Replay(left) ==> left.len() > 0 && scene.shown + left
        == scene.given
    &&& scene.attach is Stream ==> scene.shown == scene.given + scene.streamed.map_values(
        |n: int| scene.log[n],
    )
}

proof fn lemma_passed(scene: Scene, passage: Passage)
    requires
        scene_holds(scene),
    ensures
        scene_holds(scene_next(scene, SessionEvent::Passed(passage))),
{
    let after = scene_next(scene, SessionEvent::Passed(passage));
    match passed(passage) {
        Some(piece) => {
            a_replay_is_the_end_of_the_stream(scene.log, piece);
            if is_given(scene.attach) {
                assert(after.log.take(scene.until as int) =~= scene.log.take(scene.until as int));
                assert forall|n: int| #[trigger]
                    after.outputs.contains(n) && n >= after.until implies comes_by_stream(
                    after,
                    n,
                ) by {
                    if scene.outputs.contains(n) {
                        assert(comes_by_stream(scene, n));
                    }
                }
            }
            assert(after.streamed.map_values(|n: int| after.log[n]) =~= scene.streamed.map_values(
                |n: int| scene.log[n],
            )) by {
                assert forall|k: int| 0 <= k < scene.streamed.len() implies after.log[#[trigger]
                    scene.streamed[k]] == scene.log[scene.streamed[k]] by {
                    assert(scene.outputs.contains(scene.streamed[k]));
                }
            }
        },
        None => {},
    }
}

proof fn lemma_handed_out(scene: Scene, number: int)
    requires
        scene_holds(scene),
    ensures
        scene_holds(scene_next(scene, SessionEvent::HandedOut(number))),
{
    let after = scene_next(scene, SessionEvent::HandedOut(number));
    if scene.owed.contains(number) && is_given(scene.attach) {
        assert forall|n: int| #[trigger]
            after.outputs.contains(n) && n >= after.until implies comes_by_stream(after, n) by {
            assert(comes_by_stream(scene, n));
            if n == number {
                assert(after.waiting[scene.waiting.len() as int] == n);
            } else if scene.waiting.contains(n) {
                let k = choose|k: int| 0 <= k < scene.waiting.len() && scene.waiting[k] == n;
                assert(after.waiting[k] == n);
            }
        }
    }
}

proof fn lemma_attached(scene: Scene, done: bool)
    requires
        scene_holds(scene),
    ensures
        scene_holds(scene_next(scene, SessionEvent::Attached(done))),
{
    let after = scene_next(scene, SessionEvent::Attached(done));
    assert(scene.log.take(scene.log.len() as int) =~= scene.log);
    assert(after.streamed.len() == 0 ==> after.streamed.map_values(|n: int| after.log[n])
        =~= seq![]);
    match scene.attach {
        AttachView::Respond(_) => {
            assert(after.shown + after.given =~= after.given);
            assert(after.shown =~= seq![]);
            assert(after.attach is Stream ==> after.given =~= seq![]);
        },
        AttachView::Replay(left) => {
            if done {
                assert(after.shown + left.drop_first() =~= scene.shown + left);
                assert(after.attach is Stream ==> left.drop_first() =~= seq![]);
            }
            assert forall|n: int| #[trigger]
                after.outputs.contains(n) && n >= after.until implies comes_by_stream(after, n) by {
                assert(comes_by_stream(scene, n));
            }
        },
        AttachView::Stream => {
            assert forall|n: int| #[trigger]
                after.outputs.contains(n) && n >= after.until implies comes_by_stream(after, n) by {
                assert(comes_by_stream(scene, n));
            }
        },
        _ => {},
    }
}

proof fn lemma_taken(scene: Scene, event: SessionEvent)
    requires
        scene_holds(scene),
        event is Shown || event is Lagged,
    ensures
        scene_holds(scene_next(scene, event)),
{
    let after = scene_next(scene, event);
    if after != scene {
        assert(after.waiting =~= scene.waiting.drop_first());
        let first = scene.waiting.first();
        assert(scene.outputs.contains(scene.waiting[0]));
        assert forall|k: int| 0 <= k < after.waiting.len() implies after.outputs.contains(
            #[trigger] after.waiting[k],
        ) by {
            assert(scene.outputs.contains(scene.waiting[k + 1]));
        }
        if event is Shown {
            assert(after.streamed.map_values(|n: int| after.log[n]) =~= scene.streamed.map_values(
                |n: int| scene.log[n],
            ).push(scene.log[first]));
            assert(after.streamed[scene.streamed.len() as int] == first);
        }
        if is_given(scene.attach) {
            assert forall|n: int| #[trigger]
                after.outputs.contains(n) && n >= after.until implies comes_by_stream(after, n) by {
                assert(comes_by_stream(scene, n));
                if scene.waiting.contains(n) && n != first {
                    let k = choose|k: int| 0 <= k < scene.waiting.len() && scene.waiting[k] == n;
                    assert(after.waiting[k - 1] == n);
                } else if scene.streamed.contains(n) {
                    let k = choose|k: int| 0 <= k < scene.streamed.len() && scene.streamed[k] == n;
                    assert(after.streamed[k] == n);
                }
            }
        }
    }
}

proof fn lemma_scene_holds(series: Seq<SessionEvent>)
    ensures
        scene_holds(scene_run(series)),
    decreases series.len(),
{
    if series.len() > 0 {
        lemma_scene_holds(series.drop_last());
        let before = scene_run(series.drop_last());
        match series.last() {
            SessionEvent::Passed(passage) => lemma_passed(before, passage),
            SessionEvent::HandedOut(number) => lemma_handed_out(before, number),
            SessionEvent::Attached(done) => lemma_attached(before, done),
            SessionEvent::Shown => lemma_taken(before, series.last()),
            SessionEvent::Lagged => lemma_taken(before, series.last()),
        }
    }
}

/// A client that has come to the stream was written the whole history, as it was when the response
/// was out, and after it nothing but pieces of the stream.
pub proof fn an_attached_client_is_shown_the_history_then_the_stream(series: Seq<SessionEvent>)
    requires
        scene_run(series).attach is Stream,
    ensures
        ({
            let scene = scene_run(series);
            &&& scene.given == latest(scene.log.take(scene.until as int), HISTORY_LIMIT as nat)
            &&& scene.shown == scene.given + scene.streamed.map_values(|n: int| scene.log[n])
        }),
{
    lemma_scene_holds(series);
    let scene = scene_run(series);
    history_holds_the_latest_chunks(scene.log.take(scene.until as int));
}

/// Once the response is out, whether or not it could be written, the client is at the replay of the
/// history, whole and as it then is, or at the stream where nothing has gone through the session.
pub proof fn the_response_is_followed_by_the_history(series: Seq<SessionEvent>, done: bool)
    requires
        scene_run(series).attach is Respond,
    ensures
        ({
            let scene = scene_run(series);
            let after = scene_run(series.push(SessionEvent::Attached(done)));
            &&& scene.log.len() == 0 ==> after.attach is Stream
            &&& 0 < scene.log.len() <= 5000 ==> after.attach == AttachView::Replay(scene.log)
            &&& scene.log.len() > 5000 ==> after.attach == AttachView::Replay(
                scene.log.skip(scene.log.len() - 5000),
            )
            &&& after.given == scene.history && after.until == scene.log.len()
        }),
{
    lemma_scene_holds(series);
    let scene = scene_run(series);
    assert(series.push(SessionEvent::Attached(done)).drop_last() =~= series);
    history_holds_the_latest_chunks(scene.log);
}

/// An attachment stops only where a chunk of the history could not be written.
pub proof fn only_a_failed_write_stops_an_attachment(series: Seq<SessionEvent>)
    requires
        scene_run(series).attach is Stop,
    ensures
        exists|i: int|
            0 <= i < series.len() && series[i] == SessionEvent::Attached(false) && scene_run(
                #[trigger] series.take(i),
            ).attach is Replay,
    decreases series.len(),
{
    let before = series.drop_last();
    if scene_run(before).attach is Stop {
        only_a_failed_write_stops_an_attachment(before);
        let i = choose|i: int|
            0 <= i < before.len() && before[i] == SessionEvent::Attached(false) && scene_run(
                #[trigger] before.take(i),
            ).attach is Replay;
        assert(before.take(i) =~= series.take(i));
        assert(scene_run(series.take(i)).attach is Replay);
    } else {
        let i = series.len() - 1;
        assert(series.take(i) =~= before);
        assert(scene_run(series.take(i)).attach is Replay);
    }
}

/// So many chunks that are written, one after the other.
pub open spec fn chunks_written(count: nat) -> Seq<SessionEvent> {
    Seq::new(count, |i: int| SessionEvent::Attached(true))
}

proof fn lemma_chunks_written(count: nat)
    ensures
        writes(chunks_written(count)) == count,
    decreases count,
{
    if count > 0 {
        lemma_chunks_written((count - 1) as nat);
        assert(chunks_written(count).drop_last() =~= chunks_written((count - 1) as nat));
    }
}

/// A client that attaches to a session, whatever has gone through it, and whose writes succeed, is
/// written all that has gone through the session, up to five thousand pieces, in order and to the
/// last byte, and then has the stream.
pub proof fn an_attaching_client_sees_what_went_before(series: Seq<SessionEvent>)
    requires
        scene_run(series).attach is Respond,
        scene_run(series).log.len() <= 5000,
    ensures
        ({
            let log = scene_run(series).log;
            let after = scene_run(
                series.push(SessionEvent::Attached(true)) + chunks_written(log.len()),
            );
            &&& after.attach is Stream
            &&& after.shown == log
        }),
{
    let log = scene_run(series).log;
    let responded = series.push(SessionEvent::Attached(true));
    let all = responded + chunks_written(log.len());
    the_response_is_followed_by_the_history(series, true);
    lemma_chunks_written(log.len());
    if log.len() > 0 {
        a_replay_comes_to_the_stream(responded, log, chunks_written(log.len()));
    } else {
        assert(all =~= responded);
    }
    lemma_scene_holds(series);
    assert(responded.drop_last() =~= series);
    assert(scene_run(responded).streamed == scene_run(series).streamed);
    lemma_nothing_passed(responded, log.len());
    lemma_scene_holds(all);
    let after = scene_run(all);
    history_holds_the_latest_chunks(log);
    assert(after.given =~= log);
    assert(after.streamed.map_values(|n: int| after.log[n]) =~= seq![]);
    assert(after.shown =~= log);
}

proof fn lemma_nothing_passed(series: Seq<SessionEvent>, count: nat)
    requires
        is_given(scene_run(series).attach),
        scene_run(series).streamed.len() == 0,
    ensures
        ({
            let before = scene_run(series);
            let after = scene_run(series + chunks_written(count));
            &&& after.given == before.given
            &&& after.log == before.log
            &&& after.streamed == before.streamed
            &&& is_given(after.attach)
        }),
    decreases count,
{
    let later = chunks_written(count);
    if count == 0 {
        assert(series + later =~= series);
    } else {
        lemma_nothing_passed(series, (count - 1) as nat);
        assert((series + later).drop_last() =~= series + chunks_written((count - 1) as nat));
        assert((series + later).last() == SessionEvent::Attached(true));
    }
}

/// Whether what the client was written has the piece of this number at `at`: in the history, where
/// the piece has the place that its number gives it, or in the stream, as the piece of that number.
pub open spec fn is_shown_at(scene: Scene, number: int, at: int) -> bool {
    &&& 0 <= at < scene.shown.len()
    &&& scene.shown[at] == scene.log[number]
    &&& if at < scene.given.len() {
        at == number - (scene.until - scene.given.len())
    } else {
        number == scene.streamed[at - scene.given.len()]
    }
}

/// Whether the client was written the piece of this number.
pub open spec fn is_shown(scene: Scene, number: int) -> bool {
    exists|at: int| is_shown_at(scene, number, at)
}

/// What the client was written at one place is one piece: of two pieces with the same bytes each
/// has a place of its own.
pub proof fn pieces_are_shown_apart(scene: Scene, one: int, other: int, at: int)
    requires
        is_shown_at(scene, one, at),
        is_shown_at(scene, other, at),
    ensures
        one == other,
{
}

/// A client that attaches while the session goes on misses nothing in between. Once it has come to
/// the stream, each piece that the process has put out and that was not forgotten before the client
/// got the history has been written to the client, in the history or in the stream, or else is still
/// to be handed out, waits for the client, or was missed since the client lagged behind. With no
/// more than `HISTORY_LIMIT` pieces in the log when the client got the history, that is each piece
/// of output there is.
pub proof fn an_attaching_client_misses_nothing(series: Seq<SessionEvent>, number: int)
    requires
        scene_run(series).attach is Stream,
        scene_run(series).outputs.contains(number),
        scene_run(series).until <= HISTORY_LIMIT + number,
    ensures
        ({
            let scene = scene_run(series);
            let at = number - (scene.until - scene.given.len());
            &&& number < scene.until ==> is_shown_at(scene, number, at) && at < scene.given.len()
            &&& number >= scene.until ==> comes_by_stream(scene, number)
            &&& scene.streamed.contains(number) ==> is_shown(scene, number)
        }),
{
    lemma_scene_holds(series);
    an_attached_client_is_shown_the_history_then_the_stream(series);
    let scene = scene_run(series);
    if number < scene.until {
        let at = number - (scene.until - scene.given.len());
        assert(scene.given[at] == scene.log[number]);
        assert(scene.shown[at] == scene.log[number]);
    }
    if scene.streamed.contains(number) {
        let k = choose|k: int| 0 <= k < scene.streamed.len() && scene.streamed[k] == number;
        assert(is_shown_at(scene, number, scene.given.len() + k));
    }
}

/// Whatever happens in what order, as long as the client does not lag behind it misses no piece of
/// output.
pub proof fn only_a_client_that_lags_misses_output(series: Seq<SessionEvent>)
    requires
        forall|k: int| 0 <= k < series.len() ==> !(#[trigger] series[k] is Lagged),
    ensures
        scene_run(series).missed == Set::<int>::empty(),
    decreases series.len(),
{
    if series.len() > 0 {
        let before = series.drop_last();
        assert forall|k: int| 0 <= k < before.len() implies !(#[trigger] before[k] is Lagged) by {
            assert(before[k] == series[k]);
        }
        only_a_client_that_lags_misses_output(before);
        assert(!(series[series.len() - 1] is Lagged));
    }
}

/// A client that attaches to a session of no more than `HISTORY_LIMIT` pieces and does not lag
/// behind gets all of its output: once nothing is left to be handed out and nothing waits for it,
/// each piece that the process has put out has been written to the client, one from before it got
/// the history at the place in the history that its number gives it, a later one in the stream.
pub proof fn an_attached_client_gets_all_output(series: Seq<SessionEvent>, number: int)
    requires
        scene_run(series).attach is Stream,
        scene_run(series).until <= HISTORY_LIMIT,
        scene_run(series).owed == Set::<int>::empty(),
        scene_run(series).waiting.len() == 0,
        forall|k: int| 0 <= k < series.len() ==> !(#[trigger] series[k] is Lagged),
        scene_run(series).outputs.contains(number),
    ensures
        ({
            let scene = scene_run(series);
            &&& is_shown(scene, number)
            &&& number < scene.until ==> is_shown_at(scene, number, number)
            &&& number >= scene.until ==> scene.streamed.contains(number)
        }),
{
    lemma_scene_holds(series);
    only_a_client_that_lags_misses_output(series);
    an_attached_client_is_shown_the_history_then_the_stream(series);
    an_attaching_client_misses_nothing(series, number);
    assert(scene_run(series).given.len() == scene_run(series).until);
}

/// How many times in the course of a series of events a client that has the stream is written a
/// piece, if one waits for it.
pub open spec fn turns(series: Seq<SessionEvent>) -> nat
    decreases series.len(),
{
    if series.len() == 0 {
        0
    } else {
        turns(series.drop_last()) + if series.last() is Shown {
            1nat
        } else {
            0nat
        }
    }
}

/// A piece that waits for a client at the place `at` is written to it in its turn, after the pieces
/// before it, whatever else happens, as long as the client does not lag behind.
pub proof fn a_waiting_piece_is_shown_in_its_turn(
    series: Seq<SessionEvent>,
    at: int,
    later: Seq<SessionEvent>,
)
    requires
        scene_run(series).attach is Stream,
        0 <= at < scene_run(series).waiting.len(),
        forall|k: int| 0 <= k < later.len() ==> !(#[trigger] later[k] is Lagged),
    ensures
        ({
            let number = scene_run(series).waiting[at];
            let scene = scene_run(series + later);
            &&& scene.attach is Stream
            &&& turns(later) > at ==> scene.streamed.contains(number) && is_shown(scene, number)
            &&& turns(later) <= at ==> scene.waiting.len() > at - turns(later)
                && scene.waiting[at - turns(later)] == number
        }),
    decreases later.len(),
{
    let number = scene_run(series).waiting[at];
    let scene = scene_run(series + later);
    if later.len() == 0 {
        assert(series + later =~= series);
    } else {
        let before = later.drop_last();
        assert forall|k: int| 0 <= k < before.len() implies !(#[trigger] before[k] is Lagged) by {
            assert(before[k] == later[k]);
        }
        a_waiting_piece_is_shown_in_its_turn(series, at, before);
        assert((series + later).drop_last() =~= series + before);
        assert((series + later).last() == later.last());
        assert(!(later[later.len() - 1] is Lagged));
        let earlier = scene_run(series + before);
        if turns(before) > at {
            let k = choose|k: int|
                0 <= k < earlier.streamed.len() && earlier.streamed[k] == number;
            assert(scene.streamed[k] == number);
        } else if later.last() is Shown && turns(before) == at {
            assert(scene.streamed[earlier.streamed.len() as int] == number);
        }
    }
    if turns(later) > at {
        lemma_scene_holds(series + later);
        let k = choose|k: int| 0 <= k < scene.streamed.len() && scene.streamed[k] == number;
        assert(is_shown_at(scene, number, scene.given.len() + k));
    }
}

/// A piece that is handed out once the client has the stream is written to the client after those
/// that waited for it then, whatever else happens, as long as the client does not lag behind.
pub proof fn a_piece_handed_out_is_shown_in_its_turn(
    series: Seq<SessionEvent>,
    number: int,
    later: Seq<SessionEvent>,
)
    requires
        scene_run(series).attach is Stream,
        scene_run(series).owed.contains(number),
        forall|k: int| 0 <= k < later.len() ==> !(#[trigger] later[k] is Lagged),
        turns(later) > scene_run(series).waiting.len(),
    ensures
        is_shown(scene_run(series.push(SessionEvent::HandedOut(number)) + later), number),
{
    let out = series.push(SessionEvent::HandedOut(number));
    assert(out.drop_last() =~= series);
    assert(scene_run(out).waiting == scene_run(series).waiting.push(number));
    a_waiting_piece_is_shown_in_its_turn(out, scene_run(series).waiting.len() as int, later);
}

/// How many chunks of the history are written, at most, in the course of a series of events.
pub open spec fn writes(series: Seq<SessionEvent>) -> nat
    decreases series.len(),
{
    if series.len() == 0 {
        0
    } else {
        writes(series.drop_last()) + if series.last() == SessionEvent::Attached(true) {
            1nat
        } else {
            0nat
        }
    }
}

/// A client that is given the history comes to the stream, whatever else happens, once as many
/// chunks have been written as were left, with none that could not be.
pub proof fn a_replay_comes_to_the_stream(
    series: Seq<SessionEvent>,
    left: Seq<Seq<u8>>,
    later: Seq<SessionEvent>,
)
    requires
        scene_run(series).attach == AttachView::Replay(left),
        forall|k: int| 0 <= k < later.len() ==> #[trigger] later[k] != SessionEvent::Attached(false),
    ensures
        scene_run(series + later).attach == (if writes(later) < left.len() {
            AttachView::Replay(left.skip(writes(later) as int))
        } else {
            AttachView::Stream
        }),
    decreases later.len(),
{
    if later.len() == 0 {
        lemma_scene_holds(series);
        assert(series + later =~= series);
        assert(left.skip(0) =~= left);
    } else {
        let before = later.drop_last();
        assert forall|k: int| 0 <= k < before.len() implies #[trigger] before[k]
            != SessionEvent::Attached(false) by {
            assert(before[k] == later[k]);
        }
        a_replay_comes_to_the_stream(series, left, before);
        assert((series + later).drop_last() =~= series + before);
        assert((series + later).last() == later.last());
        assert(later[later.len() - 1] != SessionEvent::Attached(false));
        if writes(before) < left.len() {
            assert(left.skip(writes(before) as int).drop_first() =~= left.skip(
                writes(before) as int + 1,
            ));
        }
    }
}

/// A chunk of the history that cannot be written ends the attachment: the client gets neither the
/// chunks after it nor the stream, whatever comes after.
pub proof fn a_failed_replay_ends_the_attachment(
    series: Seq<SessionEvent>,
    later: Seq<SessionEvent>,
)
    requires
        scene_run(series).attach is Replay,
    ensures
        ({
            let failed = series.push(SessionEvent::Attached(false));
            &&& scene_run(failed + later).attach is Stop
            &&& scene_run(failed + later).shown == scene_run(series).shown
        }),
    decreases later.len(),
{
    let failed = series.push(SessionEvent::Attached(false));
    if later.len() == 0 {
        assert(failed + later =~= failed);
        assert(failed.drop_last() =~= series);
    } else {
        a_failed_replay_ends_the_attachment(series, later.drop_last());
        assert((failed + later).drop_last() =~= failed + later.drop_last());
    }
}

/// What came of waiting for output of a session.
pub enum Received {
    Data(Vec<u8>),
    /// The session puts out nothing any more.
    Closed,
    /// Output was missed.
    Lagged,
}

/// What is done with it.
pub enum LiveStep {
    /// Write this to the client, then wait on, whether or not it was written.
    Send(Vec<u8>),
    /// Wait on.
    Wait,
    Stop,
}

/// What is done for an attached client with what came of waiting for output.
pub open spec fn live_next(state: SessionState, received: Received) -> LiveStep {
    match received {
        Received::Data(data) => LiveStep::Send(data),
        Received::Closed => if state is Exited {
            LiveStep::Stop
        } else {
            LiveStep::Wait
        },
        Received::Lagged => LiveStep::Wait,
    }
}

/// All that the session puts out is sent to an attached client as it came, whether the process runs
/// or has exited; a client that lagged behind is kept, and it is let go only where no more output
/// comes and the process has exited.
pub proof fn live_output_is_sent_as_it_came(state: SessionState, data: Vec<u8>, received: Received)
    ensures
        live_next(state, Received::Data(data)) == LiveStep::Send(data),
        live_next(state, Received::Lagged) is Wait,
        live_next(state, received) is Stop <==> received is Closed && state is Exited,
        live_next(state, received) is Send ==> received is Data,
{
}

/// Decides what is done for an attached client with what came of waiting for output. The end of
/// the output counts only once the process has exited.
pub fn live_output(state: &SessionState, received: Received) -> (step: LiveStep)
    ensures
        step == (match received {
            Received::Data(data) => LiveStep::Send(data),
            Received::Closed => if *state is Exited {
                LiveStep::Stop
            } else {
                LiveStep::Wait
            },
            Received::Lagged => LiveStep::Wait,
        }),
        step == live_next(*state, received),
{
    match received {
        Received::Data(data) => LiveStep::Send(data),
        Received::Closed => if state.is_exited() {
            LiveStep::Stop
        } else {
            LiveStep::Wait
        },
        Received::Lagged => LiveStep::Wait,
    }
}

/// What the daemon does next with the input of an attached client.
pub enum InputStep {
    /// Read from the client.
    Read,
    /// Hand this to the session.
    Send(Vec<u8>),
    Stop,
}

/// What a piece of that work came to: a read, which gives `None` where it failed and no bytes
/// where the client has closed, or a hand-over, which succeeds as long as the session is there.
pub enum InputAnswer {
    Read(Option<Vec<u8>>),
    Sent(bool),
}

/// What comes after `step` once it came to `answer`. An answer to something else changes nothing.
pub open spec fn input_next(step: InputStep, answer: InputAnswer) -> InputStep {
    match (step, answer) {
        (InputStep::Read, InputAnswer::Read(Some(data))) => if data@.len() > 0 {
            InputStep::Send(data)
        } else {
            InputStep::Stop
        },
        (InputStep::Read, InputAnswer::Read(None)) => InputStep::Stop,
        (InputStep::Send(_), InputAnswer::Sent(sent)) => if sent {
            InputStep::Read
        } else {
            InputStep::Stop
        },
        _ => step,
    }
}

/// The first step with the input of an attached client.
pub fn begin_input() -> (res: InputStep)
    ensures
        res == InputStep::Read,
{
    InputStep::Read
}

/// Decides what the daemon does next with the input of an attached client after `step` came to
/// `answer`. The first step is that of `begin_input`.
pub fn forward_input(step: InputStep, answer: InputAnswer) -> (res: InputStep)
    ensures
        res == input_next(step, answer),
        answer matches InputAnswer::Read(Some(data)) ==> (step is Read && data@.len() > 0 ==> res
            == InputStep::Send(data)),
        answer == InputAnswer::Sent(true) ==> (step is Send ==> res is Read),
{
    match step {
        InputStep::Read => match answer {
            InputAnswer::Read(Some(data)) => if data.len() > 0 {
                InputStep::Send(data)
            } else {
                InputStep::Stop
            },
            InputAnswer::Read(None) => InputStep::Stop,
            InputAnswer::Sent(_) => InputStep::Read,
        },
        InputStep::Send(data) => match answer {
            InputAnswer::Sent(sent) => if sent {
                InputStep::Read
            } else {
                InputStep::Stop
            },
            InputAnswer::Read(_) => InputStep::Send(data),
        },
        InputStep::Stop => InputStep::Stop,
    }
}

/// Where the daemon stands with the input of an attached client after a series of answers.
pub open spec fn input_run(series: Seq<InputAnswer>) -> InputStep
    decreases series.len(),
{
    if series.len() == 0 {
        InputStep::Read
    } else {
        input_next(input_run(series.drop_last()), series.last())
    }
}

/// The pieces that were taken from the client in the course of a series of answers.
pub open spec fn input_taken(series: Seq<InputAnswer>) -> Seq<Seq<u8>>
    decreases series.len(),
{
    if series.len() == 0 {
        seq![]
    } else {
        with_piece(
            input_taken(series.drop_last()),
            match (input_run(series.drop_last()), series.last()) {
                (InputStep::Read, InputAnswer::Read(Some(data))) => if data@.len() > 0 {
                    Some(data@)
                } else {
                    None
                },
                _ => None,
            },
        )
    }
}

/// The pieces that the session has accepted in the course of a series of answers.
pub open spec fn input_sent(series: Seq<InputAnswer>) -> Seq<Seq<u8>>
    decreases series.len(),
{
    if series.len() == 0 {
        seq![]
    } else {
        with_piece(
            input_sent(series.drop_last()),
            match (input_run(series.drop_last()), series.last()) {
                (InputStep::Send(data), InputAnswer::Sent(true)) => Some(data@),
                _ => None,
            },
        )
    }
}

/// What an attached client puts in reaches the session piece by piece, in order and unchanged. As
/// long as the daemon goes on, all but the piece at hand have reached it; when it has stopped, all,
/// or all but one that the session did not accept.
pub proof fn client_input_is_sent_in_order(series: Seq<InputAnswer>)
    ensures
        input_run(series) is Read ==> input_taken(series) == input_sent(series),
        input_run(series) matches InputStep::Send(data) ==> input_taken(series) == input_sent(
            series,
        ).push(data@),
        exists|last: Option<Seq<u8>>|
            input_taken(series) == #[trigger] with_piece(input_sent(series), last),
    decreases series.len(),
{
    if series.len() == 0 {
        assert(input_taken(series) == with_piece(input_sent(series), None));
    } else {
        client_input_is_sent_in_order(series.drop_last());
        let last = choose|last: Option<Seq<u8>>|
            input_taken(series.drop_last()) == #[trigger] with_piece(
                input_sent(series.drop_last()),
                last,
            );
        match input_run(series) {
            InputStep::Read => {
                assert(input_taken(series) == with_piece(input_sent(series), None));
            },
            InputStep::Send(data) => {
                assert(input_taken(series) == with_piece(input_sent(series), Some(data@)));
            },
            InputStep::Stop => {
                assert(input_taken(series) == with_piece(input_sent(series), last));
            },
        }
    }
}

/// What an attached client puts in, if only there is something in it, is handed to the session as it
/// is; the daemon reads on once the session has it. It stops where a read failed or gave nothing,
/// or where the session did not take a piece, and nowhere else; other answers change nothing.
pub proof fn client_input_is_handed_on(data: Vec<u8>, answer: InputAnswer)
    ensures
        data@.len() > 0 ==> input_next(InputStep::Read, InputAnswer::Read(Some(data)))
            == InputStep::Send(data),
        data@.len() == 0 ==> input_next(InputStep::Read, InputAnswer::Read(Some(data)))
            == InputStep::Stop,
        input_next(InputStep::Read, InputAnswer::Read(None)) == InputStep::Stop,
        input_next(InputStep::Send(data), InputAnswer::Sent(true)) == InputStep::Read,
        input_next(InputStep::Send(data), InputAnswer::Sent(false)) == InputStep::Stop,
        answer is Sent ==> input_next(InputStep::Read, answer) == InputStep::Read,
        answer is Read ==> input_next(InputStep::Send(data), answer) == InputStep::Send(data),
        input_next(InputStep::Stop, answer) == InputStep::Stop,
{
}

/// A piece that a client puts in goes all the way: it is taken, handed to the session as it is, and
/// counts as sent, and the daemon reads on.
pub proof fn a_piece_of_client_input_goes_all_the_way(series: Seq<InputAnswer>, data: Vec<u8>)
    requires
        input_run(series) is Read,
        data@.len() > 0,
    ensures
        ({
            let read = series.push(InputAnswer::Read(Some(data)));
            let sent = read.push(InputAnswer::Sent(true));
            &&& input_run(read) == InputStep::Send(data)
            &&& input_run(sent) is Read
            &&& input_taken(read) == input_taken(series).push(data@)
            &&& input_sent(sent) == input_sent(series).push(data@)
        }),
{
    let read = series.push(InputAnswer::Read(Some(data)));
    let sent = read.push(InputAnswer::Sent(true));
    assert(read.drop_last() =~= series);
    assert(input_run(read) == InputStep::Send(data));
    assert(input_sent(read) == input_sent(series));
    assert(sent.drop_last() =~= read);
}

/// There is room for 256 pieces of output that wait for a client, up to a mebibyte, and for 64 pieces
/// of input that wait for a process, up to 64 kibibytes.
pub proof fn there_is_room_for_what_waits()
    ensures
        OUTPUT_QUEUE == 256,
        OUTPUT_QUEUE * OUTPUT_BUFFER == 1024 * 1024,
        INPUT_QUEUE == 64,
        INPUT_QUEUE * INPUT_BUFFER == 64 * 1024,
{
}

} // verus!
