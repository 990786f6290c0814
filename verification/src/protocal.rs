//! What a client and the daemon say to each other, and how a message stands on the wire.

use vstd::prelude::*;
use vstd::utf8::{encode_scalar, encode_utf8};

use crate::text::texts;

verus! {

/// What a client asks of the daemon.
#[derive(Debug, PartialEq, Eq)]
pub enum Request {
    Run { name: String, command: Vec<String> },
    Attach { name: String },
    List,
    Delete { name: String, force: bool },
}

/// What the daemon answers.
#[derive(Debug, PartialEq, Eq)]
pub enum Response {
    /// There is a session of that name; whether its process has exited.
    SessionNameOccupied(bool),
    RunSuccess,
    RunFailed(String),
    ForwardingReady,
    SessionNotExists,
    SessionList(Vec<String>),
    SessionDeletedSafely,
    SessionProcessNotExited,
    SessionDeletedForcely,
    SessionDropped,
}

/// A request with its texts as sequences of characters.
pub ghost enum RequestView {
    Run { name: Seq<char>, command: Seq<Seq<char>> },
    Attach { name: Seq<char> },
    List,
    Delete { name: Seq<char>, force: bool },
}

impl View for Request {
    type V = RequestView;

    open spec fn view(&self) -> RequestView {
        match *self {
            Request::Run { name, command } => RequestView::Run {
                name: name@,
                command: texts(command@),
            },
            Request::Attach { name } => RequestView::Attach { name: name@ },
            Request::List => RequestView::List,
            Request::Delete { name, force } => RequestView::Delete { name: name@, force },
        }
    }
}

/// Whether `response` is one of the answers that the daemon has to `request`.
pub open spec fn answers(request: RequestView, response: Response) -> bool {
    match request {
        RequestView::Run { .. } => response is SessionNameOccupied || response is RunSuccess
            || response is RunFailed,
        RequestView::Attach { .. } => response is ForwardingReady || response is SessionNotExists,
        RequestView::List => response is SessionList,
        RequestView::Delete { .. } => response is SessionDeletedSafely
            || response is SessionProcessNotExited || response is SessionDeletedForcely
            || response is SessionDropped || response is SessionNotExists,
    }
}

/// A message as it stands on the wire: a line of its own.
pub open spec fn framed(message: Seq<char>) -> Seq<char> {
    message.push('\n')
}

/// The first line of a stream with the line feed that ends it; all of the stream, where no line
/// feed has come.
pub open spec fn first_line(stream: Seq<char>) -> Seq<char>
    decreases stream.len(),
{
    if stream.len() == 0 {
        seq![]
    } else if stream[0] == '\n' {
        seq!['\n']
    } else {
        seq![stream[0]] + first_line(stream.drop_first())
    }
}

/// Ends an encoded message with a line feed.
pub fn frame(message: String) -> (line: String)
    ensures
        line@ == framed(message@),
        line@.len() == message@.len() + 1,
        line@.drop_last() == message@,
        line@.last() == '\n',
{
    let mut line = message;
    proof {
        reveal_strlit("\n");
    }
    line.append("\n");
    assert(line@ =~= framed(message@));
    line
}

/// What is written to a client for an encoded response: nothing, where it could not be encoded.
/// That an encoded response holds no line feed, and so is one line, is up to the encoding.
pub fn respond(encoded: Option<String>) -> (res: Option<String>)
    ensures
        match encoded {
            Some(message) => res matches Some(line) && line@ == framed(message@)
                && line@.drop_last() == message@ && line@.last() == '\n',
            None => res is None,
        },
{
    match encoded {
        Some(message) => Some(frame(message)),
        None => None,
    }
}

/// A message without a line feed in it is read back whole as the first line of the stream that it
/// opens, and what follows it in the stream is left for those who read on.
pub proof fn a_framed_message_is_read_back(message: Seq<char>, following: Seq<char>)
    requires
        !message.contains('\n'),
    ensures
        first_line(framed(message) + following) == framed(message),
        (framed(message) + following).skip(first_line(framed(message) + following).len() as int)
            == following,
    decreases message.len(),
{
    let stream = framed(message) + following;
    if message.len() == 0 {
        assert(stream[0] == '\n');
        assert(framed(message) =~= seq!['\n']);
    } else {
        let tail = message.drop_first();
        assert(!tail.contains('\n')) by {
            if tail.contains('\n') {
                let i = choose|i: int| 0 <= i < tail.len() && tail[i] == '\n';
                assert(message[i + 1] == '\n');
            }
        }
        a_framed_message_is_read_back(tail, following);
        assert(stream.drop_first() =~= framed(tail) + following);
        assert(message.contains(message[0]));
        assert(first_line(stream) =~= framed(message));
    }
    assert(stream.skip(framed(message).len() as int) =~= following);
}

proof fn lemma_only_a_line_feed_has_its_byte(c: char)
    ensures
        encode_scalar(c as u32).contains(10u8) <==> c == '\n',
        c == '\n' ==> encode_scalar(c as u32) == seq![10u8],
{
    let v = c as u32;
    assert(v <= 0x7F ==> (v & 0x7F) as u8 == v) by (bit_vector);
    assert(0xC0u8 | ((v >> 6) & 0x1F) as u8 != 10) by (bit_vector);
    assert(0xE0u8 | ((v >> 12) & 0x0F) as u8 != 10) by (bit_vector);
    assert(0xF0u8 | ((v >> 18) & 0x7) as u8 != 10) by (bit_vector);
    assert(0x80u8 | (v & 0x3F) as u8 != 10) by (bit_vector);
    assert(0x80u8 | ((v >> 6) & 0x3F) as u8 != 10) by (bit_vector);
    assert(0x80u8 | ((v >> 12) & 0x3F) as u8 != 10) by (bit_vector);
    if c == '\n' {
        assert(encode_scalar(v) =~= seq![10u8]);
        assert(encode_scalar(v)[0] == 10u8);
    }
}

/// The bytes of a message that is put on the wire hold one line feed, their last byte, exactly where
/// the message itself holds none.
pub proof fn a_framed_message_is_one_line_of_bytes(message: Seq<char>)
    ensures
        ({
            let bytes = encode_utf8(framed(message));
            &&& bytes.len() > 0 && bytes.last() == 10u8
            &&& !bytes.drop_last().contains(10u8) <==> !message.contains('\n')
        }),
    decreases message.len(),
{
    let bytes = encode_utf8(framed(message));
    lemma_only_a_line_feed_has_its_byte('\n');
    if message.len() == 0 {
        reveal_with_fuel(encode_utf8, 2);
        assert(framed(message).drop_first() =~= seq![]);
        assert(bytes =~= seq![10u8]);
        assert(bytes.drop_last() =~= seq![]);
    } else {
        let tail = message.drop_first();
        let head = encode_scalar(message[0] as u32);
        let rest = encode_utf8(framed(tail));
        a_framed_message_is_one_line_of_bytes(tail);
        lemma_only_a_line_feed_has_its_byte(message[0]);
        assert(framed(message).drop_first() =~= framed(tail));
        assert(bytes == head + rest);
        assert(bytes.drop_last() =~= head + rest.drop_last());
        if message.contains('\n') {
            let i = choose|i: int| 0 <= i < message.len() && message[i] == '\n';
            if i == 0 {
                let k = choose|k: int| 0 <= k < head.len() && head[k] == 10u8;
                assert(bytes.drop_last()[k] == 10u8);
            } else {
                assert(tail[i - 1] == '\n');
                let k = choose|k: int| 0 <= k < rest.drop_last().len() && rest.drop_last()[k] == 10u8;
                assert(bytes.drop_last()[head.len() + k] == 10u8);
            }
        }
        if bytes.drop_last().contains(10u8) {
            let k = choose|k: int| 0 <= k < bytes.drop_last().len() && bytes.drop_last()[k] == 10u8;
            if k < head.len() {
                assert(head[k] == 10u8);
                assert(message[0] == '\n');
            } else {
                assert(rest.drop_last()[k - head.len()] == 10u8);
                let i = choose|i: int| 0 <= i < tail.len() && tail[i] == '\n';
                assert(message[i + 1] == '\n');
            }
        }
    }
}

/// What is put on the wire is the message itself, unchanged and whole, with a line feed after it,
/// and so are its bytes.
pub proof fn a_framed_message_is_the_message_and_a_line_feed(message: Seq<char>)
    ensures
        framed(message).drop_last() == message,
        framed(message).last() == '\n',
        framed(message).len() == message.len() + 1,
        encode_utf8(framed(message)) == encode_utf8(message).push(10u8),
    decreases message.len(),
{
    assert(framed(message).drop_last() =~= message);
    lemma_only_a_line_feed_has_its_byte('\n');
    if message.len() == 0 {
        reveal_with_fuel(encode_utf8, 2);
        assert(framed(message).drop_first() =~= seq![]);
        assert(encode_utf8(framed(message)) =~= encode_utf8(message).push(10u8));
    } else {
        a_framed_message_is_the_message_and_a_line_feed(message.drop_first());
        assert(framed(message).drop_first() =~= framed(message.drop_first()));
        assert(framed(message)[0] == message[0]);
        assert(encode_utf8(framed(message)) =~= encode_utf8(message).push(10u8));
    }
}

/// A request stands for all that it holds: two requests that look the same are of the same sort and
/// hold the same name, the same command and the same flag.
pub proof fn a_request_shows_all_that_it_holds(request: Request)
    ensures
        request matches Request::Run { name, command } ==> request@ == (RequestView::Run {
            name: name@,
            command: command@.map_values(|s: String| s@),
        }),
        request matches Request::Attach { name } ==> request@ == (RequestView::Attach {
            name: name@,
        }),
        request is List ==> request@ is List,
        request matches Request::Delete { name, force } ==> request@ == (RequestView::Delete {
            name: name@,
            force,
        }),
{
}

/// Each response answers one sort of request, but for the one that says that there is no such
/// session, which answers an attachment or a deletion.
pub proof fn a_response_tells_what_was_asked(request: RequestView, response: Response)
    ensures
        response is SessionNameOccupied || response is RunSuccess || response is RunFailed ==> (
        answers(request, response) <==> request is Run),
        response is ForwardingReady ==> (answers(request, response) <==> request is Attach),
        response is SessionList ==> (answers(request, response) <==> request is List),
        response is SessionDeletedSafely || response is SessionProcessNotExited
            || response is SessionDeletedForcely || response is SessionDropped ==> (answers(
            request,
            response,
        ) <==> request is Delete),
        response is SessionNotExists ==> (answers(request, response) <==> request is Attach
            || request is Delete),
{
}

} // verus!
