//! What a client tells its user, and how it is worded.

use vstd::prelude::*;

use crate::text::{decimal, decimal_text};

verus! {

/// The color of a piece of text.
#[derive(Debug, Clone, Copy, PartialEq, Eq, Structural)]
pub enum Color {
    Plain,
    Red,
    Green,
    Yellow,
    Blue,
    Magenta,
    Cyan,
}

/// A piece of text in one style.
#[derive(Debug, PartialEq, Eq)]
pub struct Span {
    pub text: String,
    pub color: Color,
    pub bold: bool,
}

/// A piece of text in one style, with the text as a sequence of characters.
pub ghost struct SpanView {
    pub text: Seq<char>,
    pub color: Color,
    pub bold: bool,
}

impl View for Span {
    type V = SpanView;

    open spec fn view(&self) -> SpanView {
        SpanView { text: self.text@, color: self.color, bold: self.bold }
    }
}

/// The pieces of a line.
pub open spec fn spans(line: Seq<Span>) -> Seq<SpanView> {
    line.map_values(|span: Span| span@)
}

/// Something to tell the user, or to ask.
#[derive(Debug, PartialEq, Eq)]
pub enum Notice {
    /// There is a session of that name already.
    NameOccupied { name: String },
    /// Its process has exited: is it to be replaced?
    AskReplace { name: String },
    /// Its process is running.
    StillRunning { name: String },
    Cancelled,
    Started { name: String },
    RunFailed { name: String, error: String },
    Attaching { name: String },
    Detached { name: String },
    NoSuchSession { name: String },
    NoSessions,
    /// So many sessions are listed.
    Listing { count: usize },
    /// One of them.
    Listed { name: String },
    DeletedSafely { name: String },
    /// The process of a session to be deleted is running: is it to be killed?
    AskTerminate { name: String },
    DeletedForcely { name: String },
    Dropped { name: String },
    /// The daemon answered something else than what it was asked.
    WrongResponse { response: String },
    ConnectFailed { address: String, error: String },
    /// No daemon was reached in so many attempts.
    GaveUp { retries: u32 },
    DaemonNotStarted,
}

pub open spec fn plain(text: Seq<char>) -> SpanView {
    SpanView { text, color: Color::Plain, bold: false }
}

pub open spec fn colored(text: Seq<char>, color: Color) -> SpanView {
    SpanView { text, color, bold: false }
}

pub open spec fn bold(text: Seq<char>, color: Color) -> SpanView {
    SpanView { text, color, bold: true }
}

/// A line that begins with a tag in brackets.
pub open spec fn tagged(tag: SpanView, rest: Seq<SpanView>) -> Seq<SpanView> {
    seq![plain("["@), tag] + rest
}

/// A line that begins with a tag and has the name of a session in it.
pub open spec fn about(tag: SpanView, before: Seq<char>, name: Seq<char>, after: Seq<char>) -> Seq<
    SpanView,
> {
    tagged(tag, seq![plain(before), bold(name, Color::Cyan), plain(after)])
}

/// The wording of a notice.
pub open spec fn wording(notice: Notice) -> Seq<SpanView> {
    match notice {
        Notice::NameOccupied { name } => about(
            bold("W"@, Color::Yellow),
            "] There's already a session called '"@,
            name@,
            "' exists."@,
        ),
        Notice::AskReplace { name } => about(
            bold("I"@, Color::Blue),
            "] The process in session '"@,
            name@,
            "' is already exited. Delete it and run new one?"@,
        ),
        Notice::StillRunning { name } => about(
            bold("W"@, Color::Yellow),
            "] The process in session '"@,
            name@,
            "' is still running. Please delete it manually first."@,
        ),
        Notice::Cancelled => tagged(
            bold("I"@, Color::Blue),
            seq![plain("] Operation cancelled."@)],
        ),
        Notice::Started { name } => tagged(
            bold("S"@, Color::Green),
            seq![
                plain("] "@),
                colored("Successfully started session"@, Color::Green),
                plain(" : '"@),
                bold(name@, Color::Cyan),
                plain("'"@),
            ],
        ),
        Notice::RunFailed { name, error } => tagged(
            bold("E"@, Color::Red),
            seq![
                plain("] "@),
                colored("Failed to run session"@, Color::Red),
                plain(" : '"@),
                bold(name@, Color::Cyan),
                plain("' : "@),
                plain(error@),
            ],
        ),
        Notice::Attaching { name } => about(
            bold("T"@, Color::Magenta),
            "] Attaching to session: '"@,
            name@,
            "'"@,
        ),
        Notice::Detached { name } => about(
            bold("T"@, Color::Magenta),
            "] Detached from session: '"@,
            name@,
            "'"@,
        ),
        Notice::NoSuchSession { name } => about(
            bold("I"@, Color::Blue),
            "] No session named '"@,
            name@,
            "'"@,
        ),
        Notice::NoSessions => tagged(
            bold("I"@, Color::Blue),
            seq![plain("] There aren't any session created."@)],
        ),
        Notice::Listing { count } => tagged(
            bold("I"@, Color::Blue),
            seq![
                plain("] All "@),
                colored(decimal_text(count as nat), Color::Blue),
                plain(" sessions listed as below:"@),
            ],
        ),
        Notice::Listed { name } => seq![plain("    "@), bold(name@, Color::Cyan)],
        Notice::DeletedSafely { name } => about(
            bold("S"@, Color::Green),
            "] Process already exited and session '"@,
            name@,
            "' deleted safely."@,
        ),
        Notice::AskTerminate { name } => about(
            bold("W"@, Color::Yellow),
            "] Process in session '"@,
            name@,
            "' is still running! Terminate it forcibly?"@,
        ),
        Notice::DeletedForcely { name } => about(
            bold("S"@, Color::Green),
            "] Process terminated and session '"@,
            name@,
            "' deleted."@,
        ),
        Notice::Dropped { name } => about(
            bold("W"@, Color::Yellow),
            "] Session '"@,
            name@,
            "' dropped and process exited unsafely."@,
        ),
        Notice::WrongResponse { response } => tagged(
            bold("E"@, Color::Red),
            seq![
                plain("] "@),
                colored("Daemon responded with wrong response type"@, Color::Red),
                plain(" : "@),
                plain(response@),
            ],
        ),
        Notice::ConnectFailed { address, error } => tagged(
            colored("E"@, Color::Red),
            seq![
                plain("] "@),
                colored("Failed to connect to daemon on"@, Color::Red),
                plain(" '"@),
                plain(address@),
                plain("' : "@),
                plain(error@),
            ],
        ),
        Notice::GaveUp { retries } => tagged(
            colored("E"@, Color::Red),
            seq![
                plain("] "@),
                colored("Failed to run after"@, Color::Red),
                plain(" "@),
                colored(decimal_text(retries as nat), Color::Yellow),
                plain(" "@),
                colored("retries."@, Color::Red),
            ],
        ),
        Notice::DaemonNotStarted => tagged(
            colored("E"@, Color::Red),
            seq![plain("] "@), colored("Daemon failed to start"@, Color::Red)],
        ),
    }
}

/// Whether a notice is an error, to be told apart from what the program puts out.
pub open spec fn is_error(notice: Notice) -> bool {
    match notice {
        Notice::RunFailed { .. } => true,
        Notice::WrongResponse { .. } => true,
        Notice::ConnectFailed { .. } => true,
        Notice::GaveUp { .. } => true,
        Notice::DaemonNotStarted => true,
        _ => false,
    }
}

fn add_span(line: &mut Vec<Span>, text: String, color: Color, bold: bool)
    ensures
        spans(final(line)@) == spans(old(line)@).push(SpanView { text: text@, color, bold }),
{
    line.push(Span { text, color, bold });
    assert(spans(line@) =~= spans(old(line)@).push(SpanView { text: text@, color, bold }));
}

fn add_plain(line: &mut Vec<Span>, text: &str)
    ensures
        spans(final(line)@) == spans(old(line)@).push(plain(text@)),
{
    add_span(line, text.to_owned(), Color::Plain, false);
}

fn tag_line(tag: &str, color: Color, bold: bool) -> (line: Vec<Span>)
    ensures
        spans(line@) == seq![plain("["@), SpanView { text: tag@, color, bold }],
{
    let mut line: Vec<Span> = Vec::new();
    assert(spans(line@) =~= seq![]);
    add_plain(&mut line, "[");
    add_span(&mut line, tag.to_owned(), color, bold);
    assert(spans(line@) =~= seq![plain("["@), SpanView { text: tag@, color, bold }]);
    line
}

fn about_line(tag: &str, color: Color, before: &str, name: &String, after: &str) -> (line: Vec<Span>)
    ensures
        spans(line@) == about(bold(tag@, color), before@, name@, after@),
{
    let mut line = tag_line(tag, color, true);
    add_plain(&mut line, before);
    add_span(&mut line, name.clone(), Color::Cyan, true);
    add_plain(&mut line, after);
    assert(spans(line@) =~= about(bold(tag@, color), before@, name@, after@));
    line
}

impl Notice {
    /// Whether the notice is an error, to be told apart from what the program puts out.
    pub fn for_stderr(&self) -> (res: bool)
        ensures
            res == is_error(*self),
    {
        match self {
            Notice::RunFailed { .. } => true,
            Notice::WrongResponse { .. } => true,
            Notice::ConnectFailed { .. } => true,
            Notice::GaveUp { .. } => true,
            Notice::DaemonNotStarted => true,
            _ => false,
        }
    }

    /// Words a notice.
    pub fn render(&self) -> (line: Vec<Span>)
        ensures
            spans(line@) == wording(*self),
    {
        match self {
            Notice::NameOccupied { name } => about_line(
                "W",
                Color::Yellow,
                "] There's already a session called '",
                name,
                "' exists.",
            ),
            Notice::AskReplace { name } => about_line(
                "I",
                Color::Blue,
                "] The process in session '",
                name,
                "' is already exited. Delete it and run new one?",
            ),
            Notice::StillRunning { name } => about_line(
                "W",
                Color::Yellow,
                "] The process in session '",
                name,
                "' is still running. Please delete it manually first.",
            ),
            Notice::Cancelled => {
                let mut line = tag_line("I", Color::Blue, true);
                add_plain(&mut line, "] Operation cancelled.");
                assert(spans(line@) =~= wording(*self));
                line
            },
            Notice::Started { name } => {
                let mut line = tag_line("S", Color::Green, true);
                add_plain(&mut line, "] ");
                add_span(
                    &mut line,
                    "Successfully started session".to_owned(),
                    Color::Green,
                    false,
                );
                add_plain(&mut line, " : '");
                add_span(&mut line, name.clone(), Color::Cyan, true);
                add_plain(&mut line, "'");
                assert(spans(line@) =~= wording(*self));
                line
            },
            Notice::RunFailed { name, error } => {
                let mut line = tag_line("E", Color::Red, true);
                add_plain(&mut line, "] ");
                add_span(&mut line, "Failed to run session".to_owned(), Color::Red, false);
                add_plain(&mut line, " : '");
                add_span(&mut line, name.clone(), Color::Cyan, true);
                add_plain(&mut line, "' : ");
                add_plain(&mut line, error.as_str());
                assert(spans(line@) =~= wording(*self));
                line
            },
            Notice::Attaching { name } => about_line(
                "T",
                Color::Magenta,
                "] Attaching to session: '",
                name,
                "'",
            ),
            Notice::Detached { name } => about_line(
                "T",
                Color::Magenta,
                "] Detached from session: '",
                name,
                "'",
            ),
            Notice::NoSuchSession { name } => about_line(
                "I",
                Color::Blue,
                "] No session named '",
                name,
                "'",
            ),
            Notice::NoSessions => {
                let mut line = tag_line("I", Color::Blue, true);
                add_plain(&mut line, "] There aren't any session created.");
                assert(spans(line@) =~= wording(*self));
                line
            },
            Notice::Listing { count } => {
                let mut line = tag_line("I", Color::Blue, true);
                add_plain(&mut line, "] All ");
                add_span(&mut line, decimal(*count as u64), Color::Blue, false);
                add_plain(&mut line, " sessions listed as below:");
                assert(spans(line@) =~= wording(*self));
                line
            },
            Notice::Listed { name } => {
                let mut line: Vec<Span> = Vec::new();
                assert(spans(line@) =~= seq![]);
                add_plain(&mut line, "    ");
                add_span(&mut line, name.clone(), Color::Cyan, true);
                assert(spans(line@) =~= wording(*self));
                line
            },
            Notice::DeletedSafely { name } => about_line(
                "S",
                Color::Green,
                "] Process already exited and session '",
                name,
                "' deleted safely.",
            ),
            Notice::AskTerminate { name } => about_line(
                "W",
                Color::Yellow,
                "] Process in session '",
                name,
                "' is still running! Terminate it forcibly?",
            ),
            Notice::DeletedForcely { name } => about_line(
                "S",
                Color::Green,
                "] Process terminated and session '",
                name,
                "' deleted.",
            ),
            Notice::Dropped { name } => about_line(
                "W",
                Color::Yellow,
                "] Session '",
                name,
                "' dropped and process exited unsafely.",
            ),
            Notice::WrongResponse { response } => {
                let mut line = tag_line("E", Color::Red, true);
                add_plain(&mut line, "] ");
                add_span(
                    &mut line,
                    "Daemon responded with wrong response type".to_owned(),
                    Color::Red,
                    false,
                );
                add_plain(&mut line, " : ");
                add_plain(&mut line, response.as_str());
                assert(spans(line@) =~= wording(*self));
                line
            },
            Notice::ConnectFailed { address, error } => {
                let mut line = tag_line("E", Color::Red, false);
                add_plain(&mut line, "] ");
                add_span(
                    &mut line,
                    "Failed to connect to daemon on".to_owned(),
                    Color::Red,
                    false,
                );
                add_plain(&mut line, " '");
                add_plain(&mut line, address.as_str());
                add_plain(&mut line, "' : ");
                add_plain(&mut line, error.as_str());
                assert(spans(line@) =~= wording(*self));
                line
            },
            Notice::GaveUp { retries } => {
                let mut line = tag_line("E", Color::Red, false);
                add_plain(&mut line, "] ");
                add_span(&mut line, "Failed to run after".to_owned(), Color::Red, false);
                add_plain(&mut line, " ");
                add_span(&mut line, decimal(*retries as u64), Color::Yellow, false);
                add_plain(&mut line, " ");
                add_span(&mut line, "retries.".to_owned(), Color::Red, false);
                assert(spans(line@) =~= wording(*self));
                line
            },
            Notice::DaemonNotStarted => {
                let mut line = tag_line("E", Color::Red, false);
                add_plain(&mut line, "] ");
                add_span(&mut line, "Daemon failed to start".to_owned(), Color::Red, false);
                assert(spans(line@) =~= wording(*self));
                line
            },
        }
    }
}

/// What the user reads of a line, without its style.
pub open spec fn read_off(line: Seq<SpanView>) -> Seq<char>
    decreases line.len(),
{
    if line.len() == 0 {
        seq![]
    } else {
        read_off(line.drop_last()) + line.last().text
    }
}

proof fn lemma_read_off(line: Seq<SpanView>, span: SpanView)
    ensures
        read_off(line.push(span)) == read_off(line) + span.text,
{
    assert(line.push(span).drop_last() =~= line);
}

proof fn lemma_about_is_read(
    tag: SpanView,
    before: Seq<char>,
    name: Seq<char>,
    after: Seq<char>,
    start: Seq<char>,
)
    requires
        "["@ + tag.text + before == start,
    ensures
        read_off(about(tag, before, name, after)) == start + name + after,
{
    let l1 = seq![plain("["@)];
    let l2 = l1.push(tag);
    let l3 = l2.push(plain(before));
    let l4 = l3.push(bold(name, Color::Cyan));
    let l5 = l4.push(plain(after));
    assert(seq![].push(plain("["@)) =~= l1);
    lemma_read_off(seq![], plain("["@));
    lemma_read_off(l1, tag);
    lemma_read_off(l2, plain(before));
    lemma_read_off(l3, bold(name, Color::Cyan));
    lemma_read_off(l4, plain(after));
    assert(l5 =~= about(tag, before, name, after));
    assert(read_off(l3) =~= start);
    assert(read_off(l5) =~= start + name + after);
}

/// Whatever the name of the session is, the user reads it whole in what is told of the session, with
/// words before and after it that say what has become of the session.
pub proof fn a_notice_reads_with_the_whole_name(name: String)
    ensures
        read_off(wording(Notice::NameOccupied { name })) == "[W] There's already a session called '"@ + name@
            + "' exists."@,
        read_off(wording(Notice::AskReplace { name })) == "[I] The process in session '"@ + name@
            + "' is already exited. Delete it and run new one?"@,
        read_off(wording(Notice::StillRunning { name })) == "[W] The process in session '"@ + name@
            + "' is still running. Please delete it manually first."@,
        read_off(wording(Notice::Attaching { name })) == "[T] Attaching to session: '"@ + name@
            + "'"@,
        read_off(wording(Notice::Detached { name })) == "[T] Detached from session: '"@ + name@
            + "'"@,
        read_off(wording(Notice::NoSuchSession { name })) == "[I] No session named '"@ + name@
            + "'"@,
        read_off(wording(Notice::DeletedSafely { name })) == "[S] Process already exited and session '"@ + name@
            + "' deleted safely."@,
        read_off(wording(Notice::AskTerminate { name })) == "[W] Process in session '"@ + name@
            + "' is still running! Terminate it forcibly?"@,
        read_off(wording(Notice::DeletedForcely { name })) == "[S] Process terminated and session '"@ + name@
            + "' deleted."@,
        read_off(wording(Notice::Dropped { name })) == "[W] Session '"@ + name@
            + "' dropped and process exited unsafely."@,
{
    reveal_strlit("[");
    reveal_strlit("W");
    reveal_strlit("I");
    reveal_strlit("T");
    reveal_strlit("S");
    reveal_strlit("] There's already a session called '");
    reveal_strlit("[W] There's already a session called '");
    reveal_strlit("] The process in session '");
    reveal_strlit("[I] The process in session '");
    reveal_strlit("[W] The process in session '");
    reveal_strlit("] Attaching to session: '");
    reveal_strlit("[T] Attaching to session: '");
    reveal_strlit("] Detached from session: '");
    reveal_strlit("[T] Detached from session: '");
    reveal_strlit("] No session named '");
    reveal_strlit("[I] No session named '");
    reveal_strlit("] Process already exited and session '");
    reveal_strlit("[S] Process already exited and session '");
    reveal_strlit("] Process in session '");
    reveal_strlit("[W] Process in session '");
    reveal_strlit("] Process terminated and session '");
    reveal_strlit("[S] Process terminated and session '");
    reveal_strlit("] Session '");
    reveal_strlit("[W] Session '");
    assert("["@ + "W"@ + "] There's already a session called '"@ =~= "[W] There's already a session called '"@);
    lemma_about_is_read(
        bold("W"@, Color::Yellow),
        "] There's already a session called '"@,
        name@,
        "' exists."@,
        "[W] There's already a session called '"@,
    );
    assert("["@ + "I"@ + "] The process in session '"@ =~= "[I] The process in session '"@);
    lemma_about_is_read(
        bold("I"@, Color::Blue),
        "] The process in session '"@,
        name@,
        "' is already exited. Delete it and run new one?"@,
        "[I] The process in session '"@,
    );
    assert("["@ + "W"@ + "] The process in session '"@ =~= "[W] The process in session '"@);
    lemma_about_is_read(
        bold("W"@, Color::Yellow),
        "] The process in session '"@,
        name@,
        "' is still running. Please delete it manually first."@,
        "[W] The process in session '"@,
    );
    assert("["@ + "T"@ + "] Attaching to session: '"@ =~= "[T] Attaching to session: '"@);
    lemma_about_is_read(
        bold("T"@, Color::Magenta),
        "] Attaching to session: '"@,
        name@,
        "'"@,
        "[T] Attaching to session: '"@,
    );
    assert("["@ + "T"@ + "] Detached from session: '"@ =~= "[T] Detached from session: '"@);
    lemma_about_is_read(
        bold("T"@, Color::Magenta),
        "] Detached from session: '"@,
        name@,
        "'"@,
        "[T] Detached from session: '"@,
    );
    assert("["@ + "I"@ + "] No session named '"@ =~= "[I] No session named '"@);
    lemma_about_is_read(
        bold("I"@, Color::Blue),
        "] No session named '"@,
        name@,
        "'"@,
        "[I] No session named '"@,
    );
    assert("["@ + "S"@ + "] Process already exited and session '"@ =~= "[S] Process already exited and session '"@);
    lemma_about_is_read(
        bold("S"@, Color::Green),
        "] Process already exited and session '"@,
        name@,
        "' deleted safely."@,
        "[S] Process already exited and session '"@,
    );
    assert("["@ + "W"@ + "] Process in session '"@ =~= "[W] Process in session '"@);
    lemma_about_is_read(
        bold("W"@, Color::Yellow),
        "] Process in session '"@,
        name@,
        "' is still running! Terminate it forcibly?"@,
        "[W] Process in session '"@,
    );
    assert("["@ + "S"@ + "] Process terminated and session '"@ =~= "[S] Process terminated and session '"@);
    lemma_about_is_read(
        bold("S"@, Color::Green),
        "] Process terminated and session '"@,
        name@,
        "' deleted."@,
        "[S] Process terminated and session '"@,
    );
    assert("["@ + "W"@ + "] Session '"@ =~= "[W] Session '"@);
    lemma_about_is_read(
        bold("W"@, Color::Yellow),
        "] Session '"@,
        name@,
        "' dropped and process exited unsafely."@,
        "[W] Session '"@,
    );
}

/// What the user reads of an operation that was cancelled.
pub proof fn a_cancelled_operation_is_read()
    ensures
        read_off(wording(Notice::Cancelled)) == "[I] Operation cancelled."@,
{
    let line = wording(Notice::Cancelled);
    reveal_strlit("[");
    reveal_strlit("I");
    reveal_strlit("] Operation cancelled.");
    reveal_strlit("[I] Operation cancelled.");
    let empty = Seq::<SpanView>::empty();
    let l0 = empty.push(line[0]);
    lemma_read_off(empty, line[0]);
    let l1 = l0.push(line[1]);
    lemma_read_off(l0, line[1]);
    let l2 = l1.push(line[2]);
    lemma_read_off(l1, line[2]);
    assert(l2 =~= line);
    assert(read_off(l2) =~= "[I] Operation cancelled."@);
}

/// What the user reads where there are no sessions.
pub proof fn that_there_are_no_sessions_is_read()
    ensures
        read_off(wording(Notice::NoSessions)) == "[I] There aren't any session created."@,
{
    let line = wording(Notice::NoSessions);
    reveal_strlit("[");
    reveal_strlit("I");
    reveal_strlit("] There aren't any session created.");
    reveal_strlit("[I] There aren't any session created.");
    let empty = Seq::<SpanView>::empty();
    let l0 = empty.push(line[0]);
    lemma_read_off(empty, line[0]);
    let l1 = l0.push(line[1]);
    lemma_read_off(l0, line[1]);
    let l2 = l1.push(line[2]);
    lemma_read_off(l1, line[2]);
    assert(l2 =~= line);
    assert(read_off(l2) =~= "[I] There aren't any session created."@);
}

/// What the user reads where no daemon started.
pub proof fn that_no_daemon_started_is_read()
    ensures
        read_off(wording(Notice::DaemonNotStarted)) == "[E] Daemon failed to start"@,
{
    let line = wording(Notice::DaemonNotStarted);
    reveal_strlit("[");
    reveal_strlit("E");
    reveal_strlit("] ");
    reveal_strlit("Daemon failed to start");
    reveal_strlit("[E] Daemon failed to start");
    let empty = Seq::<SpanView>::empty();
    let l0 = empty.push(line[0]);
    lemma_read_off(empty, line[0]);
    let l1 = l0.push(line[1]);
    lemma_read_off(l0, line[1]);
    let l2 = l1.push(line[2]);
    lemma_read_off(l1, line[2]);
    let l3 = l2.push(line[3]);
    lemma_read_off(l2, line[3]);
    assert(l3 =~= line);
    assert(read_off(l3) =~= "[E] Daemon failed to start"@);
}

/// Whatever its name, a session that was started is told with its whole name.
pub proof fn a_started_session_is_read_with_its_name(name: String)
    ensures
        read_off(wording(Notice::Started { name })) == "[S] Successfully started session : '"@ + name@ + "'"@,
{
    let line = wording(Notice::Started { name });
    reveal_strlit("[");
    reveal_strlit("S");
    reveal_strlit("] ");
    reveal_strlit("Successfully started session");
    reveal_strlit(" : '");
    reveal_strlit("'");
    reveal_strlit("[S] Successfully started session : '");
    let empty = Seq::<SpanView>::empty();
    let l0 = empty.push(line[0]);
    lemma_read_off(empty, line[0]);
    let l1 = l0.push(line[1]);
    lemma_read_off(l0, line[1]);
    let l2 = l1.push(line[2]);
    lemma_read_off(l1, line[2]);
    let l3 = l2.push(line[3]);
    lemma_read_off(l2, line[3]);
    let l4 = l3.push(line[4]);
    lemma_read_off(l3, line[4]);
    let l5 = l4.push(line[5]);
    lemma_read_off(l4, line[5]);
    let l6 = l5.push(line[6]);
    lemma_read_off(l5, line[6]);
    assert(l6 =~= line);
    assert(read_off(l6) =~= "[S] Successfully started session : '"@ + name@ + "'"@);
}

/// Whatever the name and the error, a run that failed is told with both of them whole.
pub proof fn a_failed_run_is_read_with_its_error(name: String, error: String)
    ensures
        read_off(wording(Notice::RunFailed { name, error })) == "[E] Failed to run session : '"@ + name@ + "' : "@ + error@,
{
    let line = wording(Notice::RunFailed { name, error });
    reveal_strlit("[");
    reveal_strlit("E");
    reveal_strlit("] ");
    reveal_strlit("Failed to run session");
    reveal_strlit(" : '");
    reveal_strlit("' : ");
    reveal_strlit("[E] Failed to run session : '");
    let empty = Seq::<SpanView>::empty();
    let l0 = empty.push(line[0]);
    lemma_read_off(empty, line[0]);
    let l1 = l0.push(line[1]);
    lemma_read_off(l0, line[1]);
    let l2 = l1.push(line[2]);
    lemma_read_off(l1, line[2]);
    let l3 = l2.push(line[3]);
    lemma_read_off(l2, line[3]);
    let l4 = l3.push(line[4]);
    lemma_read_off(l3, line[4]);
    let l5 = l4.push(line[5]);
    lemma_read_off(l4, line[5]);
    let l6 = l5.push(line[6]);
    lemma_read_off(l5, line[6]);
    let l7 = l6.push(line[7]);
    lemma_read_off(l6, line[7]);
    assert(l7 =~= line);
    assert(read_off(l7) =~= "[E] Failed to run session : '"@ + name@ + "' : "@ + error@);
}

/// Whatever the number of sessions, it is told in decimal digits.
pub proof fn a_listing_is_read_with_its_number(count: usize)
    ensures
        read_off(wording(Notice::Listing { count })) == "[I] All "@ + decimal_text(count as nat) + " sessions listed as below:"@,
{
    let line = wording(Notice::Listing { count });
    reveal_strlit("[");
    reveal_strlit("I");
    reveal_strlit("] All ");
    reveal_strlit(" sessions listed as below:");
    reveal_strlit("[I] All ");
    let empty = Seq::<SpanView>::empty();
    let l0 = empty.push(line[0]);
    lemma_read_off(empty, line[0]);
    let l1 = l0.push(line[1]);
    lemma_read_off(l0, line[1]);
    let l2 = l1.push(line[2]);
    lemma_read_off(l1, line[2]);
    let l3 = l2.push(line[3]);
    lemma_read_off(l2, line[3]);
    let l4 = l3.push(line[4]);
    lemma_read_off(l3, line[4]);
    assert(l4 =~= line);
    assert(read_off(l4) =~= "[I] All "@ + decimal_text(count as nat) + " sessions listed as below:"@);
}

/// Whatever its name, a session is listed with its whole name.
pub proof fn a_listed_session_is_read_with_its_name(name: String)
    ensures
        read_off(wording(Notice::Listed { name })) == "    "@ + name@,
{
    let line = wording(Notice::Listed { name });
    reveal_strlit("    ");
    let empty = Seq::<SpanView>::empty();
    let l0 = empty.push(line[0]);
    lemma_read_off(empty, line[0]);
    let l1 = l0.push(line[1]);
    lemma_read_off(l0, line[1]);
    assert(l1 =~= line);
    assert(read_off(l1) =~= "    "@ + name@);
}

/// Whatever the daemon answered wrongly, the user reads it whole.
pub proof fn a_wrong_response_is_read_whole(error: String)
    ensures
        read_off(wording(Notice::WrongResponse { response: error })) == "[E] Daemon responded with wrong response type : "@ + error@,
{
    let line = wording(Notice::WrongResponse { response: error });
    reveal_strlit("[");
    reveal_strlit("E");
    reveal_strlit("] ");
    reveal_strlit("Daemon responded with wrong response type");
    reveal_strlit(" : ");
    reveal_strlit("[E] Daemon responded with wrong response type : ");
    let empty = Seq::<SpanView>::empty();
    let l0 = empty.push(line[0]);
    lemma_read_off(empty, line[0]);
    let l1 = l0.push(line[1]);
    lemma_read_off(l0, line[1]);
    let l2 = l1.push(line[2]);
    lemma_read_off(l1, line[2]);
    let l3 = l2.push(line[3]);
    lemma_read_off(l2, line[3]);
    let l4 = l3.push(line[4]);
    lemma_read_off(l3, line[4]);
    let l5 = l4.push(line[5]);
    lemma_read_off(l4, line[5]);
    assert(l5 =~= line);
    assert(read_off(l5) =~= "[E] Daemon responded with wrong response type : "@ + error@);
}

/// Whatever the address and the error, a connection that failed is told with both of them whole.
pub proof fn a_failed_connection_is_read_with_its_error(name: String, error: String)
    ensures
        read_off(wording(Notice::ConnectFailed { address: name, error })) == "[E] Failed to connect to daemon on '"@ + name@ + "' : "@ + error@,
{
    let line = wording(Notice::ConnectFailed { address: name, error });
    reveal_strlit("[");
    reveal_strlit("E");
    reveal_strlit("] ");
    reveal_strlit("Failed to connect to daemon on");
    reveal_strlit(" '");
    reveal_strlit("' : ");
    reveal_strlit("[E] Failed to connect to daemon on '");
    let empty = Seq::<SpanView>::empty();
    let l0 = empty.push(line[0]);
    lemma_read_off(empty, line[0]);
    let l1 = l0.push(line[1]);
    lemma_read_off(l0, line[1]);
    let l2 = l1.push(line[2]);
    lemma_read_off(l1, line[2]);
    let l3 = l2.push(line[3]);
    lemma_read_off(l2, line[3]);
    let l4 = l3.push(line[4]);
    lemma_read_off(l3, line[4]);
    let l5 = l4.push(line[5]);
    lemma_read_off(l4, line[5]);
    let l6 = l5.push(line[6]);
    lemma_read_off(l5, line[6]);
    let l7 = l6.push(line[7]);
    lemma_read_off(l6, line[7]);
    assert(l7 =~= line);
    assert(read_off(l7) =~= "[E] Failed to connect to daemon on '"@ + name@ + "' : "@ + error@);
}

/// Whatever the number of attempts, it is told in decimal digits.
pub proof fn a_vain_search_is_read_with_its_attempts(retries: u32)
    ensures
        read_off(wording(Notice::GaveUp { retries })) == "[E] Failed to run after "@ + decimal_text(retries as nat) + " retries."@,
{
    let line = wording(Notice::GaveUp { retries });
    reveal_strlit("[");
    reveal_strlit("E");
    reveal_strlit("] ");
    reveal_strlit("Failed to run after");
    reveal_strlit(" ");
    reveal_strlit("retries.");
    reveal_strlit("[E] Failed to run after ");
    reveal_strlit(" retries.");
    let empty = Seq::<SpanView>::empty();
    let l0 = empty.push(line[0]);
    lemma_read_off(empty, line[0]);
    let l1 = l0.push(line[1]);
    lemma_read_off(l0, line[1]);
    let l2 = l1.push(line[2]);
    lemma_read_off(l1, line[2]);
    let l3 = l2.push(line[3]);
    lemma_read_off(l2, line[3]);
    let l4 = l3.push(line[4]);
    lemma_read_off(l3, line[4]);
    let l5 = l4.push(line[5]);
    lemma_read_off(l4, line[5]);
    let l6 = l5.push(line[6]);
    lemma_read_off(l5, line[6]);
    let l7 = l6.push(line[7]);
    lemma_read_off(l6, line[7]);
    assert(l7 =~= line);
    assert(read_off(l7) =~= "[E] Failed to run after "@ + decimal_text(retries as nat) + " retries."@);
}

/// The style of a line: the color and the weight of each of its pieces.
pub open spec fn style(line: Seq<SpanView>) -> Seq<(Color, bool)> {
    line.map_values(|span: SpanView| (span.color, span.bold))
}

/// The style of what is told does not depend on the texts and the numbers in it.
pub proof fn a_notice_has_one_style(
    a: String,
    b: String,
    c: String,
    d: String,
    m: usize,
    n: usize,
    k: u32,
    l: u32,
)
    ensures
        style(wording(Notice::NameOccupied { name: a })) == style(wording(Notice::NameOccupied { name: b })),
        style(wording(Notice::AskReplace { name: a })) == style(wording(Notice::AskReplace { name: b })),
        style(wording(Notice::StillRunning { name: a })) == style(wording(Notice::StillRunning { name: b })),
        style(wording(Notice::Started { name: a })) == style(wording(Notice::Started { name: b })),
        style(wording(Notice::Attaching { name: a })) == style(wording(Notice::Attaching { name: b })),
        style(wording(Notice::Detached { name: a })) == style(wording(Notice::Detached { name: b })),
        style(wording(Notice::NoSuchSession { name: a })) == style(wording(Notice::NoSuchSession { name: b })),
        style(wording(Notice::Listed { name: a })) == style(wording(Notice::Listed { name: b })),
        style(wording(Notice::DeletedSafely { name: a })) == style(wording(Notice::DeletedSafely { name: b })),
        style(wording(Notice::AskTerminate { name: a })) == style(wording(Notice::AskTerminate { name: b })),
        style(wording(Notice::DeletedForcely { name: a })) == style(wording(Notice::DeletedForcely { name: b })),
        style(wording(Notice::Dropped { name: a })) == style(wording(Notice::Dropped { name: b })),
        style(wording(Notice::RunFailed { name: a, error: c })) == style(
            wording(Notice::RunFailed { name: b, error: d }),
        ),
        style(wording(Notice::WrongResponse { response: a })) == style(
            wording(Notice::WrongResponse { response: b }),
        ),
        style(wording(Notice::ConnectFailed { address: a, error: c })) == style(
            wording(Notice::ConnectFailed { address: b, error: d }),
        ),
        style(wording(Notice::Listing { count: m })) == style(
            wording(Notice::Listing { count: n }),
        ),
        style(wording(Notice::GaveUp { retries: k })) == style(
            wording(Notice::GaveUp { retries: l }),
        ),
{
}

/// The name of a session stands out in whatever is told of it: it is bold and cyan.
pub proof fn a_name_stands_out(notice: Notice, name: String)
    requires
        notice == (Notice::NameOccupied { name })
            || notice == (Notice::AskReplace { name })
            || notice == (Notice::StillRunning { name })
            || notice == (Notice::Started { name })
            || notice == (Notice::Attaching { name })
            || notice == (Notice::Detached { name })
            || notice == (Notice::NoSuchSession { name })
            || notice == (Notice::Listed { name })
            || notice == (Notice::DeletedSafely { name })
            || notice == (Notice::AskTerminate { name })
            || notice == (Notice::DeletedForcely { name })
            || notice == (Notice::Dropped { name }),
    ensures
        exists|i: int|
            0 <= i < wording(notice).len() && #[trigger] wording(notice)[i] == (SpanView {
                text: name@,
                color: Color::Cyan,
                bold: true,
            }),
{
    let line = wording(notice);
    if notice is Listed {
        assert(line[1] == bold(name@, Color::Cyan));
    } else if notice is Started {
        assert(line[5] == bold(name@, Color::Cyan));
    } else {
        assert(line[3] == bold(name@, Color::Cyan));
    }
}

/// What goes to the standard error is exactly what is tagged as an error; a session in a list has no
/// tag and does not go there.
pub proof fn errors_are_tagged_as_errors(notice: Notice)
    ensures
        !(notice is Listed) ==> (is_error(notice) <==> wording(notice)[1].text == "E"@),
        !(notice is Listed) ==> wording(notice)[0] == plain("["@),
        is_error(notice) ==> wording(notice)[1].color is Red,
        notice is Listed ==> !is_error(notice),
{
    reveal_strlit("E");
    reveal_strlit("W");
    reveal_strlit("I");
    reveal_strlit("S");
    reveal_strlit("T");
    assert("E"@[0] == 'E' && "W"@[0] == 'W' && "I"@[0] == 'I' && "S"@[0] == 'S' && "T"@[0] == 'T');
}

/// A piece of a line stands for all that it holds.
pub proof fn a_span_shows_all_that_it_holds(span: Span)
    ensures
        span@.text == span.text@,
        span@.color == span.color,
        span@.bold == span.bold,
        forall|line: Seq<Span>, i: int|
            0 <= i < line.len() ==> #[trigger] spans(line)[i] == line[i]@ && spans(line).len()
                == line.len(),
{
}

/// The color of a tag goes with the tag, whatever is told: green for a success, yellow for a
/// warning, blue for what the user may want to know, magenta for what concerns the terminal.
pub proof fn a_tag_has_its_color(notice: Notice)
    requires
        !(notice is Listed),
    ensures
        wording(notice)[1].text == "S"@ ==> wording(notice)[1].color is Green,
        wording(notice)[1].text == "W"@ ==> wording(notice)[1].color is Yellow,
        wording(notice)[1].text == "I"@ ==> wording(notice)[1].color is Blue,
        wording(notice)[1].text == "T"@ ==> wording(notice)[1].color is Magenta,
{
    reveal_strlit("E");
    reveal_strlit("W");
    reveal_strlit("I");
    reveal_strlit("S");
    reveal_strlit("T");
    assert("E"@[0] == 'E' && "W"@[0] == 'W' && "I"@[0] == 'I' && "S"@[0] == 'S' && "T"@[0] == 'T');
}

} // verus!
