//! Classification of the lines that a game server logs.
//!
//! A raw line becomes a chat message, a notice that a player joined or
//! left, or nothing.  Lines are looked at one by one, so a stream of lines
//! can be filtered without holding more than the line at hand.

use crate::text::{chars_of, field_start, line_end, skip_fields, text_of, trim_line_end};
use regex::Regex;
use vstd::prelude::*;
use vstd::string::{StrSliceExecFns, StringExecFns};
use vstd::utf8::{decode_utf8, valid_utf8};

verus! {

/// The shape of a chat message: a sender between angle brackets, then text.
pub const CHAT_PATTERN: &'static str = "<.*>.*";

/// What the server logs when a player joins.
pub const JOINED_PATTERN: &'static str = "joined the game";

/// What the server logs when a player leaves.
pub const LEFT_PATTERN: &'static str = "left the game";

/// The number of fields that the server puts in front of each line: the
/// time, and the thread with the level, which holds one blank.
pub const PREFIX_FIELDS: usize = 3;

/// A unit of log output.
#[derive(Debug, Clone, PartialEq, Eq)]
pub enum LogEvent {
    /// A line as the server logged it.
    Raw(String),
    /// What a player said, without the player's name.
    Chat(String),
    /// The notice that a player joined.
    Joined(String),
    /// The notice that a player left.
    Left(String),
}

/// A `LogEvent` as plain mathematical values.
pub enum LogEventView {
    Raw(Seq<char>),
    Chat(Seq<char>),
    Joined(Seq<char>),
    Left(Seq<char>),
}

impl View for LogEvent {
    type V = LogEventView;

    open spec fn view(&self) -> LogEventView {
        match self {
            LogEvent::Raw(text) => LogEventView::Raw(text@),
            LogEvent::Chat(text) => LogEventView::Chat(text@),
            LogEvent::Joined(text) => LogEventView::Joined(text@),
            LogEvent::Left(text) => LogEventView::Left(text@),
        }
    }
}

impl DeepView for LogEvent {
    type V = LogEventView;

    open spec fn deep_view(&self) -> LogEventView {
        self@
    }
}

impl LogEventView {
    /// The text that the event carries.
    pub open spec fn text(self) -> Seq<char> {
        match self {
            LogEventView::Raw(text) => text,
            LogEventView::Chat(text) => text,
            LogEventView::Joined(text) => text,
            LogEventView::Left(text) => text,
        }
    }
}

impl LogEvent {
    /// The text that the event carries, as it is shown to a subscriber.
    pub fn into_text(self) -> (text: String)
        ensures
            text@ == self@.text(),
    {
        match self {
            LogEvent::Raw(text) => text,
            LogEvent::Chat(text) => text,
            LogEvent::Joined(text) => text,
            LogEvent::Left(text) => text,
        }
    }
}

/// Which of the three shapes a line shows.
#[derive(Debug, Clone, Copy, PartialEq, Eq, Structural)]
pub struct Signs {
    pub chat: bool,
    pub joined: bool,
    pub left: bool,
}

/// Whether `pattern` is one of the three shapes that the classifier looks
/// for.
pub open spec fn is_shape(pattern: Seq<char>) -> bool {
    pattern == CHAT_PATTERN@ || pattern == JOINED_PATTERN@ || pattern == LEFT_PATTERN@
}

/// Whether `part` stands somewhere in `text`.
pub open spec fn has_part(text: Seq<char>, part: Seq<char>) -> bool {
    exists|at: int| 0 <= at <= text.len() && part.is_prefix_of(#[trigger] text.skip(at))
}

/// Whether `text` holds `<` at `open` and `>` at `close`, later on the same
/// line.
pub open spec fn is_chat_span(text: Seq<char>, open: int, close: int) -> bool {
    &&& 0 <= open < close < text.len()
    &&& text[open] == '<'
    &&& text[close] == '>'
    &&& forall|between: int| open < between < close ==> text[between] != '\n'
}

/// Whether `text` has the shape of a chat message: an opening angle
/// bracket that is followed, with no line feed in between, by a closing one.
pub open spec fn has_chat_shape(text: Seq<char>) -> bool {
    exists|open: int, close: int| is_chat_span(text, open, close)
}

/// Whether `text` shows the shape `pattern`.  The chat shape is an opening
/// angle bracket, anything but a line feed any number of times, and a
/// closing angle bracket; the two notices are plain words, which a text
/// shows where it holds them as they are.
pub open spec fn shape_found(pattern: Seq<char>, text: Seq<char>) -> bool {
    if pattern == CHAT_PATTERN@ {
        has_chat_shape(text)
    } else {
        has_part(text, pattern)
    }
}

/// Compiles `pattern` with `regex::Regex::new` and asks `Regex::is_match`
/// whether it matches anywhere in `text`.  The contract admits the three
/// shapes only.  Each of them is a valid pattern of a few characters, which
/// `Regex::new` accepts, so there is an answer; and for each of them a
/// match anywhere in the text is what `shape_found` says: a dot matches any
/// character but a line feed, a star repeats it any number of times, and
/// every other character of the three patterns matches itself.
#[verifier::external_body]
fn search(pattern: &str, text: &str) -> (found: Option<bool>)
    requires
        is_shape(pattern@),
    ensures
        found == Some(shape_found(pattern@, text@)),
{
    match Regex::new(pattern) {
        Ok(compiled) => Some(compiled.is_match(text)),
        Err(_) => None,
    }
}

/// The shapes that `line` shows.
pub open spec fn signs_of(line: Seq<char>) -> Signs {
    Signs {
        chat: has_chat_shape(line),
        joined: has_part(line, JOINED_PATTERN@),
        left: has_part(line, LEFT_PATTERN@),
    }
}

/// The text of `line` behind its first `fields` fields, without the
/// carriage-return and line-feed pairs at its end.
pub open spec fn display_text(line: Seq<char>, fields: nat) -> Seq<char> {
    trim_line_end(skip_fields(line, fields))
}

/// The event that a line with the given signs stands for.  A chat message
/// wins over a notice, and a player who joined over one who left.  The text
/// of a chat message starts behind the server's prefix and the sender, the
/// text of a notice behind the server's prefix.
pub open spec fn classified(line: Seq<char>, signs: Signs) -> Option<LogEventView> {
    if signs.chat {
        Some(LogEventView::Chat(display_text(line, (PREFIX_FIELDS + 1) as nat)))
    } else if signs.joined {
        Some(LogEventView::Joined(display_text(line, PREFIX_FIELDS as nat)))
    } else if signs.left {
        Some(LogEventView::Left(display_text(line, PREFIX_FIELDS as nat)))
    } else {
        None
    }
}

/// The event that `line` stands for, if any.
pub open spec fn classification(line: Seq<char>) -> Option<LogEventView> {
    classified(line, signs_of(line))
}

/// The event that one element of a raw stream stands for.  An element that
/// the runtime could not deliver (`None`), one that is no UTF-8 text, and a
/// line that stands for no event leave nothing behind.
pub open spec fn chunk_event(chunk: Option<Seq<u8>>) -> Option<LogEventView> {
    match chunk {
        Some(bytes) => if valid_utf8(bytes) {
            classification(decode_utf8(bytes))
        } else {
            None
        },
        None => None,
    }
}

/// The events of a stream of chunks, in the order of the chunks.
pub open spec fn filtered(chunks: Seq<Option<Seq<u8>>>) -> Seq<LogEventView>
    decreases chunks.len(),
{
    if chunks.len() == 0 {
        Seq::empty()
    } else {
        let earlier = filtered(chunks.drop_last());
        match chunk_event(chunks.last()) {
            Some(event) => earlier.push(event),
            None => earlier,
        }
    }
}

/// Searches `line` for the three shapes.
pub fn find_signs(line: &str) -> (signs: Signs)
    ensures
        signs == signs_of(line@),
{
    proof {
        reveal_strlit("<.*>.*");
        reveal_strlit("joined the game");
        reveal_strlit("left the game");
        assert(CHAT_PATTERN@.len() != JOINED_PATTERN@.len());
        assert(CHAT_PATTERN@.len() != LEFT_PATTERN@.len());
    }
    let chat = match search(CHAT_PATTERN, line) {
        Some(found) => found,
        None => false,
    };
    let joined = match search(JOINED_PATTERN, line) {
        Some(found) => found,
        None => false,
    };
    let left = match search(LEFT_PATTERN, line) {
        Some(found) => found,
        None => false,
    };
    Signs { chat, joined, left }
}

/// The text of `line` behind its first `fields` fields, without the
/// carriage-return and line-feed pairs at its end.
pub fn display(line: &str, fields: usize) -> (text: String)
    ensures
        text@ == display_text(line@, fields as nat),
{
    let chars = chars_of(line);
    let start = field_start(&chars, fields);
    let end = line_end(&chars, start, chars.len());
    assert(chars@.subrange(start as int, chars.len() as int) =~= chars@.skip(start as int));
    String::from_str(line.substring_char(start, end))
}

/// The event that a line with the given signs stands for.
pub fn classify_with(line: &str, signs: Signs) -> (event: Option<LogEvent>)
    ensures
        event.deep_view() == classified(line@, signs),
{
    if signs.chat {
        Some(LogEvent::Chat(display(line, PREFIX_FIELDS + 1)))
    } else if signs.joined {
        Some(LogEvent::Joined(display(line, PREFIX_FIELDS)))
    } else if signs.left {
        Some(LogEvent::Left(display(line, PREFIX_FIELDS)))
    } else {
        None
    }
}

/// Classifies one raw line: a chat message, a notice that a player joined
/// or left, or, for every other line, nothing.
pub fn classify(line: &str) -> (event: Option<LogEvent>)
    ensures
        event.deep_view() == classification(line@),
{
    classify_with(line, find_signs(line))
}

/// Classifies one element of a raw stream.  An element that the runtime
/// could not deliver, and one that is no UTF-8 text, is dropped like a line
/// that stands for no event: the stream goes on.
pub fn classify_chunk(chunk: Option<&[u8]>) -> (event: Option<LogEvent>)
    ensures
        event.deep_view() == chunk_event(
            match chunk {
                Some(bytes) => Some(bytes@),
                None => None,
            },
        ),
{
    match chunk {
        Some(bytes) => match text_of(bytes) {
            Some(line) => classify(line),
            None => None,
        },
        None => None,
    }
}

/// Classifies a run of chunks: the events come in the order of their
/// chunks, and a chunk that could not be delivered or read does not end the
/// run.
pub fn classify_all(chunks: &Vec<Option<Vec<u8>>>) -> (events: Vec<LogEvent>)
    ensures
        events.deep_view() == filtered(chunks.deep_view()),
{
    let mut events: Vec<LogEvent> = Vec::new();
    let mut i: usize = 0;
    assert(chunks.deep_view().take(0) =~= Seq::<Option<Seq<u8>>>::empty());
    assert(events.deep_view() =~= Seq::<LogEventView>::empty());
    while i < chunks.len()
        invariant
            i <= chunks.len(),
            events.deep_view() == filtered(chunks.deep_view().take(i as int)),
        decreases chunks.len() - i,
    {
        let ghost before = events.deep_view();
        let ghost seen = chunks.deep_view().take(i + 1);
        assert(seen.drop_last() =~= chunks.deep_view().take(i as int));
        assert(seen.last() == chunks@[i as int].deep_view());
        let event = match &chunks[i] {
            Some(bytes) => {
                assert(bytes.deep_view() =~= bytes@);
                classify_chunk(Some(bytes.as_slice()))
            },
            None => None,
        };
        match event {
            Some(e) => {
                events.push(e);
                assert(events.deep_view() =~= before.push(e@));
            },
            None => {},
        }
        i += 1;
    }
    assert(chunks.deep_view().take(i as int) =~= chunks.deep_view());
    events
}

/// A line handed on as it is.
pub fn passthrough(line: &str) -> (event: LogEvent)
    ensures
        event@ == LogEventView::Raw(line@),
{
    LogEvent::Raw(String::from_str(line))
}

} // verus!
