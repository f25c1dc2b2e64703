use mc_docker::logs::{
    classify, classify_all, classify_chunk, classify_with, display, find_signs, passthrough,
    LogEvent, Signs, CHAT_PATTERN, JOINED_PATTERN, LEFT_PATTERN, PREFIX_FIELDS,
};

fn chat(text: &str) -> Option<LogEvent> {
    Some(LogEvent::Chat(text.to_string()))
}

fn joined(text: &str) -> Option<LogEvent> {
    Some(LogEvent::Joined(text.to_string()))
}

fn left(text: &str) -> Option<LogEvent> {
    Some(LogEvent::Left(text.to_string()))
}

const NONE: Signs = Signs { chat: false, joined: false, left: false };

#[test]
fn patterns_are_the_shapes_of_the_server_log() {
    assert_eq!(CHAT_PATTERN, "<.*>.*");
    assert_eq!(JOINED_PATTERN, "joined the game");
    assert_eq!(LEFT_PATTERN, "left the game");
    assert_eq!(PREFIX_FIELDS, 3);
}

#[test]
fn chat_line_classifies_to_the_text_that_was_said() {
    assert_eq!(classify("[12:00:00] [Server thread/INFO]: <Alice> hello"), chat("hello"));
    assert_eq!(
        classify("[12:00:00] [Server thread/INFO]: <Alice> hello there, Bob\r\n"),
        chat("hello there, Bob")
    );
}

#[test]
fn join_line_classifies_to_the_notice() {
    assert_eq!(
        classify("[12:00:01] [Server thread/INFO]: Bob joined the game"),
        joined("Bob joined the game")
    );
    assert_eq!(
        classify("[12:00:01] [Server thread/INFO]: Bob joined the game\r\n"),
        joined("Bob joined the game")
    );
}

#[test]
fn leave_line_classifies_to_the_notice() {
    assert_eq!(
        classify("[12:00:02] [Server thread/INFO]: Bob left the game\r\n"),
        left("Bob left the game")
    );
}

#[test]
fn other_lines_classify_to_no_event() {
    assert_eq!(
        classify("[12:00:00] [Server thread/INFO]: Starting minecraft server version 1.19.2"),
        None
    );
    assert_eq!(classify("[12:00:00] [Server thread/INFO]: Done (3.141s)! For help, type \"help\""), None);
    assert_eq!(classify(""), None);
    assert_eq!(classify("\r\n"), None);
    assert_eq!(classify("[12:00:00] [Server thread/INFO]: Bob joined the party"), None);
    assert_eq!(classify("[12:00:00] [Server thread/INFO]: Bob Left The Game"), None);
}

#[test]
fn chat_shape_needs_an_opening_bracket_before_a_closing_one() {
    assert_eq!(classify("a b c d > e < f"), None);
    assert_eq!(classify("a b c d <e f"), None);
    assert_eq!(classify("a b c d e> f"), None);
    assert_eq!(classify("a b c <> e"), chat("e"));
    assert_eq!(classify("a b c <d e> f"), chat("e> f"));
}

#[test]
fn chat_shape_does_not_span_lines() {
    assert_eq!(classify("a b c <d\ne> f"), None);
    assert_eq!(classify("a b c <d>\ne f"), chat("f"));
}

#[test]
fn chat_wins_over_a_notice() {
    assert_eq!(
        classify("[12:00:00] [Server thread/INFO]: <Alice> Bob joined the game"),
        chat("Bob joined the game")
    );
    assert_eq!(
        classify("[12:00:00] [Server thread/INFO]: <Alice> I left the game"),
        chat("I left the game")
    );
}

#[test]
fn joining_wins_over_leaving() {
    assert_eq!(
        classify("t l x: Bob left the game and joined the game"),
        joined("Bob left the game and joined the game")
    );
}

#[test]
fn find_signs_reports_each_shape_by_itself() {
    assert_eq!(find_signs("x"), NONE);
    assert_eq!(find_signs("<a> b"), Signs { chat: true, joined: false, left: false });
    assert_eq!(find_signs("Bob joined the game"), Signs { chat: false, joined: true, left: false });
    assert_eq!(find_signs("Bob left the game"), Signs { chat: false, joined: false, left: true });
    assert_eq!(
        find_signs("<a> joined the game, left the game"),
        Signs { chat: true, joined: true, left: true }
    );
}

#[test]
fn classify_with_follows_the_signs_it_is_given() {
    let line = "[12:00:00] [Server thread/INFO]: <Alice> hello\r\n";
    assert_eq!(classify_with(line, NONE), None);
    assert_eq!(classify_with(line, Signs { chat: true, joined: true, left: true }), chat("hello"));
    assert_eq!(
        classify_with(line, Signs { chat: false, joined: true, left: true }),
        joined("<Alice> hello")
    );
    assert_eq!(
        classify_with(line, Signs { chat: false, joined: false, left: true }),
        left("<Alice> hello")
    );
}

#[test]
fn display_drops_leading_fields_and_the_line_end() {
    assert_eq!(display("a b c d e", 0), "a b c d e");
    assert_eq!(display("a b c d e", 3), "d e");
    assert_eq!(display("a b c d e", 4), "e");
    assert_eq!(display("a b c d e\r\n", 4), "e");
    assert_eq!(display("a b c d e\r\n\r\n", 3), "d e");
    assert_eq!(display("a b c d e\n", 3), "d e\n");
    assert_eq!(display("a b c d e \r\n", 3), "d e ");
}

#[test]
fn display_of_a_line_with_too_few_fields_is_empty() {
    assert_eq!(display("a b c", 3), "");
    assert_eq!(display("a b c", 4), "");
    assert_eq!(display("", 1), "");
    assert_eq!(display("a b c ", 3), "");
    assert_eq!(display("a b\r\n", 3), "");
}

#[test]
fn display_counts_an_empty_field_between_two_blanks() {
    assert_eq!(display("a  b c d", 3), "c d");
    assert_eq!(display("   x", 3), "x");
}

#[test]
fn short_chat_line_has_an_empty_text() {
    assert_eq!(classify("<Alice> hello"), chat(""));
    assert_eq!(classify("Bob joined the game"), joined("game"));
}

#[test]
fn classify_chunk_drops_what_could_not_be_delivered() {
    assert_eq!(classify_chunk(None), None);
    assert_eq!(
        classify_chunk(Some(b"[12:00:00] [Server thread/INFO]: <Alice> hello".as_slice())),
        chat("hello")
    );
    assert_eq!(
        classify_chunk(Some(b"[12:00:00] [Server thread/INFO]: Preparing level".as_slice())),
        None
    );
    assert_eq!(classify_chunk(Some(b"".as_slice())), None);
}

#[test]
fn classify_chunk_drops_what_is_no_text() {
    let mut bytes = b"[12:00:00] [Server thread/INFO]: <Alice> hello ".to_vec();
    bytes.push(0xff);
    assert_eq!(classify_chunk(Some(bytes.as_slice())), None);
    let mut cut = b"[12:00:00] [Server thread/INFO]: Bob joined the game ".to_vec();
    cut.push(0xe2);
    cut.push(0x82);
    assert_eq!(classify_chunk(Some(cut.as_slice())), None);
}

#[test]
fn classify_chunk_reads_text_beyond_ascii() {
    let line = "[12:00:00] [Server thread/INFO]: <Zoé> ça va ? ✓\r\n";
    assert_eq!(classify_chunk(Some(line.as_bytes())), chat("ça va ? ✓"));
}

fn text(line: &str) -> Option<Vec<u8>> {
    Some(line.as_bytes().to_vec())
}

#[test]
fn classify_all_keeps_the_order_and_goes_on_after_a_bad_chunk() {
    let chunks = vec![
        text("[12:00:00] [Server thread/INFO]: Starting minecraft server\r\n"),
        text("[12:00:01] [Server thread/INFO]: Bob joined the game\r\n"),
        None,
        text("[12:00:02] [Server thread/INFO]: <Bob> hi all\r\n"),
        Some(vec![b'<', b'a', b'>', 0xc0, 0x80]),
        text("[12:00:03] [Server thread/INFO]: Saving the game\r\n"),
        None,
        text("[12:00:04] [Server thread/INFO]: Bob left the game\r\n"),
    ];
    assert_eq!(
        classify_all(&chunks),
        vec![
            LogEvent::Joined("Bob joined the game".to_string()),
            LogEvent::Chat("hi all".to_string()),
            LogEvent::Left("Bob left the game".to_string()),
        ]
    );
    assert_eq!(classify_all(&Vec::new()), Vec::new());
    assert_eq!(classify_all(&vec![None, None]), Vec::new());
}

#[test]
fn passthrough_hands_the_line_on() {
    assert_eq!(passthrough("any line\r\n"), LogEvent::Raw("any line\r\n".to_string()));
    assert_eq!(passthrough(""), LogEvent::Raw(String::new()));
}

#[test]
fn into_text_gives_the_text_of_the_event() {
    assert_eq!(LogEvent::Chat("hello".to_string()).into_text(), "hello");
    assert_eq!(LogEvent::Joined("Bob joined the game".to_string()).into_text(), "Bob joined the game");
    assert_eq!(LogEvent::Left("Bob left the game".to_string()).into_text(), "Bob left the game");
    assert_eq!(LogEvent::Raw("raw\r\n".to_string()).into_text(), "raw\r\n");
}
