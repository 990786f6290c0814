use frun::protocal::{frame, respond};

#[test]
fn frame_ends_a_message_with_a_line_feed() {
    assert_eq!(frame("\"List\"".to_string()), "\"List\"\n");
    assert_eq!(frame(String::new()), "\n");
}

#[test]
fn framed_message_is_the_first_line_of_its_stream() {
    let stream = frame("{\"Attach\":{\"name\":\"a\"}}".to_string()) + "typed\nmore\n";
    let end = stream.find('\n').unwrap();
    assert_eq!(&stream[..end + 1], "{\"Attach\":{\"name\":\"a\"}}\n");
    assert_eq!(&stream[end + 1..], "typed\nmore\n");
}

#[test]
fn respond_sends_nothing_that_could_not_be_encoded() {
    assert_eq!(respond(Some("\"RunSuccess\"".to_string())), Some("\"RunSuccess\"\n".to_string()));
    assert_eq!(respond(None), None);
}

#[test]
fn framed_message_is_one_line_of_bytes() {
    let line = frame("{\"RunFailed\":\"\u{10a}\u{20ac}\u{1f4a9}\"}".to_string());
    let feeds: Vec<usize> =
        line.bytes().enumerate().filter(|(_, b)| *b == 10).map(|(i, _)| i).collect();
    assert_eq!(feeds, vec![line.len() - 1]);
    assert_eq!(frame("a\nb".to_string()).bytes().filter(|b| *b == 10).count(), 2);
}
