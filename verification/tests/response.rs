use whisper_wrapper::buffer_texto::BufferTexto;
use whisper_wrapper::erro::ConnectionError;
use whisper_wrapper::response::{
    append_fragment, extract_fragment, receive, FRAGMENT_GROUP, LINE_PATTERN, POLL_INTERVAL_MS,
};

#[test]
fn line_with_two_markers_yields_its_text() {
    assert_eq!(extract_fragment("12 34 hello world\n"), Some("hello world".to_string()));
}

#[test]
fn garbage_yields_nothing() {
    assert_eq!(extract_fragment("garbage\n"), None);
}

#[test]
fn line_without_newline_yields_nothing() {
    assert_eq!(extract_fragment("12 34 hello world"), None);
}

#[test]
fn empty_response_yields_nothing() {
    assert_eq!(extract_fragment(""), None);
}

#[test]
fn fragment_may_be_empty() {
    assert_eq!(extract_fragment("0 1600 \n"), Some(String::new()));
}

#[test]
fn fragment_ends_at_the_first_newline() {
    assert_eq!(extract_fragment("0 100 first\n100 200 second\n"), Some("first".to_string()));
}

#[test]
fn markers_may_be_separated_by_tabs() {
    assert_eq!(extract_fragment("7\t9\tolá mundo\n"), Some("olá mundo".to_string()));
}

#[test]
fn line_must_start_the_response() {
    assert_eq!(extract_fragment("x 12 34 late\n"), None);
}

#[test]
fn fragment_differs_from_the_response() {
    let response = "1 2 abc\n";
    let fragment = extract_fragment(response);
    assert_eq!(fragment, Some("abc".to_string()));
    assert_ne!(fragment, Some(response.to_string()));
}

#[test]
fn pattern_and_cadence() {
    assert_eq!(LINE_PATTERN, "^\\d*\\s\\d*\\s(.*)\\n");
    assert_eq!(FRAGMENT_GROUP, 1);
    assert_eq!(POLL_INTERVAL_MS, 100);
}

#[test]
fn append_fragment_pushes_what_was_extracted() {
    let mut buffer = BufferTexto::new(16);
    append_fragment(&mut buffer, Some("hello".to_string()));
    append_fragment(&mut buffer, None);
    append_fragment(&mut buffer, Some(" world".to_string()));
    assert_eq!(buffer.get(), "hello world");
}

#[test]
fn append_fragment_respects_the_limit() {
    let mut buffer = BufferTexto::new(4);
    append_fragment(&mut buffer, Some("abcdef".to_string()));
    assert_eq!(buffer.get(), "cdef");
}

#[test]
fn receive_appends_the_fragment_of_a_line() {
    let mut buffer = BufferTexto::new(64);
    receive(&mut buffer, Ok("12 34 hello world\n".to_string()));
    assert_eq!(buffer.get(), "hello world");
    receive(&mut buffer, Ok("34 56  again\n".to_string()));
    assert_eq!(buffer.get(), "hello world again");
}

#[test]
fn receive_discards_what_is_no_line() {
    let mut buffer = BufferTexto::new(64);
    receive(&mut buffer, Ok("12 34 kept\n".to_string()));
    receive(&mut buffer, Ok("garbage\n".to_string()));
    receive(&mut buffer, Ok("12 34 no newline".to_string()));
    assert_eq!(buffer.get(), "kept");
}

#[test]
fn receive_skips_a_failed_read() {
    let mut buffer = BufferTexto::new(64);
    receive(&mut buffer, Ok("1 2 kept\n".to_string()));
    receive(&mut buffer, Err(ConnectionError::TimedOut));
    receive(&mut buffer, Err(ConnectionError::ConnectFailed));
    receive(&mut buffer, Err(ConnectionError::InvalidEncoding));
    assert_eq!(buffer.get(), "kept");
}
