use clipboard::{ClipboardContext, EventRecord, PropertyChunk, Reply, RetrievalError, XA_STRING};

fn clipboard() -> ClipboardContext {
    ClipboardContext::new(0x60_0001, 250, 251, 252, 253).unwrap()
}

fn property(type_id: u64, item_count: u64, bytes_after: u64, data: &[u8]) -> Reply {
    Reply::Property(PropertyChunk {
        type_id,
        format: 8,
        item_count,
        bytes_after,
        data: data.to_vec(),
    })
}

fn selection_notify(property: u64) -> Reply {
    Reply::Event(EventRecord::SelectionNotify { property })
}

fn property_notify() -> Reply {
    Reply::Event(EventRecord::PropertyNotify { state: 0 })
}

#[test]
fn five_bytes_of_text_in_one_property() {
    let payload = b"abc\n\x07";
    let stream = vec![
        selection_notify(252),
        property(251, 0, 5, b""),
        property(251, 5, 0, payload),
    ];
    let text = clipboard().get_contents(&stream).unwrap();
    assert_eq!(text, "abc\n\u{7}");
    assert_eq!(text.chars().count(), 5);
}

#[test]
fn hello_in_an_incremental_transfer() {
    let stream = vec![
        selection_notify(252),
        property(253, 0, 4, b""),
        property_notify(),
        property(251, 0, 5, b""),
        property(251, 5, 0, b"Hello"),
        property_notify(),
        property(251, 0, 0, b"!\0"),
    ];
    assert_eq!(clipboard().get_contents(&stream), Ok("Hello".to_string()));
}

#[test]
fn hello_in_two_pieces() {
    let stream = vec![
        selection_notify(252),
        property(253, 0, 4, b""),
        property_notify(),
        property(251, 0, 5, b""),
        property(251, 5, 0, b"Hello"),
        Reply::Event(EventRecord::PropertyNotify { state: 1 }),
        property_notify(),
        property(251, 0, 1, b""),
        property(251, 1, 0, b"!"),
        Reply::Event(EventRecord::PropertyNotify { state: 1 }),
        property_notify(),
        property(251, 0, 0, b""),
    ];
    assert_eq!(clipboard().get_contents(&stream), Ok("Hello!".to_string()));
}

#[test]
fn plain_text_after_utf8_is_refused() {
    let stream = vec![
        selection_notify(0),
        selection_notify(252),
        property(XA_STRING, 0, 4, b""),
        property(XA_STRING, 4, 0, b"text"),
    ];
    assert_eq!(clipboard().get_contents(&stream), Ok("text".to_string()));
}

#[test]
fn both_formats_refused() {
    let stream = vec![selection_notify(0), selection_notify(0)];
    assert_eq!(clipboard().get_contents(&stream), Err(RetrievalError::FormatNegotiationFailed));
    assert_eq!(
        clipboard().get_contents(&stream).unwrap_err().message(),
        "unable to negotiate format"
    );
}

#[test]
fn contents_that_are_not_utf8_are_decoded_with_replacements() {
    let payload = [b'a', 0x80, b'b', 0xe2, 0x82, b'c'];
    let stream = vec![
        selection_notify(252),
        property(251, 0, 6, b""),
        property(251, 6, 0, &payload),
    ];
    assert_eq!(clipboard().get_contents(&stream), Ok("a\u{fffd}b\u{fffd}c".to_string()));
}

#[test]
fn contents_twice_from_fresh_streams() {
    let first = vec![
        selection_notify(252),
        property(251, 0, 5, b""),
        property(251, 5, 0, b"Hello"),
    ];
    let second = vec![
        Reply::Event(EventRecord::Other),
        selection_notify(252),
        property(253, 0, 4, b""),
        property_notify(),
        property(251, 0, 2, b""),
        property(251, 2, 0, b"He"),
        property_notify(),
        property(251, 0, 3, b""),
        property(251, 3, 0, b"llo"),
        property_notify(),
        property(251, 0, 0, b""),
    ];
    let ctx = clipboard();
    assert_eq!(ctx.get_contents(&first), Ok("Hello".to_string()));
    assert_eq!(ctx.get_contents(&second), ctx.get_contents(&first));
}

#[test]
fn no_reply_at_all_times_out() {
    assert_eq!(clipboard().get_contents(&[]), Err(RetrievalError::Timeout));
}
