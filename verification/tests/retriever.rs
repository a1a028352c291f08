use clipboard::{
    fetch, Awaiting, ClipboardContext, Effect, EventRecord, PropertyChunk, Reply, RetrievalError,
    SelectionRetriever, TransferState, PROPERTY_NEW_VALUE, XA_STRING,
};

const WINDOW: u64 = 0x40_0001;
const CLIPBOARD: u64 = 300;
const UTF8: u64 = 301;
const PROPERTY: u64 = 302;
const INCR: u64 = 303;

fn ctx() -> ClipboardContext {
    ClipboardContext::new(WINDOW, CLIPBOARD, UTF8, PROPERTY, INCR).unwrap()
}

fn size_probe(type_id: u64, size: u64) -> Reply {
    Reply::Property(PropertyChunk {
        type_id,
        format: 8,
        item_count: 0,
        bytes_after: size,
        data: Vec::new(),
    })
}

fn bytes_read(bytes: &[u8]) -> Reply {
    Reply::Property(PropertyChunk {
        type_id: UTF8,
        format: 8,
        item_count: bytes.len() as u64,
        bytes_after: 0,
        data: bytes.to_vec(),
    })
}

fn notify(property: u64) -> Reply {
    Reply::Event(EventRecord::SelectionNotify { property })
}

fn changed() -> Reply {
    Reply::Event(EventRecord::PropertyNotify { state: PROPERTY_NEW_VALUE })
}

fn convert(target: u64) -> Effect {
    Effect::ConvertSelection { selection: CLIPBOARD, target, property: PROPERTY, window: WINDOW }
}

fn probe_request() -> Effect {
    Effect::ReadProperty { window: WINDOW, property: PROPERTY, length: 0 }
}

fn read_request(length: u64) -> Effect {
    Effect::ReadProperty { window: WINDOW, property: PROPERTY, length }
}

fn delete_request() -> Effect {
    Effect::DeleteProperty { window: WINDOW, property: PROPERTY }
}

fn single_shot(bytes: &[u8]) -> Vec<Reply> {
    vec![notify(PROPERTY), size_probe(UTF8, bytes.len() as u64), bytes_read(bytes)]
}

fn incremental(pieces: &[&[u8]]) -> Vec<Reply> {
    let mut stream = vec![notify(PROPERTY), size_probe(INCR, 1)];
    for piece in pieces {
        stream.push(changed());
        stream.push(size_probe(UTF8, piece.len() as u64));
        stream.push(bytes_read(piece));
    }
    stream.push(changed());
    stream.push(size_probe(UTF8, 0));
    stream
}

/// Replays the stream and returns what was requested in all, with the result.
fn session(formats: Vec<u64>, stream: &[Reply]) -> (Vec<Effect>, Result<Vec<u8>, RetrievalError>) {
    let (mut retriever, mut requests) = SelectionRetriever::begin(ctx(), formats);
    for reply in stream {
        requests.extend(retriever.step(reply));
    }
    (requests, retriever.finish())
}

#[test]
fn begin_requests_the_first_format() {
    let (retriever, effects) = SelectionRetriever::begin(ctx(), vec![UTF8, XA_STRING]);
    assert_eq!(effects, vec![convert(UTF8), Effect::AwaitEvent]);
    assert_eq!(retriever.state(), TransferState::AwaitingConversion);
    assert_eq!(retriever.awaiting(), Awaiting::Event);
    assert_eq!(retriever.target(), Some(UTF8));
    assert!(!retriever.is_finished());
}

#[test]
fn begin_without_formats_has_failed() {
    let (retriever, effects) = SelectionRetriever::begin(ctx(), vec![]);
    assert_eq!(effects, vec![]);
    assert!(retriever.is_finished());
    assert_eq!(retriever.target(), None);
    assert_eq!(retriever.finish(), Err(RetrievalError::FormatNegotiationFailed));
    assert_eq!(
        fetch(&ctx(), vec![], &single_shot(b"abc")),
        Err(RetrievalError::FormatNegotiationFailed)
    );
}

#[test]
fn the_context_begins_with_utf8() {
    let (retriever, effects) = ctx().retriever();
    assert_eq!(effects, vec![convert(UTF8), Effect::AwaitEvent]);
    assert_eq!(retriever.target(), Some(UTF8));
}

#[test]
fn single_shot_returns_the_bytes_of_the_property() {
    for payload in [&b""[..], &b"a"[..], &b"hello world"[..], &[0u8, 255, 128, 7][..]] {
        assert_eq!(fetch(&ctx(), vec![UTF8], &single_shot(payload)), Ok(payload.to_vec()));
    }
}

#[test]
fn single_shot_of_wide_items_has_count_times_width_bytes() {
    let data: Vec<u8> = (0..24).collect();
    let stream = vec![
        notify(PROPERTY),
        size_probe(4, 12),
        Reply::Property(PropertyChunk {
            type_id: 4,
            format: 32,
            item_count: 3,
            bytes_after: 0,
            data: data.clone(),
        }),
    ];
    let result = fetch(&ctx(), vec![UTF8], &stream).unwrap();
    assert_eq!(result.len(), 3 * 8);
    assert_eq!(result, data);
    let data: Vec<u8> = (0..10).collect();
    let stream = vec![
        notify(PROPERTY),
        size_probe(4, 10),
        Reply::Property(PropertyChunk {
            type_id: 4,
            format: 16,
            item_count: 5,
            bytes_after: 0,
            data: data.clone(),
        }),
    ];
    let result = fetch(&ctx(), vec![UTF8], &stream).unwrap();
    assert_eq!(result.len(), 5 * 2);
    assert_eq!(result, data);
}

#[test]
fn single_shot_requests() {
    let (requests, result) = session(vec![UTF8, XA_STRING], &single_shot(b"abc"));
    assert_eq!(result, Ok(b"abc".to_vec()));
    assert_eq!(
        requests,
        vec![
            convert(UTF8),
            Effect::AwaitEvent,
            probe_request(),
            read_request(3),
            delete_request(),
        ]
    );
}

#[test]
fn unrelated_events_do_not_advance_the_retrieval() {
    let mut stream = vec![
        Reply::Event(EventRecord::Other),
        changed(),
        Reply::Event(EventRecord::PropertyNotify { state: 1 }),
    ];
    stream.extend(single_shot(b"abc"));
    let (requests, result) = session(vec![UTF8], &stream);
    assert_eq!(result, Ok(b"abc".to_vec()));
    assert_eq!(
        requests,
        vec![
            convert(UTF8),
            Effect::AwaitEvent,
            Effect::AwaitEvent,
            Effect::AwaitEvent,
            Effect::AwaitEvent,
            probe_request(),
            read_request(3),
            delete_request(),
        ]
    );
}

#[test]
fn incremental_returns_the_pieces_in_order() {
    let pieces: [&[u8]; 4] = [b"one ", b"two ", b"t", b"hree"];
    assert_eq!(fetch(&ctx(), vec![UTF8], &incremental(&pieces)), Ok(b"one two three".to_vec()));
    assert_eq!(fetch(&ctx(), vec![UTF8], &incremental(&[])), Ok(vec![]));
}

#[test]
fn incremental_ends_at_the_first_empty_value() {
    let stream = incremental(&[b"one ", b"", b"two"]);
    assert_eq!(fetch(&ctx(), vec![UTF8], &stream), Ok(b"one ".to_vec()));
}

#[test]
fn incremental_deletes_behind_every_piece_and_at_the_end() {
    let pieces: [&[u8]; 3] = [b"ab", b"cde", b"f"];
    let (requests, result) = session(vec![UTF8], &incremental(&pieces));
    assert_eq!(result, Ok(b"abcdef".to_vec()));
    let release = [delete_request(), Effect::Flush, Effect::AwaitEvent];
    let mut expected = vec![convert(UTF8), Effect::AwaitEvent, probe_request()];
    expected.extend(release);
    for piece in pieces {
        expected.push(probe_request());
        expected.push(read_request(piece.len() as u64));
        expected.extend(release);
    }
    expected.extend([probe_request(), delete_request(), Effect::Flush]);
    assert_eq!(requests, expected);
    let deletions = requests.iter().filter(|e| **e == delete_request()).count();
    assert_eq!(deletions, pieces.len() + 2);
    for (i, request) in requests.iter().enumerate() {
        if matches!(request, Effect::ReadProperty { length, .. } if *length > 0) {
            assert_eq!(requests[i + 1], delete_request());
        }
    }
}

#[test]
fn incremental_passes_over_events_between_the_pieces() {
    let mut stream = vec![notify(PROPERTY), size_probe(INCR, 1)];
    stream.push(Reply::Event(EventRecord::PropertyNotify { state: 1 }));
    stream.push(changed());
    stream.push(size_probe(UTF8, 2));
    stream.push(bytes_read(b"ab"));
    stream.push(Reply::Event(EventRecord::PropertyNotify { state: 1 }));
    stream.push(notify(0));
    stream.push(Reply::Event(EventRecord::Other));
    stream.push(changed());
    stream.push(size_probe(UTF8, 0));
    assert_eq!(fetch(&ctx(), vec![UTF8], &stream), Ok(b"ab".to_vec()));
}

#[test]
fn a_refusal_restarts_with_the_next_format() {
    let (mut retriever, _) = SelectionRetriever::begin(ctx(), vec![UTF8, XA_STRING]);
    let effects = retriever.step(&notify(0));
    assert_eq!(effects, vec![convert(XA_STRING), Effect::AwaitEvent]);
    assert_eq!(retriever.state(), TransferState::AwaitingConversion);
    assert_eq!(retriever.awaiting(), Awaiting::Event);
    assert_eq!(retriever.target(), Some(XA_STRING));
    assert!(!retriever.is_finished());
}

#[test]
fn a_refusal_then_a_delivery_returns_only_what_was_delivered() {
    let mut stream = vec![Reply::Event(EventRecord::Other), notify(0)];
    stream.extend(single_shot(b"plain"));
    assert_eq!(fetch(&ctx(), vec![UTF8, XA_STRING], &stream), Ok(b"plain".to_vec()));
    assert_eq!(
        fetch(&ctx(), vec![UTF8, XA_STRING], &stream),
        fetch(&ctx(), vec![XA_STRING], &single_shot(b"plain"))
    );
    let mut stream = vec![notify(0)];
    stream.extend(incremental(&[b"pl", b"ain"]));
    assert_eq!(fetch(&ctx(), vec![UTF8, XA_STRING], &stream), Ok(b"plain".to_vec()));
}

#[test]
fn a_refusal_of_every_format_fails_the_negotiation() {
    assert_eq!(
        fetch(&ctx(), vec![UTF8, XA_STRING], &[notify(0), notify(0)]),
        Err(RetrievalError::FormatNegotiationFailed)
    );
    assert_eq!(
        fetch(&ctx(), vec![UTF8], &[notify(0)]),
        Err(RetrievalError::FormatNegotiationFailed)
    );
    let mut stream = vec![notify(0), Reply::Event(EventRecord::Other), notify(0), notify(0)];
    stream.extend(single_shot(b"late"));
    assert_eq!(
        fetch(&ctx(), vec![UTF8, XA_STRING, 77], &stream),
        Err(RetrievalError::FormatNegotiationFailed)
    );
}

#[test]
fn a_failed_negotiation_requests_each_format_once() {
    let (requests, result) = session(vec![UTF8, XA_STRING], &[notify(0), notify(0)]);
    assert_eq!(result, Err(RetrievalError::FormatNegotiationFailed));
    assert_eq!(
        requests,
        vec![convert(UTF8), Effect::AwaitEvent, convert(XA_STRING), Effect::AwaitEvent]
    );
}

#[test]
fn a_failed_retriever_is_finished_and_idle() {
    let (mut retriever, _) = SelectionRetriever::begin(ctx(), vec![UTF8]);
    assert_eq!(retriever.step(&notify(0)), vec![]);
    assert!(retriever.is_finished());
    assert_eq!(retriever.state(), TransferState::Idle);
    assert_eq!(retriever.target(), None);
    assert_eq!(retriever.step(&notify(PROPERTY)), vec![]);
    assert_eq!(retriever.finish(), Err(RetrievalError::FormatNegotiationFailed));
}

#[test]
fn fetching_twice_gives_the_same_result() {
    let first = single_shot(b"same content");
    let mut second = vec![Reply::Event(EventRecord::Other)];
    second.extend(single_shot(b"same content"));
    let third = incremental(&[b"same ", b"content"]);
    let fourth = incremental(&[b"s", b"ame conten", b"t"]);
    let expected = Ok(b"same content".to_vec());
    assert_eq!(fetch(&ctx(), vec![UTF8, XA_STRING], &first), expected);
    assert_eq!(fetch(&ctx(), vec![UTF8, XA_STRING], &first), expected);
    assert_eq!(fetch(&ctx(), vec![UTF8, XA_STRING], &second), expected);
    assert_eq!(fetch(&ctx(), vec![UTF8, XA_STRING], &third), expected);
    assert_eq!(fetch(&ctx(), vec![UTF8, XA_STRING], &fourth), expected);
}

#[test]
fn replies_behind_the_end_are_not_looked_at() {
    let mut stream = single_shot(b"abc");
    stream.extend(single_shot(b"def"));
    stream.push(Reply::DeadlineExpired);
    assert_eq!(fetch(&ctx(), vec![UTF8], &stream), Ok(b"abc".to_vec()));
    let (mut retriever, _) = SelectionRetriever::begin(ctx(), vec![UTF8]);
    for reply in single_shot(b"abc") {
        retriever.step(&reply);
    }
    assert!(retriever.is_finished());
    assert_eq!(retriever.step(&Reply::DeadlineExpired), vec![]);
    assert_eq!(retriever.step(&bytes_read(b"def")), vec![]);
    assert_eq!(retriever.state(), TransferState::Idle);
    assert_eq!(retriever.finish(), Ok(b"abc".to_vec()));
}

#[test]
fn a_stream_that_ends_early_times_out() {
    assert_eq!(fetch(&ctx(), vec![UTF8], &[]), Err(RetrievalError::Timeout));
    assert_eq!(fetch(&ctx(), vec![UTF8], &[notify(PROPERTY)]), Err(RetrievalError::Timeout));
    let mut stream = incremental(&[b"ab", b"cd"]);
    stream.truncate(stream.len() - 2);
    assert_eq!(fetch(&ctx(), vec![UTF8], &stream), Err(RetrievalError::Timeout));
}

#[test]
fn an_expired_deadline_times_out() {
    assert_eq!(fetch(&ctx(), vec![UTF8], &[Reply::DeadlineExpired]), Err(RetrievalError::Timeout));
    let mut stream = incremental(&[b"ab", b"cd"]);
    stream.insert(5, Reply::DeadlineExpired);
    let (requests, result) = session(vec![UTF8, XA_STRING], &stream);
    assert_eq!(result, Err(RetrievalError::Timeout));
    assert_eq!(requests.last(), Some(&Effect::AwaitEvent));
    let (mut retriever, _) = SelectionRetriever::begin(ctx(), vec![UTF8, XA_STRING]);
    assert_eq!(retriever.step(&Reply::DeadlineExpired), vec![]);
    assert!(retriever.is_finished());
    assert_eq!(retriever.finish(), Err(RetrievalError::Timeout));
}

#[test]
fn a_malformed_transfer_fails_without_bytes() {
    let mut stream = incremental(&[b"ab", b"cd"]);
    stream[6] = size_probe(INCR, 2);
    assert_eq!(
        fetch(&ctx(), vec![UTF8, XA_STRING], &stream),
        Err(RetrievalError::MalformedTransfer)
    );
    let stream = vec![notify(PROPERTY), notify(PROPERTY)];
    assert_eq!(fetch(&ctx(), vec![UTF8], &stream), Err(RetrievalError::MalformedTransfer));
    let stream = vec![
        notify(PROPERTY),
        size_probe(UTF8, 3),
        Reply::Property(PropertyChunk {
            type_id: UTF8,
            format: 8,
            item_count: 3,
            bytes_after: 0,
            data: b"abcd".to_vec(),
        }),
    ];
    let (mut retriever, _) = SelectionRetriever::begin(ctx(), vec![UTF8]);
    for reply in &stream {
        retriever.step(reply);
    }
    assert!(retriever.is_finished());
    assert_eq!(retriever.state(), TransferState::Idle);
    assert_eq!(retriever.finish(), Err(RetrievalError::MalformedTransfer));
}

#[test]
fn every_list_of_requests_ends_in_the_one_that_expects_a_reply() {
    let mut stream = vec![Reply::Event(EventRecord::Other), notify(0)];
    stream.extend(incremental(&[b"ab", b"c", b"d"]));
    let (mut retriever, mut effects) = SelectionRetriever::begin(ctx(), vec![UTF8, XA_STRING]);
    let mut replies = stream.iter();
    loop {
        let (last, before) = effects.split_last().unwrap();
        assert!(before.iter().all(|e| !e.expects_reply()));
        assert_eq!(last.expects_reply(), !retriever.is_finished());
        match (last, retriever.awaiting()) {
            (Effect::AwaitEvent, Awaiting::Event) => {}
            (Effect::ReadProperty { .. }, Awaiting::Probe | Awaiting::Chunk) => {}
            (Effect::Flush | Effect::DeleteProperty { .. }, Awaiting::Nothing) => break,
            other => panic!("{:?}", other),
        }
        effects = retriever.step(replies.next().unwrap());
    }
    assert!(replies.next().is_none());
    assert_eq!(retriever.finish(), Ok(b"abcd".to_vec()));
}

#[test]
fn finish_text_decodes_the_payload() {
    let (mut retriever, _) = SelectionRetriever::begin(ctx(), vec![UTF8]);
    for reply in single_shot("gr\u{fc}\u{df}e \u{2603}".as_bytes()) {
        retriever.step(&reply);
    }
    assert_eq!(retriever.finish_text(), Ok("gr\u{fc}\u{df}e \u{2603}".to_string()));
    let (retriever, _) = SelectionRetriever::begin(ctx(), vec![]);
    assert_eq!(retriever.finish_text(), Err(RetrievalError::FormatNegotiationFailed));
    let (retriever, _) = SelectionRetriever::begin(ctx(), vec![UTF8]);
    assert_eq!(retriever.finish_text(), Err(RetrievalError::Timeout));
}

#[test]
fn finish_text_replaces_invalid_sequences() {
    let (mut retriever, _) = SelectionRetriever::begin(ctx(), vec![UTF8]);
    for reply in incremental(&[&[b'f', 0xff], &[b'o', 0xc3], &[0x28, b'!']]) {
        retriever.step(&reply);
    }
    assert_eq!(retriever.finish_text(), Ok("f\u{fffd}o\u{fffd}(!".to_string()));
}

#[test]
fn a_cloned_reply_is_equal() {
    let replies =
        [notify(5), changed(), bytes_read(b"abc"), size_probe(INCR, 9), Reply::DeadlineExpired];
    for reply in replies {
        assert_eq!(reply.clone(), reply);
    }
}

#[test]
fn the_bytes_gathered_can_be_watched() {
    let (mut retriever, _) = SelectionRetriever::begin(ctx(), vec![UTF8]);
    let mut seen = Vec::new();
    for reply in incremental(&[b"ab", b"cde", b"f"]) {
        retriever.step(&reply);
        seen.push(retriever.bytes().len());
    }
    assert_eq!(seen, vec![0, 0, 0, 0, 2, 2, 2, 5, 5, 5, 6, 6, 6]);
    assert_eq!(retriever.bytes(), b"abcdef");
}

#[test]
fn replay_stops_where_the_stream_does() {
    let stream = incremental(&[b"ab", b"cd"]);
    let retriever = SelectionRetriever::replay(ctx(), vec![UTF8], &stream[..4]);
    assert_eq!(retriever.state(), TransferState::Incremental);
    assert_eq!(retriever.awaiting(), Awaiting::Chunk);
    assert_eq!(retriever.bytes(), b"");
    assert!(!retriever.is_finished());
    let retriever = SelectionRetriever::replay(ctx(), vec![UTF8], &stream[..6]);
    assert_eq!(retriever.awaiting(), Awaiting::Probe);
    assert_eq!(retriever.bytes(), b"ab");
    assert_eq!(retriever.finish(), Err(RetrievalError::Timeout));
    let retriever = SelectionRetriever::replay(ctx(), vec![UTF8], &stream);
    assert!(retriever.is_finished());
    assert_eq!(retriever.state(), TransferState::Idle);
    assert_eq!(retriever.finish(), Ok(b"abcd".to_vec()));
}
