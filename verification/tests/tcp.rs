use modkit::protocol::{parse_message_content, Message, MessageHeader, ParsedContent, HEADER_SIZE};
use modkit::tcp::{
    chunked_file_prelude, connect_forever_step, connect_until_success_step, next_delay, Backoff,
    ForeverAction, RetryPolicy, CHUNK_SIZE, RECONNECT_INITIAL_MS, RECONNECT_MAX_MS,
};

#[test]
fn backoff_sequence_grows_and_caps() {
    let policy = RetryPolicy::new_default();
    let mut b = Backoff::new(&policy);
    let mut sleeps = Vec::new();
    for _ in 0..11 {
        sleeps.push(b.on_failure(&policy));
    }
    assert_eq!(
        sleeps,
        vec![1000, 1500, 2250, 3375, 5062, 7593, 11389, 17083, 25624, 30000, 30000]
    );
}

#[test]
fn backoff_resets_on_success() {
    let policy = RetryPolicy::new_default();
    let mut b = Backoff::new(&policy);
    for _ in 0..6 {
        b.on_failure(&policy);
    }
    assert!(b.delay_ms > RECONNECT_INITIAL_MS);
    b.on_success(&policy);
    assert_eq!(b.delay_ms, RECONNECT_INITIAL_MS);
    assert_eq!(b.on_failure(&policy), RECONNECT_INITIAL_MS);
    assert_eq!(b.on_failure(&policy), 1500);
}

#[test]
fn next_delay_caps_at_max() {
    let policy = RetryPolicy::new_default();
    assert_eq!(next_delay(RECONNECT_MAX_MS, &policy), RECONNECT_MAX_MS);
    assert_eq!(next_delay(25000, &policy), RECONNECT_MAX_MS);
    assert_eq!(next_delay(1001, &policy), 1501);
}

#[test]
fn forever_step_follows_the_policy() {
    let policy = RetryPolicy::new_default();
    let mut b = Backoff::new(&policy);

    // A failure sleeps the current delay and grows it.
    assert_eq!(
        connect_forever_step(&mut b, &policy, false, false),
        ForeverAction::SleepThenReconnect(1000)
    );
    assert_eq!(
        connect_forever_step(&mut b, &policy, false, false),
        ForeverAction::SleepThenReconnect(1500)
    );

    // A success with a continuing callback sleeps the initial delay again.
    assert_eq!(
        connect_forever_step(&mut b, &policy, true, true),
        ForeverAction::SleepThenReconnect(1000)
    );
    // The delay after that success-sleep has grown once from the initial.
    assert_eq!(
        connect_forever_step(&mut b, &policy, false, false),
        ForeverAction::SleepThenReconnect(1500)
    );

    // A success whose callback declines stops the loop.
    assert_eq!(connect_forever_step(&mut b, &policy, true, false), ForeverAction::Stop);
}

#[test]
fn until_success_step_stops_on_success() {
    let policy = RetryPolicy::new_default();
    let mut b = Backoff::new(&policy);
    assert_eq!(connect_until_success_step(&mut b, &policy, false), Some(1000));
    assert_eq!(connect_until_success_step(&mut b, &policy, false), Some(1500));
    assert_eq!(connect_until_success_step(&mut b, &policy, true), None);
}

fn chunked_stream(filename: &str, content: &[u8]) -> Vec<u8> {
    let (header, meta) = chunked_file_prelude(filename, content.len() as u64);
    let mut stream = header.to_bytes();
    stream.extend_from_slice(&meta);
    for chunk in content.chunks(CHUNK_SIZE) {
        stream.extend_from_slice(chunk);
    }
    stream
}

fn recv_from_stream(stream: &[u8]) -> Message {
    let header = MessageHeader::from_bytes(&stream[..HEADER_SIZE]).expect("header decodes");
    let payload = stream[HEADER_SIZE..HEADER_SIZE + header.data_len as usize].to_vec();
    assert_eq!(stream.len(), HEADER_SIZE + header.data_len as usize);
    Message::from_parts(header, payload).expect("assembles")
}

#[test]
fn chunked_transfer_small_file_round_trips() {
    let content: Vec<u8> = (0u8..100).collect();
    assert!(content.len() < CHUNK_SIZE);
    let stream = chunked_stream("small.bin", &content);

    // The chunked stream is byte for byte the whole-message encoding.
    assert_eq!(stream, Message::file("small.bin", content.clone()).to_bytes());

    let msg = recv_from_stream(&stream);
    match parse_message_content(&msg) {
        ParsedContent::File { filename, data } => {
            assert_eq!(filename, "small.bin");
            assert_eq!(data, content);
        },
        other => panic!("wrong variant: {:?}", other),
    }
}

#[test]
fn chunked_transfer_large_file_round_trips() {
    let content: Vec<u8> = (0..CHUNK_SIZE * 2 + 777).map(|i| (i % 251) as u8).collect();
    assert!(content.len() > CHUNK_SIZE);
    let stream = chunked_stream("large.bin", &content);

    assert_eq!(stream, Message::file("large.bin", content.clone()).to_bytes());

    let msg = recv_from_stream(&stream);
    match parse_message_content(&msg) {
        ParsedContent::File { filename, data } => {
            assert_eq!(filename, "large.bin");
            assert_eq!(data, content);
        },
        other => panic!("wrong variant: {:?}", other),
    }
}
