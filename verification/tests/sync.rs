use rand::distr::{SampleString, Uniform};
use yclip::clipboard::{
    Clipboard, ClipboardAction, ClipboardChange, ClipboardEvent, ClipboardHashes, ClipboardKind,
    ImageData, Sight,
};
use yclip::connection::{Connection, ReadEvent, Sending};
use yclip::secure::{
    HandshakeEvent, HostAction, HostState, Noise, SatelliteAction, SatelliteState, Secret,
};
use yclip::watch::{board_set, watch_local, watch_remote, RemoteAction, RemoteEvent};

/// One of two machines that share a clipboard.
struct Machine {
    connection: Connection,
    hashes: ClipboardHashes,
    latest: Option<ClipboardChange>,
    text: Option<String>,
}

/// What a handshake frame holds.
fn message(frame: &[u8]) -> HandshakeEvent {
    let len = Noise::handshake_recv([frame[0], frame[1]]);
    assert_eq!(len, frame.len() - 2);
    HandshakeEvent::Frame(frame[2..].to_vec())
}

fn dummy_connections(password: &str) -> (Connection, Connection) {
    let version = "1.2.3";
    let secret = Secret::new(password, None);
    let host_hello = Noise::version_frame(version);
    let client_hello = Noise::version_frame(version);

    let HostAction::Send { frame: salt, next: host } =
        Noise::host(HostState::Version, message(&client_hello), version, &secret).unwrap()
    else {
        panic!("no salt");
    };
    assert_eq!(&salt[2..], secret.salt());
    let SatelliteAction::Wait { next: client } =
        Noise::satellite(SatelliteState::Version, message(&host_hello), version, password).unwrap()
    else {
        panic!("no wait for the salt");
    };
    let SatelliteAction::Send { frame: hello, next: client } =
        Noise::satellite(client, message(&salt), version, password).unwrap()
    else {
        panic!("no message");
    };
    let HostAction::Finish { frame: answer, noise: host } =
        Noise::host(host, message(&hello), version, &secret).unwrap()
    else {
        panic!("no answer");
    };
    let SatelliteAction::Finish { noise: client } =
        Noise::satellite(client, message(&answer), version, password).unwrap()
    else {
        panic!("no session");
    };
    (
        Connection::new(String::from("b"), host),
        Connection::new(String::from("a"), client),
    )
}

fn machines(password: &str) -> (Machine, Machine) {
    let (a, b) = dummy_connections(password);
    (
        Machine { connection: a, hashes: ClipboardHashes::new(), latest: None, text: None },
        Machine { connection: b, hashes: ClipboardHashes::new(), latest: None, text: None },
    )
}

/// What a machine's watcher makes of what its clipboard holds.
fn look(machine: &mut Machine) -> Option<ClipboardChange> {
    let clipboard = Clipboard::new(true, 2);
    let event = ClipboardEvent::Seen {
        from_polling: false,
        text: machine.text.clone().map_or(Sight::Absent, Sight::Shown),
        image: Sight::Absent,
    };
    match clipboard.listen_for_change(&mut machine.hashes, event) {
        ClipboardAction::Report { from_polling, change } => {
            assert!(!from_polling);
            Some(change)
        }
        _ => None,
    }
}

/// Sends a change from one machine, and reads it on the other.
fn send(from: &mut Machine, to: &mut Machine, change: &ClipboardChange) {
    let mut wire = Vec::new();
    from.latest = Some(change.clone());
    let action = watch_remote(
        &mut from.connection,
        &mut from.hashes,
        RemoteEvent::Notified,
        &mut from.latest,
        &mut wire,
    );
    assert!(matches!(action, Ok(RemoteAction::Write(Sending::Sent))));

    let mut position = 0;
    let mut out = Vec::new();
    loop {
        let end = position + to.connection.wanted();
        let bytes = wire[position..end].to_vec();
        position = end;
        let event = RemoteEvent::Read(ReadEvent::Bytes(bytes));
        let action =
            watch_remote(&mut to.connection, &mut to.hashes, event, &mut to.latest, &mut out);
        match action.unwrap() {
            RemoteAction::Wait => {}
            RemoteAction::SetText(text) => {
                to.text = Some(text);
                board_set(&mut to.hashes, ClipboardKind::Text);
                break;
            }
            action => panic!("expected a text: {action:?}"),
        }
    }
    assert_eq!(position, wire.len());
    assert!(out.is_empty());
    assert!(to.latest.as_ref() == Some(change));
}

fn test(input: &[String], password: &str) {
    let (mut a, mut b) = machines(password);
    for x in input {
        let prev = b.text.clone();
        a.text = (!x.is_empty()).then(|| x.to_owned());

        // Empty input or same as before => don't expect B to change
        let change_expected = prev.as_deref() != Some(x.as_str()) && !x.is_empty();
        let change = look(&mut a);
        assert_eq!(change.is_some(), change_expected);
        if let Some(change) = change {
            send(&mut a, &mut b, &change);
        }
        let expected = if change_expected { Some(x.as_str()) } else { prev.as_deref() };
        if b.text.as_deref() != expected {
            panic!("ClipboardB's contents didn't match expected. Omitting contents due to length");
        }
        // What came from A is no local change on B
        assert!(look(&mut b).is_none());
    }
}

/// A text of random characters.
fn random_text(len: usize) -> String {
    let uniform = Uniform::<char>::new('\u{0020}', '\u{10FFFF}').unwrap();
    let mut text = String::new();
    uniform.append_string(&mut rand::rng(), &mut text, len);
    text
}

/// Sends a fifth of fifty chunked clipboards, one after the other.
fn test_more_chunking() {
    let mut inputs = Vec::new();
    for _ in 0..50 / 5 {
        inputs.push(random_text(500_000));
    }
    test(inputs.as_slice(), "foobar");
}

#[test]
fn test_chunking() {
    // Around 20MB (zstd gets it down to 15ish)
    test(&[random_text(5_000_000)], "foobar");
}

#[test]
fn test_chunking_first_fifth() {
    test_more_chunking();
}

#[test]
fn test_chunking_second_fifth() {
    test_more_chunking();
}

#[test]
fn test_chunking_third_fifth() {
    test_more_chunking();
}

#[test]
fn test_chunking_fourth_fifth() {
    test_more_chunking();
}

#[test]
fn test_chunking_last_fifth() {
    test_more_chunking();
}

#[test]
fn fifty_chunked_texts_go_over_one_connection() {
    let mut inputs = Vec::new();
    for _ in 0..50 {
        inputs.push(random_text(50_000));
    }
    test(inputs.as_slice(), "foobar");
}

#[test]
fn short_texts_are_synced() {
    let input: Vec<String> = ["hello", "hello", "", "wörld \u{10FFFF}", "hello", "a"]
        .iter()
        .map(|x| x.to_string())
        .collect();
    test(&input, "");
}

#[test]
fn texts_around_the_compression_limit_are_synced() {
    let input: Vec<String> = [1023, 1024, 1025, 64511, 64512, 64513]
        .iter()
        .map(|n| "x".repeat(*n))
        .collect();
    test(&input, "pass word");
}

#[test]
fn both_directions_work() {
    let (mut a, mut b) = machines("secret");
    for i in 0..5 {
        let there = ClipboardChange::Text(format!("there {i}"));
        send(&mut a, &mut b, &there);
        assert_eq!(b.text.as_deref(), Some(format!("there {i}").as_str()));
        let back = ClipboardChange::Text(format!("back {i}"));
        send(&mut b, &mut a, &back);
        assert_eq!(a.text.as_deref(), Some(format!("back {i}").as_str()));
    }
}

#[test]
fn peers_have_addresses() {
    let (a, b) = dummy_connections("x");
    assert_eq!(a.peer_addr(), "b");
    assert_eq!(b.peer_addr(), "a");
}

#[test]
fn images_are_synced_and_not_echoed() {
    let (mut a, mut b) = machines("x");
    let pixels: Vec<u8> = (0..40 * 30 * 4).map(|i| (i % 251) as u8).collect();
    let change = ClipboardChange::Image(ImageData { width: 40, height: 30, bytes: pixels.clone() });
    let mut wire = Vec::new();
    a.latest = Some(change);
    let action = watch_remote(
        &mut a.connection,
        &mut a.hashes,
        RemoteEvent::Notified,
        &mut a.latest,
        &mut wire,
    );
    assert!(matches!(action, Ok(RemoteAction::Write(Sending::Sent))));
    let mut rest = wire.as_slice();
    let image = loop {
        let (bytes, tail) = rest.split_at(b.connection.wanted());
        rest = tail;
        let event = RemoteEvent::Read(ReadEvent::Bytes(bytes.to_vec()));
        let mut out = Vec::new();
        let action =
            watch_remote(&mut b.connection, &mut b.hashes, event, &mut b.latest, &mut out);
        match action.unwrap() {
            RemoteAction::Wait => {}
            RemoteAction::SetImage(image) => break image,
            action => panic!("expected an image: {action:?}"),
        }
    };
    assert!(rest.is_empty());
    assert_eq!((image.width, image.height), (40, 30));
    assert_eq!(image.bytes, pixels);

    let clipboard = Clipboard::new(false, 7);
    let event = ClipboardEvent::Seen {
        from_polling: false,
        text: Sight::Absent,
        image: Sight::Shown(image),
    };
    assert!(matches!(
        clipboard.listen_for_change(&mut b.hashes, event),
        ClipboardAction::Sleep { duration: 7 }
    ));
}

#[test]
fn what_was_there_to_begin_with_is_not_reported() {
    let mut hashes = ClipboardHashes::new();
    let image = || ImageData { width: 1, height: 1, bytes: vec![1, 2, 3, 4] };
    watch_local(&mut hashes, Some(String::from("old")), Some(image()));
    let clipboard = Clipboard::new(false, 5);
    let seen = |text: &str| ClipboardEvent::Seen {
        from_polling: false,
        text: Sight::Shown(text.to_string()),
        image: Sight::Shown(image()),
    };
    assert!(matches!(
        clipboard.listen_for_change(&mut hashes, seen("old")),
        ClipboardAction::Sleep { duration: 5 }
    ));
    assert!(matches!(
        clipboard.listen_for_change(&mut hashes, seen("new")),
        ClipboardAction::Report { .. }
    ));
}

#[test]
fn a_peer_that_hangs_up_is_disconnected() {
    let (mut a, _b) = machines("x");
    let eof = std::io::Error::from(std::io::ErrorKind::UnexpectedEof);
    let event = RemoteEvent::Read(ReadEvent::Eof(eof));
    assert!(matches!(
        watch_remote(&mut a.connection, &mut a.hashes, event, &mut a.latest, &mut Vec::new()),
        Ok(RemoteAction::Disconnect)
    ));
}

#[test]
fn a_clipboard_from_one_peer_goes_to_the_others() {
    // The host serves two clients over a connection each
    let (mut first, mut first_client) = machines("x");
    let (mut second, mut second_client) = machines("x");
    let older = ClipboardChange::Text(String::from("older"));
    second.latest = Some(older);

    let change = ClipboardChange::Text(String::from("from the first client"));
    std::mem::swap(&mut first.latest, &mut second.latest);
    send(&mut first_client, &mut first, &change);
    std::mem::swap(&mut first.latest, &mut second.latest);

    let latest = second.latest.clone().unwrap();
    assert!(latest == change);
    send(&mut second, &mut second_client, &latest);
    assert_eq!(second_client.text.as_deref(), Some("from the first client"));
}

#[test]
fn telling_a_peer_keeps_the_latest_change() {
    let (mut a, _) = machines("x");
    a.latest = Some(ClipboardChange::Text(String::new()));
    let mut out = Vec::new();
    let action = watch_remote(
        &mut a.connection,
        &mut a.hashes,
        RemoteEvent::Notified,
        &mut a.latest,
        &mut out,
    );
    assert!(matches!(action, Ok(RemoteAction::Write(Sending::Skipped(_)))));
    assert!(out.is_empty());
    assert!(a.latest == Some(ClipboardChange::Text(String::new())));
}

#[test]
fn a_text_is_news_again_after_something_was_received() {
    let (mut a, mut b) = machines("x");
    b.text = Some(String::from("mine"));
    assert!(look(&mut b).is_some());
    send(&mut a, &mut b, &ClipboardChange::Text(String::from("theirs")));
    assert!(look(&mut b).is_none());
    b.text = Some(String::from("mine"));
    assert!(look(&mut b).is_some());
}

#[test]
fn a_received_text_replaces_the_image_only_once_it_is_set() {
    let (mut a, mut b) = machines("x");
    let image = || Sight::Shown(ImageData { width: 1, height: 1, bytes: vec![1, 2, 3, 4] });
    let clipboard = Clipboard::new(true, 1);
    let mut look = |machine: &mut Machine| {
        let event =
            ClipboardEvent::Seen { from_polling: false, text: Sight::Absent, image: image() };
        matches!(
            clipboard.listen_for_change(&mut machine.hashes, event),
            ClipboardAction::Report { .. }
        )
    };
    assert!(look(&mut b));

    // The text arrives, but cannot be set
    let mut wire = Vec::new();
    a.latest = Some(ClipboardChange::Text(String::from("theirs")));
    let event = RemoteEvent::Notified;
    let action = watch_remote(&mut a.connection, &mut a.hashes, event, &mut a.latest, &mut wire);
    assert!(action.is_ok());
    let mut rest = wire.as_slice();
    while !rest.is_empty() {
        let (bytes, tail) = rest.split_at(b.connection.wanted());
        rest = tail;
        let event = RemoteEvent::Read(ReadEvent::Bytes(bytes.to_vec()));
        let mut out = Vec::new();
        let action =
            watch_remote(&mut b.connection, &mut b.hashes, event, &mut b.latest, &mut out);
        assert!(action.is_ok());
    }
    assert!(!look(&mut b));

    // Once it is set, the image is news
    board_set(&mut b.hashes, ClipboardKind::Text);
    assert!(look(&mut b));
}
