use std::io::{Error, ErrorKind};
use yclip::bytes::{put_u16_be, put_u16_le, put_u64_le, u16_of};
use yclip::clipboard::{ClipboardChange, ImageData};
use yclip::connection::{
    parse, Connection, Incoming, LogicError, ReadError, ReadEvent, SendError, Sending,
};
use yclip::outside::compression::EncodeError;
use yclip::secure::{
    HandshakeEvent, HostAction, HostState, Noise, SatelliteAction, SatelliteState, Secret,
};
use yclip::wire::Metadata;

/// Two ends of an established session.
fn sessions() -> (Noise, Noise) {
    let salt = [3; 32];
    let secret = Secret::new("", Some(salt));
    let frame = |frame: &[u8]| HandshakeEvent::Frame(frame.to_vec());
    let Ok(HostAction::Send { next: host, .. }) =
        Noise::host(HostState::Version, frame(b"1"), "1", &secret)
    else {
        panic!("no salt");
    };
    let Ok(SatelliteAction::Send { frame: hello, next: client }) =
        Noise::satellite(SatelliteState::Salt, frame(&salt), "1", "")
    else {
        panic!("no message");
    };
    let Ok(HostAction::Finish { frame: answer, noise: host }) =
        Noise::host(host, frame(&hello[2..]), "1", &secret)
    else {
        panic!("no answer");
    };
    let Ok(SatelliteAction::Finish { noise: client }) =
        Noise::satellite(client, frame(&answer[2..]), "1", "")
    else {
        panic!("no session");
    };
    (host, client)
}

fn connections() -> (Connection, Connection) {
    let (a, b) = sessions();
    (Connection::new(String::from("b"), a), Connection::new(String::from("a"), b))
}

/// Reads from a stream until something comes out, and takes it off the stream.
fn read(connection: &mut Connection, stream: &mut Vec<u8>) -> Result<Incoming, ReadError> {
    loop {
        let rest = stream.split_off(connection.wanted());
        let bytes = std::mem::replace(stream, rest);
        match connection.read(ReadEvent::Bytes(bytes)) {
            Ok(Incoming::Pending) => {}
            result => return result,
        }
    }
}

fn text(text: &str) -> ClipboardChange {
    ClipboardChange::Text(text.to_string())
}

/// A byte that no one would guess.
fn noise_bytes(len: usize) -> Vec<u8> {
    let mut state: u32 = 1;
    (0..len)
        .map(|_| {
            state = state.wrapping_mul(1664525).wrapping_add(1013904223);
            (state >> 24) as u8
        })
        .collect()
}

#[test]
fn numbers_have_their_bytes_in_order() {
    let mut out = vec![9];
    put_u16_le(&mut out, 0x0102);
    put_u16_be(&mut out, 0x0304);
    put_u64_le(&mut out, 0x0102030405060708);
    assert_eq!(out, vec![9, 2, 1, 3, 4, 8, 7, 6, 5, 4, 3, 2, 1]);
    assert_eq!(u16_of(0x34, 0x12), 0x1234);
}

#[test]
fn headers_are_read() {
    let meta = Metadata { meta_bytes: [0, 1, 0x34, 0x12], current_chunk_header: None };
    assert!(meta.is_text());
    assert!(meta.compress());
    assert_eq!(meta.n_chunks(), 0x1234);
    let meta = Metadata { meta_bytes: [1, 0, 1, 0], current_chunk_header: None };
    assert!(!meta.is_text());
    assert!(!meta.compress());
    assert_eq!(meta.n_chunks(), 1);
    assert_eq!(Metadata::chunk_idx([5, 1, 2, 3]), 261);
    assert_eq!(Metadata::chunk_len([5, 1, 2, 3]), 770);
    let meta = Metadata::default();
    assert_eq!(meta.meta_bytes, [0; 4]);
    assert!(meta.current_chunk_header.is_none());
}

#[test]
fn a_short_text_is_one_plain_chunk() {
    let (mut a, mut b) = connections();
    let mut out = vec![42];
    assert!(matches!(a.send(&text("hello"), &mut out), Ok(Sending::Sent)));
    assert_eq!(&out[..9], &[42, 0, 0, 1, 0, 0, 0, 21, 0]);
    assert_eq!(out.len(), 9 + 21);
    let mut stream = out.split_off(1);
    assert_eq!(b.wanted(), 4);
    assert!(matches!(read(&mut b, &mut stream), Ok(Incoming::Change(c)) if c == text("hello")));
    assert!(stream.is_empty());
    assert_eq!(b.wanted(), 4);
}

#[test]
fn an_image_has_its_dimensions_behind_its_pixels() {
    let image = ClipboardChange::Image(ImageData { width: 2, height: 1, bytes: vec![7; 8] });
    let mut payload = Vec::new();
    image.write_all(&mut payload);
    assert_eq!(
        payload,
        vec![7, 7, 7, 7, 7, 7, 7, 7, 2, 0, 0, 0, 0, 0, 0, 0, 1, 0, 0, 0, 0, 0, 0, 0]
    );
    assert!(matches!(parse(payload, false), Ok(c) if c == image));

    let (mut a, mut b) = connections();
    let mut stream = Vec::new();
    assert!(matches!(a.send(&image, &mut stream), Ok(Sending::Sent)));
    assert_eq!(&stream[..8], &[1, 0, 1, 0, 0, 0, 40, 0]);
    assert!(matches!(read(&mut b, &mut stream), Ok(Incoming::Change(c)) if c == image));
}

#[test]
fn a_long_text_is_compressed() {
    let (mut a, mut b) = connections();
    let long = text(&"abcdefgh".repeat(200));
    let mut stream = Vec::new();
    assert!(matches!(a.send(&long, &mut stream), Ok(Sending::Sent)));
    assert_eq!(&stream[..4], &[0, 1, 1, 0]);
    assert!(stream.len() < 200);
    assert!(matches!(read(&mut b, &mut stream), Ok(Incoming::Change(c)) if c == long));
}

#[test]
fn many_chunks_arrive_in_order() {
    let (mut a, mut b) = connections();
    let image = ClipboardChange::Image(ImageData {
        width: 300,
        height: 200,
        bytes: noise_bytes(300 * 200 * 4),
    });
    let mut stream = Vec::new();
    assert!(matches!(a.send(&image, &mut stream), Ok(Sending::Sent)));
    assert_eq!(&stream[..4], &[1, 1, 4, 0]);
    assert!(matches!(a.send(&text("next"), &mut stream), Ok(Sending::Sent)));
    assert!(matches!(read(&mut b, &mut stream), Ok(Incoming::Change(c)) if c == image));
    assert!(matches!(read(&mut b, &mut stream), Ok(Incoming::Change(c)) if c == text("next")));
    assert!(stream.is_empty());
}

#[test]
fn an_empty_clipboard_is_skipped() {
    let (mut a, mut b) = connections();
    let mut stream = Vec::new();
    assert!(matches!(
        a.send(&text(""), &mut stream),
        Ok(Sending::Skipped(SendError::ClipboardEmpty))
    ));
    assert!(stream.is_empty());
    assert!(matches!(a.send(&text("x"), &mut stream), Ok(Sending::Sent)));
    assert!(matches!(read(&mut b, &mut stream), Ok(Incoming::Change(c)) if c == text("x")));
}

#[test]
fn a_clipboard_that_is_too_big_is_skipped() {
    let (mut a, mut b) = connections();
    let image = ClipboardChange::Image(ImageData {
        width: 5000,
        height: 3300,
        bytes: noise_bytes(5000 * 3300 * 4),
    });
    let mut stream = Vec::new();
    match a.send(&image, &mut stream) {
        Ok(Sending::Skipped(SendError::ClipboardTooBig { bytes })) => {
            assert!(bytes > 64_512_000);
        }
        _ => panic!("expected it to be too big"),
    }
    assert!(stream.is_empty());
    assert!(matches!(a.send(&text("x"), &mut stream), Ok(Sending::Sent)));
    assert!(matches!(read(&mut b, &mut stream), Ok(Incoming::Change(c)) if c == text("x")));
}

#[test]
fn more_than_a_thousand_chunks_are_too_many() {
    let (mut a, _) = connections();
    let mut stream = Vec::new();
    assert!(matches!(
        a.send_packed(true, true, &vec![0; 64_512_001], &mut stream),
        Err(SendError::ClipboardTooBig { bytes: 64_512_001 })
    ));
    assert!(stream.is_empty());
}

#[test]
fn as_many_chunks_are_announced_as_are_sent() {
    for (len, n_chunks) in [(1, 1), (64511, 1), (64512, 1), (64513, 2), (129024, 2), (129025, 3)] {
        let (mut a, _) = connections();
        let mut stream = Vec::new();
        assert!(a.send_packed(true, true, &vec![0; len], &mut stream).is_ok());
        assert_eq!(&stream[..4], &[0, 1, n_chunks, 0]);
        assert_eq!(stream.len(), 4 + len + n_chunks as usize * (4 + 16));
    }
}

#[test]
fn full_chunks_get_across() {
    let (mut a, mut b) = connections();
    let mut full = 0;
    for n in 64470..64520 {
        let image = ClipboardChange::Image(ImageData {
            width: n,
            height: 1,
            bytes: noise_bytes(n),
        });
        let mut stream = Vec::new();
        assert!(matches!(a.send(&image, &mut stream), Ok(Sending::Sent)));
        if stream.len() == 8 + 64512 + 16 {
            assert_eq!(&stream[..4], &[1, 1, 1, 0]);
            full += 1;
        }
        assert!(matches!(read(&mut b, &mut stream), Ok(Incoming::Change(c)) if c == image));
        assert!(stream.is_empty());
    }
    assert_eq!(full, 1);
}

#[test]
fn a_plain_message_may_fill_its_chunk() {
    let (mut a, mut b) = connections();
    let image = ClipboardChange::Image(ImageData {
        width: 1,
        height: 1,
        bytes: vec![5; 64512 - 16],
    });
    let mut stream = Vec::new();
    assert!(matches!(a.send(&image, &mut stream), Ok(Sending::Sent)));
    assert_eq!(&stream[..8], &[1, 0, 1, 0, 0, 0, 0x10, 0xfc]);
    assert!(matches!(read(&mut b, &mut stream), Ok(Incoming::Change(c)) if c == image));
}

#[test]
fn compression_may_fail() {
    let (mut a, _) = connections();
    let mut out = Vec::new();
    let error = || Error::from(ErrorKind::Other);
    let e = a.send_encoded(true, Err(EncodeError::Start(error())), &mut out).unwrap_err();
    assert!(matches!(e, SendError::Io(_)));
    assert!(!e.recoverable());
    let e = a.send_encoded(true, Err(EncodeError::Write(error())), &mut out).unwrap_err();
    assert!(matches!(e, SendError::Zstd(_)));
    assert!(e.recoverable());
    let e = a.send_encoded(true, Err(EncodeError::Finish(error())), &mut out).unwrap_err();
    assert!(matches!(e, SendError::Io(_)));
    assert!(out.is_empty());
    assert!(SendError::ClipboardEmpty.recoverable());
    assert!(SendError::ClipboardTooBig { bytes: 1 }.recoverable());
    assert!(!SendError::Noise(snow::Error::Decrypt).recoverable());
}

#[test]
fn a_forged_chunk_is_refused() {
    let (mut a, mut b) = connections();
    let mut stream = Vec::new();
    assert!(matches!(a.send(&text("hello"), &mut stream), Ok(Sending::Sent)));
    let last = stream.len() - 1;
    stream[last] ^= 1;
    assert!(matches!(
        read(&mut b, &mut stream),
        Err(ReadError::Adhoc(LogicError::Decode(_)))
    ));
}

#[test]
fn a_plain_message_of_several_chunks_is_refused() {
    let (mut a, mut b) = connections();
    let mut stream = Vec::new();
    assert!(a.send_packed(true, false, &[b'x'; 70000], &mut stream).is_ok());
    assert_eq!(&stream[..4], &[0, 0, 2, 0]);
    assert!(matches!(
        read(&mut b, &mut stream),
        Err(ReadError::Adhoc(LogicError::UncompressedChunks))
    ));
}

#[test]
fn what_is_not_zstandard_is_refused() {
    let (mut a, mut b) = connections();
    let mut stream = Vec::new();
    assert!(a.send_packed(true, true, b"not a frame", &mut stream).is_ok());
    assert!(matches!(read(&mut b, &mut stream), Err(ReadError::Zstd(_))));
}

#[test]
fn a_text_has_to_be_utf8() {
    let (mut a, mut b) = connections();
    let mut stream = Vec::new();
    assert!(a.send_packed(true, false, b"\xff", &mut stream).is_ok());
    assert!(matches!(read(&mut b, &mut stream), Err(ReadError::NonUt8(_))));
    assert!(matches!(parse(vec![0xc3, 0xa9], true), Ok(c) if c == text("é")));
}

#[test]
fn an_image_has_to_have_dimensions() {
    let (mut a, mut b) = connections();
    let mut stream = Vec::new();
    assert!(a.send_packed(false, false, &[0; 15], &mut stream).is_ok());
    assert!(matches!(
        read(&mut b, &mut stream),
        Err(ReadError::Adhoc(LogicError::MissingDimensions))
    ));
    assert!(matches!(
        parse(vec![0; 16], false),
        Ok(ClipboardChange::Image(ImageData { width: 0, height: 0, bytes })) if bytes.is_empty()
    ));
}

#[test]
fn the_end_between_messages_is_no_error() {
    let (mut a, mut b) = connections();
    let eof = || ReadEvent::Eof(Error::from(ErrorKind::UnexpectedEof));
    assert!(matches!(b.read(eof()), Ok(Incoming::Closed)));
    assert!(matches!(b.read_inner(eof()), Err(ReadError::Eof)));
    let mut stream = Vec::new();
    assert!(matches!(a.send(&text("hello"), &mut stream), Ok(Sending::Sent)));
    assert!(matches!(b.read(ReadEvent::Bytes(stream[..4].to_vec())), Ok(Incoming::Pending)));
    assert!(matches!(b.read(eof()), Err(ReadError::Io(_))));
    assert!(matches!(b.read(ReadEvent::Bytes(stream[4..8].to_vec())), Ok(Incoming::Pending)));
    assert_eq!(b.wanted(), 21);
    let reset = ReadEvent::Failed(Error::from(ErrorKind::ConnectionReset));
    assert!(matches!(b.read(reset), Err(ReadError::Io(_))));
    assert!(matches!(
        b.read(ReadEvent::Bytes(stream[8..].to_vec())),
        Ok(Incoming::Change(c)) if c == text("hello")
    ));
}

#[test]
fn the_headers_come_with_the_message() {
    let (mut a, mut b) = connections();
    let mut stream = Vec::new();
    assert!(matches!(a.send(&text("hello"), &mut stream), Ok(Sending::Sent)));
    assert!(matches!(b.read_inner(ReadEvent::Bytes(stream[..4].to_vec())), Ok(None)));
    assert!(matches!(b.read_inner(ReadEvent::Bytes(stream[4..8].to_vec())), Ok(None)));
    match b.read_inner(ReadEvent::Bytes(stream[8..].to_vec())) {
        Ok(Some((bytes, meta))) => {
            assert_eq!(bytes, b"hello");
            assert_eq!(meta.meta_bytes, [0, 0, 1, 0]);
            assert_eq!(meta.current_chunk_header, Some([0, 0, 21, 0]));
        }
        _ => panic!("expected a message"),
    }

    let mut stream = Vec::new();
    let image = ClipboardChange::Image(ImageData {
        width: 200,
        height: 100,
        bytes: noise_bytes(200 * 100 * 4),
    });
    assert!(matches!(a.send(&image, &mut stream), Ok(Sending::Sent)));
    let (bytes, meta) = loop {
        let rest = stream.split_off(b.wanted());
        let bytes = std::mem::replace(&mut stream, rest);
        if let Some(message) = b.read_inner(ReadEvent::Bytes(bytes)).unwrap() {
            break message;
        }
    };
    assert!(matches!(parse(bytes, meta.is_text()), Ok(c) if c == image));
    assert_eq!(meta.meta_bytes, [1, 1, 2, 0]);
    assert_eq!(&meta.current_chunk_header.unwrap()[..2], &[1, 0]);
}

#[test]
fn bytes_may_come_in_any_parts() {
    let image = ClipboardChange::Image(ImageData {
        width: 200,
        height: 100,
        bytes: noise_bytes(200 * 100 * 4),
    });
    for part in [1, 2, 3, 5, 1000, 65536] {
        let (mut a, mut b) = connections();
        let mut stream = Vec::new();
        assert!(matches!(a.send(&text("first"), &mut stream), Ok(Sending::Sent)));
        assert!(matches!(a.send(&image, &mut stream), Ok(Sending::Sent)));
        let mut changes = Vec::new();
        while !stream.is_empty() {
            let rest = stream.split_off(part.min(b.wanted()));
            let bytes = std::mem::replace(&mut stream, rest);
            match b.read(ReadEvent::Bytes(bytes)).unwrap() {
                Incoming::Pending => {}
                Incoming::Change(change) => changes.push(change),
                Incoming::Closed => panic!("closed"),
            }
        }
        assert!(changes == vec![text("first"), image.clone()]);
        assert_eq!(b.wanted(), 4);
    }
}

#[test]
fn no_bytes_change_nothing() {
    let (mut a, mut b) = connections();
    let mut stream = Vec::new();
    assert!(matches!(a.send(&text("x"), &mut stream), Ok(Sending::Sent)));
    let rest = stream.split_off(3);
    assert!(matches!(b.read(ReadEvent::Bytes(stream)), Ok(Incoming::Pending)));
    assert_eq!(b.wanted(), 1);
    assert!(matches!(b.read(ReadEvent::Bytes(Vec::new())), Ok(Incoming::Pending)));
    assert_eq!(b.wanted(), 1);
    let mut stream = rest;
    assert!(matches!(read(&mut b, &mut stream), Ok(Incoming::Change(c)) if c == text("x")));
}
