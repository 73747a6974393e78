//! What is sent arrives.

use crate::bytes::{join16_of_split, le16};
use crate::clipboard::Content;
use crate::connection::{Incoming, ReadError, ReadEvent, SendError};
use crate::link::{Link, Step};
use crate::outside::compression::zstd_content;
use crate::secure::Session;
use crate::wire::{
    chunk, chunk_count, gets_across, message_header, parsed, spec_chunk_idx, spec_compress,
    spec_n_chunks, CHUNK_SIZE, MAX_CHUNKS,
};
use vstd::prelude::*;

verus! {

/// Whether any peer that follows a session reads a clipboard out of a message, wherever in a
/// stream the message stands, and follows the session on from there.
pub open spec fn arrives(session: Session, message: Seq<u8>, content: Content, n: nat) -> bool {
    forall|peer: Link, rest: Seq<u8>|
        peer.idle() && peer.session.follows(session) ==> #[trigger] peer.read_message(
            message + rest,
        ) == Some((content, Link { session: peer.session.received(n), ..peer }, rest))
}

/// Reading a chunk's header and then the chunk.
proof fn frame_read(link: Link, session: Session, bytes: Seq<u8>, i: int, rest: Seq<u8>)
    requires
        link.meta is Some,
        link.header is None,
        link.partial.len() == 0,
        0 <= i <= u16::MAX,
        session.sealed_chunk(bytes, i).len() <= u16::MAX,
    ensures
        ({
            let header = le16(i as u16) + le16(session.sealed_chunk(bytes, i).len() as u16);
            let within = Link { header: Some(header), ..link };
            &&& spec_chunk_idx(header) == i
            &&& within.wanted() == session.sealed_chunk(bytes, i).len()
            &&& link.run(session.frame(bytes, i) + rest) == within.run(
                session.sealed_chunk(bytes, i) + rest,
            )
            &&& (session.sealed_chunk(bytes, i) + rest).take(within.wanted() as int)
                == session.sealed_chunk(bytes, i)
            &&& (session.sealed_chunk(bytes, i) + rest).skip(within.wanted() as int) == rest
            &&& within.partial + session.sealed_chunk(bytes, i) == session.sealed_chunk(bytes, i)
        }),
{
    let code = session.sealed_chunk(bytes, i);
    let header = le16(i as u16) + le16(code.len() as u16);
    let stream = session.frame(bytes, i) + rest;
    join16_of_split(i as u16);
    join16_of_split(code.len() as u16);
    assert(stream.take(4) =~= header);
    assert(link.partial + header =~= header);
    assert(link.partial + code =~= code);
    assert(link.partial =~= Seq::<u8>::empty());
    assert(stream.skip(4) =~= code + rest);
    assert((code + rest).take(code.len() as int) =~= code);
    assert((code + rest).skip(code.len() as int) =~= rest);
}

/// Reading the first `n` chunks of a compressed message that has more of them.
proof fn frames_read(link: Link, session: Session, bytes: Seq<u8>, n: nat, rest: Seq<u8>)
    requires
        link.meta is Some,
        link.header is None,
        link.finished.len() == 0,
        link.partial.len() == 0,
        link.session.follows(session),
        spec_compress(link.meta->Some_0),
        spec_n_chunks(link.meta->Some_0) == chunk_count(bytes.len()),
        n < chunk_count(bytes.len()) <= session.nonces_left(),
        session.legible(bytes, chunk_count(bytes.len())),
    ensures
        link.run(session.frames(bytes, n) + rest) == (Link {
            session: link.session.received(n),
            finished: bytes.take(n * CHUNK_SIZE),
            ..link
        }).run(rest),
    decreases n,
{
    if n == 0 {
        assert(session.frames(bytes, 0) + rest =~= rest);
        assert(bytes.take(0) =~= link.finished);
    } else {
        let i = n - 1;
        let code = session.sealed_chunk(bytes, i);
        let frame = session.frame(bytes, i);
        assert(session.frames(bytes, n) + rest =~= session.frames(bytes, i as nat) + (frame
            + rest));
        frames_read(link, session, bytes, i as nat, frame + rest);
        let before = Link {
            session: link.session.received(i as nat),
            finished: bytes.take(i * CHUNK_SIZE),
            ..link
        };
        frame_read(before, session, bytes, i, rest);
        assert(link.partial =~= Seq::<u8>::empty());
        assert(bytes.take(i * CHUNK_SIZE) + chunk(bytes, i) =~= bytes.take(n * CHUNK_SIZE));
    }
}

/// A message that gets across arrives.
pub(crate) proof fn arrival(
    session: Session,
    is_text: bool,
    compress: bool,
    packed: Seq<u8>,
    bytes: Seq<u8>,
    content: Content,
)
    requires
        gets_across(compress, packed.len()),
        chunk_count(packed.len()) <= MAX_CHUNKS,
        chunk_count(packed.len()) <= session.nonces_left(),
        session.legible(packed, chunk_count(packed.len())),
        if compress {
            zstd_content(packed) == Some(bytes)
        } else {
            packed == bytes
        },
        parsed(is_text, bytes) == Some(content),
    ensures
        arrives(
            session,
            session.message(is_text, compress, packed),
            content,
            chunk_count(packed.len()),
        ),
{
    let total = chunk_count(packed.len());
    let header = message_header(is_text, compress, total as u16);
    join16_of_split(total as u16);
    assert forall|peer: Link, rest: Seq<u8>|
        peer.idle() && peer.session.follows(session) implies #[trigger] peer.read_message(
        session.message(is_text, compress, packed) + rest,
    ) == Some((content, Link { session: peer.session.received(total), ..peer }, rest)) by {
        let stream = session.message(is_text, compress, packed) + rest;
        let last = total - 1;
        let tail = session.frame(packed, last) + rest;
        assert(stream.take(4) =~= header);
        assert(stream.skip(4) =~= session.frames(packed, last as nat) + tail);
        let link = Link { meta: Some(header), header: None, ..peer };
        assert(peer.partial =~= Seq::<u8>::empty());
        assert(peer.partial + header =~= header);
        assert(peer.run(stream) == link.run(stream.skip(4)));
        if compress {
            frames_read(link, session, packed, last as nat, tail);
        } else {
            assert(session.frames(packed, 0) + tail =~= tail);
            assert(packed.take(0) =~= peer.finished);
        }
        let before = Link {
            session: link.session.received(last as nat),
            finished: packed.take(last * CHUNK_SIZE),
            ..link
        };
        frame_read(before, session, packed, last, rest);
        assert(packed.take(last * CHUNK_SIZE) + chunk(packed, last) =~= packed);
        assert(peer.finished =~= Seq::<u8>::empty());
    }
}

/// A message on its way: its bytes, the clipboard that was sent, and its number of chunks.
pub struct Delivery {
    pub message: Seq<u8>,
    pub content: Content,
    pub chunks: nat,
}

/// Whether messages arrive that were sent one after the other.
pub open spec fn all_arrive(session: Session, deliveries: Seq<Delivery>) -> bool
    decreases deliveries.len(),
{
    deliveries.len() > 0 ==> {
        let first = deliveries[0];
        &&& arrives(session, first.message, first.content, first.chunks)
        &&& all_arrive(session.sent(first.chunks), deliveries.skip(1))
    }
}

/// The bytes of messages that were sent one after the other.
pub open spec fn stream_of(deliveries: Seq<Delivery>) -> Seq<u8>
    decreases deliveries.len(),
{
    if deliveries.len() == 0 {
        Seq::empty()
    } else {
        deliveries[0].message + stream_of(deliveries.skip(1))
    }
}

impl Link {
    /// Reading on through a stream until `n` clipboards have come out: the clipboards, and the
    /// rest of the stream. `None` where fewer come out.
    pub open spec fn read_messages(self, stream: Seq<u8>, n: nat) -> Option<
        (Seq<Content>, Seq<u8>),
    >
        decreases n,
    {
        if n == 0 {
            Some((Seq::empty(), stream))
        } else {
            match self.read_message(stream) {
                Some((content, link, rest)) => match link.read_messages(rest, (n - 1) as nat) {
                    Some((contents, rest)) => Some((seq![content] + contents, rest)),
                    None => None,
                },
                None => None,
            }
        }
    }
}

/// Clipboards arrive in the order in which they were sent; none is lost, merged or repeated.
pub proof fn clipboards_arrive_in_order(
    session: Session,
    deliveries: Seq<Delivery>,
    peer: Link,
    rest: Seq<u8>,
)
    requires
        peer.idle(),
        peer.session.follows(session),
    ensures
        all_arrive(session, deliveries) ==> peer.read_messages(
            stream_of(deliveries) + rest,
            deliveries.len(),
        ) == Some((deliveries.map_values(|delivery: Delivery| delivery.content), rest)),
    decreases deliveries.len(),
{
    let contents = deliveries.map_values(|delivery: Delivery| delivery.content);
    if deliveries.len() == 0 {
        assert(stream_of(deliveries) + rest =~= rest);
        assert(contents =~= Seq::<Content>::empty());
    } else if all_arrive(session, deliveries) {
        let first = deliveries[0];
        let others = deliveries.skip(1);
        let after = Link { session: peer.session.received(first.chunks), ..peer };
        clipboards_arrive_in_order(session.sent(first.chunks), others, after, rest);
        assert(stream_of(deliveries) + rest =~= first.message + (stream_of(others) + rest));
        assert(contents =~= seq![first.content] + others.map_values(
            |delivery: Delivery| delivery.content,
        ));
    }
}

/// A clipboard that is skipped might as well never have been sent: the next one is sent as if it
/// had not been, and arrives as if it had not been.
pub proof fn a_skipped_clipboard_changes_nothing(
    session: Session,
    skipped: Content,
    after: Session,
    written: Seq<u8>,
    error: SendError,
    next: Content,
    finally: Session,
    message: Seq<u8>,
    res: Result<(), SendError>,
)
    requires
        error.spec_recoverable(),
    ensures
        session.sends_content(skipped, after, written, Err(error)) ==> {
            &&& written == Seq::<u8>::empty()
            &&& after == session
            &&& after.sends_content(next, finally, message, res) == session.sends_content(
                next,
                finally,
                message,
                res,
            )
            &&& arrives(after, written + message, next, next.chunks()) == arrives(
                session,
                message,
                next,
                next.chunks(),
            )
        },
{
    assert(Seq::<u8>::empty() + message =~= message);
}

/// Bytes that came in several parts, put together.
pub open spec fn joined(parts: Seq<Seq<u8>>) -> Seq<u8>
    decreases parts.len(),
{
    if parts.len() == 0 {
        Seq::empty()
    } else {
        parts[0] + joined(parts.skip(1))
    }
}

impl Link {
    /// Taking bytes in parts until something comes of it: the link after that, what comes, and the
    /// parts that are left.
    pub open spec fn run_parts(self, parts: Seq<Seq<u8>>) -> (Link, Step, Seq<Seq<u8>>)
        decreases parts.len(),
    {
        if parts.len() == 0 {
            (self, Step::Pending, parts)
        } else {
            let (link, step) = self.step(parts[0]);
            if step is Pending {
                link.run_parts(parts.skip(1))
            } else {
                (link, step, parts.skip(1))
            }
        }
    }

    /// Whether no part holds more bytes than are wanted when it comes.
    pub open spec fn fits(self, parts: Seq<Seq<u8>>) -> bool
        decreases parts.len(),
    {
        parts.len() > 0 ==> {
            let (link, step) = self.step(parts[0]);
            &&& parts[0].len() <= self.wanted()
            &&& step is Pending ==> link.fits(parts.skip(1))
        }
    }
}

/// It does not matter whether some of the wanted bytes are taken first.
proof fn run_in_two(link: Link, first: Seq<u8>, rest: Seq<u8>)
    requires
        first.len() <= link.wanted(),
    ensures
        ({
            let (after, step) = link.step(first);
            link.run(first + rest) == if step is Pending {
                after.run(rest)
            } else {
                Some((after, step, rest))
            }
        }),
{
    let stream = first + rest;
    let wanted = link.wanted() as int;
    if first.len() == wanted {
        assert(stream.take(wanted) =~= first);
        assert(stream.skip(wanted) =~= rest);
    } else {
        let after = link.step(first).0;
        let missing = wanted - first.len();
        assert(after.wanted() == missing);
        if stream.len() >= wanted {
            assert(stream.take(wanted) =~= first + rest.take(missing));
            assert(stream.skip(wanted) =~= rest.skip(missing));
            assert(link.partial + stream.take(wanted) =~= after.partial + rest.take(missing));
        }
    }
}

/// It does not matter in what parts the bytes of a message come, nor how often reading is broken
/// off and taken up again in between: no byte is lost, and none is used twice. What comes of the
/// parts is what comes of their bytes at once; and as long as nothing has come of them, reading
/// goes on as if they had come with what follows.
pub proof fn parts_do_not_matter(link: Link, parts: Seq<Seq<u8>>, more: Seq<u8>)
    ensures
        link.fits(parts) ==> {
            let (after, step, left) = link.run_parts(parts);
            link.run(joined(parts) + more) == if step is Pending {
                after.run(more)
            } else {
                Some((after, step, joined(left) + more))
            }
        },
    decreases parts.len(),
{
    if parts.len() == 0 {
        assert(joined(parts) + more =~= more);
    } else if link.fits(parts) {
        let others = parts.skip(1);
        let after = link.step(parts[0]).0;
        assert(joined(parts) + more =~= parts[0] + (joined(others) + more));
        run_in_two(link, parts[0], joined(others) + more);
        parts_do_not_matter(after, others, more);
    }
}

/// Reading on through a stream, some of the wanted bytes at a time, finds the clipboard that is
/// next in the stream. Only decompression may fail before that, for a reason that is not in the
/// stream.
pub proof fn reading_finds_the_next_clipboard(
    link: Link,
    bytes: Vec<u8>,
    rest: Seq<u8>,
    after: Link,
    res: Result<Incoming, ReadError>,
)
    requires
        bytes@.len() <= link.wanted(),
    ensures
        link.read(ReadEvent::Bytes(bytes), after, res) ==> match res {
            Ok(Incoming::Pending) => link.read_message(bytes@ + rest) == after.read_message(rest),
            Ok(Incoming::Change(change)) => link.read_message(bytes@ + rest) == Some(
                (change@, after, rest),
            ),
            Ok(Incoming::Closed) => false,
            Err(e) => e is Zstd || link.read_message(bytes@ + rest) is None,
        },
{
    run_in_two(link, bytes@, rest);
}

} // verus!
