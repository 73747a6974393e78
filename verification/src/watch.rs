//! Keeping the clipboards of two machines the same.

use crate::clipboard::{
    image_content, store_hash, text_content, ClipboardChange, ClipboardHashes, ClipboardKind,
    Content, ImageData, Known,
};
use crate::connection::{
    sending_result, Connection, Incoming, ReadError, ReadEvent, SendError, Sending,
};
use crate::delivery::arrives;
use crate::link::Link;
use crate::outside::fingerprint::{fx_image, fx_text};
use crate::secure::Session;
use vstd::prelude::*;

verus! {

/// Notes what the local clipboard holds to begin with, so that only what comes later is reported.
pub fn watch_local(
    hashes: &mut ClipboardHashes,
    text: Option<String>,
    image: Option<ImageData>,
)
    ensures
        final(hashes)@ == old(hashes)@.note_any(text_content(text)).note_any(image_content(image)),
        final(hashes)@.text == match text {
            Some(text) => Some(fx_text(text@, usize::BITS)),
            None => old(hashes)@.text,
        },
        final(hashes)@.image == match image {
            Some(image) => Some(fx_image(image.width, image.height, image.bytes@, usize::BITS)),
            None => old(hashes)@.image,
        },
{
    if let Some(text) = text {
        let change = ClipboardChange::Text(text);
        store_hash(hashes, Some(&change));
    }
    if let Some(image) = image {
        let change = ClipboardChange::Image(image);
        store_hash(hashes, Some(&change));
    }
}

/// What happened while a peer was watched.
#[derive(Debug)]
pub enum RemoteEvent {
    /// There is a new latest change, of the local clipboard or from another peer.
    Notified,
    /// The peer's next bytes came, or did not.
    Read(ReadEvent),
}

/// What to do next to watch a peer.
#[derive(Debug)]
pub enum RemoteAction {
    /// Write what was added to the output, and wait again.
    Write(Sending),
    /// Wait again.
    Wait,
    /// The peer is gone.
    Disconnect,
    /// Set the local clipboard to a text, and tell `board_set` and the other peers.
    SetText(String),
    /// Set the local clipboard to an image, and tell `board_set` and the other peers.
    SetImage(ImageData),
}

/// Why a peer is watched no longer.
#[derive(Debug)]
pub enum RemoteError {
    Send(SendError),
    Read(ReadError),
}

/// Whether sending went well, by what is to be done next.
pub open spec fn sent(res: Result<RemoteAction, RemoteError>) -> Option<Result<(), SendError>> {
    match res {
        Ok(RemoteAction::Write(sending)) => Some(sending_result(Ok(sending))),
        Err(RemoteError::Send(e)) => Some(sending_result(Err(e))),
        _ => None,
    }
}

/// What was read, by what is to be done next.
pub open spec fn read(res: Result<RemoteAction, RemoteError>) -> Option<
    Result<Incoming, ReadError>,
> {
    match res {
        Ok(RemoteAction::Wait) => Some(Ok(Incoming::Pending)),
        Ok(RemoteAction::Disconnect) => Some(Ok(Incoming::Closed)),
        Ok(RemoteAction::SetText(text)) => Some(Ok(Incoming::Change(ClipboardChange::Text(text)))),
        Ok(RemoteAction::SetImage(image)) => Some(
            Ok(Incoming::Change(ClipboardChange::Image(image))),
        ),
        Err(RemoteError::Read(e)) => Some(Err(e)),
        _ => None,
    }
}

/// The content that the local clipboard is set to, if it is.
pub open spec fn set(res: Result<RemoteAction, RemoteError>) -> Option<Content> {
    match res {
        Ok(RemoteAction::SetText(text)) => Some(Content::Text(text@)),
        Ok(RemoteAction::SetImage(image)) => Some(image@),
        _ => None,
    }
}

/// What telling a peer of the latest change leads to: the change is sent, and arrives.
pub open spec fn tells(
    session: Session,
    change: Content,
    after: Session,
    written: Seq<u8>,
    res: Result<RemoteAction, RemoteError>,
) -> bool {
    &&& sent(res) matches Some(result)
    &&& session.sends_content(change, after, written, result)
    &&& result is Ok ==> session.legible(change.packed(), change.chunks())
    &&& result is Ok && change.gets_across() ==> arrives(
        session,
        written,
        change,
        change.chunks(),
    )
    &&& res matches Ok(RemoteAction::Write(Sending::Skipped(e))) ==> e.spec_recoverable()
    &&& res matches Err(RemoteError::Send(e)) ==> !e.spec_recoverable()
}

/// Watches a peer. The latest change goes to the peer whenever it is told of one. A clipboard that
/// comes from the peer becomes the latest change, for the other peers, and is noted, so that it is
/// not reported as a local change once it is set.
pub fn watch_remote(
    connection: &mut Connection,
    hashes: &mut ClipboardHashes,
    event: RemoteEvent,
    latest: &mut Option<ClipboardChange>,
    out: &mut Vec<u8>,
) -> (res: Result<RemoteAction, RemoteError>)
    requires
        old(connection).wf(),
        event is Notified ==> *old(latest) is Some,
        event matches RemoteEvent::Read(ReadEvent::Bytes(bytes)) ==> bytes@.len() <= old(
            connection,
        )@.wanted(),
    ensures
        final(connection).wf(),
        final(connection).spec_peer_addr() == old(connection).spec_peer_addr(),
        old(out)@.is_prefix_of(final(out)@),
        final(hashes)@ == old(hashes)@.note_any(set(res)),
        match res {
            Ok(RemoteAction::SetText(text)) => final(hashes)@.text == Some(
                fx_text(text@, usize::BITS),
            ) && final(hashes)@.image == old(hashes)@.image,
            Ok(RemoteAction::SetImage(image)) => final(hashes)@.image == Some(
                fx_image(image.width, image.height, image.bytes@, usize::BITS),
            ) && final(hashes)@.text == old(hashes)@.text,
            _ => final(hashes)@ == old(hashes)@,
        },
        match res {
            Ok(RemoteAction::SetText(text)) => *final(latest) matches Some(
                ClipboardChange::Text(change),
            ) && change@ == text@,
            Ok(RemoteAction::SetImage(image)) => *final(latest) matches Some(
                ClipboardChange::Image(change),
            ) && change.width == image.width && change.height == image.height && change.bytes@
                == image.bytes@,
            _ => *final(latest) == *old(latest),
        },
        event is Read ==> match set(res) {
            Some(content) => *final(latest) matches Some(change) && change@ == content,
            None => *final(latest) == *old(latest),
        },
        event is Notified ==> *final(latest) == *old(latest),
        match event {
            RemoteEvent::Notified => {
                &&& final(connection)@ == (Link {
                    session: final(connection)@.session,
                    ..old(connection)@
                })
                &&& tells(
                    old(connection)@.session,
                    (*old(latest))->Some_0@,
                    final(connection)@.session,
                    final(out)@.skip(old(out)@.len() as int),
                    res,
                )
            },
            RemoteEvent::Read(event) => {
                &&& final(out)@ == old(out)@
                &&& read(res) matches Some(result) && old(connection)@.read(
                    event,
                    final(connection)@,
                    result,
                )
            },
        },
{
    match event {
        RemoteEvent::Notified => {
            let change = latest.as_ref().unwrap();
            match connection.send(change, out) {
                Ok(sending) => Ok(RemoteAction::Write(sending)),
                Err(e) => Err(RemoteError::Send(e)),
            }
        },
        RemoteEvent::Read(event) => {
            let change = match connection.read(event) {
                Ok(Incoming::Pending) => return Ok(RemoteAction::Wait),
                Ok(Incoming::Closed) => return Ok(RemoteAction::Disconnect),
                Ok(Incoming::Change(change)) => change,
                Err(e) => return Err(RemoteError::Read(e)),
            };
            store_hash(hashes, Some(&change));
            *latest = Some(change.clone());
            match change {
                ClipboardChange::Text(text) => Ok(RemoteAction::SetText(text)),
                ClipboardChange::Image(image) => Ok(RemoteAction::SetImage(image)),
            }
        },
    }
}

/// Notes that the local clipboard has been set to what came from a peer: what it held of the other
/// kind has been replaced, and would be news again. This is not for a clipboard that could not be
/// set.
pub fn board_set(hashes: &mut ClipboardHashes, kind: ClipboardKind)
    ensures
        final(hashes)@ == old(hashes)@.set_to(kind),
        kind is Text ==> final(hashes)@.text == old(hashes)@.text && final(hashes)@.image is None,
        kind is Image ==> final(hashes)@.image == old(hashes)@.image && final(hashes)@.text is None,
{
    match kind {
        ClipboardKind::Text => hashes.keep(true, false),
        ClipboardKind::Image => hashes.keep(false, true),
    }
}

/// What the local clipboard holds to begin with is not reported.
pub proof fn initial_contents_are_not_reported(
    known: Known,
    text: Option<String>,
    image: Option<ImageData>,
)
    ensures
        known.note_any(text_content(text)).note_any(image_content(image)).change(
            text_content(text),
            image_content(image),
        ) is None,
{
}

/// A clipboard that came from a peer is known, before it is set and after, so that it is not
/// reported as a local change, whatever else there is.
pub proof fn received_clipboard_is_not_echoed(
    known: Known,
    res: Result<RemoteAction, RemoteError>,
    text: Option<Content>,
    image: Option<Content>,
)
    ensures
        set(res) matches Some(content) ==> {
            let noted = known.note_any(set(res));
            &&& noted.has(content)
            &&& noted.change(text, image) != Some(content)
            &&& noted.set_to(content.kind()).has(content)
            &&& noted.set_to(content.kind()).change(text, image) != Some(content)
        },
{
}

/// A clipboard that came from a peer replaces nothing until it is set: whether a content of the
/// other kind is news is as it was.
pub proof fn received_clipboard_replaces_nothing_before_it_is_set(
    known: Known,
    res: Result<RemoteAction, RemoteError>,
    other: Content,
)
    ensures
        set(res) matches Some(content) ==> (content.kind() != other.kind() ==> known.note_any(
            set(res),
        ).is_news(other) == known.is_news(other)),
{
}

/// A clipboard that came from one peer is what another peer is told of next, and what arrives
/// there. `latest` is the latest change in between.
pub proof fn received_clipboard_goes_to_the_other_peers(
    received: Result<RemoteAction, RemoteError>,
    latest: Option<ClipboardChange>,
    session: Session,
    after: Session,
    written: Seq<u8>,
    told: Result<RemoteAction, RemoteError>,
)
    requires
        set(received) matches Some(content) && latest matches Some(change) && change@ == content,
    ensures
        tells(session, latest->Some_0@, after, written, told) ==> {
            let content = set(received)->Some_0;
            &&& sent(told) is Some
            &&& session.sends_content(content, after, written, sent(told)->Some_0)
            &&& sent(told)->Some_0 is Ok && content.gets_across() ==> arrives(
                session,
                written,
                content,
                content.chunks(),
            )
        },
{
}

} // verus!
