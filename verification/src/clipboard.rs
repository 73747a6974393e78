//! What a clipboard holds, and which of its changes are news.

use crate::bytes::{le64, put_bytes, put_u64_le};
use crate::decimal::{decimal, push_decimal};
use crate::laws::copying::a_text_has_bytes_if_it_has_characters;
use crate::outside::fingerprint::{fx_hash_image, fx_hash_text, fx_image, fx_text};
use crate::outside::slots::{slot_contents, HashSlots};
use vstd::arithmetic::div_mod::{
    lemma_add_mod_noop_right, lemma_mod_add_multiples_vanish, lemma_mod_bound, lemma_small_mod,
};
use vstd::bytes::spec_u64_to_le_bytes;
use vstd::prelude::*;
use vstd::string::StringExecFns;
use vstd::utf8::encode_utf8;

verus! {

/// The length in bytes from which on a text is too long to be shown.
pub const MAX_SHOWN_LEN: usize = 100;

/// An image: its dimensions in pixels, and its pixels.
#[derive(Debug)]
pub struct ImageData {
    pub width: usize,
    pub height: usize,
    pub bytes: Vec<u8>,
}

/// What was copied.
#[derive(Debug)]
pub enum ClipboardChange {
    Text(String),
    Image(ImageData),
}

/// What was copied, as mathematical data.
pub enum Content {
    Text(Seq<char>),
    Image { width: usize, height: usize, bytes: Seq<u8> },
}

/// The kinds of clipboard.
#[derive(Debug, Clone, Copy, PartialEq, Eq, Structural)]
pub enum ClipboardKind {
    Text,
    Image,
}

impl View for ImageData {
    type V = Content;

    open spec fn view(&self) -> Content {
        Content::Image { width: self.width, height: self.height, bytes: self.bytes@ }
    }
}

impl View for ClipboardChange {
    type V = Content;

    open spec fn view(&self) -> Content {
        match self {
            ClipboardChange::Text(text) => Content::Text(text@),
            ClipboardChange::Image(image) => image@,
        }
    }
}

/// A number as a machine word holds it: once it is too large, it starts over from zero.
pub open spec fn wrapped(n: nat) -> usize {
    if n <= usize::MAX {
        n as usize
    } else {
        (n % (usize::MAX + 1) as nat) as usize
    }
}

/// What a machine word holds of a number is the rest after division by the number of words.
pub proof fn wrapping_is_taking_the_rest(n: nat)
    ensures
        wrapped(n) == n % (usize::MAX + 1) as nat,
{
    if n <= usize::MAX {
        lemma_small_mod(n, (usize::MAX + 1) as nat);
    } else {
        lemma_mod_bound(n as int, usize::MAX + 1);
    }
}

/// Wrapping a product and then a sum is the same as wrapping the result.
proof fn wrapping_once_is_enough(width: usize, height: usize, words: usize)
    ensures
        width.wrapping_mul(height).wrapping_add(words) == wrapped((width * height + words) as nat),
{
    let range = usize::MAX + 1;
    let pixels = width * height;
    assert(pixels >= 0) by (nonlinear_arith)
        requires
            pixels == width * height,
    ;
    let wrapped_pixels = pixels % range;
    lemma_mod_bound(pixels, range);
    lemma_add_mod_noop_right(words as int, pixels, range);
    if pixels + words < range {
        lemma_small_mod((pixels + words) as nat, range as nat);
    }
    if wrapped_pixels + words < range {
        lemma_small_mod((wrapped_pixels + words) as nat, range as nat);
    } else {
        lemma_small_mod((wrapped_pixels + words - range) as nat, range as nat);
        lemma_mod_add_multiples_vanish(wrapped_pixels + words - range, range);
    }
}

impl Content {
    /// The length by which it is decided whether the content is sent at all, and whether it is
    /// compressed: the bytes of a text, or the pixels of an image and two machine words.
    pub open spec fn len(self) -> usize {
        match self {
            Content::Text(text) => encode_utf8(text).len() as usize,
            Content::Image { width, height, .. } => wrapped(
                (width * height + 2 * (usize::BITS / 8)) as nat,
            ),
        }
    }

    pub open spec fn kind(self) -> ClipboardKind {
        match self {
            Content::Text(_) => ClipboardKind::Text,
            Content::Image { .. } => ClipboardKind::Image,
        }
    }

    /// The bytes that stand for the content: a text in UTF-8, or the pixels of an image followed
    /// by its width and its height.
    pub open spec fn payload(self) -> Seq<u8> {
        match self {
            Content::Text(text) => encode_utf8(text),
            Content::Image { width, height, bytes } => bytes + le64(width as u64) + le64(
                height as u64,
            ),
        }
    }

    /// A line about the content.
    pub open spec fn description(self) -> Seq<char> {
        match self {
            Content::Text(text) => if encode_utf8(text).len() < MAX_SHOWN_LEN {
                "Text: "@ + text
            } else {
                "Text (omitted, "@ + decimal(encode_utf8(text).len()) + " bytes long)"@
            },
            Content::Image { width, height, .. } => decimal(width as nat) + "x"@ + decimal(
                height as nat,
            ) + " image"@,
        }
    }

    /// The hash by which contents of one kind are told apart.
    pub open spec fn hash(self) -> u64 {
        match self {
            Content::Text(text) => fx_text(text, usize::BITS),
            Content::Image { width, height, bytes } => fx_image(width, height, bytes, usize::BITS),
        }
    }
}

/// Whether two runs of bytes are the same.
fn same_bytes(a: &[u8], b: &[u8]) -> (same: bool)
    ensures
        same == (a@ == b@),
{
    if a.len() != b.len() {
        return false;
    }
    let mut i: usize = 0;
    while i < a.len()
        invariant
            a@.len() == b@.len(),
            i <= a@.len(),
            forall|j: int| 0 <= j < i ==> a@[j] == b@[j],
        decreases a@.len() - i,
    {
        if a[i] != b[i] {
            return false;
        }
        i = i + 1;
    }
    assert(a@ =~= b@);
    true
}

impl ClipboardChange {
    /// The length by which it is decided whether the change is sent at all, and whether it is
    /// compressed. For an image of absurd dimensions it wraps around.
    pub fn len(&self) -> (len: usize)
        ensures
            len == self@.len(),
            match self {
                ClipboardChange::Text(text) => len == encode_utf8(text@).len(),
                ClipboardChange::Image(image) => {
                    let long = image.width * image.height + 2 * (usize::BITS / 8);
                    &&& long <= usize::MAX ==> len == long
                    &&& len == long % (usize::MAX + 1)
                },
            },
    {
        match self {
            ClipboardChange::Text(text) => text.as_str().as_bytes().len(),
            ClipboardChange::Image(image) => {
                let words: usize = 2 * (usize::BITS as usize / 8);
                proof {
                    wrapping_once_is_enough(image.width, image.height, words);
                    let (width, height) = (image.width, image.height);
                    assert(width * height >= 0) by (nonlinear_arith);
                    wrapping_is_taking_the_rest((width * height + words) as nat);
                }
                image.width.wrapping_mul(image.height).wrapping_add(words)
            },
        }
    }

    pub fn is_empty(&self) -> (empty: bool)
        ensures
            empty == (self@.len() == 0),
            match self {
                ClipboardChange::Text(text) => empty == (text@.len() == 0),
                ClipboardChange::Image(image) => {
                    let long = image.width * image.height + 2 * (usize::BITS / 8);
                    &&& long <= usize::MAX ==> !empty
                    &&& empty == (long % (usize::MAX + 1) == 0)
                },
            },
    {
        proof {
            match self {
                ClipboardChange::Text(text) => {
                    a_text_has_bytes_if_it_has_characters(text@);
                },
                ClipboardChange::Image(image) => {
                    let (width, height) = (image.width, image.height);
                    assert(width * height >= 0) by (nonlinear_arith);
                    wrapping_is_taking_the_rest(
                        (width * height + 2 * (usize::BITS / 8)) as nat,
                    );
                },
            }
        }
        self.len() == 0
    }

    pub fn kind(&self) -> (kind: ClipboardKind)
        ensures
            kind == self@.kind(),
            kind is Text <==> self is Text,
            kind is Image <==> self is Image,
    {
        match self {
            ClipboardChange::Text(_) => ClipboardKind::Text,
            ClipboardChange::Image(_) => ClipboardKind::Image,
        }
    }

    /// Appends the bytes that stand for the change.
    pub fn write_all(&self, writer: &mut Vec<u8>)
        ensures
            final(writer)@ == old(writer)@ + self@.payload(),
            match self {
                ClipboardChange::Text(text) => final(writer)@ == old(writer)@ + encode_utf8(text@),
                ClipboardChange::Image(image) => final(writer)@ == old(writer)@ + (image.bytes@
                    + spec_u64_to_le_bytes(image.width as u64) + spec_u64_to_le_bytes(
                    image.height as u64,
                )),
            },
    {
        match self {
            ClipboardChange::Text(text) => {
                put_bytes(writer, text.as_str().as_bytes());
            },
            ClipboardChange::Image(image) => {
                put_bytes(writer, image.bytes.as_slice());
                put_u64_le(writer, image.width as u64);
                put_u64_le(writer, image.height as u64);
            },
        }
        assert(writer@ =~= old(writer)@ + self@.payload());
    }

    /// Whether two changes have the same content.
    pub fn same(&self, other: &Self) -> (same: bool)
        ensures
            same == (self@ == other@),
            same == match (self, other) {
                (ClipboardChange::Text(a), ClipboardChange::Text(b)) => a@ == b@,
                (ClipboardChange::Image(a), ClipboardChange::Image(b)) => a.width == b.width
                    && a.height == b.height && a.bytes@ == b.bytes@,
                _ => false,
            },
    {
        match (self, other) {
            (ClipboardChange::Text(a), ClipboardChange::Text(b)) => *a == *b,
            (ClipboardChange::Image(a), ClipboardChange::Image(b)) => a.width == b.width && a.height
                == b.height && same_bytes(a.bytes.as_slice(), b.bytes.as_slice()),
            _ => false,
        }
    }

    /// A line about the change, for people.
    pub fn to_string(&self) -> (line: String)
        ensures
            line@ == self@.description(),
    {
        let mut line: String = String::new();
        match self {
            ClipboardChange::Text(text) => {
                let len: usize = text.as_str().as_bytes().len();
                if len < MAX_SHOWN_LEN {
                    line.append("Text: ");
                    line.append(text.as_str());
                } else {
                    line.append("Text (omitted, ");
                    push_decimal(&mut line, len);
                    line.append(" bytes long)");
                }
            },
            ClipboardChange::Image(image) => {
                push_decimal(&mut line, image.width);
                line.append("x");
                push_decimal(&mut line, image.height);
                line.append(" image");
            },
        }
        assert(line@ =~= self@.description());
        line
    }
}

impl Clone for ClipboardChange {
    fn clone(&self) -> (change: Self)
        ensures
            change@ == self@,
            match (self, change) {
                (ClipboardChange::Text(a), ClipboardChange::Text(b)) => a@ == b@,
                (ClipboardChange::Image(a), ClipboardChange::Image(b)) => a.width == b.width
                    && a.height == b.height && a.bytes@ == b.bytes@,
                _ => false,
            },
    {
        match self {
            ClipboardChange::Text(text) => ClipboardChange::Text(text.clone()),
            ClipboardChange::Image(image) => ClipboardChange::Image(
                ImageData {
                    width: image.width,
                    height: image.height,
                    bytes: vstd::slice::slice_to_vec(image.bytes.as_slice()),
                },
            ),
        }
    }
}

impl PartialEq for ClipboardChange {
    fn eq(&self, other: &Self) -> (same: bool) {
        self.same(other)
    }
}

impl vstd::std_specs::cmp::PartialEqSpecImpl for ClipboardChange {
    open spec fn obeys_eq_spec() -> bool {
        true
    }

    open spec fn eq_spec(&self, other: &Self) -> bool {
        self@ == other@
    }
}

/// The hash of a change.
pub fn hash(change: &ClipboardChange) -> (hash: u64)
    ensures
        hash == change@.hash(),
        match change {
            ClipboardChange::Text(text) => hash == fx_text(text@, usize::BITS),
            ClipboardChange::Image(image) => hash == fx_image(
                image.width,
                image.height,
                image.bytes@,
                usize::BITS,
            ),
        },
{
    match change {
        ClipboardChange::Text(text) => fx_hash_text(text.as_str()),
        ClipboardChange::Image(image) => fx_hash_image(
            image.width,
            image.height,
            image.bytes.as_slice(),
        ),
    }
}

/// What a look at the clipboard finds of a kind.
#[derive(Debug)]
pub enum Sight<T> {
    /// A content of the kind.
    Shown(T),
    /// There is none.
    Absent,
    /// There may be one, but it could not be read.
    Unread,
}

impl<T> Sight<T> {
    /// The content, if one is shown.
    pub open spec fn shown(self) -> Option<T> {
        match self {
            Sight::Shown(content) => Some(content),
            Sight::Absent => None,
            Sight::Unread => None,
        }
    }
}

/// The hash of the latest known content of each kind that the clipboard holds.
pub struct ClipboardHashes {
    slots: HashSlots,
}

/// The hash of the latest known content of each kind that the clipboard holds, as mathematical
/// data.
pub struct Known {
    pub text: Option<u64>,
    pub image: Option<u64>,
}

impl Known {
    /// The hash of the latest known content of a kind.
    pub open spec fn of(self, kind: ClipboardKind) -> Option<u64> {
        match kind {
            ClipboardKind::Text => self.text,
            ClipboardKind::Image => self.image,
        }
    }

    /// Nothing known.
    pub open spec fn nothing() -> Known {
        Known { text: None, image: None }
    }

    /// What is known once a content has been noted.
    pub open spec fn note(self, content: Content) -> Known {
        match content.kind() {
            ClipboardKind::Text => Known { text: Some(content.hash()), ..self },
            ClipboardKind::Image => Known { image: Some(content.hash()), ..self },
        }
    }

    /// What is known once a content has been noted, if there is one.
    pub open spec fn note_any(self, content: Option<Content>) -> Known {
        match content {
            Some(content) => self.note(content),
            None => self,
        }
    }

    /// Whether a content is the latest known one of its kind.
    pub open spec fn has(self, content: Content) -> bool {
        self.of(content.kind()) == Some(content.hash())
    }

    /// What is known once the kinds that are not to be kept have been forgotten.
    pub open spec fn keep(self, text: bool, image: bool) -> Known {
        Known {
            text: if text {
                self.text
            } else {
                None
            },
            image: if image {
                self.image
            } else {
                None
            },
        }
    }

    /// Whether a content differs from the latest known one of its kind.
    pub open spec fn is_news(self, content: Content) -> bool {
        !self.has(content)
    }

    /// The change that a clipboard shows: its text if that is news, or else its image.
    pub open spec fn change(
        self,
        text: Option<Content>,
        image: Option<Content>,
    ) -> Option<Content> {
        match (text, image) {
            (Some(text), _) if self.is_news(text) => Some(text),
            (_, Some(image)) if self.is_news(image) => Some(image),
            _ => None,
        }
    }

    /// What is known after a look at the clipboard. A change that it shows is noted. A kind that
    /// is not there next to the change has been replaced by it, and its content would be news
    /// again. A kind that could not be read may still be there.
    pub open spec fn look(self, text: Sight<Content>, image: Sight<Content>) -> Known {
        match self.change(text.shown(), image.shown()) {
            Some(content) => self.keep(text !is Absent, image !is Absent).note(content),
            None => self,
        }
    }

    /// What is known once the clipboard has been set to a content of a kind, which has replaced
    /// all that it held.
    pub open spec fn set_to(self, kind: ClipboardKind) -> Known {
        self.keep(kind is Text, kind is Image)
    }
}

impl View for ClipboardHashes {
    type V = Known;

    closed spec fn view(&self) -> Known {
        Known { text: slot_contents(self.slots)[false], image: slot_contents(self.slots)[true] }
    }
}

impl ClipboardHashes {
    /// Nothing known yet.
    pub fn new() -> (hashes: Self)
        ensures
            hashes@ == Known::nothing(),
    {
        ClipboardHashes { slots: HashSlots::empty() }
    }

    /// The hash of the latest known content of a kind.
    pub fn get(&self, kind: ClipboardKind) -> (hash: Option<u64>)
        ensures
            hash == self@.of(kind),
            kind is Text ==> hash == self@.text,
            kind is Image ==> hash == self@.image,
    {
        match kind {
            ClipboardKind::Text => self.slots.get(false),
            ClipboardKind::Image => self.slots.get(true),
        }
    }

    /// Whether a change differs from the latest known content of its kind.
    pub fn is_news(&self, change: &ClipboardChange) -> (news: bool)
        ensures
            news == self@.is_news(change@),
            match change {
                ClipboardChange::Text(text) => news == (self@.text != Some(
                    fx_text(text@, usize::BITS),
                )),
                ClipboardChange::Image(image) => news == (self@.image != Some(
                    fx_image(image.width, image.height, image.bytes@, usize::BITS),
                )),
            },
    {
        match self.get(change.kind()) {
            Some(known) => known != hash(change),
            None => true,
        }
    }

    /// Forgets the kinds that are not to be kept.
    pub fn keep(&mut self, text: bool, image: bool)
        ensures
            final(self)@ == old(self)@.keep(text, image),
    {
        if !text {
            self.slots.set(false, None);
        }
        if !image {
            self.slots.set(true, None);
        }
    }
}

/// Notes the hash of a change as the latest of its kind.
pub fn store_hash(hashes: &mut ClipboardHashes, change: Option<&ClipboardChange>)
    ensures
        final(hashes)@ == old(hashes)@.note_any(
            match change {
                Some(change) => Some(change@),
                None => None,
            },
        ),
        match change {
            Some(ClipboardChange::Text(text)) => final(hashes)@.text == Some(
                fx_text(text@, usize::BITS),
            ) && final(hashes)@.image == old(hashes)@.image,
            Some(ClipboardChange::Image(image)) => final(hashes)@.image == Some(
                fx_image(image.width, image.height, image.bytes@, usize::BITS),
            ) && final(hashes)@.text == old(hashes)@.text,
            None => final(hashes)@ == old(hashes)@,
        },
{
    if let Some(change) = change {
        let hash: u64 = hash(change);
        match change.kind() {
            ClipboardKind::Text => hashes.slots.set(false, Some(hash)),
            ClipboardKind::Image => hashes.slots.set(true, Some(hash)),
        }
    }
}

/// Why a clipboard could not be read.
#[derive(Debug)]
pub enum BoardError {
    /// There is nothing of the kind that was asked for.
    ContentNotAvailable,
    /// Another program holds the clipboard.
    ClipboardOccupied,
    /// The contents are not of the form that their kind says.
    ConversionFailure,
    /// Something went wrong.
    Unknown { description: String },
    /// There is no such clipboard here.
    ClipboardNotSupported,
    /// Anything else.
    Other { description: String },
}

impl BoardError {
    /// Whether the clipboard may be readable later.
    pub open spec fn passes(self) -> bool {
        match self {
            BoardError::ContentNotAvailable => true,
            BoardError::ClipboardOccupied => true,
            BoardError::ConversionFailure => true,
            BoardError::Unknown { .. } => true,
            BoardError::ClipboardNotSupported => false,
            BoardError::Other { .. } => false,
        }
    }
}

/// Drops an error after which the clipboard may be readable later, and hands on any other.
pub fn handle_err(error: BoardError) -> (res: Option<BoardError>)
    ensures
        res == if error.passes() {
            None
        } else {
            Some(error)
        },
{
    match error {
        BoardError::ContentNotAvailable => None,
        BoardError::ClipboardOccupied => None,
        BoardError::ConversionFailure => None,
        BoardError::Unknown { .. } => None,
        e => Some(e),
    }
}

/// The text that a clipboard has, as reading it went. An empty text is none: clearing a clipboard
/// is not worth telling anyone.
pub fn get_text(read: Result<String, BoardError>) -> (res: Result<Option<String>, BoardError>)
    ensures
        match read {
            Ok(text) => res == Ok::<_, BoardError>(
                if text@.len() == 0 {
                    None
                } else {
                    Some(text)
                },
            ),
            Err(e) => if e.passes() {
                res matches Ok(None)
            } else {
                res == Err::<Option<String>, _>(e)
            },
        },
{
    match read {
        Ok(text) => if text.as_str().is_empty() {
            Ok(None)
        } else {
            Ok(Some(text))
        },
        Err(e) => match handle_err(e) {
            Some(e) => Err(e),
            None => Ok(None),
        },
    }
}

/// The image that a clipboard has, as reading it went.
pub fn get_image(read: Result<ImageData, BoardError>) -> (res: Result<
    Option<ImageData>,
    BoardError,
>)
    ensures
        match read {
            Ok(image) => res == Ok::<_, BoardError>(Some(image)),
            Err(e) => if e.passes() {
                res matches Ok(None)
            } else {
                res == Err::<Option<ImageData>, _>(e)
            },
        },
{
    match read {
        Ok(image) => Ok(Some(image)),
        Err(e) => match handle_err(e) {
            Some(e) => Err(e),
            None => Ok(None),
        },
    }
}

/// What a look at the text of a clipboard finds, as reading it went. An empty text is none.
pub fn see_text(read: Result<String, BoardError>) -> (res: Result<Sight<String>, BoardError>)
    ensures
        match read {
            Ok(text) => res == Ok::<_, BoardError>(
                if text@.len() == 0 {
                    Sight::Absent
                } else {
                    Sight::Shown(text)
                },
            ),
            Err(BoardError::ContentNotAvailable) => res == Ok::<_, BoardError>(
                Sight::<String>::Absent,
            ),
            Err(e) => if e.passes() {
                res == Ok::<_, BoardError>(Sight::<String>::Unread)
            } else {
                res == Err::<Sight<String>, _>(e)
            },
        },
{
    match read {
        Ok(text) => if text.as_str().is_empty() {
            Ok(Sight::Absent)
        } else {
            Ok(Sight::Shown(text))
        },
        Err(BoardError::ContentNotAvailable) => Ok(Sight::Absent),
        Err(e) => match handle_err(e) {
            Some(e) => Err(e),
            None => Ok(Sight::Unread),
        },
    }
}

/// What a look at the image of a clipboard finds, as reading it went.
pub fn see_image(read: Result<ImageData, BoardError>) -> (res: Result<
    Sight<ImageData>,
    BoardError,
>)
    ensures
        match read {
            Ok(image) => res == Ok::<_, BoardError>(Sight::Shown(image)),
            Err(BoardError::ContentNotAvailable) => res == Ok::<_, BoardError>(
                Sight::<ImageData>::Absent,
            ),
            Err(e) => if e.passes() {
                res == Ok::<_, BoardError>(Sight::<ImageData>::Unread)
            } else {
                res == Err::<Sight<ImageData>, _>(e)
            },
        },
{
    match read {
        Ok(image) => Ok(Sight::Shown(image)),
        Err(BoardError::ContentNotAvailable) => Ok(Sight::Absent),
        Err(e) => match handle_err(e) {
            Some(e) => Err(e),
            None => Ok(Sight::Unread),
        },
    }
}

/// What a look finds of the text, as mathematical data.
pub open spec fn text_sight(text: Sight<String>) -> Sight<Content> {
    match text {
        Sight::Shown(text) => Sight::Shown(Content::Text(text@)),
        Sight::Absent => Sight::Absent,
        Sight::Unread => Sight::Unread,
    }
}

/// What a look finds of the image, as mathematical data.
pub open spec fn image_sight(image: Sight<ImageData>) -> Sight<Content> {
    match image {
        Sight::Shown(image) => Sight::Shown(image@),
        Sight::Absent => Sight::Absent,
        Sight::Unread => Sight::Unread,
    }
}

/// The content of a text, if there is one.
pub open spec fn text_content(text: Option<String>) -> Option<Content> {
    match text {
        Some(text) => Some(Content::Text(text@)),
        None => None,
    }
}

/// The content of an image, if there is one.
pub open spec fn image_content(image: Option<ImageData>) -> Option<Content> {
    match image {
        Some(image) => Some(image@),
        None => None,
    }
}

/// The local clipboard, watched for changes: with a listener that tells of them, or by looking at
/// it again and again.
pub struct Clipboard {
    listening: bool,
    poll_interval: u64,
}

/// What happened while a clipboard was watched.
pub enum ClipboardEvent {
    /// Nothing yet.
    Start,
    /// The listener told of a change.
    Changed,
    /// The listener failed.
    ListenerFailed,
    /// The listener had nothing to tell for too long.
    TimedOut,
    /// The time to wait is over.
    Slept,
    /// What the clipboard holds, and whether it was only looked at to be on the safe side.
    Seen { from_polling: bool, text: Sight<String>, image: Sight<ImageData> },
}

/// What to do next to watch a clipboard.
pub enum ClipboardAction {
    /// Wait for the listener, so many milliseconds at most.
    Listen { timeout: u64 },
    /// Wait so many milliseconds.
    Sleep { duration: u64 },
    /// See what the clipboard holds.
    Look { from_polling: bool },
    /// Tell of a change, which the listener should have told of if `from_polling`.
    Report { from_polling: bool, change: ClipboardChange },
}

impl Clipboard {
    pub closed spec fn spec_listening(&self) -> bool {
        self.listening
    }

    pub closed spec fn spec_poll_interval(&self) -> u64 {
        self.poll_interval
    }

    /// How to wait for something to happen.
    pub open spec fn waiting(&self) -> ClipboardAction {
        if self.spec_listening() {
            ClipboardAction::Listen { timeout: self.spec_poll_interval() }
        } else {
            ClipboardAction::Sleep { duration: self.spec_poll_interval() }
        }
    }

    /// The local clipboard, with a listener or without, and with the time in milliseconds after
    /// which to look at it anyway.
    pub fn new(listening: bool, poll_interval: u64) -> (clipboard: Self)
        ensures
            clipboard.spec_listening() == listening,
            clipboard.spec_poll_interval() == poll_interval,
    {
        Clipboard { listening, poll_interval }
    }

    fn wait(&self) -> (action: ClipboardAction)
        ensures
            action == self.waiting(),
    {
        if self.listening {
            ClipboardAction::Listen { timeout: self.poll_interval }
        } else {
            ClipboardAction::Sleep { duration: self.poll_interval }
        }
    }

    /// Watches the clipboard until it holds something new.
    pub fn listen_for_change(&self, hashes: &mut ClipboardHashes, event: ClipboardEvent) -> (action:
        ClipboardAction)
        ensures
            match event {
                ClipboardEvent::Start => action == self.waiting() && final(hashes)@ == old(hashes)@,
                ClipboardEvent::ListenerFailed => action == self.waiting() && final(hashes)@ == old(
                    hashes,
                )@,
                ClipboardEvent::Changed => action == (ClipboardAction::Look { from_polling: false })
                    && final(hashes)@ == old(hashes)@,
                ClipboardEvent::TimedOut => action == (ClipboardAction::Look { from_polling: true })
                    && final(hashes)@ == old(hashes)@,
                ClipboardEvent::Slept => action == (ClipboardAction::Look { from_polling: false })
                    && final(hashes)@ == old(hashes)@,
                ClipboardEvent::Seen { from_polling, text, image } => {
                    let change = old(hashes)@.change(
                        text_sight(text).shown(),
                        image_sight(image).shown(),
                    );
                    &&& final(hashes)@ == old(hashes)@.look(text_sight(text), image_sight(image))
                    &&& match change {
                        Some(content) => action matches ClipboardAction::Report {
                            from_polling: reported,
                            change,
                        } && change@ == content && reported == from_polling,
                        None => action == self.waiting(),
                    }
                },
            },
            event matches ClipboardEvent::Seen { from_polling, text: Sight::Shown(text), .. } ==> {
                old(hashes)@.text != Some(fx_text(text@, usize::BITS)) ==> (
                action matches ClipboardAction::Report {
                    from_polling: reported,
                    change: ClipboardChange::Text(change),
                } && change@ == text@ && reported == from_polling)
            },
            event matches ClipboardEvent::Seen { from_polling, text, image: Sight::Shown(image) }
                ==> {
                !(text is Shown) && old(hashes)@.image != Some(
                    fx_image(image.width, image.height, image.bytes@, usize::BITS),
                ) ==> (action matches ClipboardAction::Report {
                    from_polling: reported,
                    change: ClipboardChange::Image(change),
                } && change.width == image.width && change.height == image.height && change.bytes@
                    == image.bytes@ && reported == from_polling)
            },
            action is Report ==> event is Seen,
    {
        match event {
            ClipboardEvent::Start => self.wait(),
            ClipboardEvent::ListenerFailed => self.wait(),
            ClipboardEvent::Changed => ClipboardAction::Look { from_polling: false },
            ClipboardEvent::TimedOut => ClipboardAction::Look { from_polling: true },
            ClipboardEvent::Slept => ClipboardAction::Look { from_polling: false },
            ClipboardEvent::Seen { from_polling, text, image } => {
                let keep_text: bool = match &text {
                    Sight::Absent => false,
                    _ => true,
                };
                let keep_image: bool = match &image {
                    Sight::Absent => false,
                    _ => true,
                };
                if let Sight::Shown(text) = text {
                    let change = ClipboardChange::Text(text);
                    if hashes.is_news(&change) {
                        hashes.keep(keep_text, keep_image);
                        store_hash(hashes, Some(&change));
                        return ClipboardAction::Report { from_polling, change };
                    }
                }
                if let Sight::Shown(image) = image {
                    let change = ClipboardChange::Image(image);
                    if hashes.is_news(&change) {
                        hashes.keep(keep_text, keep_image);
                        store_hash(hashes, Some(&change));
                        return ClipboardAction::Report { from_polling, change };
                    }
                }
                self.wait()
            },
        }
    }
}

/// A clipboard that has been noted is not reported, whatever else there is.
pub proof fn noted_content_is_not_reported(
    known: Known,
    content: Content,
    text: Option<Content>,
    image: Option<Content>,
)
    ensures
        known.note(content).change(text, image) != Some(content),
{
}

/// Whether a look shows a content, in the place of its kind.
pub open spec fn shows(text: Sight<Content>, image: Sight<Content>, content: Content) -> bool {
    match content.kind() {
        ClipboardKind::Text => text == Sight::Shown(content),
        ClipboardKind::Image => image == Sight::Shown(content),
    }
}

/// Whether what a look shows is in the place of its kind.
pub open spec fn in_place(text: Sight<Content>, image: Sight<Content>) -> bool {
    &&& text matches Sight::Shown(content) ==> content is Text
    &&& image matches Sight::Shown(content) ==> content is Image
}

/// A known content is not reported at a look. It is known after the look, if the look shows it, or
/// could not read its kind, or reports nothing; unless another content of its kind was reported.
pub proof fn known_content_stays_known(
    known: Known,
    content: Content,
    text: Sight<Content>,
    image: Sight<Content>,
)
    requires
        in_place(text, image),
    ensures
        known.has(content) ==> {
            let change = known.change(text.shown(), image.shown());
            let unread = match content.kind() {
                ClipboardKind::Text => text is Unread,
                ClipboardKind::Image => image is Unread,
            };
            &&& change != Some(content)
            &&& shows(text, image, content) || unread || change is None ==> {
                ||| known.look(text, image).has(content)
                ||| change matches Some(other) && other.kind() == content.kind() && other != content
            }
        },
{
}

/// Whether a content is never reported at a number of looks, one after the other.
pub open spec fn never_reported(
    known: Known,
    content: Content,
    looks: Seq<(Sight<Content>, Sight<Content>)>,
) -> bool
    decreases looks.len(),
{
    looks.len() > 0 ==> {
        let (text, image) = looks[0];
        &&& known.change(text.shown(), image.shown()) != Some(content)
        &&& never_reported(known.look(text, image), content, looks.skip(1))
    }
}

/// A known content is never reported as long as the clipboard holds it: neither one that has been
/// reported, nor one that has been received and set. At some of the looks it may be unreadable.
pub proof fn known_content_is_never_reported(
    known: Known,
    content: Content,
    looks: Seq<(Sight<Content>, Sight<Content>)>,
)
    requires
        forall|i: int|
            0 <= i < looks.len() ==> {
                let (text, image) = #[trigger] looks[i];
                &&& in_place(text, image)
                &&& shows(text, image, content) || match content.kind() {
                    ClipboardKind::Text => text is Unread,
                    ClipboardKind::Image => image is Unread,
                }
            },
    ensures
        known.has(content) ==> never_reported(known, content, looks),
    decreases looks.len(),
{
    if looks.len() > 0 && known.has(content) {
        let (text, image) = looks[0];
        let others = looks.skip(1);
        known_content_stays_known(known, content, text, image);
        assert forall|i: int| 0 <= i < others.len() implies {
            let (text, image) = #[trigger] others[i];
            &&& in_place(text, image)
            &&& shows(text, image, content) || match content.kind() {
                ClipboardKind::Text => text is Unread,
                ClipboardKind::Image => image is Unread,
            }
        } by {
            assert(others[i] == looks[i + 1]);
        }
        known_content_is_never_reported(known.look(text, image), content, others);
    }
}

/// What has been reported is known, and is not reported at the next look, whatever that shows.
pub proof fn nothing_is_reported_twice(
    known: Known,
    text: Sight<Content>,
    image: Sight<Content>,
    next_text: Sight<Content>,
    next_image: Sight<Content>,
)
    ensures
        known.change(text.shown(), image.shown()) matches Some(content) ==> known.look(
            text,
            image,
        ).has(content) && known.look(text, image).change(next_text.shown(), next_image.shown())
            != Some(content),
{
}

/// What is reported is there and is news, and a text that is news comes before the image. Nothing
/// is reported only if nothing is news.
pub proof fn reported_change_is_news(known: Known, text: Option<Content>, image: Option<Content>)
    ensures
        known.change(text, image) matches Some(content) ==> known.is_news(content) && (Some(content)
            == text || Some(content) == image),
        text matches Some(content) ==> (known.is_news(content) ==> known.change(text, image)
            == Some(content)),
        known.change(text, image) is None ==> (text matches Some(content) ==> !known.is_news(
            content,
        )) && (image matches Some(content) ==> !known.is_news(content)),
{
}

/// Where a text and an image are both news, the text is reported first and the image next, and
/// then nothing more as long as the clipboard shows them both.
pub proof fn image_follows_text(known: Known, text: Content, image: Content)
    requires
        text is Text,
        image is Image,
    ensures
        known.is_news(text) && known.is_news(image) ==> {
            let once = known.look(Sight::Shown(text), Sight::Shown(image));
            let twice = once.look(Sight::Shown(text), Sight::Shown(image));
            &&& known.change(Some(text), Some(image)) == Some(text)
            &&& once.change(Some(text), Some(image)) == Some(image)
            &&& twice.change(Some(text), Some(image)) is None
        },
{
}

/// What has been replaced is news when it is copied again: any text, once an image has been
/// reported at a look without a text, and any image, once a text has been reported at a look
/// without an image. What could not be read at the look is not taken to be replaced.
pub proof fn replaced_content_is_news_again(known: Known, text: Content, image: Content)
    requires
        text is Text,
        image is Image,
    ensures
        known.is_news(image) ==> known.look(Sight::Absent, Sight::Shown(image)).is_news(text),
        known.is_news(text) ==> known.look(Sight::Shown(text), Sight::Absent).is_news(image),
        known.has(text) ==> known.look(Sight::Unread, Sight::Shown(image)).has(text),
        known.has(image) ==> known.look(Sight::Shown(text), Sight::Unread).has(image),
{
}

/// Once a content has been reported at a look that showed nothing else, or the clipboard has been
/// set to it, the next that is copied in its place is reported, unless it is of the same kind and
/// hash.
pub proof fn what_was_copied_last_is_reported(known: Known, before: Content, copied: Content)
    ensures
        ({
            let text = if copied is Text {
                Some(copied)
            } else {
                None
            };
            let image = if copied is Image {
                Some(copied)
            } else {
                None
            };
            let set = known.note(before).set_to(before.kind());
            let reported = if before is Text {
                known.look(Sight::Shown(before), Sight::Absent)
            } else {
                known.look(Sight::Absent, Sight::Shown(before))
            };
            let differs = before.kind() != copied.kind() || before.hash() != copied.hash();
            &&& differs ==> set.change(text, image) == Some(copied)
            &&& differs && known.is_news(before) ==> reported.change(text, image) == Some(copied)
        }),
{
}

/// A counter that moves whenever the clipboard changes, as it was last seen.
pub struct ChangeCount {
    count: i64,
}

impl View for ChangeCount {
    type V = i64;

    closed spec fn view(&self) -> i64 {
        self.count
    }
}

impl ChangeCount {
    pub fn new(count: i64) -> (this: Self)
        ensures
            this@ == count,
    {
        ChangeCount { count }
    }

    /// Whether the counter has moved since it was last seen.
    pub fn moved(&mut self, new_count: i64) -> (moved: bool)
        ensures
            moved == (new_count != old(self)@),
            final(self)@ == new_count,
    {
        let moved: bool = new_count != self.count;
        self.count = new_count;
        moved
    }
}

} // verus!
