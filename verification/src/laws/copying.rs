//! What is copied, and what is reported of it.

use crate::cli::value_of;
use crate::clipboard::{
    image_content, image_sight, text_content, text_sight, wrapping_is_taking_the_rest, BoardError,
    Clipboard, ClipboardAction, ClipboardChange, ClipboardKind, Content, ImageData, Known, Sight,
};
use crate::decimal::decimal;
use crate::laws::numbers::{all_digits, numbers_are_spelled_in_decimal};
use crate::outside::fingerprint::{fx_image, fx_text};
use vstd::prelude::*;
use vstd::utf8::encode_utf8;

verus! {

/// Changes with the same content agree in everything that was copied.
pub proof fn contents_leave_nothing_out(a: ClipboardChange, b: ClipboardChange)
    ensures
        a@ == b@ <==> match (a, b) {
            (ClipboardChange::Text(a), ClipboardChange::Text(b)) => a@ == b@,
            (ClipboardChange::Image(a), ClipboardChange::Image(b)) => a.width == b.width && a.height
                == b.height && a.bytes@ == b.bytes@,
            _ => false,
        },
{
}

/// Images with the same content agree in their dimensions and in all their pixels.
pub proof fn images_leave_nothing_out(a: ImageData, b: ImageData)
    ensures
        a@ == b@ <==> a.width == b.width && a.height == b.height && a.bytes@ == b.bytes@,
        ClipboardChange::Image(a)@ == a@,
{
}

/// The content of a text is its characters, and a look or a first read that finds a text or an
/// image finds the whole of it.
pub proof fn what_is_found_is_the_whole(text: String, image: ImageData)
    ensures
        ClipboardChange::Text(text)@ == Content::Text(text@),
        text_content(Some(text)) == Some(Content::Text(text@)),
        text_content(None) is None,
        image_content(Some(image)) == Some(ClipboardChange::Image(image)@),
        image_content(None) is None,
        text_sight(Sight::Shown(text)) == Sight::Shown(Content::Text(text@)),
        text_sight(Sight::Absent) is Absent,
        text_sight(Sight::Unread) is Unread,
        image_sight(Sight::Shown(image)) == Sight::Shown(ClipboardChange::Image(image)@),
        image_sight(Sight::Absent) is Absent,
        image_sight(Sight::Unread) is Unread,
        text_sight(Sight::Shown(text)).shown() == Some(Content::Text(text@)),
        image_sight(Sight::Shown(image)).shown() == Some(ClipboardChange::Image(image)@),
        text_sight(Sight::Absent).shown() is None,
        text_sight(Sight::Unread).shown() is None,
        image_sight(Sight::Absent).shown() is None,
        image_sight(Sight::Unread).shown() is None,
{
}

/// A text has bytes if and only if it has characters.
pub proof fn a_text_has_bytes_if_it_has_characters(text: Seq<char>)
    ensures
        encode_utf8(text).len() == 0 <==> text.len() == 0,
        encode_utf8(text).len() >= text.len(),
    decreases text.len(),
{
    if text.len() > 0 {
        a_text_has_bytes_if_it_has_characters(text.drop_first());
    }
}

/// The length of a text is its number of bytes, so that it is empty if and only if it has no
/// characters. An image is never empty, short of dimensions that no machine holds: its length
/// grows with its pixels, until it wraps around.
pub proof fn lengths_are_what_they_should_be(
    text: Seq<char>,
    width: usize,
    height: usize,
    bytes: Seq<u8>,
)
    ensures
        encode_utf8(text).len() <= usize::MAX ==> Content::Text(text).len() == encode_utf8(
            text,
        ).len(),
        encode_utf8(text).len() <= usize::MAX ==> (Content::Text(text).len() == 0 <==> text.len()
            == 0),
        width * height + 2 * (usize::BITS / 8) <= usize::MAX ==> (Content::Image {
            width,
            height,
            bytes,
        }).len() == width * height + 2 * (usize::BITS / 8),
        width * height + 2 * (usize::BITS / 8) <= usize::MAX ==> (Content::Image {
            width,
            height,
            bytes,
        }).len() > 0,
        (Content::Image { width, height, bytes }).len() == (width * height + 2 * (usize::BITS / 8))
            % (usize::MAX + 1),
{
    a_text_has_bytes_if_it_has_characters(text);
    assert(width * height >= 0) by (nonlinear_arith);
    wrapping_is_taking_the_rest((width * height + 2 * (usize::BITS / 8)) as nat);
}

/// A text is of the kind of texts, and an image of that of images.
pub proof fn kinds_are_those_of_the_contents(content: Content)
    ensures
        content.kind() is Text <==> content is Text,
        content.kind() is Image <==> content is Image,
{
}

/// The hash of a text is the Fx hash of all its characters; that of an image is the Fx hash of its
/// width, its height and all its bytes.
pub proof fn hashes_cover_the_whole(text: Seq<char>, width: usize, height: usize, bytes: Seq<u8>)
    ensures
        Content::Text(text).hash() == fx_text(text, usize::BITS),
        (Content::Image { width, height, bytes }).hash() == fx_image(
            width,
            height,
            bytes,
            usize::BITS,
        ),
{
}

/// A text on the clipboard is reported if and only if the Fx hash of the whole text is not the one
/// that is known; whatever is there next to it.
pub proof fn a_text_is_reported_unless_it_is_known(
    known: Known,
    text: Seq<char>,
    image: Option<Content>,
)
    requires
        image matches Some(content) ==> content is Image,
    ensures
        known.change(Some(Content::Text(text)), image) == Some(Content::Text(text)) <==> known.text
            != Some(fx_text(text, usize::BITS)),
        known.text == Some(fx_text(text, usize::BITS)) ==> known.change(
            Some(Content::Text(text)),
            image,
        ) == known.change(None, image),
        known.change(None, None) is None,
{
}

/// An image on the clipboard, without a text that is news, is reported if and only if the Fx hash
/// of its dimensions and all its pixels is not the one that is known.
pub proof fn an_image_is_reported_unless_it_is_known(
    known: Known,
    width: usize,
    height: usize,
    bytes: Seq<u8>,
)
    ensures
        ({
            let image = Content::Image { width, height, bytes };
            known.change(None, Some(image)) == if known.image == Some(
                fx_image(width, height, bytes, usize::BITS),
            ) {
                None
            } else {
                Some(image)
            }
        }),
{
}

/// What a look leaves known: the hash of what it reported, and of the other kind what was known
/// before, unless that kind is not there any more. A look that reports nothing changes nothing.
pub proof fn a_look_notes_what_it_reports(
    known: Known,
    text: Sight<Content>,
    image: Sight<Content>,
)
    requires
        text matches Sight::Shown(content) ==> content is Text,
        image matches Sight::Shown(content) ==> content is Image,
    ensures
        ({
            let after = known.look(text, image);
            match known.change(text.shown(), image.shown()) {
                Some(Content::Text(text)) => {
                    &&& after.text == Some(fx_text(text, usize::BITS))
                    &&& after.image == if image is Absent {
                        None
                    } else {
                        known.image
                    }
                },
                Some(Content::Image { width, height, bytes }) => {
                    &&& after.image == Some(fx_image(width, height, bytes, usize::BITS))
                    &&& after.text == if text is Absent {
                        None
                    } else {
                        known.text
                    }
                },
                None => after == known,
            }
        }),
{
}

/// Two texts, or two images, that the Fx hash tells apart are news to each other: when one is on
/// the clipboard after the other, it is reported.
pub proof fn what_the_hash_tells_apart_is_news(
    known: Known,
    first: Content,
    second: Content,
)
    ensures
        match (first, second) {
            (Content::Text(a), Content::Text(b)) => fx_text(a, usize::BITS) != fx_text(
                b,
                usize::BITS,
            ) ==> {
                &&& known.look(Sight::Shown(first), Sight::Absent).change(Some(second), None)
                    == Some(second)
                &&& known.note(first).change(Some(second), None) == Some(second)
            },
            (
                Content::Image { width: w, height: h, bytes: a },
                Content::Image { width: v, height: g, bytes: b },
            ) => fx_image(w, h, a, usize::BITS) != fx_image(v, g, b, usize::BITS) ==> {
                &&& known.look(Sight::Absent, Sight::Shown(first)).change(None, Some(second))
                    == Some(second)
                &&& known.note(first).change(None, Some(second)) == Some(second)
            },
            _ => true,
        },
{
}

/// Noting a content replaces the hash of its kind by that of the whole content, and leaves the
/// other kind alone; keeping and setting forget exactly the kinds that they should.
pub proof fn noting_and_forgetting(
    known: Known,
    text: Seq<char>,
    width: usize,
    height: usize,
    bytes: Seq<u8>,
)
    ensures
        known.note(Content::Text(text)) == (Known {
            text: Some(fx_text(text, usize::BITS)),
            image: known.image,
        }),
        known.note(Content::Image { width, height, bytes }) == (Known {
            text: known.text,
            image: Some(fx_image(width, height, bytes, usize::BITS)),
        }),
        known.note_any(Some(Content::Text(text))) == known.note(Content::Text(text)),
        known.note_any(Some(Content::Image { width, height, bytes })) == known.note(
            Content::Image { width, height, bytes },
        ),
        known.note_any(None) == known,
        known.keep(true, true) == known,
        known.keep(true, false) == (Known { text: known.text, image: None }),
        known.keep(false, true) == (Known { text: None, image: known.image }),
        known.set_to(ClipboardKind::Text) == (Known { text: known.text, image: None }),
        known.set_to(ClipboardKind::Image) == (Known { text: None, image: known.image }),
        Known::nothing() == (Known { text: None, image: None }),
        known.of(ClipboardKind::Text) == known.text,
        known.of(ClipboardKind::Image) == known.image,
        known.has(Content::Text(text)) <==> known.text == Some(fx_text(text, usize::BITS)),
        known.has(Content::Image { width, height, bytes }) <==> known.image == Some(
            fx_image(width, height, bytes, usize::BITS),
        ),
        known.is_news(Content::Text(text)) <==> known.text != Some(fx_text(text, usize::BITS)),
        known.is_news(Content::Image { width, height, bytes }) <==> known.image != Some(
            fx_image(width, height, bytes, usize::BITS),
        ),
{
}

/// Only that there is no such clipboard, or an error that is not known, ends the reading of a
/// clipboard.
pub proof fn only_lasting_errors_end_the_reading(error: BoardError)
    ensures
        error.passes() <==> !(error is ClipboardNotSupported) && !(error is Other),
{
}

/// With a listener, one waits for it, for the poll interval at most; without, one waits for the
/// poll interval.
pub proof fn one_waits_for_the_poll_interval(clipboard: Clipboard)
    ensures
        clipboard.spec_listening() ==> clipboard.waiting() == (ClipboardAction::Listen {
            timeout: clipboard.spec_poll_interval(),
        }),
        !clipboard.spec_listening() ==> clipboard.waiting() == (ClipboardAction::Sleep {
            duration: clipboard.spec_poll_interval(),
        }),
{
}

/// A text of less than a hundred bytes is shown; of any other, its number of bytes is. Of an
/// image, its width and its height are shown.
pub proof fn descriptions_say_what_was_copied(content: Content)
    ensures
        match content {
            Content::Text(text) => if encode_utf8(text).len() < 100 {
                content.description() == seq!['T', 'e', 'x', 't', ':', ' '] + text
            } else {
                exists|n: Seq<char>|
                    #![trigger value_of(n)]
                    all_digits(n) && value_of(n) == encode_utf8(text).len() && content.description()
                        == "Text (omitted, "@ + n + " bytes long)"@
            },
            Content::Image { width, height, .. } => exists|w: Seq<char>, h: Seq<char>|
                #![trigger value_of(w), value_of(h)]
                all_digits(w) && value_of(w) == width && all_digits(h) && value_of(h) == height
                    && content.description() == w + seq!['x'] + h + seq![
                    ' ',
                    'i',
                    'm',
                    'a',
                    'g',
                    'e',
                ],
        },
{
    match content {
        Content::Text(text) => {
            reveal_strlit("Text: ");
            assert("Text: "@ =~= seq!['T', 'e', 'x', 't', ':', ' ']);
            let n = decimal(encode_utf8(text).len());
            numbers_are_spelled_in_decimal(encode_utf8(text).len());
            assert(value_of(n) == encode_utf8(text).len());
        },
        Content::Image { width, height, .. } => {
            reveal_strlit("x");
            reveal_strlit(" image");
            assert("x"@ =~= seq!['x']);
            assert(" image"@ =~= seq![' ', 'i', 'm', 'a', 'g', 'e']);
            let w = decimal(width as nat);
            let h = decimal(height as nat);
            numbers_are_spelled_in_decimal(width as nat);
            numbers_are_spelled_in_decimal(height as nat);
            assert(value_of(w) == width && value_of(h) == height);
        },
    }
}

} // verus!
