//! What the operations on clipboards and on the command line give back for what they are given.

use crate::cli::{
    connect_command, duration_from_millis, log_level, value_of, LogLevel, ParseMillisError,
};
use crate::clipboard::{
    get_image, get_text, handle_err, hash, see_image, see_text, store_hash, BoardError, ChangeCount,
    Clipboard, ClipboardAction, ClipboardChange, ClipboardEvent, ClipboardHashes, ClipboardKind,
    ImageData, Sight,
};
use crate::decimal::decimal;
use crate::laws::copying::descriptions_say_what_was_copied;
use crate::laws::numbers::{
    all_digits, digits_are_read_as_a_number, numbers_are_spelled_in_decimal, only_digits_are_read,
};
use crate::outside::fingerprint::{fx_image, fx_text};
use crate::watch::{board_set, watch_local};
use vstd::bytes::spec_u64_to_le_bytes;
use vstd::prelude::*;
use vstd::utf8::encode_utf8;

verus! {

/// The length of a text, whatever it is, is the number of its bytes; that of an image, the number
/// of its pixels and of the bytes of two machine words, as a machine word holds it.
pub proof fn a_change_is_as_long_as_what_was_copied(change: &ClipboardChange, len: usize)
    ensures
        call_ensures(ClipboardChange::len, (change,), len) ==> match change {
            ClipboardChange::Text(text) => len == encode_utf8(text@).len(),
            ClipboardChange::Image(image) => len == (image.width * image.height + 2 * (usize::BITS
                / 8)) % (usize::MAX + 1),
        },
{
}

/// A text is empty if and only if it has no characters; an image is not, unless its length wraps
/// around to zero.
pub proof fn only_what_has_no_length_is_empty(change: &ClipboardChange, empty: bool)
    ensures
        call_ensures(ClipboardChange::is_empty, (change,), empty) ==> match change {
            ClipboardChange::Text(text) => empty == (text@.len() == 0),
            ClipboardChange::Image(image) => empty == ((image.width * image.height + 2 * (
            usize::BITS / 8)) % (usize::MAX + 1) == 0),
        },
{
}

/// The kind of a text is that of texts, and the kind of an image that of images.
pub proof fn a_change_is_of_its_kind(change: &ClipboardChange, kind: ClipboardKind)
    ensures
        call_ensures(ClipboardChange::kind, (change,), kind) ==> (kind is Text <==> change is Text),
{
}

/// The hash of a text is the Fx hash of all its characters; that of an image, whatever its size,
/// the Fx hash of its width, its height and all its bytes.
pub proof fn a_hash_is_that_of_the_whole_change(change: &ClipboardChange, hashed: u64)
    ensures
        call_ensures(hash, (change,), hashed) ==> hashed == match change {
            ClipboardChange::Text(text) => fx_text(text@, usize::BITS),
            ClipboardChange::Image(image) => fx_image(
                image.width,
                image.height,
                image.bytes@,
                usize::BITS,
            ),
        },
{
}

/// The bytes of a change: a text in UTF-8, or all the bytes of an image, followed by eight for its
/// width and eight for its height, low bytes first.
pub open spec fn bytes_of(change: &ClipboardChange) -> Seq<u8> {
    match change {
        ClipboardChange::Text(text) => encode_utf8(text@),
        ClipboardChange::Image(image) => image.bytes@ + spec_u64_to_le_bytes(image.width as u64)
            + spec_u64_to_le_bytes(image.height as u64),
    }
}

/// Writing a change appends its bytes, all of them and nothing else.
pub proof fn a_change_is_written_whole(change: &ClipboardChange, writer: &mut Vec<u8>)
    ensures
        call_ensures(ClipboardChange::write_all, (change, writer), ()) ==> final(writer)@ == old(
            writer,
        )@ + bytes_of(change),
{
}

/// Two changes are the same if they agree in everything that was copied, and a copy of a change is
/// the same.
pub proof fn a_copy_is_the_same(a: &ClipboardChange, b: ClipboardChange, same: bool)
    ensures
        ({
            let agree = match (a, b) {
                (ClipboardChange::Text(a), ClipboardChange::Text(b)) => a@ == b@,
                (ClipboardChange::Image(a), ClipboardChange::Image(b)) => a.width == b.width
                    && a.height == b.height && a.bytes@ == b.bytes@,
                _ => false,
            };
            &&& call_ensures(ClipboardChange::same, (a, &b), same) ==> same == agree
            &&& call_ensures(ClipboardChange::clone, (a,), b) ==> agree
        }),
{
}

/// The line about a text of less than a hundred bytes shows the text; that about a longer one, the
/// number of its bytes; and that about an image, its width and its height.
pub proof fn a_line_says_what_was_copied(change: &ClipboardChange, line: String)
    ensures
        call_ensures(ClipboardChange::to_string, (change,), line) ==> match change {
            ClipboardChange::Text(text) => if encode_utf8(text@).len() < 100 {
                line@ == seq!['T', 'e', 'x', 't', ':', ' '] + text@
            } else {
                exists|n: Seq<char>|
                    #![trigger value_of(n)]
                    all_digits(n) && value_of(n) == encode_utf8(text@).len() && line@
                        == "Text (omitted, "@ + n + " bytes long)"@
            },
            ClipboardChange::Image(image) => exists|w: Seq<char>, h: Seq<char>|
                #![trigger value_of(w), value_of(h)]
                all_digits(w) && value_of(w) == image.width && all_digits(h) && value_of(h)
                    == image.height && line@ == w + seq!['x'] + h + seq![
                    ' ',
                    'i',
                    'm',
                    'a',
                    'g',
                    'e',
                ],
        },
{
    descriptions_say_what_was_copied(change@);
}

/// What is known of a kind is the hash that was noted last, and a change is news unless the hash of
/// the whole change is the one that is known.
pub proof fn a_change_is_news_unless_its_hash_is_known(
    hashes: &ClipboardHashes,
    kind: ClipboardKind,
    known: Option<u64>,
    change: &ClipboardChange,
    news: bool,
)
    ensures
        call_ensures(ClipboardHashes::get, (hashes, kind), known) ==> known == match kind {
            ClipboardKind::Text => hashes@.text,
            ClipboardKind::Image => hashes@.image,
        },
        call_ensures(ClipboardHashes::is_news, (hashes, change), news) ==> news == match change {
            ClipboardChange::Text(text) => hashes@.text != Some(fx_text(text@, usize::BITS)),
            ClipboardChange::Image(image) => hashes@.image != Some(
                fx_image(image.width, image.height, image.bytes@, usize::BITS),
            ),
        },
{
}

/// Noting a change replaces what is known of its kind by the hash of the whole change, and leaves
/// the other kind alone.
pub proof fn noting_replaces_the_hash_of_a_kind(
    hashes: &mut ClipboardHashes,
    change: Option<&ClipboardChange>,
)
    ensures
        call_ensures(store_hash, (hashes, change), ()) ==> {
            &&& final(hashes)@.text == match change {
                Some(ClipboardChange::Text(text)) => Some(fx_text(text@, usize::BITS)),
                _ => old(hashes)@.text,
            }
            &&& final(hashes)@.image == match change {
                Some(ClipboardChange::Image(image)) => Some(
                    fx_image(image.width, image.height, image.bytes@, usize::BITS),
                ),
                _ => old(hashes)@.image,
            }
        },
{
}

/// To begin with nothing is known. What is not to be kept is forgotten, and what has been replaced
/// on the clipboard; what is on the clipboard at the start is noted.
pub proof fn what_is_known_comes_and_goes(
    fresh: ClipboardHashes,
    hashes: &mut ClipboardHashes,
    keep_text: bool,
    keep_image: bool,
    kind: ClipboardKind,
    text: Option<String>,
    image: Option<ImageData>,
)
    ensures
        call_ensures(ClipboardHashes::new, (), fresh) ==> fresh@.text is None && fresh@.image
            is None,
        call_ensures(ClipboardHashes::keep, (hashes, keep_text, keep_image), ()) ==> {
            &&& final(hashes)@.text == if keep_text {
                old(hashes)@.text
            } else {
                None
            }
            &&& final(hashes)@.image == if keep_image {
                old(hashes)@.image
            } else {
                None
            }
        },
        call_ensures(board_set, (hashes, kind), ()) ==> match kind {
            ClipboardKind::Text => final(hashes)@.text == old(hashes)@.text && final(hashes)@.image
                is None,
            ClipboardKind::Image => final(hashes)@.image == old(hashes)@.image
                && final(hashes)@.text is None,
        },
        call_ensures(watch_local, (hashes, text, image), ()) ==> {
            &&& final(hashes)@.text == match text {
                Some(text) => Some(fx_text(text@, usize::BITS)),
                None => old(hashes)@.text,
            }
            &&& final(hashes)@.image == match image {
                Some(image) => Some(fx_image(image.width, image.height, image.bytes@, usize::BITS)),
                None => old(hashes)@.image,
            }
        },
{
}

/// Whether an error of reading a clipboard may be over the next time.
pub open spec fn may_be_over(error: BoardError) -> bool {
    !(error is ClipboardNotSupported) && !(error is Other)
}

/// Of reading a clipboard, only an error that lasts is handed on; there is nothing where it failed
/// otherwise, or where the text is empty; and in all other cases what was read comes back.
pub proof fn only_errors_that_last_are_handed_on(
    error: BoardError,
    handed_on: Option<BoardError>,
    read_text: Result<String, BoardError>,
    text: Result<Option<String>, BoardError>,
    read_image: Result<ImageData, BoardError>,
    image: Result<Option<ImageData>, BoardError>,
)
    ensures
        call_ensures(handle_err, (error,), handed_on) ==> handed_on == if may_be_over(error) {
            None
        } else {
            Some(error)
        },
        call_ensures(get_text, (read_text,), text) ==> match read_text {
            Ok(read) => text == Ok::<_, BoardError>(
                if read@.len() > 0 {
                    Some(read)
                } else {
                    None
                },
            ),
            Err(e) => if may_be_over(e) {
                text == Ok::<_, BoardError>(None::<String>)
            } else {
                text == Err::<Option<String>, _>(e)
            },
        },
        call_ensures(get_image, (read_image,), image) ==> match read_image {
            Ok(read) => image == Ok::<_, BoardError>(Some(read)),
            Err(e) => if may_be_over(e) {
                image == Ok::<_, BoardError>(None::<ImageData>)
            } else {
                image == Err::<Option<ImageData>, _>(e)
            },
        },
{
}

/// A look shows what was read, unless it is an empty text. Only where there is nothing of a kind,
/// the kind is absent; where reading it failed otherwise, it may still be there.
pub proof fn a_look_shows_what_was_read(
    read_text: Result<String, BoardError>,
    text: Result<Sight<String>, BoardError>,
    read_image: Result<ImageData, BoardError>,
    image: Result<Sight<ImageData>, BoardError>,
)
    ensures
        call_ensures(see_text, (read_text,), text) ==> match read_text {
            Ok(read) => text == Ok::<_, BoardError>(
                if read@.len() > 0 {
                    Sight::Shown(read)
                } else {
                    Sight::Absent
                },
            ),
            Err(BoardError::ContentNotAvailable) => text == Ok::<_, BoardError>(
                Sight::<String>::Absent,
            ),
            Err(e) => if may_be_over(e) {
                text == Ok::<_, BoardError>(Sight::<String>::Unread)
            } else {
                text == Err::<Sight<String>, _>(e)
            },
        },
        call_ensures(see_image, (read_image,), image) ==> match read_image {
            Ok(read) => image == Ok::<_, BoardError>(Sight::Shown(read)),
            Err(BoardError::ContentNotAvailable) => image == Ok::<_, BoardError>(
                Sight::<ImageData>::Absent,
            ),
            Err(e) => if may_be_over(e) {
                image == Ok::<_, BoardError>(Sight::<ImageData>::Unread)
            } else {
                image == Err::<Sight<ImageData>, _>(e)
            },
        },
{
}

/// Watching a clipboard reports a text that is shown if its hash is not known, or else an image
/// that is shown if its hash is not, whole; and notes the hash of what it reports. Of the other
/// kind, it forgets the hash if there is none of it on the clipboard. Otherwise nothing changes.
pub proof fn what_is_shown_is_reported_unless_it_is_known(
    clipboard: &Clipboard,
    hashes: &mut ClipboardHashes,
    from_polling: bool,
    text: Sight<String>,
    image: Sight<ImageData>,
    action: ClipboardAction,
)
    ensures
        call_ensures(
            Clipboard::listen_for_change,
            (clipboard, hashes, (ClipboardEvent::Seen { from_polling, text, image })),
            action,
        ) ==> {
            let new_text = text is Shown && old(hashes)@.text != Some(
                fx_text(text->Shown_0@, usize::BITS),
            );
            let new_image = image is Shown && old(hashes)@.image != Some(
                fx_image(
                    image->Shown_0.width,
                    image->Shown_0.height,
                    image->Shown_0.bytes@,
                    usize::BITS,
                ),
            );
            &&& action is Report <==> new_text || new_image
            &&& action is Report ==> action->Report_from_polling == from_polling
            &&& new_text ==> {
                &&& action->Report_change is Text
                &&& action->Report_change->Text_0@ == text->Shown_0@
                &&& final(hashes)@.text == Some(fx_text(text->Shown_0@, usize::BITS))
                &&& final(hashes)@.image == if image is Absent {
                    None
                } else {
                    old(hashes)@.image
                }
            }
            &&& new_image && !new_text ==> {
                let shown = image->Shown_0;
                let reported = action->Report_change->Image_0;
                &&& action->Report_change is Image
                &&& reported.width == shown.width
                &&& reported.height == shown.height
                &&& reported.bytes@ == shown.bytes@
                &&& final(hashes)@.image == Some(
                    fx_image(shown.width, shown.height, shown.bytes@, usize::BITS),
                )
                &&& final(hashes)@.text == if text is Absent {
                    None
                } else {
                    old(hashes)@.text
                }
            }
            &&& !new_text && !new_image ==> {
                &&& final(hashes)@ == old(hashes)@
                &&& action == if clipboard.spec_listening() {
                    ClipboardAction::Listen { timeout: clipboard.spec_poll_interval() }
                } else {
                    ClipboardAction::Sleep { duration: clipboard.spec_poll_interval() }
                }
            }
        },
{
}

/// One looks when something may have happened, and otherwise waits for the poll interval, by the
/// listener if there is one; what is known stays.
pub proof fn one_looks_when_something_may_have_happened(
    listening: bool,
    poll_interval: u64,
    clipboard: Clipboard,
    hashes: &mut ClipboardHashes,
    event: ClipboardEvent,
    action: ClipboardAction,
)
    ensures
        call_ensures(Clipboard::new, (listening, poll_interval), clipboard) && call_ensures(
            Clipboard::listen_for_change,
            (&clipboard, hashes, event),
            action,
        ) && !(event is Seen) ==> {
            &&& final(hashes)@ == old(hashes)@
            &&& action == match event {
                ClipboardEvent::Changed => ClipboardAction::Look { from_polling: false },
                ClipboardEvent::Slept => ClipboardAction::Look { from_polling: false },
                ClipboardEvent::TimedOut => ClipboardAction::Look { from_polling: true },
                _ => if listening {
                    ClipboardAction::Listen { timeout: poll_interval }
                } else {
                    ClipboardAction::Sleep { duration: poll_interval }
                },
            }
        },
{
}

/// A counter has moved if it is not what it was last seen to be.
pub proof fn a_counter_has_moved_if_it_is_another(
    count: i64,
    fresh: ChangeCount,
    counter: &mut ChangeCount,
    new_count: i64,
    moved: bool,
)
    ensures
        call_ensures(ChangeCount::new, (count,), fresh) ==> fresh@ == count,
        call_ensures(ChangeCount::moved, (counter, new_count), moved) ==> moved == (new_count
            != old(counter)@) && final(counter)@ == new_count,
{
}

/// Digits, and nothing else but a plus sign in front of them, are read as the number that they
/// spell, unless it is too large.
pub proof fn a_number_of_milliseconds_is_read(
    s: &str,
    digits: Seq<char>,
    res: Result<u64, ParseMillisError>,
)
    ensures
        call_ensures(duration_from_millis, (s,), res) ==> {
            &&& digits.len() > 0 && all_digits(digits) && (s@ == digits || s@ == seq!['+'] + digits)
                ==> res == if value_of(digits) <= u64::MAX {
                Ok(value_of(digits) as u64)
            } else {
                Err(ParseMillisError::PosOverflow)
            }
            &&& s@.len() == 0 <==> res == Err::<u64, _>(ParseMillisError::Empty)
            &&& res matches Ok(value) ==> exists|digits: Seq<char>|
                #![trigger value_of(digits)]
                (s@ == digits || s@ == seq!['+'] + digits) && digits.len() > 0 && all_digits(digits)
                    && value_of(digits) == value
        },
{
    only_digits_are_read(s@);
    if digits.len() > 0 && all_digits(digits) {
        digits_are_read_as_a_number(digits);
    }
}

/// Each request to log more is heard, up to the second.
pub proof fn more_is_logged_on_request(verbose: u8, level: Option<LogLevel>)
    ensures
        call_ensures(log_level, (verbose,), level) ==> {
            &&& level is None <==> verbose > 2
            &&& level == Some(LogLevel::Info) <==> verbose == 0
            &&& level == Some(LogLevel::Debug) <==> verbose == 1
            &&& level == Some(LogLevel::Trace) <==> verbose == 2
        },
{
}

/// The command to connect is the name of the program, the address, a colon and the port in decimal
/// notation; and, if there is a password, however long, the option and exactly that password.
pub proof fn a_command_tells_all_that_is_needed(
    addr: &str,
    port: u16,
    password: Option<&str>,
    command: String,
)
    ensures
        call_ensures(connect_command, (addr, port, password), command) ==> exists|digits: Seq<char>|
            #![trigger value_of(digits)]
            {
                &&& all_digits(digits)
                &&& digits.len() > 0
                &&& value_of(digits) == port
                &&& digits[0] == '0' ==> digits.len() == 1
                &&& command@ == seq!['y', 'c', 'l', 'i', 'p', ' '] + addr@ + seq![':'] + digits
                    + match password {
                    Some(password) => seq![' ', '-', 'p', ' '] + password@,
                    None => seq![],
                }
            },
{
    reveal_strlit("yclip ");
    reveal_strlit(":");
    reveal_strlit(" -p ");
    assert("yclip "@ =~= seq!['y', 'c', 'l', 'i', 'p', ' ']);
    assert(":"@ =~= seq![':']);
    assert(" -p "@ =~= seq![' ', '-', 'p', ' ']);
    let digits = decimal(port as nat);
    numbers_are_spelled_in_decimal(port as nat);
    assert(value_of(digits) == port);
}

} // verus!
