use std::hash::{Hash, Hasher};
use yclip::clipboard::{
    get_image, get_text, handle_err, hash, see_image, see_text, store_hash, BoardError,
    ChangeCount, Clipboard, ClipboardAction, ClipboardChange, ClipboardEvent, ClipboardHashes,
    ClipboardKind, ImageData, Sight,
};

fn text(text: &str) -> ClipboardChange {
    ClipboardChange::Text(text.to_string())
}

fn image_data(width: usize, height: usize, byte: u8) -> ImageData {
    ImageData { width, height, bytes: vec![byte; 4] }
}

fn image(width: usize, height: usize, byte: u8) -> ClipboardChange {
    ClipboardChange::Image(image_data(width, height, byte))
}

fn seen(text: Option<&str>, image: Option<ImageData>) -> ClipboardEvent {
    ClipboardEvent::Seen {
        from_polling: true,
        text: text.map_or(Sight::Absent, |x| Sight::Shown(x.to_string())),
        image: image.map_or(Sight::Absent, Sight::Shown),
    }
}

#[test]
fn lengths() {
    assert_eq!(text("").len(), 0);
    assert!(text("").is_empty());
    assert_eq!(text("é!").len(), 3);
    assert!(!text("é!").is_empty());
    assert_eq!(image(3, 5, 0).len(), 15 + 2 * std::mem::size_of::<usize>());
    assert!(!image(0, 0, 0).is_empty());
    assert_eq!(image(usize::MAX, 1, 0).len(), 2 * std::mem::size_of::<usize>() - 1);
}

#[test]
fn kinds() {
    assert_eq!(text("").kind(), ClipboardKind::Text);
    assert_eq!(image(1, 1, 0).kind(), ClipboardKind::Image);
}

#[test]
fn equality_is_that_of_the_contents() {
    assert!(text("a") == text("a"));
    assert!(text("a") != text("b"));
    assert!(image(1, 2, 3) == image(1, 2, 3));
    assert!(image(1, 2, 3) != image(2, 1, 3));
    assert!(image(1, 2, 3) != image(1, 2, 4));
    assert!(image(1, 2, 3) != text("a"));
    let shorter = ClipboardChange::Image(ImageData { width: 1, height: 2, bytes: vec![3; 3] });
    assert!(!image(1, 2, 3).same(&shorter));
}

#[test]
fn descriptions() {
    assert_eq!(text("hi").to_string(), "Text: hi");
    assert_eq!(text(&"x".repeat(99)).to_string(), format!("Text: {}", "x".repeat(99)));
    assert_eq!(text(&"x".repeat(100)).to_string(), "Text (omitted, 100 bytes long)");
    assert_eq!(text(&"é".repeat(50)).to_string(), "Text (omitted, 100 bytes long)");
    assert_eq!(text(&"x".repeat(1234567)).to_string(), "Text (omitted, 1234567 bytes long)");
    assert_eq!(image(1920, 7, 0).to_string(), "1920x7 image");
    assert_eq!(image(0, 10, 0).to_string(), "0x10 image");
}

#[test]
fn hashes_are_fx_hashes() {
    let mut hasher = rustc_hash::FxHasher::default();
    "hello".hash(&mut hasher);
    assert_eq!(hash(&text("hello")), hasher.finish());

    let mut hasher = rustc_hash::FxHasher::default();
    3usize.hash(&mut hasher);
    5usize.hash(&mut hasher);
    vec![7u8; 4].hash(&mut hasher);
    assert_eq!(hash(&image(3, 5, 7)), hasher.finish());
    assert_ne!(hash(&image(3, 5, 7)), hash(&image(5, 3, 7)));
}

#[test]
fn hashes_are_stored_by_kind() {
    let mut hashes = ClipboardHashes::new();
    assert_eq!(hashes.get(ClipboardKind::Text), None);
    assert_eq!(hashes.get(ClipboardKind::Image), None);
    store_hash(&mut hashes, None);
    assert_eq!(hashes.get(ClipboardKind::Text), None);
    store_hash(&mut hashes, Some(&text("a")));
    assert_eq!(hashes.get(ClipboardKind::Text), Some(hash(&text("a"))));
    assert_eq!(hashes.get(ClipboardKind::Image), None);
    store_hash(&mut hashes, Some(&image(1, 1, 1)));
    assert_eq!(hashes.get(ClipboardKind::Text), Some(hash(&text("a"))));
    assert_eq!(hashes.get(ClipboardKind::Image), Some(hash(&image(1, 1, 1))));
    assert!(!hashes.is_news(&text("a")));
    assert!(hashes.is_news(&text("b")));
    assert!(hashes.is_news(&image(1, 1, 2)));
}

#[test]
fn some_errors_pass() {
    let unknown = BoardError::Unknown { description: String::from("?") };
    assert!(handle_err(BoardError::ContentNotAvailable).is_none());
    assert!(handle_err(BoardError::ClipboardOccupied).is_none());
    assert!(handle_err(BoardError::ConversionFailure).is_none());
    assert!(handle_err(unknown).is_none());
    assert!(matches!(
        handle_err(BoardError::ClipboardNotSupported),
        Some(BoardError::ClipboardNotSupported)
    ));
    assert!(matches!(
        handle_err(BoardError::Other { description: String::from("!") }),
        Some(BoardError::Other { description }) if description == "!"
    ));
}

#[test]
fn an_empty_text_is_none() {
    assert!(matches!(get_text(Ok(String::new())), Ok(None)));
    assert!(matches!(get_text(Ok(String::from("a"))), Ok(Some(x)) if x == "a"));
    assert!(matches!(get_text(Err(BoardError::ContentNotAvailable)), Ok(None)));
    assert!(matches!(
        get_text(Err(BoardError::ClipboardNotSupported)),
        Err(BoardError::ClipboardNotSupported)
    ));
}

#[test]
fn images_are_taken_as_they_are() {
    assert!(matches!(
        get_image(Ok(image_data(1, 2, 3))),
        Ok(Some(ImageData { width: 1, height: 2, bytes })) if bytes == vec![3; 4]
    ));
    assert!(matches!(get_image(Err(BoardError::ClipboardOccupied)), Ok(None)));
    assert!(matches!(
        get_image(Err(BoardError::ClipboardNotSupported)),
        Err(BoardError::ClipboardNotSupported)
    ));
}

#[test]
fn waiting_with_a_listener() {
    let mut hashes = ClipboardHashes::new();
    let clipboard = Clipboard::new(true, 10000);
    for event in [ClipboardEvent::Start, ClipboardEvent::ListenerFailed, seen(None, None)] {
        assert!(matches!(
            clipboard.listen_for_change(&mut hashes, event),
            ClipboardAction::Listen { timeout: 10000 }
        ));
    }
    assert!(matches!(
        clipboard.listen_for_change(&mut hashes, ClipboardEvent::Changed),
        ClipboardAction::Look { from_polling: false }
    ));
    assert!(matches!(
        clipboard.listen_for_change(&mut hashes, ClipboardEvent::TimedOut),
        ClipboardAction::Look { from_polling: true }
    ));
}

#[test]
fn waiting_without_a_listener() {
    let mut hashes = ClipboardHashes::new();
    let clipboard = Clipboard::new(false, 3);
    assert!(matches!(
        clipboard.listen_for_change(&mut hashes, ClipboardEvent::Start),
        ClipboardAction::Sleep { duration: 3 }
    ));
    assert!(matches!(
        clipboard.listen_for_change(&mut hashes, ClipboardEvent::Slept),
        ClipboardAction::Look { from_polling: false }
    ));
}

#[test]
fn text_is_reported_before_the_image() {
    let mut hashes = ClipboardHashes::new();
    let clipboard = Clipboard::new(true, 1);
    let mut look = || {
        let event = seen(Some("a"), Some(image_data(1, 1, 1)));
        clipboard.listen_for_change(&mut hashes, event)
    };
    assert!(matches!(
        look(),
        ClipboardAction::Report { from_polling: true, change } if change == text("a")
    ));
    assert!(matches!(
        look(),
        ClipboardAction::Report { change, .. } if change == image(1, 1, 1)
    ));
    assert!(matches!(look(), ClipboardAction::Listen { timeout: 1 }));
}

#[test]
fn a_text_that_comes_back_is_news_again() {
    let mut hashes = ClipboardHashes::new();
    let clipboard = Clipboard::new(true, 1);
    for x in ["a", "b", "a"] {
        assert!(matches!(
            clipboard.listen_for_change(&mut hashes, seen(Some(x), None)),
            ClipboardAction::Report { change, .. } if change == text(x)
        ));
        assert!(matches!(
            clipboard.listen_for_change(&mut hashes, seen(Some(x), None)),
            ClipboardAction::Listen { .. }
        ));
    }
}

#[test]
fn counters_move() {
    let mut count = ChangeCount::new(5);
    assert!(!count.moved(5));
    assert!(count.moved(6));
    assert!(!count.moved(6));
    assert!(count.moved(5));
}

#[test]
fn a_text_that_an_image_replaced_is_news_again() {
    let mut hashes = ClipboardHashes::new();
    let clipboard = Clipboard::new(true, 1);
    let reported = |action| match action {
        ClipboardAction::Report { change, .. } => Some(change),
        _ => None,
    };
    let mut look = |text: Option<&str>, image: Option<ImageData>| {
        reported(clipboard.listen_for_change(&mut hashes, seen(text, image)))
    };
    assert!(look(Some("s"), None) == Some(text("s")));
    assert!(look(Some("s"), None).is_none());
    assert!(look(None, Some(image_data(1, 1, 1))) == Some(image(1, 1, 1)));
    assert!(look(None, Some(image_data(1, 1, 1))).is_none());
    assert!(look(Some("s"), None) == Some(text("s")));
    assert!(look(None, Some(image_data(1, 1, 1))) == Some(image(1, 1, 1)));
    // A look at nothing forgets nothing
    assert!(look(None, None).is_none());
    assert!(look(None, Some(image_data(1, 1, 1))).is_none());
}

#[test]
fn clones_are_equal() {
    assert!(text("é").clone() == text("é"));
    assert!(image(2, 3, 4).clone() == image(2, 3, 4));
}

#[test]
fn kinds_are_forgotten() {
    let mut hashes = ClipboardHashes::new();
    store_hash(&mut hashes, Some(&text("a")));
    store_hash(&mut hashes, Some(&image(1, 1, 1)));
    hashes.keep(true, true);
    assert!(!hashes.is_news(&text("a")) && !hashes.is_news(&image(1, 1, 1)));
    hashes.keep(true, false);
    assert!(!hashes.is_news(&text("a")) && hashes.is_news(&image(1, 1, 1)));
    hashes.keep(false, true);
    assert!(hashes.is_news(&text("a")));
}

#[test]
fn what_could_not_be_read_is_not_replaced() {
    let mut hashes = ClipboardHashes::new();
    let clipboard = Clipboard::new(true, 1);
    let mut look = |text: Sight<String>, image: Sight<ImageData>| {
        let event = ClipboardEvent::Seen { from_polling: false, text, image };
        match clipboard.listen_for_change(&mut hashes, event) {
            ClipboardAction::Report { change, .. } => Some(change),
            _ => None,
        }
    };
    let s = || Sight::Shown(String::from("s"));
    assert!(look(s(), Sight::Absent) == Some(text("s")));
    assert!(look(Sight::Unread, Sight::Shown(image_data(1, 1, 1))) == Some(image(1, 1, 1)));
    assert!(look(s(), Sight::Shown(image_data(1, 1, 1))).is_none());
    assert!(look(s(), Sight::Unread).is_none());
    assert!(look(Sight::Unread, Sight::Unread).is_none());
    assert!(look(s(), Sight::Absent).is_none());
}

#[test]
fn looks_tell_nothing_from_unreadable() {
    let unknown = || BoardError::Unknown { description: String::from("?") };
    assert!(matches!(see_text(Ok(String::from("a"))), Ok(Sight::Shown(x)) if x == "a"));
    assert!(matches!(see_text(Ok(String::new())), Ok(Sight::Absent)));
    assert!(matches!(see_text(Err(BoardError::ContentNotAvailable)), Ok(Sight::Absent)));
    assert!(matches!(see_text(Err(BoardError::ClipboardOccupied)), Ok(Sight::Unread)));
    assert!(matches!(see_text(Err(BoardError::ConversionFailure)), Ok(Sight::Unread)));
    assert!(matches!(see_text(Err(unknown())), Ok(Sight::Unread)));
    assert!(see_text(Err(BoardError::ClipboardNotSupported)).is_err());
    assert!(matches!(see_image(Ok(image_data(1, 2, 3))), Ok(Sight::Shown(x)) if x.height == 2));
    assert!(matches!(see_image(Err(BoardError::ContentNotAvailable)), Ok(Sight::Absent)));
    assert!(matches!(see_image(Err(BoardError::ClipboardOccupied)), Ok(Sight::Unread)));
    assert!(matches!(see_image(Err(unknown())), Ok(Sight::Unread)));
    assert!(see_image(Err(BoardError::Other { description: String::new() })).is_err());
}
