use rssucks::ids::FolderId;
use rssucks::windows::{
    InfoWindow, NewFeedEvent, NewFeedWindow, NewFolderEvent, NewFolderWindow,
};

#[test]
fn info_window_opens_and_closes() {
    let mut w = InfoWindow::new("title".to_owned(), "message".to_owned());
    assert!(w.is_open());
    assert_eq!(w.title, "title");
    assert_eq!(w.message, "message");
    w.close();
    assert!(!w.is_open());
    assert_eq!(w.message, "message");
}

#[test]
fn new_feed_window_starts_open_and_empty() {
    let w = NewFeedWindow::new(Some(FolderId(3)));
    assert!(w.is_open());
    assert_eq!(w.folder_id, Some(FolderId(3)));
    assert_eq!(w.feed_url, "");
}

#[test]
fn confirming_a_well_formed_url_creates_the_feed_and_closes() {
    let mut w = NewFeedWindow::new(Some(FolderId(3)));
    let r = w.handle(NewFeedEvent::UrlChanged("https://example.net/rss".to_owned()));
    assert!(r.is_none());
    assert!(w.is_open());
    assert!(w.url_error().is_none());
    let r = w.handle(NewFeedEvent::ConfirmClicked);
    let req = r.expect("a well-formed URL must be confirmable");
    assert_eq!(req.url, "https://example.net/rss");
    assert_eq!(req.folder_id, Some(FolderId(3)));
    assert!(!w.is_open());
}

#[test]
fn a_malformed_url_cannot_be_confirmed() {
    let mut w = NewFeedWindow::new(None);
    let r = w.handle(NewFeedEvent::UrlChanged("not a url".to_owned()));
    assert!(r.is_none());
    assert!(w.url_error().is_some());
    let r = w.handle(NewFeedEvent::ConfirmClicked);
    assert!(r.is_none());
    assert!(w.is_open());
    assert_eq!(w.feed_url, "not a url");
}

#[test]
fn the_empty_url_field_is_rejected_at_first() {
    let w = NewFeedWindow::new(None);
    assert!(w.url_error().is_some());
}

#[test]
fn cancelling_the_feed_editor_closes_it_without_a_request() {
    let mut w = NewFeedWindow::new(None);
    w.handle(NewFeedEvent::UrlChanged("https://example.net".to_owned()));
    let r = w.handle(NewFeedEvent::CancelClicked);
    assert!(r.is_none());
    assert!(!w.is_open());
}

#[test]
fn confirming_the_folder_editor_requests_the_folder() {
    let mut w = NewFolderWindow::new();
    assert!(w.is_open());
    assert_eq!(w.folder_name, "");
    let r = w.handle(NewFolderEvent::NameChanged("news".to_owned()));
    assert!(r.is_none());
    let r = w.handle(NewFolderEvent::ConfirmClicked);
    assert_eq!(r.expect("confirm must request the folder").name, "news");
    assert!(!w.is_open());
}

#[test]
fn the_folder_editor_accepts_even_an_empty_name() {
    let mut w = NewFolderWindow::new();
    let r = w.handle(NewFolderEvent::ConfirmClicked);
    assert_eq!(r.expect("confirm must request the folder").name, "");
    assert!(!w.is_open());
}

#[test]
fn cancelling_the_folder_editor_requests_nothing() {
    let mut w = NewFolderWindow::new();
    w.handle(NewFolderEvent::NameChanged("news".to_owned()));
    let r = w.handle(NewFolderEvent::CancelClicked);
    assert!(r.is_none());
    assert!(!w.is_open());
    assert_eq!(w.folder_name, "news");
}
