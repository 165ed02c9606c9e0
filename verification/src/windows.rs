//! The pop-up windows: a plain message, the new-feed editor and the
//! new-folder editor.
//!
//! Each window is a small state machine. The surrounding application draws
//! it every frame and hands back what the user did (edited a field, clicked
//! confirm or cancel); the window decides here what changes and what the
//! application must go and do (create a feed, create a folder).

use vstd::prelude::*;

use crate::ids::{fresh_id, FolderId};

verus! {

/// What `url::Url::parse` decides about a string. Its result depends on the
/// characters alone; the grammar of absolute URLs is the url crate's own.
pub uninterp spec fn url_parse_ok(s: Seq<char>) -> bool;

/// Relies on url::Url::parse: it returns `Ok` on exactly the strings that
/// parse as absolute URLs, a decision made from the input alone, and the
/// error carries a description of the failure.
#[verifier::external_body]
fn check_url(s: &str) -> (r: Option<String>)
    ensures
        r is None <==> url_parse_ok(s@),
{
    match url::Url::parse(s) {
        Ok(_) => None,
        Err(e) => Some(format!("{}", e)),
    }
}

/// A window that shows one message until the user closes it.
pub struct InfoWindow {
    pub id: u128,
    pub is_open: bool,
    pub title: String,
    pub message: String,
}

impl InfoWindow {
    /// A freshly opened message window with its own identifier.
    pub fn new(title: String, message: String) -> (w: InfoWindow)
        ensures
            w.is_open,
            w.title == title,
            w.message == message,
    {
        InfoWindow { id: fresh_id(), is_open: true, title, message }
    }

    /// The user closed the window: it stays as it was, but no longer open.
    pub fn close(&mut self)
        ensures
            !final(self).is_open,
            final(self).id == old(self).id,
            final(self).title == old(self).title,
            final(self).message == old(self).message,
    {
        self.is_open = false;
    }

    pub fn is_open(&self) -> (r: bool)
        ensures
            r == self.is_open,
    {
        self.is_open
    }
}

/// What the user did in the new-feed window during one frame.
pub enum NewFeedEvent {
    /// The URL field now holds this text.
    UrlChanged(String),
    /// The confirm button was clicked.
    ConfirmClicked,
    /// The cancel button was clicked.
    CancelClicked,
}

/// What the application must do: subscribe to `url`, filed under `folder_id`.
pub struct CreateFeedRequest {
    pub url: String,
    pub folder_id: Option<FolderId>,
}

/// The window in which the user types the URL of a new subscription.
pub struct NewFeedWindow {
    pub id: u128,
    pub is_open: bool,
    pub folder_id: Option<FolderId>,
    pub feed_url: String,
}

impl NewFeedWindow {
    /// A freshly opened editor for a subscription under `folder_id`
    /// (or none), with an empty URL field.
    pub fn new(folder_id: Option<FolderId>) -> (w: NewFeedWindow)
        ensures
            w.is_open,
            w.folder_id == folder_id,
            w.feed_url@ == Seq::<char>::empty(),
    {
        proof {
            reveal_strlit("");
        }
        NewFeedWindow { id: fresh_id(), is_open: true, folder_id, feed_url: "".to_owned() }
    }

    /// The inline complaint under the URL field: the parse failure's text
    /// while the field does not hold a well-formed URL, nothing once it does.
    pub fn url_error(&self) -> (r: Option<String>)
        ensures
            r is None <==> url_parse_ok(self.feed_url@),
    {
        check_url(self.feed_url.as_str())
    }

    /// One frame's worth of user input. Editing the field stores the text.
    /// Confirming subscribes — but only a well-formed URL can be confirmed:
    /// the request to create the feed comes back and the window closes
    /// exactly when the URL parses, and nothing changes otherwise.
    /// Cancelling closes the window and asks for nothing.
    pub fn handle(&mut self, event: NewFeedEvent) -> (r: Option<CreateFeedRequest>)
        ensures
            match event {
                NewFeedEvent::UrlChanged(s) => {
                    &&& final(self).feed_url == s
                    &&& final(self).is_open == old(self).is_open
                    &&& final(self).id == old(self).id
                    &&& final(self).folder_id == old(self).folder_id
                    &&& r is None
                },
                NewFeedEvent::ConfirmClicked => {
                    if url_parse_ok(old(self).feed_url@) {
                        &&& !final(self).is_open
                        &&& final(self).id == old(self).id
                        &&& final(self).folder_id == old(self).folder_id
                        &&& final(self).feed_url == old(self).feed_url
                        &&& r == Some(
                            CreateFeedRequest {
                                url: old(self).feed_url,
                                folder_id: old(self).folder_id,
                            },
                        )
                    } else {
                        &&& *final(self) == *old(self)
                        &&& r is None
                    }
                },
                NewFeedEvent::CancelClicked => {
                    &&& !final(self).is_open
                    &&& final(self).id == old(self).id
                    &&& final(self).folder_id == old(self).folder_id
                    &&& final(self).feed_url == old(self).feed_url
                    &&& r is None
                },
            },
    {
        match event {
            NewFeedEvent::UrlChanged(s) => {
                self.feed_url = s;
                None
            },
            NewFeedEvent::ConfirmClicked => {
                match check_url(self.feed_url.as_str()) {
                    None => {
                        self.is_open = false;
                        Some(
                            CreateFeedRequest {
                                url: self.feed_url.clone(),
                                folder_id: self.folder_id,
                            },
                        )
                    },
                    Some(_) => None,
                }
            },
            NewFeedEvent::CancelClicked => {
                self.is_open = false;
                None
            },
        }
    }

    pub fn is_open(&self) -> (r: bool)
        ensures
            r == self.is_open,
    {
        self.is_open
    }
}

/// What the user did in the new-folder window during one frame.
pub enum NewFolderEvent {
    /// The name field now holds this text.
    NameChanged(String),
    /// The confirm button was clicked.
    ConfirmClicked,
    /// The cancel button was clicked.
    CancelClicked,
}

/// What the application must do: create a folder with this name.
pub struct CreateFolderRequest {
    pub name: String,
}

/// The window in which the user types the name of a new folder.
pub struct NewFolderWindow {
    pub id: u128,
    pub is_open: bool,
    pub folder_name: String,
}

impl NewFolderWindow {
    /// A freshly opened folder editor with an empty name field.
    pub fn new() -> (w: NewFolderWindow)
        ensures
            w.is_open,
            w.folder_name@ == Seq::<char>::empty(),
    {
        proof {
            reveal_strlit("");
        }
        NewFolderWindow { id: fresh_id(), is_open: true, folder_name: "".to_owned() }
    }

    /// One frame's worth of user input. Editing the field stores the text.
    /// Confirming asks for a folder with the field's text, whatever it holds,
    /// and closes the window; cancelling closes it and asks for nothing.
    pub fn handle(&mut self, event: NewFolderEvent) -> (r: Option<CreateFolderRequest>)
        ensures
            match event {
                NewFolderEvent::NameChanged(s) => {
                    &&& final(self).folder_name == s
                    &&& final(self).is_open == old(self).is_open
                    &&& final(self).id == old(self).id
                    &&& r is None
                },
                NewFolderEvent::ConfirmClicked => {
                    &&& !final(self).is_open
                    &&& final(self).id == old(self).id
                    &&& final(self).folder_name == old(self).folder_name
                    &&& r == Some(CreateFolderRequest { name: old(self).folder_name })
                },
                NewFolderEvent::CancelClicked => {
                    &&& !final(self).is_open
                    &&& final(self).id == old(self).id
                    &&& final(self).folder_name == old(self).folder_name
                    &&& r is None
                },
            },
    {
        match event {
            NewFolderEvent::NameChanged(s) => {
                self.folder_name = s;
                None
            },
            NewFolderEvent::ConfirmClicked => {
                self.is_open = false;
                Some(CreateFolderRequest { name: self.folder_name.clone() })
            },
            NewFolderEvent::CancelClicked => {
                self.is_open = false;
                None
            },
        }
    }

    pub fn is_open(&self) -> (r: bool)
        ensures
            r == self.is_open,
    {
        self.is_open
    }
}

} // verus!
