//! What the application asks of the world around it, and what it is
//! answered.
//!
//! The key store, the clipboard and other programs are not part of the
//! application. Where a command needs one of them the application hands
//! out a request; the answer to it is handed back as a response.

use crate::app::selection::Selection;
use crate::gpg::key::{key_views, text_view, GpgKey, GpgKeyView, KeyType};
use crate::text::views;
use vstd::prelude::*;

verus! {

/// What the text of the clipboard is read for.
#[derive(Clone, Copy, Debug, PartialEq, Eq, Structural)]
pub enum ClipboardUse {
    /// The text is a key to import.
    Import,
    /// The text is put into the prompt.
    Paste,
}

/// Work that is asked of the world around the application.
#[derive(Debug, PartialEq)]
pub enum Request {
    /// Nothing is left to do.
    Done,
    /// Read the text of the clipboard.
    ReadClipboard(ClipboardUse),
    /// Import keys; the flag tells whether the texts name files or are the
    /// keys themselves.
    ImportKeys(Vec<String>, bool),
    /// Export the keys that match the patterns to a file.
    ExportKeys(KeyType, Vec<String>),
    /// Delete a key.
    DeleteKey(KeyType, String),
    /// Send a key to the keyserver.
    SendKey(String),
    /// Run `gpg` with the arguments; the text, if any, is the message to
    /// show after it has run.
    RunGpg(Vec<String>, Option<String>),
    /// Tell whether a path exists.
    CheckPath(String),
    /// Export a key as text, to copy it.
    ExportKey(KeyType, String),
    /// Write a text to the clipboard.
    WriteClipboard(String, Selection),
    /// Read all keys from the key store again; the text, if any, is the
    /// message to show afterwards.
    Reload(Option<String>),
}

/// What a request says.
pub enum RequestView {
    Done,
    ReadClipboard(ClipboardUse),
    ImportKeys(Seq<Seq<char>>, bool),
    ExportKeys(KeyType, Seq<Seq<char>>),
    DeleteKey(KeyType, Seq<char>),
    SendKey(Seq<char>),
    RunGpg(Seq<Seq<char>>, Option<Seq<char>>),
    CheckPath(Seq<char>),
    ExportKey(KeyType, Seq<char>),
    WriteClipboard(Seq<char>, Selection),
    Reload(Option<Seq<char>>),
}

impl View for Request {
    type V = RequestView;

    open spec fn view(&self) -> RequestView {
        match self {
            Request::Done => RequestView::Done,
            Request::ReadClipboard(usage) => RequestView::ReadClipboard(*usage),
            Request::ImportKeys(keys, files) => RequestView::ImportKeys(views(keys@), *files),
            Request::ExportKeys(key_type, patterns) => RequestView::ExportKeys(
                *key_type,
                views(patterns@),
            ),
            Request::DeleteKey(key_type, id) => RequestView::DeleteKey(*key_type, id@),
            Request::SendKey(id) => RequestView::SendKey(id@),
            Request::RunGpg(args, message) => RequestView::RunGpg(
                views(args@),
                text_view(*message),
            ),
            Request::CheckPath(path) => RequestView::CheckPath(path@),
            Request::ExportKey(key_type, id) => RequestView::ExportKey(*key_type, id@),
            Request::WriteClipboard(text, selection) => RequestView::WriteClipboard(
                text@,
                *selection,
            ),
            Request::Reload(message) => RequestView::Reload(text_view(*message)),
        }
    }
}

/// The answer to a request.
#[derive(Debug)]
pub enum Response {
    /// The work gave a text: the text of the clipboard, the path of an
    /// exported file, the id of a key that was sent, an exported key.
    Text(String),
    /// The work gave a number: how many keys were imported.
    Count(u32),
    /// The work was done and gave nothing.
    Finished,
    /// Whether the path exists.
    Exists(bool),
    /// The keys of the key store: the public keys, then the secret keys.
    Keys(Vec<GpgKey>, Vec<GpgKey>),
    /// The work failed, with what went wrong.
    Failed(String),
}

/// What a response says.
pub enum ResponseView {
    Text(Seq<char>),
    Count(u32),
    Finished,
    Exists(bool),
    Keys(Seq<GpgKeyView>, Seq<GpgKeyView>),
    Failed(Seq<char>),
}

impl View for Response {
    type V = ResponseView;

    open spec fn view(&self) -> ResponseView {
        match self {
            Response::Text(text) => ResponseView::Text(text@),
            Response::Count(n) => ResponseView::Count(*n),
            Response::Finished => ResponseView::Finished,
            Response::Exists(exists) => ResponseView::Exists(*exists),
            Response::Keys(public, secret) => ResponseView::Keys(
                key_views(public@),
                key_views(secret@),
            ),
            Response::Failed(message) => ResponseView::Failed(message@),
        }
    }
}

} // verus!
