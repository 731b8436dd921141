//! The store of named settings, as far as the library decides what goes
//! into it. Reading and writing the store is left to the caller.

use crate::text::same_text;
use vstd::prelude::*;
use vstd::string::*;

verus! {

/// A named setting.
#[derive(Debug, PartialEq, Eq)]
pub struct Setting {
    pub item: String,
    pub content: String,
}

/// The name under which the repository's record is stored.
pub open spec fn repository_item() -> Seq<char> {
    "git_repository"@
}

/// The name under which the administrator's password is stored.
pub open spec fn password_item() -> Seq<char> {
    "admin_password"@
}

/// The name under which the repository's record is stored.
pub fn repository_key() -> (key: &'static str)
    ensures
        key@ == repository_item(),
{
    "git_repository"
}

/// What is to be stored for a setting.
#[derive(Debug, PartialEq, Eq)]
pub enum StoredContent {
    /// This text, as it is.
    Plain(String),
    /// This password, encrypted first.
    Encrypted(String),
}

/// A `StoredContent` as plain values.
pub enum StoredContentView {
    Plain(Seq<char>),
    Encrypted(Seq<char>),
}

impl View for StoredContent {
    type V = StoredContentView;

    open spec fn view(&self) -> StoredContentView {
        match self {
            StoredContent::Plain(text) => StoredContentView::Plain(text@),
            StoredContent::Encrypted(text) => StoredContentView::Encrypted(text@),
        }
    }
}

/// What is stored for the setting `item` with the content `content`: a
/// password that is not empty is encrypted; an empty one, and the content
/// of any other setting, is stored as it is.
pub open spec fn stored_content(item: Seq<char>, content: Seq<char>) -> StoredContentView {
    if item == password_item() && content.len() > 0 {
        StoredContentView::Encrypted(content)
    } else {
        StoredContentView::Plain(content)
    }
}

/// Decides what is to be stored for `setting`.
pub fn update_setting(setting: Setting) -> (r: (String, StoredContent))
    ensures
        r.0@ == setting.item@,
        r.1@ == stored_content(setting.item@, setting.content@),
{
    let Setting { item, content } = setting;
    if same_text(item.as_str(), "admin_password") && !content.as_str().is_empty() {
        (item, StoredContent::Encrypted(content))
    } else {
        (item, StoredContent::Plain(content))
    }
}

/// Tells whether a setting has to be inserted, given how many rows an
/// update of it changed: it has to be where the update changed none.
pub fn insert_needed(rows_affected: u64) -> (b: bool)
    ensures
        b == (rows_affected == 0),
{
    rows_affected < 1
}

} // verus!
