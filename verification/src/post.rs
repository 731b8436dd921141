//! Blog posts as the export reads them.

use crate::text::{
    chars_of, cut_point, cuts_cleanly, first_bytes, remove_all, string_of, strip_first_tag,
    without_first_tag, without_pattern,
};
use vstd::prelude::*;

verus! {

/// A post. The library never changes one; it reads the title and the
/// markdown body to render it, and the two times to decide whether it is
/// due for export.
#[derive(Debug, PartialEq, Eq)]
pub struct Post {
    /// Unique, and larger for later posts.
    pub id: i64,
    pub title: String,
    pub markdown_content: String,
    pub rendered_content: String,
    /// When the post was written, in seconds.
    pub created_at: i64,
    /// When the post was last changed, in seconds, if it ever was.
    pub updated_at: Option<i64>,
}

/// A post as plain values.
pub struct PostView {
    pub id: int,
    pub title: Seq<char>,
    pub markdown_content: Seq<char>,
    pub rendered_content: Seq<char>,
    pub created_at: int,
    pub updated_at: Option<int>,
}

impl View for Post {
    type V = PostView;

    open spec fn view(&self) -> PostView {
        PostView {
            id: self.id as int,
            title: self.title@,
            markdown_content: self.markdown_content@,
            rendered_content: self.rendered_content@,
            created_at: self.created_at as int,
            updated_at: match self.updated_at {
                Some(t) => Some(t as int),
                None => None,
            },
        }
    }
}

/// The views of `posts`, in the same order.
pub open spec fn post_views(posts: Seq<Post>) -> Seq<PostView> {
    posts.map_values(|p: Post| p@)
}

/// The number of bytes to which a post's text is cut for a list of posts.
pub const SUMMARY_BYTES: usize = 200;

/// A backslash and an `n`: what is left in rendered text of a line break
/// that was written out.
pub open spec fn written_line_break() -> Seq<char> {
    seq!['\\', 'n']
}

/// Rendered text made ready for a summary: its first tag is taken out,
/// then every written-out line break.
pub open spec fn summary_source(rendered: Seq<char>) -> Seq<char> {
    without_pattern(without_first_tag(rendered), written_line_break())
}

/// Whether rendered text has a summary: made ready, it is shorter than
/// `SUMMARY_BYTES` bytes, or can be cut at exactly that many.
pub open spec fn has_summary(rendered: Seq<char>) -> bool {
    cuts_cleanly(summary_source(rendered), SUMMARY_BYTES as nat)
}

/// The summary of rendered text: made ready, and cut to its first
/// `SUMMARY_BYTES` bytes.
pub open spec fn summary_text(rendered: Seq<char>) -> Seq<char> {
    first_bytes(summary_source(rendered), SUMMARY_BYTES as nat)
}

/// The summary of a post's rendered text for a list of posts, or `None`
/// where the cut would fall inside a character.
pub fn try_review_rendered_content(c: &str) -> (r: Option<String>)
    ensures
        r is Some <==> has_summary(c@),
        r matches Some(text) ==> text@ == summary_text(c@),
{
    let rendered = chars_of(c);
    let untagged = strip_first_tag(&rendered);
    let mut line_break: Vec<char> = Vec::new();
    line_break.push('\\');
    line_break.push('n');
    assert(line_break@ =~= written_line_break());
    let source = remove_all(&untagged, &line_break);
    match cut_point(&source, SUMMARY_BYTES) {
        Some(k) => {
            assert(source@.subrange(0, k as int) =~= source@.take(k as int));
            Some(string_of(&source, 0, k))
        },
        None => None,
    }
}

/// The summary of a post's rendered text for a list of posts: the text
/// without its first tag and without written-out line breaks, cut to its
/// first `SUMMARY_BYTES` bytes.
pub fn review_rendered_content(c: &str) -> (r: String)
    requires
        has_summary(c@),
    ensures
        r@ == summary_text(c@),
{
    match try_review_rendered_content(c) {
        Some(text) => text,
        None => String::new(),
    }
}

} // verus!
