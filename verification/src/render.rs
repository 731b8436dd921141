//! Rendering of a post into the text of the file that is published.
//!
//! The text comes from a template, which the `tera` crate expands. The
//! library has a closed set of templates, each known by a name.

use crate::post::Post;
use crate::text::same_text;
use vstd::prelude::*;

verus! {

/// The error type of `tera`. Nothing is known of a value of it.
#[verifier::external_type_specification]
#[verifier::external_body]
pub struct ExTeraError(tera::Error);

/// The templates that the library has.
#[derive(Clone, Copy, Debug, PartialEq, Eq, Structural)]
pub enum Template {
    /// A page for the Hugo static-site generator: front matter with the
    /// title, then the markdown body.
    Hugo,
}

impl Template {
    /// The name under which the template is asked for.
    pub open spec fn name_text(self) -> Seq<char> {
        match self {
            Template::Hugo => "hugo.md"@,
        }
    }

    /// The template's source.
    pub open spec fn source_text(self) -> Seq<char> {
        match self {
            Template::Hugo => "---\ntitle: \"{{ title }}\"\n---\n\n{{ content }}\n"@,
        }
    }

    /// The name under which the template is asked for.
    pub fn name(&self) -> (r: &'static str)
        ensures
            r@ == self.name_text(),
    {
        match self {
            Template::Hugo => "hugo.md",
        }
    }

    /// The template's source.
    pub fn source(&self) -> (r: &'static str)
        ensures
            r@ == self.source_text(),
    {
        match self {
            Template::Hugo => "---\ntitle: \"{{ title }}\"\n---\n\n{{ content }}\n",
        }
    }

    /// The template called `name`, if there is one.
    pub fn named(name: &str) -> (r: Option<Template>)
        ensures
            r == template_named(name@),
    {
        if same_text(name, Template::Hugo.name()) {
            Some(Template::Hugo)
        } else {
            None
        }
    }
}

/// The template called `name`, if there is one.
pub open spec fn template_named(name: Seq<char>) -> Option<Template> {
    if name == Template::Hugo.name_text() {
        Some(Template::Hugo)
    } else {
        None
    }
}

/// The names and values of `bindings` as plain values.
pub open spec fn bindings_text(bindings: Seq<(&str, &str)>) -> Seq<(Seq<char>, Seq<char>)> {
    bindings.map_values(|b: (&str, &str)| (b.0@, b.1@))
}

/// The names that the Hugo template uses, bound to a post's title and
/// body.
pub open spec fn post_bindings(title: Seq<char>, content: Seq<char>) -> Seq<(Seq<char>, Seq<char>)> {
    seq![("title"@, title), ("content"@, content)]
}

/// A page for Hugo: the title between quotes in the front matter, then
/// the body, each as it is.
pub open spec fn hugo_page(title: Seq<char>, content: Seq<char>) -> Seq<char> {
    "---\ntitle: \""@ + title + "\"\n---\n\n"@ + content + "\n"@
}

/// The text of a post with this title and body under the template called
/// `name`; empty where no template has that name.
pub open spec fn rendered_text(name: Seq<char>, title: Seq<char>, content: Seq<char>) -> Seq<char> {
    match template_named(name) {
        Some(Template::Hugo) => hugo_page(title, content),
        None => Seq::empty(),
    }
}

/// Calls `tera::Tera::one_off` on `source`, with a context in which each
/// name of `bindings` is bound to its value, and with escaping as
/// `autoescape` says.
///
/// Trusted, not proved. `requires` admits one call only: the Hugo
/// template, its two names bound to a title and a body, escaping off. Of
/// that call the contract says that it succeeds and gives the template's
/// text with the title and the body in place of `{{ title }}` and
/// `{{ content }}`. `tera` writes the text between the two blocks as it
/// stands and, with escaping off, a bound string as it stands; the
/// template parses, both names are bound, and the text is written to
/// memory, so none of the errors that `tera` can report arises.
#[verifier::external_body]
fn expand(source: &str, bindings: &Vec<(&str, &str)>, autoescape: bool) -> (r: Result<
    String,
    tera::Error,
>)
    requires
        source@ == Template::Hugo.source_text(),
        bindings@.len() == 2,
        bindings_text(bindings@) == post_bindings(bindings@[0].1@, bindings@[1].1@),
        !autoescape,
    ensures
        match r {
            Ok(text) => text@ == hugo_page(bindings@[0].1@, bindings@[1].1@),
            Err(_) => false,
        },
{
    let mut context = tera::Context::new();
    for (name, value) in bindings.iter() {
        context.insert(*name, value);
    }
    tera::Tera::one_off(source, &context, autoescape)
}

/// The text that an expansion gave, or the empty text where it failed: a
/// post that cannot be rendered is published empty and does not stop the
/// posts after it.
pub fn rendered_or_empty(outcome: Result<String, tera::Error>) -> (r: String)
    ensures
        outcome matches Ok(text) ==> r@ == text@,
        outcome is Err ==> r@ == Seq::<char>::empty(),
{
    match outcome {
        Ok(text) => text,
        Err(_) => String::new(),
    }
}

/// Renders `post` under the template called `template`. Where there is no
/// such template the result is empty.
pub fn render(post: &Post, template: &str) -> (r: String)
    ensures
        r@ == rendered_text(template@, post@.title, post@.markdown_content),
{
    match Template::named(template) {
        None => String::new(),
        Some(t) => {
            let mut bindings: Vec<(&str, &str)> = Vec::new();
            bindings.push(("title", post.title.as_str()));
            bindings.push(("content", post.markdown_content.as_str()));
            assert(bindings_text(bindings@) =~= post_bindings(
                post@.title,
                post@.markdown_content,
            ));
            rendered_or_empty(expand(t.source(), &bindings, false))
        },
    }
}

} // verus!
