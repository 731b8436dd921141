//! The export of posts: which posts are due, what each file is called and
//! what it holds.
//!
//! Nothing here touches a disk. `export_all` and `export_since` say which
//! files an export writes; `write_posts` hands each post to a callback that
//! does the writing. A directory is modelled as a map from file names to
//! contents, and `written` says what an export makes of it.

use crate::post::{post_views, Post, PostView};
use crate::render::{render, rendered_text, Template};
use crate::text::{decimal, decimal_string, lemma_decimal_injective};
use vstd::prelude::*;
use vstd::string::*;

verus! {

/// A file that an export writes.
#[derive(Debug, PartialEq, Eq)]
pub struct ExportFile {
    pub name: String,
    pub content: String,
}

/// An `ExportFile` as plain values.
pub struct ExportFileView {
    pub name: Seq<char>,
    pub content: Seq<char>,
}

impl View for ExportFile {
    type V = ExportFileView;

    open spec fn view(&self) -> ExportFileView {
        ExportFileView { name: self.name@, content: self.content@ }
    }
}

/// The views of `files`, in the same order.
pub open spec fn file_views(files: Seq<ExportFile>) -> Seq<ExportFileView> {
    files.map_values(|f: ExportFile| f@)
}

/// The name of the file that holds the post `id`: the number in decimal,
/// then `.md`.
pub open spec fn file_name_text(id: int) -> Seq<char> {
    decimal(id) + ".md"@
}

/// The file that an export writes for `p`.
pub open spec fn file_for(p: PostView) -> ExportFileView {
    ExportFileView {
        name: file_name_text(p.id),
        content: rendered_text(Template::Hugo.name_text(), p.title, p.markdown_content),
    }
}

/// Whether `p` was created or updated at or after `cutoff`.
pub open spec fn is_due(p: PostView, cutoff: int) -> bool {
    p.created_at >= cutoff || (p.updated_at matches Some(u) && u >= cutoff)
}

/// Those of `posts` that are due at `cutoff`, in the same order.
pub open spec fn due_posts(posts: Seq<PostView>, cutoff: int) -> Seq<PostView> {
    posts.filter(|p: PostView| is_due(p, cutoff))
}

/// The files that an export of `posts` writes, in the order of writing.
pub open spec fn planned_files(posts: Seq<PostView>) -> Seq<ExportFileView> {
    posts.map_values(|p: PostView| file_for(p))
}

/// A directory after `files` have been written into it one after the
/// other, each replacing what was there under its name.
pub open spec fn written(
    dir: Map<Seq<char>, Seq<char>>,
    files: Seq<ExportFileView>,
) -> Map<Seq<char>, Seq<char>>
    decreases files.len(),
{
    if files.len() == 0 {
        dir
    } else {
        written(dir, files.drop_last()).insert(files.last().name, files.last().content)
    }
}

/// What the last of `files` called `name` holds, if there is one.
pub open spec fn last_write(files: Seq<ExportFileView>, name: Seq<char>) -> Option<Seq<char>>
    decreases files.len(),
{
    if files.len() == 0 {
        None
    } else if files.last().name == name {
        Some(files.last().content)
    } else {
        last_write(files.drop_last(), name)
    }
}

/// After an export a directory holds, under each name, what the last file
/// of that name held, and what it held before under every other name.
pub proof fn lemma_written(dir: Map<Seq<char>, Seq<char>>, files: Seq<ExportFileView>)
    ensures
        forall|name: Seq<char>| #[trigger]
            written(dir, files).contains_key(name) <==> dir.contains_key(name) || last_write(
                files,
                name,
            ) is Some,
        forall|name: Seq<char>|
            last_write(files, name) is Some ==> #[trigger] written(dir, files)[name] == last_write(
                files,
                name,
            )->0,
        forall|name: Seq<char>|
            last_write(files, name) is None ==> #[trigger] written(dir, files)[name] == dir[name],
    decreases files.len(),
{
    if files.len() > 0 {
        let rest = files.drop_last();
        let last = files.last();
        let before = written(dir, rest);
        lemma_written(dir, rest);
        assert(written(dir, files) == before.insert(last.name, last.content));
        assert forall|name: Seq<char>| #[trigger]
            written(dir, files).contains_key(name) <==> dir.contains_key(name) || last_write(
                files,
                name,
            ) is Some by {
            if name != last.name {
                assert(before.contains_key(name) <==> dir.contains_key(name) || last_write(
                    rest,
                    name,
                ) is Some);
            }
        }
        assert forall|name: Seq<char>| last_write(files, name) is Some implies #[trigger] written(
            dir,
            files,
        )[name] == last_write(files, name)->0 by {
            if name != last.name {
                assert(before[name] == last_write(rest, name)->0);
            }
        }
        assert forall|name: Seq<char>| last_write(files, name) is None implies #[trigger] written(
            dir,
            files,
        )[name] == dir[name] by {
            assert(before[name] == dir[name]);
        }
    }
}

/// Writing the same files twice leaves a directory as writing them once
/// does.
pub proof fn lemma_written_twice(dir: Map<Seq<char>, Seq<char>>, files: Seq<ExportFileView>)
    ensures
        written(written(dir, files), files) == written(dir, files),
{
    let once = written(dir, files);
    lemma_written(dir, files);
    lemma_written(once, files);
    assert(written(once, files) =~= once);
}

/// Exporting twice from the same cutoff, with the posts unchanged in
/// between, writes the same files both times and leaves every file as the
/// first export left it.
pub proof fn lemma_export_is_idempotent(
    dir: Map<Seq<char>, Seq<char>>,
    posts: Seq<PostView>,
    cutoff: int,
)
    ensures
        written(
            written(dir, planned_files(due_posts(posts, cutoff))),
            planned_files(due_posts(posts, cutoff)),
        ) == written(dir, planned_files(due_posts(posts, cutoff))),
{
    lemma_written_twice(dir, planned_files(due_posts(posts, cutoff)));
}

/// Every post that is due has its file among those that the export writes.
pub proof fn lemma_due_posts_are_exported(posts: Seq<PostView>, cutoff: int, i: int)
    requires
        0 <= i < posts.len(),
        is_due(posts[i], cutoff),
    ensures
        planned_files(due_posts(posts, cutoff)).contains(file_for(posts[i])),
{
    let pred = |p: PostView| is_due(p, cutoff);
    posts.lemma_filter_contains(pred, i);
    let due = due_posts(posts, cutoff);
    let at = choose|k: int| 0 <= k < due.len() && due[k] == posts[i];
    assert(planned_files(due)[at] == file_for(posts[i]));
}

/// Posts with different identifiers are written to files with different
/// names.
pub proof fn lemma_file_names_differ(a: int, b: int)
    requires
        file_name_text(a) == file_name_text(b),
    ensures
        a == b,
{
    let ext = ".md"@;
    let x = decimal(a);
    let y = decimal(b);
    assert(x.len() + ext.len() == y.len() + ext.len()) by {
        assert((x + ext).len() == (y + ext).len());
    }
    assert(x =~= (x + ext).subrange(0, x.len() as int));
    assert(y =~= (y + ext).subrange(0, y.len() as int));
    lemma_decimal_injective(a, b);
}

proof fn lemma_due_posts_step(posts: Seq<PostView>, cutoff: int)
    requires
        posts.len() > 0,
    ensures
        is_due(posts.last(), cutoff) ==> due_posts(posts, cutoff) == due_posts(
            posts.drop_last(),
            cutoff,
        ).push(posts.last()),
        !is_due(posts.last(), cutoff) ==> due_posts(posts, cutoff) == due_posts(
            posts.drop_last(),
            cutoff,
        ),
{
    reveal(Seq::filter);
}

proof fn lemma_no_posts_due(cutoff: int)
    ensures
        due_posts(Seq::<PostView>::empty(), cutoff) == Seq::<PostView>::empty(),
{
    reveal(Seq::filter);
}

/// The name of the file that holds the post `id`.
pub fn file_name(id: i64) -> (name: String)
    ensures
        name@ == file_name_text(id as int),
{
    let mut name = decimal_string(id);
    name.append(".md");
    name
}

/// The name of an archive of all posts: `stem`, then `.zip`.
pub open spec fn archive_name_text(stem: Seq<char>) -> Seq<char> {
    stem + ".zip"@
}

/// The name of the archive file that holds an export of all posts; `stem`
/// is what tells one archive from another.
pub fn archive_file_name(stem: &str) -> (name: String)
    ensures
        name@ == archive_name_text(stem@),
{
    let mut name = String::from_str(stem);
    name.append(".zip");
    name
}

/// Tells whether `post` was created or updated at or after `cutoff`.
pub fn due(post: &Post, cutoff: i64) -> (b: bool)
    ensures
        b == is_due(post@, cutoff as int),
{
    post.created_at >= cutoff || match post.updated_at {
        Some(u) => u >= cutoff,
        None => false,
    }
}

/// Keeps those of `posts` that were created or updated at or after
/// `cutoff`, in their order.
pub fn posts_since(posts: Vec<Post>, cutoff: i64) -> (r: Vec<Post>)
    ensures
        post_views(r@) == due_posts(post_views(posts@), cutoff as int),
{
    let mut r: Vec<Post> = Vec::new();
    let ghost all = posts@;
    proof {
        lemma_no_posts_due(cutoff as int);
        assert(post_views(all.take(0)) =~= Seq::<PostView>::empty());
        assert(post_views(r@) =~= Seq::<PostView>::empty());
    }
    for p in it: posts
        invariant
            it.seq() == all,
            post_views(r@) == due_posts(post_views(all.take(it.index() as int)), cutoff as int),
    {
        let ghost before = post_views(r@);
        let ghost seen = post_views(all.take(it.index() + 1));
        proof {
            assert(seen.drop_last() =~= post_views(all.take(it.index() as int)));
            assert(seen.last() == p@);
            lemma_due_posts_step(seen, cutoff as int);
        }
        if due(&p, cutoff) {
            r.push(p);
            assert(post_views(r@) =~= before.push(p@));
        }
    }
    assert(all.take(all.len() as int) =~= all);
    r
}

/// The file that an export writes for `post`.
pub fn export_file(post: &Post) -> (file: ExportFile)
    ensures
        file@ == file_for(post@),
{
    ExportFile { name: file_name(post.id), content: render(post, Template::Hugo.name()) }
}

/// The files that an export of all of `posts` writes: one for each post,
/// in their order.
pub fn export_all(posts: &Vec<Post>) -> (files: Vec<ExportFile>)
    ensures
        file_views(files@) == planned_files(post_views(posts@)),
{
    let mut files: Vec<ExportFile> = Vec::new();
    let mut i: usize = 0;
    while i < posts.len()
        invariant
            i <= posts.len(),
            file_views(files@) == planned_files(post_views(posts@.take(i as int))),
        decreases posts.len() - i,
    {
        let ghost before = file_views(files@);
        files.push(export_file(&posts[i]));
        assert(file_views(files@) =~= before.push(file_for(posts@[i as int]@)));
        assert(planned_files(post_views(posts@.take(i + 1))) =~= planned_files(
            post_views(posts@.take(i as int)),
        ).push(file_for(posts@[i as int]@)));
        i = i + 1;
    }
    assert(posts@.take(posts@.len() as int) =~= posts@);
    files
}

/// The files that an export from `cutoff` writes: one for each of `posts`
/// that was created or updated at or after `cutoff`, in their order.
pub fn export_since(posts: &Vec<Post>, cutoff: i64) -> (files: Vec<ExportFile>)
    ensures
        file_views(files@) == planned_files(due_posts(post_views(posts@), cutoff as int)),
{
    let mut files: Vec<ExportFile> = Vec::new();
    let mut i: usize = 0;
    proof {
        lemma_no_posts_due(cutoff as int);
        assert(post_views(posts@.take(0)) =~= Seq::<PostView>::empty());
        assert(file_views(files@) =~= planned_files(Seq::<PostView>::empty()));
    }
    while i < posts.len()
        invariant
            i <= posts.len(),
            file_views(files@) == planned_files(
                due_posts(post_views(posts@.take(i as int)), cutoff as int),
            ),
        decreases posts.len() - i,
    {
        let ghost before = file_views(files@);
        let ghost earlier = due_posts(post_views(posts@.take(i as int)), cutoff as int);
        let ghost seen = post_views(posts@.take(i + 1));
        proof {
            assert(seen.drop_last() =~= post_views(posts@.take(i as int)));
            assert(seen.last() == posts@[i as int]@);
            lemma_due_posts_step(seen, cutoff as int);
        }
        if due(&posts[i], cutoff) {
            files.push(export_file(&posts[i]));
            assert(file_views(files@) =~= before.push(file_for(posts@[i as int]@)));
            assert(planned_files(earlier.push(posts@[i as int]@)) =~= planned_files(earlier).push(
                file_for(posts@[i as int]@),
            ));
        }
        i = i + 1;
    }
    assert(posts@.take(posts@.len() as int) =~= posts@);
    files
}

/// Whether `callback`, given `post` under its file name, can answer with
/// `outcome`.
pub open spec fn delivered<E, C: Fn(&String, &Post) -> Result<(), E>>(
    callback: C,
    post: Post,
    outcome: Result<(), E>,
) -> bool {
    exists|name: String|
        name@ == file_name_text(post.id as int) && call_ensures(callback, (&name, &post), outcome)
}

/// Whether `callback` accepts `post` under its file name.
pub open spec fn deliverable<E, C: Fn(&String, &Post) -> Result<(), E>>(
    callback: C,
    post: Post,
) -> bool {
    forall|name: String|
        name@ == file_name_text(post.id as int) ==> call_requires(callback, (&name, &post))
}

/// Hands each of `posts`, in order and under its file name, to `callback`,
/// which writes it. The first failure ends the export and is returned; the
/// posts after it are not handed over.
pub fn write_posts<E, C>(posts: &Vec<Post>, callback: C) -> (r: Result<(), E>) where
    C: Fn(&String, &Post) -> Result<(), E>,

    requires
        forall|i: int| 0 <= i < posts.len() ==> deliverable(callback, #[trigger] posts[i]),
    ensures
        match r {
            Ok(_) => forall|i: int|
                0 <= i < posts.len() ==> delivered(callback, #[trigger] posts[i], Ok(())),
            Err(e) => exists|k: int|
                0 <= k < posts.len() && delivered(callback, #[trigger] posts[k], Err(e)) && forall|
                    j: int,
                | 0 <= j < k ==> delivered(callback, #[trigger] posts[j], Ok(())),
        },
{
    let mut i: usize = 0;
    while i < posts.len()
        invariant
            i <= posts.len(),
            forall|i: int| 0 <= i < posts.len() ==> deliverable(callback, #[trigger] posts[i]),
            forall|j: int| 0 <= j < i ==> delivered(callback, #[trigger] posts[j], Ok(())),
        decreases posts.len() - i,
    {
        let name = file_name(posts[i].id);
        assert(deliverable(callback, posts[i as int]));
        match callback(&name, &posts[i]) {
            Err(e) => {
                assert(delivered(callback, posts[i as int], Err(e)));
                return Err(e);
            },
            Ok(u) => {
                assert(u == ());
                assert(delivered(callback, posts[i as int], Ok(())));
            },
        }
        i = i + 1;
    }
    Ok(())
}

} // verus!
