use blog_sync::export::{export_all, export_since, file_name, posts_since, write_posts, ExportFile};
use blog_sync::post::Post;
use blog_sync::render::{render, rendered_or_empty, Template};
use std::cell::RefCell;

fn post(id: i64, title: &str, body: &str, created_at: i64, updated_at: Option<i64>) -> Post {
    Post {
        id,
        title: title.to_string(),
        markdown_content: body.to_string(),
        rendered_content: String::new(),
        created_at,
        updated_at,
    }
}

#[test]
fn render_fills_the_hugo_template() {
    let p = post(7, "Hello", "Some *text*.", 10, None);
    assert_eq!(render(&p, "hugo.md"), "---\ntitle: \"Hello\"\n---\n\nSome *text*.\n");
}

#[test]
fn render_does_not_escape_or_expand_what_a_post_holds() {
    let p = post(7, "a < b & \"c\"", "{{ title }} <p>x</p>", 10, None);
    assert_eq!(
        render(&p, "hugo.md"),
        "---\ntitle: \"a < b & \"c\"\"\n---\n\n{{ title }} <p>x</p>\n"
    );
}

#[test]
fn render_takes_any_title_and_body() {
    let empty = post(7, "", "", 10, None);
    assert_eq!(render(&empty, "hugo.md"), "---\ntitle: \"\"\n---\n\n\n");
    let odd = post(7, "标题 {% if %} \\ \n", "{# no comment #}\r\n{{ get_env(name=\"HOME\") }} 😀", 10, None);
    assert_eq!(
        render(&odd, "hugo.md"),
        "---\ntitle: \"标题 {% if %} \\ \n\"\n---\n\n{# no comment #}\r\n{{ get_env(name=\"HOME\") }} 😀\n"
    );
}

#[test]
fn render_with_an_unknown_template_is_empty() {
    let p = post(7, "Hello", "text", 10, None);
    assert_eq!(render(&p, "jekyll.md"), "");
    assert_eq!(render(&p, ""), "");
}

#[test]
fn template_names() {
    assert_eq!(Template::named("hugo.md"), Some(Template::Hugo));
    assert_eq!(Template::named("hugo"), None);
    assert_eq!(Template::Hugo.name(), "hugo.md");
    assert!(Template::Hugo.source().contains("{{ content }}"));
}

#[test]
fn rendered_or_empty_keeps_text_and_drops_errors() {
    assert_eq!(rendered_or_empty(Ok("abc".to_string())), "abc");
    assert_eq!(rendered_or_empty(Err(tera::Error::msg("broken"))), "");
}

#[test]
fn file_names_are_the_identifier_and_md() {
    assert_eq!(file_name(0), "0.md");
    assert_eq!(file_name(42), "42.md");
    assert_eq!(file_name(1500), "1500.md");
    assert_eq!(file_name(-5), "-5.md");
    assert_eq!(file_name(i64::MAX), "9223372036854775807.md");
    assert_eq!(file_name(i64::MIN), "-9223372036854775808.md");
}

#[test]
fn export_all_writes_one_file_per_post() {
    let posts = vec![post(1, "A", "a", 5, None), post(2, "B", "b", 6, None)];
    let files = export_all(&posts);
    assert_eq!(
        files,
        vec![
            ExportFile { name: "1.md".to_string(), content: "---\ntitle: \"A\"\n---\n\na\n".to_string() },
            ExportFile { name: "2.md".to_string(), content: "---\ntitle: \"B\"\n---\n\nb\n".to_string() },
        ]
    );
    assert_eq!(export_all(&Vec::new()), Vec::new());
}

#[test]
fn export_since_takes_posts_created_or_updated_at_or_after_the_cutoff() {
    let posts = vec![
        post(1, "old", "a", 900, None),
        post(2, "new", "b", 1500, None),
        post(3, "edited", "c", 100, Some(1000)),
        post(4, "edited early", "d", 100, Some(999)),
        post(5, "on the dot", "e", 1000, None),
    ];
    let names: Vec<String> = export_since(&posts, 1000).into_iter().map(|f| f.name).collect();
    assert_eq!(names, vec!["2.md", "3.md", "5.md"]);
    let kept: Vec<i64> = posts_since(posts, 1000).into_iter().map(|p| p.id).collect();
    assert_eq!(kept, vec![2, 3, 5]);
}

#[test]
fn export_since_twice_gives_identical_files() {
    let posts = vec![post(1, "old", "a", 900, None), post(2, "new", "b", 1500, None)];
    let first = export_since(&posts, 1000);
    let second = export_since(&posts, 1000);
    assert_eq!(first, second);
    let mut dir = std::collections::BTreeMap::new();
    dir.insert("9.md".to_string(), "kept".to_string());
    for f in first {
        dir.insert(f.name, f.content);
    }
    let after_first = dir.clone();
    for f in second {
        dir.insert(f.name, f.content);
    }
    assert_eq!(dir, after_first);
    assert_eq!(dir.len(), 2);
}

#[test]
fn write_posts_hands_over_every_post_in_order() {
    let posts = vec![post(3, "A", "a", 5, None), post(1, "B", "b", 6, None)];
    let seen: RefCell<Vec<(String, i64)>> = RefCell::new(Vec::new());
    let r: Result<(), String> = write_posts(&posts, |name: &String, p: &Post| {
        seen.borrow_mut().push((name.clone(), p.id));
        Ok(())
    });
    assert_eq!(r, Ok(()));
    assert_eq!(seen.into_inner(), vec![("3.md".to_string(), 3), ("1.md".to_string(), 1)]);
}

#[test]
fn write_posts_stops_at_the_first_failure() {
    let posts = vec![post(1, "A", "a", 5, None), post(2, "B", "b", 6, None), post(3, "C", "c", 7, None)];
    let seen: RefCell<Vec<String>> = RefCell::new(Vec::new());
    let r: Result<(), String> = write_posts(&posts, |name: &String, p: &Post| {
        seen.borrow_mut().push(name.clone());
        if p.id == 2 {
            Err(format!("disk full at {}", name))
        } else {
            Ok(())
        }
    });
    assert_eq!(r, Err("disk full at 2.md".to_string()));
    assert_eq!(seen.into_inner(), vec!["1.md", "2.md"]);
}
