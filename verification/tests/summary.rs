use blog_sync::post::{review_rendered_content, try_review_rendered_content, SUMMARY_BYTES};
use blog_sync::text::{
    chars_of, cut_point, decimal_string, find_pattern, mentions_word, remove_all, same_text, strip_first_tag,
};

fn chars(s: &str) -> Vec<char> {
    s.chars().collect()
}

fn text(v: Vec<char>) -> String {
    v.into_iter().collect()
}

#[test]
fn short_text_is_kept() {
    assert_eq!(review_rendered_content("plain text"), "plain text");
    assert_eq!(review_rendered_content(""), "");
}

#[test]
fn only_the_first_tag_is_taken_out() {
    assert_eq!(review_rendered_content("<p>Hello <b>world</b></p>"), "Hello <b>world</b></p>");
    assert_eq!(review_rendered_content("a <br/> b"), "a  b");
    assert_eq!(review_rendered_content("1 < 2"), "1 < 2");
    assert_eq!(review_rendered_content("a > b <i>c"), "a > b c");
    assert_eq!(review_rendered_content("<>x"), "x");
}

#[test]
fn written_out_line_breaks_are_taken_out() {
    assert_eq!(review_rendered_content("one\\ntwo\\n"), "onetwo");
    assert_eq!(review_rendered_content("one\ntwo"), "one\ntwo");
    assert_eq!(review_rendered_content("a\\\\nb"), "a\\b");
    assert_eq!(review_rendered_content("<p>a\\nb</p>"), "ab</p>");
}

#[test]
fn long_text_is_cut_to_two_hundred_bytes() {
    let long = "x".repeat(500);
    assert_eq!(review_rendered_content(&long), "x".repeat(200));
    let exact = "y".repeat(200);
    assert_eq!(review_rendered_content(&exact), exact);
    let just_under = "z".repeat(199);
    assert_eq!(review_rendered_content(&just_under), just_under);
    assert_eq!(SUMMARY_BYTES, 200);
}

#[test]
fn bytes_are_counted_not_characters() {
    // 100 characters of two bytes each make 200 bytes
    let two = "é".repeat(150);
    assert_eq!(review_rendered_content(&two), "é".repeat(100));
    // 198 bytes, then a character of two bytes: the cut falls behind it
    let mixed = format!("{}é{}", "a".repeat(198), "b".repeat(50));
    assert_eq!(review_rendered_content(&mixed), format!("{}é", "a".repeat(198)));
    assert_eq!(review_rendered_content(&mixed).len(), 200);
}

#[test]
fn a_cut_inside_a_character_gives_none() {
    // 199 bytes, then a character of three bytes: byte 200 is inside it
    let inside = format!("{}中{}", "a".repeat(199), "b".repeat(50));
    assert_eq!(try_review_rendered_content(&inside), None);
    // the same text, shorter than the limit, is kept whole
    let short = format!("{}中", "a".repeat(190));
    assert_eq!(try_review_rendered_content(&short), Some(short.clone()));
    let four = format!("{}😀", "a".repeat(197));
    assert_eq!(try_review_rendered_content(&four), None);
    let four_fits = format!("{}😀", "a".repeat(196));
    assert_eq!(try_review_rendered_content(&four_fits), Some(four_fits.clone()));
}

#[test]
fn try_review_agrees_with_review() {
    for s in ["", "<p>abc</p>", "a\\nb", "no tags at all"] {
        assert_eq!(try_review_rendered_content(s), Some(review_rendered_content(s)));
    }
}

#[test]
fn strip_first_tag_on_characters() {
    assert_eq!(text(strip_first_tag(&chars("a<b>c<d>e"))), "ac<d>e");
    assert_eq!(text(strip_first_tag(&chars("a<b"))), "a<b");
    assert_eq!(text(strip_first_tag(&chars("a>b<c"))), "a>b<c");
    assert_eq!(text(strip_first_tag(&chars("<<x>>"))), ">");
    assert_eq!(text(strip_first_tag(&chars(""))), "");
}

#[test]
fn remove_all_goes_from_left_to_right() {
    assert_eq!(text(remove_all(&chars("aaa"), &chars("aa"))), "a");
    assert_eq!(text(remove_all(&chars("abcabc"), &chars("bc"))), "aa");
    assert_eq!(text(remove_all(&chars("abab"), &chars("abab"))), "");
    assert_eq!(text(remove_all(&chars("ab"), &chars("abc"))), "ab");
    assert_eq!(text(remove_all(&chars("xaby"), &chars("ab"))), "xy");
    assert_eq!(text(remove_all(&chars("aabb"), &chars("ab"))), "ab");
    assert_eq!(text(remove_all(&chars("aabb"), &chars(""))), "aabb");
    assert_eq!(text(remove_all(&chars(""), &chars(""))), "");
}

#[test]
fn cut_point_counts_utf8_bytes() {
    assert_eq!(cut_point(&chars("hello"), 3), Some(3));
    assert_eq!(cut_point(&chars("hello"), 5), Some(5));
    assert_eq!(cut_point(&chars("hello"), 6), Some(5));
    assert_eq!(cut_point(&chars("hello"), 0), Some(0));
    assert_eq!(cut_point(&chars("é中😀"), 2), Some(1));
    assert_eq!(cut_point(&chars("é中😀"), 5), Some(2));
    assert_eq!(cut_point(&chars("é中😀"), 9), Some(3));
    assert_eq!(cut_point(&chars("é中😀"), 1), None);
    assert_eq!(cut_point(&chars("é中😀"), 3), None);
    assert_eq!(cut_point(&chars("é中😀"), 8), None);
    for s in ["é中😀", "abc", "\u{7f}\u{80}\u{7ff}\u{800}\u{ffff}\u{10000}"] {
        assert_eq!(cut_point(&chars(s), s.len()), Some(s.chars().count()));
        assert_eq!(cut_point(&chars(s), s.len() + 1), Some(s.chars().count()));
    }
}

#[test]
fn decimal_strings() {
    for n in [0i64, 1, 9, 10, 11, 99, 100, 1000, 1500, -1, -10, -999, i64::MAX, i64::MIN] {
        assert_eq!(decimal_string(n), n.to_string());
    }
}

#[test]
fn text_helpers() {
    assert_eq!(chars_of("héllo"), vec!['h', 'é', 'l', 'l', 'o']);
    assert!(same_text("abc", "abc"));
    assert!(!same_text("abc", "abd"));
    assert!(!same_text("abc", "ab"));
    assert!(same_text("", ""));
}

#[test]
fn patterns_are_found_where_they_first_stand() {
    assert_eq!(find_pattern(&chars("abcabc"), &chars("bc"), 0), 1);
    assert_eq!(find_pattern(&chars("abcabc"), &chars("bc"), 2), 4);
    assert_eq!(find_pattern(&chars("abcabc"), &chars("bc"), 5), 6);
    assert_eq!(find_pattern(&chars("abcabc"), &chars("cb"), 0), 6);
    assert_eq!(find_pattern(&chars("ab"), &chars("abc"), 0), 2);
    assert_eq!(find_pattern(&chars("abc"), &chars(""), 1), 1);
    assert_eq!(find_pattern(&chars(""), &chars(""), 0), 0);
    assert!(mentions_word(&chars("one two"), "e t"));
    assert!(mentions_word(&chars("one two"), "two"));
    assert!(mentions_word(&chars("one two"), ""));
    assert!(!mentions_word(&chars("one two"), "One"));
    assert!(!mentions_word(&chars("on"), "one"));
    assert!(mentions_word(&chars(""), ""));
}
