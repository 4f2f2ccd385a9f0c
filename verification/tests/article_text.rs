use newsletter_auth::article::{
    article_snippet, list_articles, one_article_gate, ArticleRecord, UserModel, SNIPPET_CHARS,
};
use newsletter_auth::template::replace_all;

fn bytes(s: &str) -> Vec<u8> {
    s.as_bytes().to_vec()
}

fn sub(text: &str, pattern: &str, replacement: &str) -> String {
    String::from_utf8(replace_all(&bytes(text), &bytes(pattern), &bytes(replacement))).unwrap()
}

fn record(id: i32, title: &str, content: &str) -> ArticleRecord {
    ArticleRecord {
        id,
        title: title.to_string(),
        content: content.to_string(),
        uuid: format!("00000000-0000-0000-0000-0000000000{:02}", id),
        user_id: 7,
        created_at_secs: 1_700_000_000,
        created_at_nanos: 250_000,
        image: None,
    }
}

#[test]
fn test_article_snippet_lengths() {
    assert_eq!(article_snippet("short"), "short");
    assert_eq!(article_snippet(""), "");
    let exact = "x".repeat(SNIPPET_CHARS);
    assert_eq!(article_snippet(&exact), exact);
    let long = format!("{}{}", "y".repeat(SNIPPET_CHARS), "cut away");
    assert_eq!(article_snippet(&long), "y".repeat(SNIPPET_CHARS));
}

#[test]
fn test_replace_all_fills_placeholders() {
    assert_eq!(sub("Read {{ title }} now", "{{ title }}", "News"), "Read News now");
    assert_eq!(sub("{{ a }}-{{ a }}", "{{ a }}", "b"), "b-b");
    assert_eq!(sub("untouched", "{{ a }}", "b"), "untouched");
    assert_eq!(sub("", "{{ a }}", "b"), "");
    // Leftmost, non-overlapping: the match consumes its text.
    assert_eq!(sub("aaa", "aa", "x"), "xa");
    // The replacement is never rescanned.
    assert_eq!(sub("ab", "ab", "abab"), "abab");
    let template = "<h1>{{ title }}</h1><p>{{ snippet }}</p><a href=\"{{ article_link }}\">read</a>";
    let step = sub(template, "{{ title }}", "Fresh");
    let step = sub(&step, "{{ snippet }}", "First words");
    let step = sub(&step, "{{ article_link }}", "http://localhost:8080/a/1");
    assert_eq!(step, "<h1>Fresh</h1><p>First words</p><a href=\"http://localhost:8080/a/1\">read</a>");
}

#[test]
fn test_list_articles_keeps_rows() {
    let rows = vec![record(1, "One", "first"), record(2, "Two", "second")];
    let out = list_articles(&rows);
    assert_eq!(out.len(), 2);
    assert_eq!(out[0].id, 1);
    assert_eq!(out[0].title, "One");
    assert_eq!(out[0].content, "first");
    assert_eq!(out[0].uuid, rows[0].uuid);
    assert_eq!(out[0].user_id, 7);
    assert_eq!(out[0].created_at_secs, 1_700_000_000);
    assert_eq!(out[0].created_at_nanos, 250_000);
    assert!(out[0].image.is_none());
    assert!(out[0].user.is_none());
    assert_eq!(out[1].id, 2);
    assert_eq!(out[1].title, "Two");
}

#[test]
fn test_one_article_gate_outcomes() {
    let e = one_article_gate(None).unwrap_err();
    assert_eq!(e.status_code, 404);
    assert_eq!(e.body, "No article Found");

    let author = UserModel { name: "Ann".to_string(), email: "ann@example.com".to_string() };
    let m = one_article_gate(Some((record(3, "Three", "third"), Some(author)))).unwrap();
    assert_eq!(m.id, 3);
    assert_eq!(m.title, "Three");
    let joined = m.user.unwrap();
    assert_eq!(joined.name, "Ann");
    assert_eq!(joined.email, "ann@example.com");

    let bare = one_article_gate(Some((record(4, "Four", "fourth"), None))).unwrap();
    assert!(bare.user.is_none());
}
