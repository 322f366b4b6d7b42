use hastepilot::hastebin::{gh_redirect, root_redirect, RECENT_LIMIT, STATUS_PERMANENT_REDIRECT};
use hastepilot::clock::Timestamp;
use hastepilot::hastebin::{
    create_paste, default_config, finish_create_paste, finish_get_paste, finish_list_pastes,
    handler_404, health, prepare_paste, AppConfig, CreatePaste, Paste, MAX_PASTE_SIZE,
};
use hastepilot::ids::{new_paste_id, PASTE_ID_LEN};

fn is_url_safe(c: char) -> bool {
    c == '_' || c == '-' || c.is_ascii_digit() || c.is_ascii_lowercase() || c.is_ascii_uppercase()
}

fn paste(id: &str, content: &str) -> Paste {
    Paste { id: id.to_string(), content: content.to_string(), created_at: Timestamp { secs: 1700000000, nanos: 5 } }
}

#[test]
fn health_says_ok() {
    assert_eq!(health().contents, "ok");
}

#[test]
fn unknown_route_is_404() {
    let r = handler_404();
    assert_eq!(r.status, 404);
    assert_eq!(r.body.contents, "Route not found, check your URL!");
}

#[test]
fn default_limit_is_3200_characters() {
    assert_eq!(default_config().max_paste_size, 3200);
    assert_eq!(MAX_PASTE_SIZE, 3200);
}

#[test]
fn paste_at_the_limit_is_accepted() {
    let cfg = default_config();
    let content = "a".repeat(3200);
    let now = Timestamp { secs: 10, nanos: 20 };
    let r = prepare_paste(&cfg, CreatePaste { content: content.clone() }, "abcdefghij".to_string(), now);
    let p = r.ok().expect("accepted");
    assert_eq!(p.id, "abcdefghij");
    assert_eq!(p.content, content);
    assert_eq!(p.created_at.secs, 10);
    assert_eq!(p.created_at.nanos, 20);
}

#[test]
fn paste_over_the_limit_is_refused() {
    let cfg = default_config();
    let r = prepare_paste(&cfg, CreatePaste { content: "a".repeat(3201) }, "x".to_string(), Timestamp { secs: 0, nanos: 0 });
    let e = r.err().expect("refused");
    assert_eq!(e.status, 413);
    assert_eq!(e.body.contents, "Too large!");
}

#[test]
fn limit_counts_characters() {
    let cfg = default_config();
    // 3200 two-byte characters are 6400 bytes, and still within the limit
    let r = create_paste(&cfg, CreatePaste { content: "é".repeat(3200) });
    assert!(r.is_ok());
    let r = create_paste(&cfg, CreatePaste { content: "é".repeat(3201) });
    assert_eq!(r.err().expect("refused").status, 413);
}

#[test]
fn tiny_limit_from_config() {
    let cfg = AppConfig { max_paste_size: 2 };
    assert!(create_paste(&cfg, CreatePaste { content: "ab".to_string() }).is_ok());
    assert!(create_paste(&cfg, CreatePaste { content: "abc".to_string() }).is_err());
    assert!(create_paste(&cfg, CreatePaste { content: String::new() }).is_ok());
}

#[test]
fn created_paste_has_fresh_safe_id() {
    let cfg = default_config();
    let p = create_paste(&cfg, CreatePaste { content: "hello".to_string() }).ok().unwrap();
    assert_eq!(p.content, "hello");
    assert_eq!(p.id.chars().count(), 10);
    assert!(p.id.chars().all(is_url_safe));
    assert!(p.created_at.secs > 1_600_000_000);
}

#[test]
fn paste_ids_are_ten_url_safe_characters() {
    assert_eq!(PASTE_ID_LEN, 10);
    let a = new_paste_id();
    let b = new_paste_id();
    assert_eq!(a.len(), 10);
    assert!(a.chars().all(is_url_safe));
    assert!(b.chars().all(is_url_safe));
    assert_ne!(a, b);
}

#[test]
fn stored_paste_is_answered_with_201() {
    let (status, p) = finish_create_paste(paste("id1", "text"), Ok(())).ok().unwrap();
    assert_eq!(status, 201);
    assert_eq!(p.id, "id1");
    assert_eq!(p.content, "text");
    assert_eq!(p.created_at.secs, 1700000000);
}

#[test]
fn failed_store_is_answered_with_500() {
    let e = finish_create_paste(paste("id1", "text"), Err("disk full".to_string())).err().unwrap();
    assert_eq!(e.status, 500);
    assert_eq!(e.body.contents, "database error!: disk full");
}

#[test]
fn listing_passes_rows_through() {
    let rows = vec![paste("b", "2"), paste("a", "1")];
    let list = finish_list_pastes(Ok(rows)).ok().unwrap();
    assert_eq!(list.len(), 2);
    assert_eq!(list[0].id, "b");
    assert_eq!(list[1].content, "1");
    let e = finish_list_pastes(Err("locked".to_string())).err().unwrap();
    assert_eq!(e.status, 500);
    assert_eq!(e.body.contents, "database error!: locked");
}

#[test]
fn reading_a_paste() {
    let p = finish_get_paste(Ok(Some(paste("abc", "body")))).ok().unwrap();
    assert_eq!(p.id, "abc");
    assert_eq!(p.content, "body");
    let e = finish_get_paste(Ok(None)).err().unwrap();
    assert_eq!(e.status, 404);
    assert_eq!(e.body.contents, "Paste not found");
    let e = finish_get_paste(Err("gone".to_string())).err().unwrap();
    assert_eq!(e.status, 500);
    assert_eq!(e.body.contents, "database error!: gone");
}

#[test]
fn redirect_targets() {
    assert_eq!(gh_redirect().location, "https://github.com/obobed/resolution-w3");
    assert_eq!(root_redirect().location, "/docs");
    assert_eq!(STATUS_PERMANENT_REDIRECT, 308);
    assert_eq!(RECENT_LIMIT, 50);
}
