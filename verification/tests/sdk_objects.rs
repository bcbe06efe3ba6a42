use aws_sdk_s3::types::Object;
use cobalt_s3::listing::{page_contents, summarize, summarize_page};

#[test]
fn test_summarize_object() {
    let o = Object::builder().key("some-prefix/prefixed.txt").size(14).build();
    let s = summarize(&o);
    assert_eq!(s.key, "some-prefix/prefixed.txt");
    assert_eq!(s.size, Some(14));
}

#[test]
fn test_summarize_object_without_fields() {
    let bare = Object::builder().build();
    let s = summarize(&bare);
    assert_eq!(s.key, "");
    assert_eq!(s.size, None);
}

#[test]
fn test_page_contents_present() {
    let objs = vec![
        Object::builder().key("a.txt").build(),
        Object::builder().key("b.txt").build(),
    ];
    let got = page_contents(Some(objs));
    assert_eq!(got.len(), 2);
    assert_eq!(got[0].key(), Some("a.txt"));
    assert_eq!(got[1].key(), Some("b.txt"));
}

#[test]
fn test_page_contents_absent() {
    assert!(page_contents(None).is_empty());
}

#[test]
fn test_summarize_page_keeps_order() {
    let objs = vec![
        Object::builder().key("a.txt").size(1).build(),
        Object::builder().key("b.txt").size(2).build(),
        Object::builder().key("c.txt").size(3).build(),
    ];
    let s = summarize_page(objs);
    assert_eq!(s.len(), 3);
    assert_eq!(s[0].key, "a.txt");
    assert_eq!(s[0].size, Some(1));
    assert_eq!(s[1].key, "b.txt");
    assert_eq!(s[1].size, Some(2));
    assert_eq!(s[2].key, "c.txt");
    assert_eq!(s[2].size, Some(3));
}
