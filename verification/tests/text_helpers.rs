use media_poster::text::{join2, same_text, starts_with};

#[test]
fn prefixes() {
    assert!(starts_with("https://www.reddit.com/", "https://"));
    assert!(!starts_with("http://www.reddit.com/", "https://"));
    assert!(starts_with(".error.RATELIMIT", ".error."));
    assert!(!starts_with(".err", ".error."));
    assert!(starts_with("anything", ""));
    assert!(starts_with("ÈªëÈ£é", "Èª"));
}

#[test]
fn equal_texts() {
    assert!(same_text("text", "text"));
    assert!(!same_text("text", "texts"));
    assert!(!same_text("Text", "text"));
    assert!(same_text("", ""));
}

#[test]
fn joined_texts() {
    assert_eq!(join2("a", "bc"), "abc");
    assert_eq!(join2("", ""), "");
}
