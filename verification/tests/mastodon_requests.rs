use media_poster::mastodon::{statuses_url, status_form};
use media_poster::{MastodonPost, MastodonVisibility};

fn pair(a: &str, b: &str) -> (String, String) {
    (a.to_string(), b.to_string())
}

#[test]
fn visibility_names() {
    assert_eq!(MastodonVisibility::Private.to_string(), "Private");
    assert_eq!(MastodonVisibility::Unlisted.to_string(), "Unlisted");
    assert_eq!(MastodonVisibility::Public.to_string(), "Public");
    assert_eq!(MastodonVisibility::Direct.to_string(), "Direct");
}

#[test]
fn visibility_form_values_are_lower_case_names() {
    for v in [
        MastodonVisibility::Private,
        MastodonVisibility::Unlisted,
        MastodonVisibility::Public,
        MastodonVisibility::Direct,
    ] {
        assert_eq!(v.form_value(), v.to_string().to_lowercase());
    }
    assert_eq!(MastodonVisibility::Private.form_value(), "private");
    assert_eq!(MastodonVisibility::Direct.form_value(), "direct");
}

#[test]
fn status_form_with_spoiler() {
    let post = MastodonPost {
        content: "Just testing right now; This post should be private".to_string(),
        visibility: MastodonVisibility::Private,
        spoiler_text: Some("HUGE SPOILERS FOR GPT5".to_string()),
    };
    assert_eq!(
        status_form(post),
        vec![
            pair("status", "Just testing right now; This post should be private"),
            pair("visibility", "private"),
            pair("spoiler_text", "HUGE SPOILERS FOR GPT5"),
        ]
    );
}

#[test]
fn status_form_without_spoiler() {
    let post = MastodonPost {
        content: "hello".to_string(),
        visibility: MastodonVisibility::Unlisted,
        spoiler_text: None,
    };
    assert_eq!(status_form(post), vec![pair("status", "hello"), pair("visibility", "unlisted")]);
}

#[test]
fn statuses_url_appends_the_path() {
    assert_eq!(statuses_url("https://mastodon.social"), "https://mastodon.social/api/v1/statuses");
    assert_eq!(statuses_url(""), "/api/v1/statuses");
}
