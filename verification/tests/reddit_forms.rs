use media_poster::reddit::auth::{access_token_url, auth_form, submit_url};
use media_poster::reddit::{FormValue, PostForm, RedditAuthResponse};
use media_poster::{MediaPosterError, MediaSource, RedditPost, RedditPostKind};

fn pair(a: &str, b: &str) -> (String, String) {
    (a.to_string(), b.to_string())
}

fn self_post() -> RedditPost {
    RedditPost {
        kind: RedditPostKind::Yourself {
            markdown_text: "**YO!!!!** New RedditPost struct is so much better now".to_string(),
        },
        nsfw: false,
        sendreplies: true,
        spoiler: true,
        title: "NO WAY; IT WORKS!".to_string(),
        flair: None,
    }
}

#[test]
fn self_post_form() {
    let form = self_post().to_form();
    assert_eq!(
        form.to_pairs(),
        vec![
            pair("kind", "self"),
            pair("nsfw", "false"),
            pair("sendreplies", "true"),
            pair("spoiler", "true"),
            pair("text", "**YO!!!!** New RedditPost struct is so much better now"),
            pair("title", "NO WAY; IT WORKS!"),
        ]
    );
}

#[test]
fn image_post_form_with_caption_and_flair() {
    let post = RedditPost {
        kind: RedditPostKind::Image {
            url: "https://i.example/cat.png".to_string(),
            caption: Some("a cat".to_string()),
        },
        title: "Cat".to_string(),
        flair: Some("pets".to_string()),
        nsfw: true,
        spoiler: false,
        sendreplies: false,
    };
    assert_eq!(
        post.to_form().to_pairs(),
        vec![
            pair("caption", "a cat"),
            pair("flair", "pets"),
            pair("kind", "image"),
            pair("nsfw", "true"),
            pair("sendreplies", "false"),
            pair("spoiler", "false"),
            pair("title", "Cat"),
            pair("url", "https://i.example/cat.png"),
        ]
    );
}

#[test]
fn image_kind_without_caption() {
    let kind = RedditPostKind::Image { url: "u".to_string(), caption: None };
    let fields: Vec<(String, String)> =
        kind.form_fields().iter().map(|(k, v)| (k.clone(), v.to_text())).collect();
    assert_eq!(fields, vec![pair("kind", "image"), pair("url", "u")]);
}

#[test]
fn link_video_and_gif_kinds() {
    let texts = |kind: RedditPostKind| -> Vec<(String, String)> {
        kind.form_fields().iter().map(|(k, v)| (k.clone(), v.to_text())).collect()
    };
    assert_eq!(
        texts(RedditPostKind::Link { url: "https://x".to_string() }),
        vec![pair("kind", "link"), pair("url", "https://x")]
    );
    assert_eq!(
        texts(RedditPostKind::Video { url: "v".to_string(), video_poster_url: "p".to_string() }),
        vec![pair("kind", "video"), pair("url", "v"), pair("video_poster_url", "p")]
    );
    assert_eq!(
        texts(RedditPostKind::VideoGif { url: "g".to_string(), video_poster_url: "q".to_string() }),
        vec![pair("kind", "videogif"), pair("url", "g"), pair("video_poster_url", "q")]
    );
}

#[test]
fn insert_adds_then_replaces() {
    let mut form = self_post().to_form();
    let n = form.len();
    form.insert("sr".to_string(), FormValue::Text("r/first".to_string()));
    assert_eq!(form.len(), n + 1);
    form.insert("sr".to_string(), FormValue::Text("r/second".to_string()));
    assert_eq!(form.len(), n + 1);
    let pairs = form.to_pairs();
    assert_eq!(pairs[4], pair("sr", "r/second"));
    assert_eq!(pairs.iter().filter(|(k, _)| k == "sr").count(), 1);
}

#[test]
fn insert_replaces_in_place() {
    let mut form = self_post().to_form();
    form.insert("title".to_string(), FormValue::Text("other".to_string()));
    assert_eq!(form.to_pairs()[5], pair("title", "other"));
    form.insert("nsfw".to_string(), FormValue::Flag(true));
    assert_eq!(form.to_pairs()[1], pair("nsfw", "true"));
    assert_eq!(form.len(), 6);
}

#[test]
fn setting_twice_equals_setting_once() {
    let mut twice = self_post().to_form();
    twice.insert("sr".to_string(), FormValue::Text("a".to_string()));
    twice.insert("sr".to_string(), FormValue::Text("b".to_string()));
    let mut once = self_post().to_form();
    once.insert("sr".to_string(), FormValue::Text("b".to_string()));
    assert_eq!(twice.to_pairs(), once.to_pairs());
}

#[test]
fn duplicate_is_independent() {
    let form = self_post().to_form();
    let before = form.to_pairs();
    let mut copy = form.duplicate();
    assert_eq!(copy.to_pairs(), before);
    copy.insert("sr".to_string(), FormValue::Text("r/x".to_string()));
    assert_eq!(form.to_pairs(), before);
    let mut expected = before.clone();
    expected.push(pair("sr", "r/x"));
    expected.sort();
    assert_eq!(copy.to_pairs(), expected);
}

#[test]
fn pairs_come_in_key_order() {
    let mut form = PostForm::empty();
    for key in ["zeta", "Alpha", "beta", "alpha", "é", "b"] {
        form.insert(key.to_string(), FormValue::Flag(true));
    }
    let keys: Vec<String> = form.to_pairs().into_iter().map(|(k, _)| k).collect();
    assert_eq!(keys, vec!["Alpha", "alpha", "b", "beta", "zeta", "é"]);
}

#[test]
fn empty_form() {
    let mut form = PostForm::empty();
    assert_eq!(form.len(), 0);
    form.insert("k".to_string(), FormValue::Flag(false));
    assert_eq!(form.to_pairs(), vec![pair("k", "false")]);
}

#[test]
fn flag_and_text_values() {
    assert_eq!(FormValue::Flag(true).to_text(), "true");
    assert_eq!(FormValue::Flag(false).to_text(), "false");
    assert_eq!(FormValue::Text("t".to_string()).to_text(), "t");
}

#[test]
fn reddit_addresses() {
    assert_eq!(access_token_url(), "https://www.reddit.com//api/v1/access_token");
    assert_eq!(submit_url(), "https://oauth.reddit.com/api/submit");
}

#[test]
fn reddit_auth_form() {
    assert_eq!(
        auth_form("user", "secret"),
        vec![pair("grant_type", "password"), pair("username", "user"), pair("password", "secret")]
    );
}

#[test]
fn auth_data_gives_token() {
    let r = RedditAuthResponse::AuthData { access_token: "tok".to_string() }.into_access_token();
    assert!(matches!(r, Ok(ref t) if t == "tok"));
}

#[test]
fn auth_error_is_reddit_auth_error() {
    let r = RedditAuthResponse::ErrorData { error: "invalid_grant".to_string() }.into_access_token();
    match r {
        Err(MediaPosterError::Auth(MediaSource::Reddit, e)) => assert_eq!(e, "invalid_grant"),
        _ => panic!("expected an authentication error"),
    }
}
