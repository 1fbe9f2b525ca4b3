use media_poster::{MediaPosterError, MediaSource};

#[test]
fn media_source_names() {
    assert_eq!(MediaSource::Twitter.to_string(), "Twitter");
    assert_eq!(MediaSource::Reddit.to_string(), "Reddit");
    assert_eq!(MediaSource::YouTubeCommunity.to_string(), "YouTubeCommunity");
    assert_eq!(MediaSource::Mastodon.to_string(), "Mastodon");
}

#[test]
fn io_error_message() {
    let e = MediaPosterError::IO { source: "timed out".to_string() };
    assert_eq!(e.to_string(), "Can't process web request:\n`timed out`");
}

#[test]
fn env_error_message() {
    let e = MediaPosterError::Env { source: "environment variable not found".to_string() };
    assert_eq!(e.to_string(), "Can't process env variable:\n`environment variable not found`");
}

#[test]
fn serialization_error_message() {
    let e = MediaPosterError::Serialization {
        media_source: MediaSource::Reddit,
        error_details: "bad map".to_string(),
    };
    assert_eq!(e.to_string(), "Can't serialize post info for Reddit; details:\nbad map");
}

#[test]
fn auth_error_message() {
    let e = MediaPosterError::Auth(MediaSource::Reddit, "invalid_grant".to_string());
    assert_eq!(e.to_string(), "Can't auth to Reddit; Error: invalid_grant");
}

#[test]
fn submission_error_message_quotes_the_name() {
    let e = MediaPosterError::Sumbition {
        media_source: MediaSource::Reddit,
        error_name: ".error.SUBREDDIT_NOEXIST".to_string(),
        error_details: "that subreddit doesn't exist".to_string(),
    };
    assert_eq!(
        e.to_string(),
        "Can't submit post to Reddit; \".error.SUBREDDIT_NOEXIST\" details:\nthat subreddit doesn't exist"
    );
}

#[test]
fn submission_error_message_escapes_the_name() {
    let e = MediaPosterError::Sumbition {
        media_source: MediaSource::Mastodon,
        error_name: "a\"b\n".to_string(),
        error_details: "x".to_string(),
    };
    assert_eq!(e.to_string(), "Can't submit post to Mastodon; \"a\\\"b\\n\" details:\nx");
}
