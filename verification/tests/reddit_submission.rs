use media_poster::reddit::{
    JsonValue, RedditRawSubmitResponse, RedditSubmission, RedditSubmitResponse, SubmissionStep,
};
use media_poster::{MediaPosterError, MediaSource, RedditPost, RedditPostKind};

fn t(s: &str) -> JsonValue {
    JsonValue::Text(s.to_string())
}

fn arr(v: Vec<JsonValue>) -> JsonValue {
    JsonValue::Array(v)
}

fn call(i: u32, last: JsonValue) -> Vec<JsonValue> {
    let _ = i;
    vec![JsonValue::Other, JsonValue::Other, t("call"), last]
}

fn attr(name: &str) -> Vec<JsonValue> {
    vec![JsonValue::Other, JsonValue::Other, t("attr"), t(name)]
}

fn read(jquery: Vec<Vec<JsonValue>>, success: bool) -> RedditSubmitResponse {
    let raw = RedditRawSubmitResponse { jquery, success };
    assert!(raw.is_readable());
    RedditSubmitResponse::from_raw(&raw)
}

fn expect_failure(r: RedditSubmitResponse, name: &str, details: &str) {
    match r {
        RedditSubmitResponse::Failure { error_name, error_details } => {
            assert_eq!(error_name, name);
            assert_eq!(error_details, details);
        }
        RedditSubmitResponse::Success { .. } => panic!("expected a failure"),
    }
}

const UNKNOWN_DETAILS: &str = "Couldn't parse error info from API response!";

#[test]
fn success_gives_first_secure_link() {
    let jquery = vec![
        attr("find"),
        call(1, arr(vec![t("body")])),
        call(2, arr(vec![t("http://insecure.example/")])),
        call(3, arr(vec![t("https://www.reddit.com/r/x/comments/1/")])),
        call(4, arr(vec![t("https://second.example/")])),
    ];
    match read(jquery, true) {
        RedditSubmitResponse::Success { submition_link } => {
            assert_eq!(submition_link, "https://www.reddit.com/r/x/comments/1/")
        }
        _ => panic!("expected a success"),
    }
}

#[test]
fn success_skips_arrays_of_other_lengths() {
    let jquery = vec![
        call(1, arr(vec![t("https://a.example/"), t("x")])),
        call(2, arr(vec![])),
        call(3, arr(vec![JsonValue::Other])),
    ];
    expect_failure(read(jquery, true), "UNKNOWN", UNKNOWN_DETAILS);
}

#[test]
fn success_without_link_is_unknown() {
    expect_failure(read(vec![], true), "UNKNOWN", UNKNOWN_DETAILS);
    expect_failure(read(vec![vec![]], true), "UNKNOWN", UNKNOWN_DETAILS);
}

#[test]
fn failure_reads_error_and_details() {
    let jquery = vec![
        attr("find"),
        call(1, arr(vec![t(".error.SUBREDDIT_NOEXIST.field-sr")])),
        attr("show"),
        attr("find"),
        call(2, arr(vec![t("span")])),
        attr("text"),
        call(3, arr(vec![t("that subreddit doesn't exist")])),
    ];
    expect_failure(
        read(jquery, false),
        ".error.SUBREDDIT_NOEXIST.field-sr",
        "that subreddit doesn't exist",
    );
}

#[test]
fn failure_skips_text_marker_without_details() {
    let jquery = vec![
        call(1, arr(vec![t(".error.RATELIMIT")])),
        attr("text"),
        attr("show"),
        attr("text"),
        call(2, arr(vec![t("you are doing that too much"), t("extra")])),
    ];
    expect_failure(read(jquery, false), ".error.RATELIMIT", "you are doing that too much");
}

#[test]
fn failure_without_error_code_is_unknown() {
    let jquery = vec![call(1, arr(vec![t("not an error")])), attr("text"), call(2, arr(vec![t("d")]))];
    expect_failure(read(jquery, false), "UNKNOWN", UNKNOWN_DETAILS);
}

#[test]
fn failure_without_details_is_unknown() {
    let jquery = vec![call(1, arr(vec![t(".error.X")])), attr("show")];
    expect_failure(read(jquery, false), "UNKNOWN", UNKNOWN_DETAILS);
}

#[test]
fn failure_flag_ignores_links() {
    let jquery = vec![call(1, arr(vec![t("https://www.reddit.com/")]))];
    expect_failure(read(jquery, false), "UNKNOWN", UNKNOWN_DETAILS);
}

#[test]
fn text_marker_at_the_end_is_unreadable() {
    let raw = RedditRawSubmitResponse {
        jquery: vec![call(1, arr(vec![t(".error.X")])), attr("text")],
        success: false,
    };
    assert!(!raw.is_readable());
    let ok = RedditRawSubmitResponse { jquery: vec![attr("text")], success: false };
    assert!(ok.is_readable());
}

fn post() -> RedditPost {
    RedditPost {
        kind: RedditPostKind::Link { url: "https://example.org".to_string() },
        title: "T".to_string(),
        flair: None,
        nsfw: false,
        spoiler: false,
        sendreplies: true,
    }
}

fn submit_form(step: &SubmissionStep) -> (String, Vec<(String, String)>) {
    match step {
        SubmissionStep::Submit { subreddit, form } => (subreddit.clone(), form.clone()),
        SubmissionStep::Finished => panic!("expected a submission"),
    }
}

#[test]
fn submits_to_each_subreddit_in_turn() {
    let mut run = RedditSubmission::new(&post(), vec!["r/a".to_string(), "r/b".to_string()]);
    let base = post().to_form().to_pairs();

    let (sr, form) = submit_form(&run.next_step());
    assert_eq!(sr, "r/a");
    let mut expected = base.clone();
    expected.push(("sr".to_string(), "r/a".to_string()));
    expected.sort();
    assert_eq!(form, expected);
    assert_eq!(
        form.iter().map(|(k, _)| k.as_str()).collect::<Vec<_>>(),
        vec!["kind", "nsfw", "sendreplies", "spoiler", "sr", "title", "url"]
    );

    let link = run
        .record_response(RedditSubmitResponse::Success { submition_link: "https://l/1".to_string() })
        .ok()
        .unwrap();
    assert_eq!(link, "https://l/1");

    let (sr, form) = submit_form(&run.next_step());
    assert_eq!(sr, "r/b");
    let mut expected = base.clone();
    expected.push(("sr".to_string(), "r/b".to_string()));
    expected.sort();
    assert_eq!(form, expected);

    assert!(run
        .record_response(RedditSubmitResponse::Success { submition_link: "https://l/2".to_string() })
        .is_ok());
    assert!(matches!(run.next_step(), SubmissionStep::Finished));
}

#[test]
fn refusal_stops_the_run() {
    let mut run = RedditSubmission::new(&post(), vec!["r/a".to_string(), "r/b".to_string()]);
    let _ = run.next_step();
    let r = run.record_response(RedditSubmitResponse::Failure {
        error_name: ".error.X".to_string(),
        error_details: "no".to_string(),
    });
    match r {
        Err(MediaPosterError::Sumbition { media_source, error_name, error_details }) => {
            assert_eq!(media_source, MediaSource::Reddit);
            assert_eq!(error_name, ".error.X");
            assert_eq!(error_details, "no");
        }
        _ => panic!("expected a submission error"),
    }
    assert!(matches!(run.next_step(), SubmissionStep::Finished));
}

#[test]
fn refusal_in_the_middle_skips_the_rest() {
    let targets = vec!["r/a".to_string(), "r/b".to_string(), "r/c".to_string()];
    let mut run = RedditSubmission::new(&post(), targets);
    let mut sent = Vec::new();
    let answers = [true, false, true];
    let mut k = 0;
    while let SubmissionStep::Submit { subreddit, .. } = run.next_step() {
        sent.push(subreddit);
        let response = if answers[k] {
            RedditSubmitResponse::Success { submition_link: "https://l".to_string() }
        } else {
            RedditSubmitResponse::Failure { error_name: "e".to_string(), error_details: "d".to_string() }
        };
        k += 1;
        if run.record_response(response).is_err() {
            break;
        }
    }
    assert_eq!(sent, vec!["r/a".to_string(), "r/b".to_string()]);
    assert!(matches!(run.next_step(), SubmissionStep::Finished));
}

#[test]
fn no_subreddits_means_finished() {
    let run = RedditSubmission::new(&post(), vec![]);
    assert!(matches!(run.next_step(), SubmissionStep::Finished));
}
