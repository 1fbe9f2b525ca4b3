use vstd::prelude::*;
use crate::media::{MediaSource, media_source_name};
use crate::text::{debug_text, debug_quoted, has_prefix};

verus! {

/// What can go wrong while publishing a post.
///
/// Errors of the web client and of the environment are held by the text
/// that they display.
#[derive(Debug)]
pub enum MediaPosterError {
    /// A web request failed.
    IO { source: String },
    /// A variable of the environment could not be read.
    Env { source: String },
    /// The post could not be put into the service's form.
    Serialization { media_source: MediaSource, error_details: String },
    /// The service refused to authenticate.
    Auth(MediaSource, String),
    /// The service refused the post.
    Sumbition { media_source: MediaSource, error_name: String, error_details: String },
}

/// The message that an error displays.
pub open spec fn error_message(e: MediaPosterError) -> Seq<char> {
    match e {
        MediaPosterError::IO { source } =>
            "Can't process web request:\n`"@ + source@ + "`"@,
        MediaPosterError::Env { source } =>
            "Can't process env variable:\n`"@ + source@ + "`"@,
        MediaPosterError::Serialization { media_source, error_details } =>
            "Can't serialize post info for "@ + media_source_name(media_source) + "; details:\n"@
                + error_details@,
        MediaPosterError::Auth(media_source, details) =>
            "Can't auth to "@ + media_source_name(media_source) + "; Error: "@ + details@,
        MediaPosterError::Sumbition { media_source, error_name, error_details } =>
            "Can't submit post to "@ + media_source_name(media_source) + "; "@
                + debug_text(error_name@) + " details:\n"@ + error_details@,
    }
}

impl MediaPosterError {
    /// The message of the error.
    pub fn to_string(&self) -> (message: String)
        ensures
            message@ == error_message(*self),
    {
        match self {
            MediaPosterError::IO { source } => {
                let mut m = String::from_str("Can't process web request:\n`");
                m.append(source.as_str());
                m.append("`");
                m
            },
            MediaPosterError::Env { source } => {
                let mut m = String::from_str("Can't process env variable:\n`");
                m.append(source.as_str());
                m.append("`");
                m
            },
            MediaPosterError::Serialization { media_source, error_details } => {
                let mut m = String::from_str("Can't serialize post info for ");
                let name = media_source.to_string();
                m.append(name.as_str());
                m.append("; details:\n");
                m.append(error_details.as_str());
                m
            },
            MediaPosterError::Auth(media_source, details) => {
                let mut m = String::from_str("Can't auth to ");
                let name = media_source.to_string();
                m.append(name.as_str());
                m.append("; Error: ");
                m.append(details.as_str());
                m
            },
            MediaPosterError::Sumbition { media_source, error_name, error_details } => {
                let mut m = String::from_str("Can't submit post to ");
                let name = media_source.to_string();
                m.append(name.as_str());
                m.append("; ");
                let quoted = debug_quoted(error_name.as_str());
                m.append(quoted.as_str());
                m.append(" details:\n");
                m.append(error_details.as_str());
                m
            },
        }
    }
}

/// `suffix` closes `s`.
pub open spec fn has_suffix(s: Seq<char>, suffix: Seq<char>) -> bool {
    suffix.len() <= s.len() && s.subrange(s.len() - suffix.len(), s.len() as int) == suffix
}

/// Every message opens with "Can't " and names what went wrong: the text
/// of a web or environment error stands just before its closing back-quote,
/// and the details of the other errors close the message, right after the
/// name of the service, which the message carries.
pub proof fn law_error_message(e: MediaPosterError)
    ensures
        has_prefix(error_message(e), "Can't "@),
        match e {
            MediaPosterError::IO { source } => has_suffix(error_message(e), source@ + "`"@),
            MediaPosterError::Env { source } => has_suffix(error_message(e), source@ + "`"@),
            MediaPosterError::Serialization { media_source, error_details } => has_suffix(
                error_message(e),
                media_source_name(media_source) + "; details:\n"@ + error_details@,
            ),
            MediaPosterError::Auth(media_source, details) => has_suffix(
                error_message(e),
                media_source_name(media_source) + "; Error: "@ + details@,
            ),
            MediaPosterError::Sumbition { media_source, error_name, error_details } => has_suffix(
                error_message(e),
                debug_text(error_name@) + " details:\n"@ + error_details@,
            ) && has_prefix(
                error_message(e),
                "Can't submit post to "@ + media_source_name(media_source),
            ),
        },
{
    reveal_strlit("Can't ");
    reveal_strlit("Can't process web request:\n`");
    reveal_strlit("Can't process env variable:\n`");
    reveal_strlit("Can't serialize post info for ");
    reveal_strlit("Can't auth to ");
    reveal_strlit("Can't submit post to ");
    let m = error_message(e);
    match e {
        MediaPosterError::IO { source } => {
            let head = "Can't process web request:\n`"@;
            assert(m == head + (source@ + "`"@));
            assert(m.subrange(0, 6) =~= "Can't "@);
            assert(m.subrange(m.len() - (source@ + "`"@).len(), m.len() as int) =~= source@ + "`"@);
        },
        MediaPosterError::Env { source } => {
            let head = "Can't process env variable:\n`"@;
            assert(m == head + (source@ + "`"@));
            assert(m.subrange(0, 6) =~= "Can't "@);
            assert(m.subrange(m.len() - (source@ + "`"@).len(), m.len() as int) =~= source@ + "`"@);
        },
        MediaPosterError::Serialization { media_source, error_details } => {
            let head = "Can't serialize post info for "@;
            let tail = media_source_name(media_source) + "; details:\n"@ + error_details@;
            assert(m =~= head + tail);
            assert(m.subrange(0, 6) =~= "Can't "@);
            assert(m.subrange(m.len() - tail.len(), m.len() as int) =~= tail);
        },
        MediaPosterError::Auth(media_source, details) => {
            let head = "Can't auth to "@;
            let tail = media_source_name(media_source) + "; Error: "@ + details@;
            assert(m =~= head + tail);
            assert(m.subrange(0, 6) =~= "Can't "@);
            assert(m.subrange(m.len() - tail.len(), m.len() as int) =~= tail);
        },
        MediaPosterError::Sumbition { media_source, error_name, error_details } => {
            let head = "Can't submit post to "@ + media_source_name(media_source);
            let tail = debug_text(error_name@) + " details:\n"@ + error_details@;
            assert(m =~= head + "; "@ + tail);
            assert(m.subrange(0, 6) =~= "Can't "@);
            assert(m.subrange(0, head.len() as int) =~= head);
            assert(m.subrange(m.len() - tail.len(), m.len() as int) =~= tail);
        },
    }
}

} // verus!
