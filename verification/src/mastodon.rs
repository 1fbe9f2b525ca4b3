use vstd::prelude::*;
use crate::text::join2;

verus! {

/// Who can see a Mastodon status.
#[derive(Debug, Clone, Copy, PartialEq, Eq, Structural)]
pub enum MastodonVisibility {
    Private,
    Unlisted,
    Public,
    Direct,
}

/// The displayed name of a visibility: the name of its variant.
pub open spec fn visibility_name(v: MastodonVisibility) -> Seq<char> {
    match v {
        MastodonVisibility::Private => "Private"@,
        MastodonVisibility::Unlisted => "Unlisted"@,
        MastodonVisibility::Public => "Public"@,
        MastodonVisibility::Direct => "Direct"@,
    }
}

/// A character in lower case, where it is an ASCII capital.
pub open spec fn lower_char(c: char) -> char {
    if 'A' <= c && c <= 'Z' {
        ((c as u32) + 32) as char
    } else {
        c
    }
}

/// A text with its ASCII capitals in lower case.
pub open spec fn ascii_lowercase(s: Seq<char>) -> Seq<char> {
    s.map_values(|c: char| lower_char(c))
}

impl MastodonVisibility {
    /// The displayed name of the visibility.
    pub fn to_string(&self) -> (name: String)
        ensures
            name@ == visibility_name(*self),
    {
        match self {
            MastodonVisibility::Private => String::from_str("Private"),
            MastodonVisibility::Unlisted => String::from_str("Unlisted"),
            MastodonVisibility::Public => String::from_str("Public"),
            MastodonVisibility::Direct => String::from_str("Direct"),
        }
    }

    /// The value that Mastodon's form takes: the displayed name in lower
    /// case.
    pub fn form_value(&self) -> (value: String)
        ensures
            value@ == ascii_lowercase(visibility_name(*self)),
    {
        proof {
            reveal_strlit("Private");
            reveal_strlit("private");
            reveal_strlit("Unlisted");
            reveal_strlit("unlisted");
            reveal_strlit("Public");
            reveal_strlit("public");
            reveal_strlit("Direct");
            reveal_strlit("direct");
        }
        match self {
            MastodonVisibility::Private => {
                let v = String::from_str("private");
                assert(v@ =~= ascii_lowercase("Private"@));
                v
            },
            MastodonVisibility::Unlisted => {
                let v = String::from_str("unlisted");
                assert(v@ =~= ascii_lowercase("Unlisted"@));
                v
            },
            MastodonVisibility::Public => {
                let v = String::from_str("public");
                assert(v@ =~= ascii_lowercase("Public"@));
                v
            },
            MastodonVisibility::Direct => {
                let v = String::from_str("direct");
                assert(v@ =~= ascii_lowercase("Direct"@));
                v
            },
        }
    }
}

/// A status to publish on Mastodon.
#[derive(Debug)]
pub struct MastodonPost {
    pub content: String,
    pub visibility: MastodonVisibility,
    /// Warning text that will be shown before the actual post
    pub spoiler_text: Option<String>,
}

/// The form that creates a status: `status` with the content,
/// `visibility`, and `spoiler_text` where the post has one.
pub fn status_form(post: MastodonPost) -> (form: Vec<(String, String)>)
    ensures
        post.spoiler_text is None ==> form@.len() == 2,
        post.spoiler_text matches Some(s) ==> (form@.len() == 3 && form@[2].0@
            == "spoiler_text"@ && form@[2].1@ == s@),
        form@[0].0@ == "status"@ && form@[0].1@ == post.content@,
        form@[1].0@ == "visibility"@ && form@[1].1@ == ascii_lowercase(
            visibility_name(post.visibility),
        ),
{
    let visibility = post.visibility.form_value();
    let mut form: Vec<(String, String)> = Vec::new();
    form.push((String::from_str("status"), post.content));
    form.push((String::from_str("visibility"), visibility));
    if let Some(spoiler_text) = post.spoiler_text {
        form.push((String::from_str("spoiler_text"), spoiler_text));
    }
    form
}

/// Where a status is created on the instance at `base_url`.
pub fn statuses_url(base_url: &str) -> (url: String)
    ensures
        url@ == base_url@ + "/api/v1/statuses"@,
{
    join2(base_url, "/api/v1/statuses")
}

} // verus!
