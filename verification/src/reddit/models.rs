use vstd::prelude::*;
use crate::reddit::form::{fields_view, FieldValue, Fields, FormValue, PostForm};
use crate::reddit::order::{
    distinct_keys, has_key, lemma_lookup_at, lemma_lookup_take_step, lookup, sorted_by_key,
};

verus! {

/// The kinds of post Reddit takes (link, self, image, video, videogif),
/// each with its own fields.
#[derive(Debug)]
pub enum RedditPostKind {
    /// A text post, the kind Reddit calls "self".
    Yourself { markdown_text: String },
    Link { url: String },
    Image { url: String, caption: Option<String> },
    Video { url: String, video_poster_url: String },
    VideoGif { url: String, video_poster_url: String },
}

/// A post to Reddit.
#[derive(Debug)]
pub struct RedditPost {
    pub kind: RedditPostKind,
    pub title: String,
    pub flair: Option<String>,
    pub nsfw: bool,
    pub spoiler: bool,
    pub sendreplies: bool,
}

/// A text field.
pub open spec fn text_field(key: Seq<char>, value: Seq<char>) -> (Seq<char>, FieldValue) {
    (key, FieldValue::Text(value))
}

/// The fields that a kind of post adds to the form: `kind` with the kind's
/// name, then the kind's own fields; an image's caption only where it has
/// one.
pub open spec fn kind_fields(kind: RedditPostKind) -> Fields {
    match kind {
        RedditPostKind::Image { url, caption } => seq![
            text_field("kind"@, "image"@),
            text_field("url"@, url@),
        ] + match caption {
            Some(c) => seq![text_field("caption"@, c@)],
            None => Seq::<(Seq<char>, FieldValue)>::empty(),
        },
        RedditPostKind::Link { url } => seq![
            text_field("kind"@, "link"@),
            text_field("url"@, url@),
        ],
        RedditPostKind::Video { url, video_poster_url } => seq![
            text_field("kind"@, "video"@),
            text_field("url"@, url@),
            text_field("video_poster_url"@, video_poster_url@),
        ],
        RedditPostKind::VideoGif { url, video_poster_url } => seq![
            text_field("kind"@, "videogif"@),
            text_field("url"@, url@),
            text_field("video_poster_url"@, video_poster_url@),
        ],
        RedditPostKind::Yourself { markdown_text } => seq![
            text_field("kind"@, "self"@),
            text_field("text"@, markdown_text@),
        ],
    }
}

/// The fields of a post's form: those of its kind, then `title`, `flair`
/// where the post has one, `nsfw`, `spoiler` and `sendreplies`.
pub open spec fn post_fields(post: RedditPost) -> Fields {
    kind_fields(post.kind) + seq![text_field("title"@, post.title@)] + match post.flair {
        Some(f) => seq![text_field("flair"@, f@)],
        None => Seq::<(Seq<char>, FieldValue)>::empty(),
    } + seq![
        ("nsfw"@, FieldValue::Flag(post.nsfw)),
        ("spoiler"@, FieldValue::Flag(post.spoiler)),
        ("sendreplies"@, FieldValue::Flag(post.sendreplies)),
    ]
}

fn text_pair(key: &str, value: &String) -> (r: (String, FormValue))
    ensures
        (r.0@, r.1@) == text_field(key@, value@),
{
    (String::from_str(key), FormValue::Text(value.clone()))
}

fn literal_pair(key: &str, value: &str) -> (r: (String, FormValue))
    ensures
        (r.0@, r.1@) == text_field(key@, value@),
{
    (String::from_str(key), FormValue::Text(String::from_str(value)))
}

fn flag_pair(key: &str, value: bool) -> (r: (String, FormValue))
    ensures
        (r.0@, r.1@) == (key@, FieldValue::Flag(value)),
{
    (String::from_str(key), FormValue::Flag(value))
}

impl RedditPostKind {
    /// The fields that the kind adds to a post's form.
    pub fn form_fields(&self) -> (fields: Vec<(String, FormValue)>)
        ensures
            fields_view(fields@) == kind_fields(*self),
    {
        let mut fields: Vec<(String, FormValue)> = Vec::new();
        match self {
            RedditPostKind::Image { url, caption } => {
                fields.push(literal_pair("kind", "image"));
                fields.push(text_pair("url", url));
                match caption {
                    Some(c) => {
                        fields.push(text_pair("caption", c));
                    },
                    None => {},
                }
            },
            RedditPostKind::Link { url } => {
                fields.push(literal_pair("kind", "link"));
                fields.push(text_pair("url", url));
            },
            RedditPostKind::Video { url, video_poster_url } => {
                fields.push(literal_pair("kind", "video"));
                fields.push(text_pair("url", url));
                fields.push(text_pair("video_poster_url", video_poster_url));
            },
            RedditPostKind::VideoGif { url, video_poster_url } => {
                fields.push(literal_pair("kind", "videogif"));
                fields.push(text_pair("url", url));
                fields.push(text_pair("video_poster_url", video_poster_url));
            },
            RedditPostKind::Yourself { markdown_text } => {
                fields.push(literal_pair("kind", "self"));
                fields.push(text_pair("text", markdown_text));
            },
        }
        assert(fields_view(fields@) =~= kind_fields(*self));
        fields
    }
}

/// The keys of a post's form are distinct, and none of them is `sr`.
pub proof fn lemma_post_fields_keys(post: RedditPost)
    ensures
        distinct_keys(post_fields(post)),
        !has_key(post_fields(post), "sr"@),
{
    reveal_strlit("kind");
    reveal_strlit("url");
    reveal_strlit("caption");
    reveal_strlit("video_poster_url");
    reveal_strlit("text");
    reveal_strlit("title");
    reveal_strlit("flair");
    reveal_strlit("nsfw");
    reveal_strlit("spoiler");
    reveal_strlit("sendreplies");
    reveal_strlit("sr");
    let f = post_fields(post);
    assert forall|i: int, j: int| 0 <= i < f.len() && 0 <= j < f.len() && i != j implies #[trigger] f[i].0
        != #[trigger] f[j].0 by {
        assert(f[i].0.len() != f[j].0.len() || f[i].0[0] != f[j].0[0]);
    }
    assert forall|i: int| 0 <= i < f.len() implies #[trigger] f[i].0 != "sr"@ by {
        assert(f[i].0.len() != 2);
    }
}

fn copy_value(value: &FormValue) -> (copy: FormValue)
    ensures
        copy@ == value@,
{
    match value {
        FormValue::Text(s) => FormValue::Text(s.clone()),
        FormValue::Flag(b) => FormValue::Flag(*b),
    }
}

impl RedditPost {
    /// The post as the form Reddit's submit call takes: a JSON object that
    /// gives each of the post's fields its value.
    pub fn to_form(&self) -> (form: PostForm)
        ensures
            sorted_by_key(form@),
            forall|k: Seq<char>| #[trigger] lookup(form@, k) == lookup(post_fields(*self), k),
    {
        let mut fields = self.kind.form_fields();
        fields.push(text_pair("title", &self.title));
        match &self.flair {
            Some(f) => {
                fields.push(text_pair("flair", f));
            },
            None => {},
        }
        fields.push(flag_pair("nsfw", self.nsfw));
        fields.push(flag_pair("spoiler", self.spoiler));
        fields.push(flag_pair("sendreplies", self.sendreplies));
        let ghost all = fields_view(fields@);
        assert(all =~= post_fields(*self));
        proof {
            lemma_post_fields_keys(*self);
        }
        let mut form = PostForm::empty();
        let n = fields.len();
        let mut i: usize = 0;
        assert(all.take(0) =~= Seq::<(Seq<char>, FieldValue)>::empty());
        while i < n
            invariant
                n == fields@.len(),
                all == fields_view(fields@),
                n == all.len(),
                distinct_keys(all),
                i <= n,
                sorted_by_key(form@),
                forall|k: Seq<char>| #[trigger] lookup(form@, k) == lookup(all.take(i as int), k),
            decreases n - i,
        {
            let key = fields[i].0.clone();
            let value = copy_value(&fields[i].1);
            assert((key@, value@) == all[i as int]);
            let ghost before = form@;
            form.insert(key, value);
            proof {
                lemma_lookup_take_step(all, i as int);
                assert forall|k: Seq<char>| #[trigger] lookup(form@, k) == lookup(
                    all.take(i + 1),
                    k,
                ) by {
                    if k != all[i as int].0 {
                        assert(lookup(form@, k) == lookup(before, k));
                    }
                }
            }
            i = i + 1;
        }
        assert(all.take(n as int) =~= all);
        form
    }
}

/// No key is looked up in a list of fields that does not hold it.
proof fn lemma_lookup_absent(fields: Fields, key: Seq<char>)
    requires
        forall|i: int| 0 <= i < fields.len() ==> #[trigger] fields[i].0 != key,
    ensures
        lookup(fields, key) is None,
{
}

/// The value of a text field.
pub open spec fn text_value(t: Seq<char>) -> Option<FieldValue> {
    Some(FieldValue::Text(t))
}

/// The fields that a kind of post adds to the form: `kind` with the name
/// of the kind, and each of the kind's texts under its own key, whatever
/// the texts hold; an image's caption is there exactly when the image has
/// one. No other key is there, and no key twice.
pub proof fn law_kind_fields(kind: RedditPostKind)
    ensures
        distinct_keys(kind_fields(kind)),
        match kind {
            RedditPostKind::Yourself { markdown_text } => {
                &&& kind_fields(kind).len() == 2
                &&& lookup(kind_fields(kind), "kind"@) == text_value("self"@)
                &&& lookup(kind_fields(kind), "text"@) == text_value(markdown_text@)
            },
            RedditPostKind::Link { url } => {
                &&& kind_fields(kind).len() == 2
                &&& lookup(kind_fields(kind), "kind"@) == text_value("link"@)
                &&& lookup(kind_fields(kind), "url"@) == text_value(url@)
            },
            RedditPostKind::Image { url, caption } => {
                &&& kind_fields(kind).len() == if caption is Some {
                    3int
                } else {
                    2int
                }
                &&& lookup(kind_fields(kind), "kind"@) == text_value("image"@)
                &&& lookup(kind_fields(kind), "url"@) == text_value(url@)
                &&& lookup(kind_fields(kind), "caption"@) == match caption {
                    Some(c) => text_value(c@),
                    None => None,
                }
            },
            RedditPostKind::Video { url, video_poster_url } => {
                &&& kind_fields(kind).len() == 3
                &&& lookup(kind_fields(kind), "kind"@) == text_value("video"@)
                &&& lookup(kind_fields(kind), "url"@) == text_value(url@)
                &&& lookup(kind_fields(kind), "video_poster_url"@) == text_value(
                    video_poster_url@,
                )
            },
            RedditPostKind::VideoGif { url, video_poster_url } => {
                &&& kind_fields(kind).len() == 3
                &&& lookup(kind_fields(kind), "kind"@) == text_value("videogif"@)
                &&& lookup(kind_fields(kind), "url"@) == text_value(url@)
                &&& lookup(kind_fields(kind), "video_poster_url"@) == text_value(
                    video_poster_url@,
                )
            },
        },
{
    reveal_strlit("kind");
    reveal_strlit("url");
    reveal_strlit("caption");
    reveal_strlit("video_poster_url");
    reveal_strlit("text");
    reveal_strlit("title");
    reveal_strlit("flair");
    reveal_strlit("nsfw");
    reveal_strlit("spoiler");
    reveal_strlit("sendreplies");
    reveal_strlit("sr");
    let f = kind_fields(kind);
    assert forall|i: int, j: int| 0 <= i < f.len() && 0 <= j < f.len() && i != j implies #[trigger] f[i].0
        != #[trigger] f[j].0 by {
        assert(f[i].0.len() != f[j].0.len() || f[i].0[0] != f[j].0[0]);
    }
    lemma_lookup_at(f, 0);
    lemma_lookup_at(f, 1);
    if f.len() > 2 {
        lemma_lookup_at(f, 2);
    }
    match kind {
        RedditPostKind::Image { url, caption } => {
            if caption is None {
                assert forall|i: int| 0 <= i < f.len() implies #[trigger] f[i].0 != "caption"@ by {
                    assert(f[i].0.len() != 7);
                }
                lemma_lookup_absent(f, "caption"@);
            }
        },
        _ => {},
    }
}

/// The keys of a kind's fields depend only on the kind of post (and, for
/// an image, on whether it has a caption), never on what its texts hold.
pub proof fn law_kind_keys_depend_only_on_the_kind(a: RedditPostKind, b: RedditPostKind)
    requires
        (a is Yourself && b is Yourself) || (a is Link && b is Link) || (a is Video && b is Video)
            || (a is VideoGif && b is VideoGif) || (a matches RedditPostKind::Image {
            caption: ca,
            ..
        } && b matches RedditPostKind::Image { caption: cb, .. } && ca.is_some()
            == cb.is_some()),
    ensures
        kind_fields(a).len() == kind_fields(b).len(),
        forall|i: int| 0 <= i < kind_fields(a).len() ==> #[trigger] kind_fields(a)[i].0 == kind_fields(b)[i].0,
{
}

/// The fields of a post's form: `title` with its title, `flair` exactly
/// when the post has one (whatever its kind), the three flags, and under
/// every other key what the post's kind puts there.
pub proof fn law_post_fields(post: RedditPost)
    ensures
        lookup(post_fields(post), "title"@) == text_value(post.title@),
        lookup(post_fields(post), "flair"@) == match post.flair {
            Some(f) => text_value(f@),
            None => None,
        },
        lookup(post_fields(post), "nsfw"@) == Some(FieldValue::Flag(post.nsfw)),
        lookup(post_fields(post), "spoiler"@) == Some(FieldValue::Flag(post.spoiler)),
        lookup(post_fields(post), "sendreplies"@) == Some(FieldValue::Flag(post.sendreplies)),
        forall|k: Seq<char>|
            k != "title"@ && k != "flair"@ && k != "nsfw"@ && k != "spoiler"@ && k
                != "sendreplies"@ ==> #[trigger] lookup(post_fields(post), k) == lookup(
                kind_fields(post.kind),
                k,
            ),
{
    reveal_strlit("kind");
    reveal_strlit("url");
    reveal_strlit("caption");
    reveal_strlit("video_poster_url");
    reveal_strlit("text");
    reveal_strlit("title");
    reveal_strlit("flair");
    reveal_strlit("nsfw");
    reveal_strlit("spoiler");
    reveal_strlit("sendreplies");
    reveal_strlit("sr");
    lemma_post_fields_keys(post);
    law_kind_fields(post.kind);
    let f = post_fields(post);
    let kf = kind_fields(post.kind);
    let n = kf.len() as int;
    assert(f[n].0 == "title"@);
    lemma_lookup_at(f, n);
    let flag_at = if post.flair is Some {
        n + 2
    } else {
        n + 1
    };
    if post.flair is Some {
        assert(f[n + 1].0 == "flair"@);
        lemma_lookup_at(f, n + 1);
    } else {
        assert forall|i: int| 0 <= i < f.len() implies #[trigger] f[i].0 != "flair"@ by {
            if i >= n {
                assert(f[i].0.len() != 5 || f[i].0[0] != 'f');
            } else {
                assert(f[i] == kf[i]);
                assert(kf[i].0.len() != 5 || kf[i].0[0] != 'f');
            }
        }
        lemma_lookup_absent(f, "flair"@);
    }
    lemma_lookup_at(f, flag_at);
    lemma_lookup_at(f, flag_at + 1);
    lemma_lookup_at(f, flag_at + 2);
    assert forall|k: Seq<char>|
        k != "title"@ && k != "flair"@ && k != "nsfw"@ && k != "spoiler"@ && k != "sendreplies"@
            implies #[trigger] lookup(f, k) == lookup(kf, k) by {
        if has_key(kf, k) {
            let i = crate::reddit::order::key_index(kf, k);
            assert(f[i] == kf[i]);
            lemma_lookup_at(kf, i);
            lemma_lookup_at(f, i);
        } else {
            assert forall|i: int| 0 <= i < f.len() implies #[trigger] f[i].0 != k by {
                if i < n {
                    assert(f[i] == kf[i]);
                }
            }
            lemma_lookup_absent(f, k);
        }
    }
}

} // verus!
