use vstd::prelude::*;
use crate::error::MediaPosterError;
use crate::media::MediaSource;
use crate::reddit::form::{
    field_text, lemma_form_pairs, pairs_view, FieldValue, Fields, FormValue,
    PostForm,
};
use crate::reddit::models::{lemma_post_fields_keys, post_fields, RedditPost};
use crate::reddit::order::{has_key, law_sorted_is_unique, lookup, sorted_by_key};
use crate::reddit::submit_response::RedditSubmitResponse;

verus! {

/// The texts of a list of strings.
pub open spec fn strings_view(strings: Seq<String>) -> Seq<Seq<char>> {
    strings.map_values(|s: String| s@)
}

/// The text of a value that may be missing.
pub open spec fn option_text(value: Option<FieldValue>) -> Option<Seq<char>> {
    match value {
        Some(v) => Some(field_text(v)),
        None => None,
    }
}

/// `pairs` is the form sent to `subreddit`: the post's fields as texts,
/// `sr` with the subreddit, and nothing else, in order of their keys.
pub open spec fn subreddit_pairs(
    pairs: Seq<(Seq<char>, Seq<char>)>,
    base: Fields,
    subreddit: Seq<char>,
) -> bool {
    &&& sorted_by_key(pairs)
    &&& lookup(pairs, "sr"@) == Some(subreddit)
    &&& forall|k: Seq<char>|
        k != "sr"@ ==> #[trigger] lookup(pairs, k) == option_text(lookup(base, k))
}

/// The subreddit that a run submits to next, after `submitted` of the
/// `targets` took the post: none once all have, or once one refused it.
pub open spec fn next_target(targets: Seq<Seq<char>>, submitted: nat, refused: bool) -> Option<
    Seq<char>,
> {
    if !refused && submitted < targets.len() {
        Some(targets[submitted as int])
    } else {
        None
    }
}

/// How far a run has come, and whether it was refused, once Reddit
/// answered a submission with a success (`accepted`) or a refusal.
pub open spec fn after_answer(count: nat, submitted: nat, refused: bool, accepted: bool) -> (
    nat,
    bool,
) {
    if accepted {
        (if submitted < count { submitted + 1 } else { submitted }, refused)
    } else {
        (submitted, true)
    }
}

/// The subreddits that a run submits to, in order, when it stands at
/// `(submitted, refused)` and Reddit answers each submission in turn as
/// `answers` says (true for a success). Where the answers run out, the
/// run waits after its last submission.
pub open spec fn run_submissions(
    targets: Seq<Seq<char>>,
    submitted: nat,
    refused: bool,
    answers: Seq<bool>,
) -> Seq<Seq<char>>
    decreases answers.len(),
{
    match next_target(targets, submitted, refused) {
        None => Seq::empty(),
        Some(target) => if answers.len() == 0 {
            seq![target]
        } else {
            let (s, r) = after_answer(targets.len(), submitted, refused, answers[0]);
            seq![target] + run_submissions(targets, s, r, answers.drop_first())
        },
    }
}

/// Whether the run has nothing left to submit once Reddit answered as
/// `answers` says, from `(submitted, refused)` on.
pub open spec fn run_finished(
    targets: Seq<Seq<char>>,
    submitted: nat,
    refused: bool,
    answers: Seq<bool>,
) -> bool
    decreases answers.len(),
{
    match next_target(targets, submitted, refused) {
        None => true,
        Some(target) => if answers.len() == 0 {
            false
        } else {
            let (s, r) = after_answer(targets.len(), submitted, refused, answers[0]);
            run_finished(targets, s, r, answers.drop_first())
        },
    }
}

/// What the poster does next. A form to submit lists its fields in the
/// order of their keys.
#[derive(Debug)]
pub enum SubmissionStep {
    /// Submit this form, meant for this subreddit.
    Submit { subreddit: String, form: Vec<(String, String)> },
    /// Every subreddit took the post.
    Finished,
}

/// Publishing one post to a list of subreddits, one after the other,
/// stopping at the first that refuses it.
///
/// The web requests are made by the caller: it asks `next_step` what to
/// submit, sends it, and hands Reddit's answer to `record_response`.
pub struct RedditSubmission {
    form: PostForm,
    targets: Vec<String>,
    submitted: usize,
    refused: bool,
}

impl RedditSubmission {
    #[verifier::type_invariant]
    closed spec fn consistent(&self) -> bool {
        &&& self.submitted <= self.targets@.len()
        &&& !has_key(self.form@, "sr"@)
    }

    /// The fields of the post, without a subreddit.
    pub closed spec fn base_fields(&self) -> Fields {
        self.form@
    }

    /// The subreddits, in the order in which they are tried.
    pub closed spec fn targets(&self) -> Seq<Seq<char>> {
        strings_view(self.targets@)
    }

    /// How many subreddits took the post so far.
    pub closed spec fn submitted(&self) -> nat {
        self.submitted as nat
    }

    /// Whether a subreddit refused the post, which ends the run.
    pub closed spec fn refused(&self) -> bool {
        self.refused
    }

    /// A run that will submit `post` to each of `targets` in turn.
    pub fn new(post: &RedditPost, targets: Vec<String>) -> (run: RedditSubmission)
        ensures
            sorted_by_key(run.base_fields()),
            forall|k: Seq<char>| #[trigger] lookup(run.base_fields(), k) == lookup(
                post_fields(*post),
                k,
            ),
            run.targets() == strings_view(targets@),
            run.submitted() == 0,
            !run.refused(),
    {
        let form = post.to_form();
        proof {
            lemma_post_fields_keys(*post);
            assert(lookup(form@, "sr"@) is None);
        }
        RedditSubmission {
            form,
            targets,
            submitted: 0,
            refused: false,
        }
    }

    /// The next submission: the form for the first subreddit that has not
    /// taken the post yet, or `Finished` once all have or one refused it.
    pub fn next_step(&self) -> (step: SubmissionStep)
        ensures
            next_target(self.targets(), self.submitted(), self.refused()) matches Some(target) ==> (
            step matches SubmissionStep::Submit { subreddit, form } && subreddit@ == target
                && subreddit_pairs(pairs_view(form@), self.base_fields(), subreddit@)),
            next_target(self.targets(), self.submitted(), self.refused()) is None ==> step is Finished,
    {
        proof {
            use_type_invariant(self);
        }
        if self.refused || self.submitted >= self.targets.len() {
            return SubmissionStep::Finished;
        }
        let subreddit = self.targets[self.submitted].clone();
        let mut form = self.form.duplicate();
        form.insert(String::from_str("sr"), FormValue::Text(subreddit.clone()));
        let pairs = form.to_pairs();
        proof {
            lemma_form_pairs(form@);
            reveal_strlit("sr");
            assert forall|k: Seq<char>| k != "sr"@ implies #[trigger] lookup(pairs_view(pairs@), k)
                == option_text(lookup(self.form@, k)) by {
                assert(lookup(form@, k) == lookup(self.form@, k));
            }
        }
        SubmissionStep::Submit { subreddit, form: pairs }
    }

    /// Takes Reddit's answer to the last submission. A success counts the
    /// subreddit as done and gives the link to the new post; a refusal is
    /// the error that ends the run: nothing is submitted after it.
    pub fn record_response(&mut self, response: RedditSubmitResponse) -> (r: Result<
        String,
        MediaPosterError,
    >)
        ensures
            final(self).base_fields() == old(self).base_fields(),
            final(self).targets() == old(self).targets(),
            (final(self).submitted(), final(self).refused()) == after_answer(
                old(self).targets().len(),
                old(self).submitted(),
                old(self).refused(),
                response is Success,
            ),
            response matches RedditSubmitResponse::Success { submition_link } ==> (r matches Ok(
                link,
            ) && link@ == submition_link@),
            response matches RedditSubmitResponse::Failure { error_name, error_details } ==> (r matches Err(
                MediaPosterError::Sumbition { media_source, error_name: name, error_details: details },
            ) && media_source == MediaSource::Reddit && name@ == error_name@ && details@
                == error_details@),
    {
        proof {
            use_type_invariant(&*self);
        }
        match response {
            RedditSubmitResponse::Success { submition_link } => {
                if self.submitted < self.targets.len() {
                    self.submitted = self.submitted + 1;
                }
                Ok(submition_link)
            },
            RedditSubmitResponse::Failure { error_name, error_details } => {
                self.refused = true;
                Err(
                    MediaPosterError::Sumbition {
                        media_source: MediaSource::Reddit,
                        error_name,
                        error_details,
                    },
                )
            },
        }
    }
}

proof fn lemma_run_all_accepted(targets: Seq<Seq<char>>, i: nat, answers: Seq<bool>)
    requires
        i <= targets.len(),
        answers.len() >= targets.len() - i,
        forall|k: int| 0 <= k < targets.len() - i ==> answers[k],
    ensures
        run_submissions(targets, i, false, answers) == targets.skip(i as int),
        run_finished(targets, i, false, answers),
    decreases answers.len(),
{
    if i < targets.len() {
        assert(answers[0]);
        lemma_run_all_accepted(targets, i + 1, answers.drop_first());
        assert(targets.skip(i as int) =~= seq![targets[i as int]] + targets.skip((i + 1) as int));
    } else {
        assert(targets.skip(i as int) =~= Seq::<Seq<char>>::empty());
    }
}

proof fn lemma_run_refused(targets: Seq<Seq<char>>, i: nat, answers: Seq<bool>, k: nat)
    requires
        i <= k < targets.len(),
        k - i < answers.len(),
        !answers[k - i],
        forall|j: int| 0 <= j < k - i ==> answers[j],
    ensures
        run_submissions(targets, i, false, answers) == targets.subrange(i as int, (k + 1) as int),
        run_finished(targets, i, false, answers),
    decreases answers.len(),
{
    if i < k {
        assert(answers[0]);
        lemma_run_refused(targets, i + 1, answers.drop_first(), k);
        assert(targets.subrange(i as int, (k + 1) as int) =~= seq![targets[i as int]] + targets.subrange((i + 1) as int, (k + 1) as int));
    } else {
        assert(targets.subrange(i as int, (k + 1) as int) =~= seq![targets[i as int]]);
        assert(run_submissions(targets, k, true, answers.drop_first()) =~= Seq::<Seq<char>>::empty());
        assert(run_finished(targets, k, true, answers.drop_first()));
        assert(after_answer(targets.len(), i, false, answers[0]) == (k, true));
    }
}

/// A run whose submissions are all accepted submits the post once to each
/// subreddit, in the order of the list, and then has nothing left to do.
pub proof fn law_run_submits_each_in_order(targets: Seq<Seq<char>>, answers: Seq<bool>)
    requires
        answers.len() >= targets.len(),
        forall|k: int| 0 <= k < targets.len() ==> answers[k],
    ensures
        run_submissions(targets, 0, false, answers) == targets,
        run_finished(targets, 0, false, answers),
{
    lemma_run_all_accepted(targets, 0, answers);
    assert(targets.skip(0) =~= targets);
}

/// A run stops at the first refusal: the post goes to the subreddits up to
/// and including the one that refused it, in order, and to none after it.
pub proof fn law_run_stops_at_refusal(targets: Seq<Seq<char>>, answers: Seq<bool>, k: nat)
    requires
        k < targets.len(),
        k < answers.len(),
        !answers[k as int],
        forall|j: int| 0 <= j < k ==> answers[j],
    ensures
        run_submissions(targets, 0, false, answers) == targets.take((k + 1) as int),
        run_finished(targets, 0, false, answers),
{
    lemma_run_refused(targets, 0, answers, k);
    assert(targets.subrange(0, (k + 1) as int) =~= targets.take((k + 1) as int));
}

/// The form sent to a subreddit is fixed: two forms that both hold the
/// post's fields and the subreddit, in order of their keys, are the same.
pub proof fn law_subreddit_form_is_unique(
    a: Seq<(Seq<char>, Seq<char>)>,
    b: Seq<(Seq<char>, Seq<char>)>,
    base: Fields,
    subreddit: Seq<char>,
)
    requires
        subreddit_pairs(a, base, subreddit),
        subreddit_pairs(b, base, subreddit),
    ensures
        a == b,
{
    assert forall|k: Seq<char>| lookup(a, k) == lookup(b, k) by {
        if k != "sr"@ {
            assert(lookup(a, k) == option_text(lookup(base, k)));
            assert(lookup(b, k) == option_text(lookup(base, k)));
        }
    }
    law_sorted_is_unique(a, b);
}

/// A post's own fields never name a subreddit, so the `sr` of a form sent
/// to a subreddit is always the one it was sent to.
pub proof fn law_post_has_no_subreddit(post: RedditPost)
    ensures
        lookup(post_fields(post), "sr"@) is None,
{
    lemma_post_fields_keys(post);
}

} // verus!
