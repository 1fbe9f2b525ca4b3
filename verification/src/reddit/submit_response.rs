use vstd::prelude::*;
use crate::text::{has_prefix, starts_with, same_text};

verus! {

/// A JSON value, reduced to what a submit response is read for: texts,
/// arrays, and every other kind of value alike.
#[derive(Debug)]
pub enum JsonValue {
    Text(String),
    Array(Vec<JsonValue>),
    Other,
}

/// The body of Reddit's answer to a submission: a list of jQuery calls,
/// each a list of JSON values, and the flag that tells success.
#[derive(Debug)]
pub struct RedditRawSubmitResponse {
    pub jquery: Vec<Vec<JsonValue>>,
    pub success: bool,
}

/// What a submission came to.
#[derive(Debug)]
pub enum RedditSubmitResponse {
    Success { submition_link: String },
    Failure { error_name: String, error_details: String },
}

/// The model of a `RedditSubmitResponse`.
pub enum SubmitOutcome {
    Success { submition_link: Seq<char> },
    Failure { error_name: Seq<char>, error_details: Seq<char> },
}

impl View for RedditSubmitResponse {
    type V = SubmitOutcome;

    open spec fn view(&self) -> SubmitOutcome {
        match self {
            RedditSubmitResponse::Success { submition_link } => SubmitOutcome::Success {
                submition_link: submition_link@,
            },
            RedditSubmitResponse::Failure { error_name, error_details } => SubmitOutcome::Failure {
                error_name: error_name@,
                error_details: error_details@,
            },
        }
    }
}

/// The last value of a jQuery call, if it has any.
pub open spec fn last_value(item: Seq<JsonValue>) -> Option<JsonValue> {
    if item.len() > 0 {
        Some(item.last())
    } else {
        None
    }
}

/// The text of a call whose last value is an array that holds exactly one
/// value, a text.
pub open spec fn lone_text(item: Seq<JsonValue>) -> Option<Seq<char>> {
    match last_value(item) {
        Some(JsonValue::Array(a)) => if a@.len() == 1 {
            match a@[0] {
                JsonValue::Text(s) => Some(s@),
                _ => None,
            }
        } else {
            None
        },
        _ => None,
    }
}

/// The text of a call whose last value is a text.
pub open spec fn last_text(item: Seq<JsonValue>) -> Option<Seq<char>> {
    match last_value(item) {
        Some(JsonValue::Text(s)) => Some(s@),
        _ => None,
    }
}

/// The first value of the array that ends a call, if it is a text.
pub open spec fn leading_text(item: Seq<JsonValue>) -> Option<Seq<char>> {
    match last_value(item) {
        Some(JsonValue::Array(a)) => if a@.len() > 0 {
            match a@[0] {
                JsonValue::Text(s) => Some(s@),
                _ => None,
            }
        } else {
            None
        },
        _ => None,
    }
}

/// The first lone text at index `i` or later that is a secure link.
pub open spec fn link_from(items: Seq<Vec<JsonValue>>, i: int) -> Option<Seq<char>>
    decreases items.len() - i,
{
    if i >= items.len() || i < 0 {
        None
    } else {
        match lone_text(items[i]@) {
            Some(t) => if has_prefix(t, "https://"@) {
                Some(t)
            } else {
                link_from(items, i + 1)
            },
            None => link_from(items, i + 1),
        }
    }
}

/// The first call at index `i` or later whose lone text names an error,
/// with that name.
pub open spec fn error_from(items: Seq<Vec<JsonValue>>, i: int) -> Option<(int, Seq<char>)>
    decreases items.len() - i,
{
    if i >= items.len() || i < 0 {
        None
    } else {
        match lone_text(items[i]@) {
            Some(t) => if has_prefix(t, ".error."@) {
                Some((i, t))
            } else {
                error_from(items, i + 1)
            },
            None => error_from(items, i + 1),
        }
    }
}

/// Where the search for an error's details ends.
pub enum DetailSearch {
    /// The details that follow a "text" marker.
    Found(Seq<char>),
    /// No marker is followed by details.
    Absent,
    /// A marker stands in the last call, with nothing after it.
    PastEnd,
}

/// The search for the details of an error from the call at index `j` on:
/// the first call whose last value is the text "text" and whose next call
/// ends in an array that starts with a text gives that text.
pub open spec fn details_from(items: Seq<Vec<JsonValue>>, j: int) -> DetailSearch
    decreases items.len() - j,
{
    if j >= items.len() || j < 0 {
        DetailSearch::Absent
    } else if last_text(items[j]@) == Some("text"@) {
        if j + 1 >= items.len() {
            DetailSearch::PastEnd
        } else {
            match leading_text(items[j + 1]@) {
                Some(d) => DetailSearch::Found(d),
                None => details_from(items, j + 1),
            }
        }
    } else {
        details_from(items, j + 1)
    }
}

/// The answer given when nothing in the response could be read.
pub open spec fn unknown_failure() -> SubmitOutcome {
    SubmitOutcome::Failure {
        error_name: "UNKNOWN"@,
        error_details: "Couldn't parse error info from API response!"@,
    }
}

/// How a response body is read. `None` stands for the bodies on which the
/// search for error details would index past the last call.
pub open spec fn read_submit_response(items: Seq<Vec<JsonValue>>, success: bool) -> Option<
    SubmitOutcome,
> {
    if success {
        match link_from(items, 0) {
            Some(link) => Some(SubmitOutcome::Success { submition_link: link }),
            None => Some(unknown_failure()),
        }
    } else {
        match error_from(items, 0) {
            None => Some(unknown_failure()),
            Some((i, name)) => match details_from(items, i) {
                DetailSearch::Found(details) => Some(
                    SubmitOutcome::Failure { error_name: name, error_details: details },
                ),
                DetailSearch::Absent => Some(unknown_failure()),
                DetailSearch::PastEnd => None,
            },
        }
    }
}

fn lone_text_of(item: &Vec<JsonValue>) -> (r: Option<&String>)
    ensures
        r matches Some(s) ==> lone_text(item@) == Some(s@),
        r is None ==> lone_text(item@) is None,
{
    let n = item.len();
    if n == 0 {
        return None;
    }
    match &item[n - 1] {
        JsonValue::Array(a) => {
            if a.len() != 1 {
                return None;
            }
            match &a[0] {
                JsonValue::Text(s) => Some(s),
                _ => None,
            }
        },
        _ => None,
    }
}

fn last_text_of(item: &Vec<JsonValue>) -> (r: Option<&String>)
    ensures
        r matches Some(s) ==> last_text(item@) == Some(s@),
        r is None ==> last_text(item@) is None,
{
    let n = item.len();
    if n == 0 {
        return None;
    }
    match &item[n - 1] {
        JsonValue::Text(s) => Some(s),
        _ => None,
    }
}

fn leading_text_of(item: &Vec<JsonValue>) -> (r: Option<&String>)
    ensures
        r matches Some(s) ==> leading_text(item@) == Some(s@),
        r is None ==> leading_text(item@) is None,
{
    let n = item.len();
    if n == 0 {
        return None;
    }
    match &item[n - 1] {
        JsonValue::Array(a) => {
            if a.len() == 0 {
                return None;
            }
            match &a[0] {
                JsonValue::Text(s) => Some(s),
                _ => None,
            }
        },
        _ => None,
    }
}

fn unknown_response() -> (r: RedditSubmitResponse)
    ensures
        r@ == unknown_failure(),
{
    RedditSubmitResponse::Failure {
        error_name: String::from_str("UNKNOWN"),
        error_details: String::from_str("Couldn't parse error info from API response!"),
    }
}

impl RedditRawSubmitResponse {
    /// Whether the body can be read: false exactly where the search for an
    /// error's details would index past the last call.
    pub fn is_readable(&self) -> (r: bool)
        ensures
            r == read_submit_response(self.jquery@, self.success) is Some,
    {
        if self.success {
            return true;
        }
        let items = &self.jquery;
        let n = items.len();
        let mut i: usize = 0;
        while i < n
            invariant
                n == items@.len(),
                items@ == self.jquery@,
                !self.success,
                i <= n,
                error_from(items@, 0) == error_from(items@, i as int),
            decreases n - i,
        {
            if let Some(name) = lone_text_of(&items[i]) {
                if starts_with(name.as_str(), ".error.") {
                    let mut j: usize = i;
                    while j < n
                        invariant
                            n == items@.len(),
                            items@ == self.jquery@,
                            !self.success,
                            i <= j <= n,
                            error_from(items@, 0) == Some((i as int, name@)),
                            details_from(items@, i as int) == details_from(items@, j as int),
                        decreases n - j,
                    {
                        if let Some(t) = last_text_of(&items[j]) {
                            if same_text(t.as_str(), "text") {
                                if j + 1 >= n {
                                    return false;
                                }
                                if leading_text_of(&items[j + 1]).is_some() {
                                    return true;
                                }
                            }
                        }
                        j = j + 1;
                    }
                    return true;
                }
            }
            i = i + 1;
        }
        true
    }
}

impl RedditSubmitResponse {
    /// Reads Reddit's answer to a submission.
    ///
    /// On success, the first call whose last value is an array of one text
    /// that starts with `https://` gives the link. On failure, the first
    /// such call whose text starts with `.error.` names the error, and the
    /// first later call that ends in the text `text` is followed by the
    /// details. Anything else reads as an unknown failure.
    pub fn from_raw(raw: &RedditRawSubmitResponse) -> (r: RedditSubmitResponse)
        requires
            read_submit_response(raw.jquery@, raw.success) is Some,
        ensures
            Some(r@) == read_submit_response(raw.jquery@, raw.success),
    {
        let items = &raw.jquery;
        let n = items.len();
        if raw.success {
            let mut i: usize = 0;
            while i < n
                invariant
                    n == items@.len(),
                    items@ == raw.jquery@,
                    raw.success,
                    i <= n,
                    link_from(items@, 0) == link_from(items@, i as int),
                decreases n - i,
            {
                if let Some(t) = lone_text_of(&items[i]) {
                    if starts_with(t.as_str(), "https://") {
                        return RedditSubmitResponse::Success { submition_link: t.clone() };
                    }
                }
                i = i + 1;
            }
            unknown_response()
        } else {
            let mut i: usize = 0;
            while i < n
                invariant
                    n == items@.len(),
                    items@ == raw.jquery@,
                    !raw.success,
                    i <= n,
                    error_from(items@, 0) == error_from(items@, i as int),
                    read_submit_response(items@, false) is Some,
                decreases n - i,
            {
                if let Some(name) = lone_text_of(&items[i]) {
                    if starts_with(name.as_str(), ".error.") {
                        let mut j: usize = i;
                        while j < n
                            invariant
                                n == items@.len(),
                                items@ == raw.jquery@,
                                !raw.success,
                                i <= j <= n,
                                error_from(items@, 0) == Some((i as int, name@)),
                                details_from(items@, i as int) == details_from(
                                    items@,
                                    j as int,
                                ),
                                details_from(items@, i as int) != DetailSearch::PastEnd,
                            decreases n - j,
                        {
                            if let Some(t) = last_text_of(&items[j]) {
                                if same_text(t.as_str(), "text") {
                                    if let Some(d) = leading_text_of(&items[j + 1]) {
                                        return RedditSubmitResponse::Failure {
                                            error_name: name.clone(),
                                            error_details: d.clone(),
                                        };
                                    }
                                }
                            }
                            j = j + 1;
                        }
                        return unknown_response();
                    }
                }
                i = i + 1;
            }
            unknown_response()
        }
    }
}

proof fn lemma_link_is_secure(items: Seq<Vec<JsonValue>>, i: int)
    ensures
        link_from(items, i) matches Some(link) ==> has_prefix(link, "https://"@),
    decreases items.len() - i,
{
    if 0 <= i < items.len() {
        lemma_link_is_secure(items, i + 1);
    }
}

proof fn lemma_error_is_named(items: Seq<Vec<JsonValue>>, i: int)
    ensures
        error_from(items, i) matches Some((k, name)) ==> has_prefix(name, ".error."@) && i <= k
            < items.len(),
    decreases items.len() - i,
{
    if 0 <= i < items.len() {
        lemma_error_is_named(items, i + 1);
    }
}

/// A submission reads as a success only when Reddit flagged it as one,
/// and the link it gives is always a secure web address.
pub proof fn law_success_gives_secure_link(items: Seq<Vec<JsonValue>>, success: bool)
    ensures
        read_submit_response(items, success) matches Some(SubmitOutcome::Success { submition_link })
            ==> success && has_prefix(submition_link, "https://"@),
{
    lemma_link_is_secure(items, 0);
}

/// A refusal is named either by one of Reddit's error codes, which start
/// with `.error.`, or as `UNKNOWN` when none could be read.
pub proof fn law_failure_is_named(items: Seq<Vec<JsonValue>>, success: bool)
    ensures
        read_submit_response(items, success) matches Some(
            SubmitOutcome::Failure { error_name, error_details },
        ) ==> has_prefix(error_name, ".error."@) || error_name == "UNKNOWN"@,
        !success ==> !(read_submit_response(items, success) matches Some(
            SubmitOutcome::Success { .. },
        )),
{
    lemma_error_is_named(items, 0);
}

/// The call ends in an array that holds exactly one value, the text `t`.
pub open spec fn ends_in_lone_text(item: Seq<JsonValue>, t: Seq<char>) -> bool {
    &&& item.len() > 0
    &&& item[item.len() - 1] matches JsonValue::Array(a)
    &&& a@.len() == 1
    &&& a@[0] matches JsonValue::Text(s)
    &&& s@ == t
}

/// The call ends in the text `t`.
pub open spec fn ends_in_text(item: Seq<JsonValue>, t: Seq<char>) -> bool {
    &&& item.len() > 0
    &&& item[item.len() - 1] matches JsonValue::Text(s)
    &&& s@ == t
}

/// The call ends in an array whose first value is the text `t`.
pub open spec fn ends_in_array_led_by(item: Seq<JsonValue>, t: Seq<char>) -> bool {
    &&& item.len() > 0
    &&& item[item.len() - 1] matches JsonValue::Array(a)
    &&& a@.len() > 0
    &&& a@[0] matches JsonValue::Text(s)
    &&& s@ == t
}

proof fn lemma_call_shapes(item: Seq<JsonValue>)
    ensures
        forall|t: Seq<char>| #[trigger] ends_in_lone_text(item, t) <==> lone_text(item) == Some(t),
        forall|t: Seq<char>| #[trigger] ends_in_text(item, t) <==> last_text(item) == Some(t),
        forall|t: Seq<char>|
            #[trigger] ends_in_array_led_by(item, t) <==> leading_text(item) == Some(t),
{
}

proof fn lemma_link_found(items: Seq<Vec<JsonValue>>, k: int, i: int, link: Seq<char>)
    requires
        0 <= k <= i < items.len(),
        ends_in_lone_text(items[i]@, link),
        has_prefix(link, "https://"@),
        forall|m: int, t: Seq<char>|
            k <= m < i && #[trigger] ends_in_lone_text(items[m]@, t) ==> !has_prefix(t, "https://"@),
    ensures
        link_from(items, k) == Some(link),
    decreases i - k,
{
    lemma_call_shapes(items[k]@);
    lemma_call_shapes(items[i]@);
    if k < i {
        if lone_text(items[k]@) is Some {
            let t = lone_text(items[k]@)->0;
            assert(ends_in_lone_text(items[k]@, t));
        }
        lemma_link_found(items, k + 1, i, link);
    }
}

proof fn lemma_link_exists(items: Seq<Vec<JsonValue>>, k: int, i: int, link: Seq<char>)
    requires
        0 <= k <= i < items.len(),
        ends_in_lone_text(items[i]@, link),
        has_prefix(link, "https://"@),
    ensures
        link_from(items, k) is Some,
    decreases i - k,
{
    lemma_call_shapes(items[k]@);
    lemma_call_shapes(items[i]@);
    if k < i {
        lemma_link_exists(items, k + 1, i, link);
    }
}

proof fn lemma_link_carried(items: Seq<Vec<JsonValue>>, k: int)
    requires
        0 <= k,
    ensures
        link_from(items, k) matches Some(link) ==> exists|i: int|
            k <= i < items.len() && #[trigger] ends_in_lone_text(items[i]@, link) && has_prefix(
                link,
                "https://"@,
            ),
    decreases items.len() - k,
{
    if k < items.len() {
        lemma_call_shapes(items[k]@);
        if lone_text(items[k]@) is Some && has_prefix(lone_text(items[k]@)->0, "https://"@) {
            let t = lone_text(items[k]@)->0;
            assert(ends_in_lone_text(items[k]@, t));
        } else {
            lemma_link_carried(items, k + 1);
        }
    }
}

/// On a body flagged as a success, the first call, wherever it stands (the
/// last one too), that ends in an array holding just one text starting
/// with `https://` gives the link of the new post.
pub proof fn law_success_link_is_first_secure_text(
    items: Seq<Vec<JsonValue>>,
    i: int,
    link: Seq<char>,
)
    requires
        0 <= i < items.len(),
        ends_in_lone_text(items[i]@, link),
        has_prefix(link, "https://"@),
        forall|k: int, t: Seq<char>|
            0 <= k < i && #[trigger] ends_in_lone_text(items[k]@, t) ==> !has_prefix(t, "https://"@),
    ensures
        read_submit_response(items, true) == Some(SubmitOutcome::Success { submition_link: link }),
{
    lemma_link_found(items, 0, i, link);
}

/// A body flagged as a success reads as a success exactly when some call
/// ends in an array holding just one text starting with `https://`.
pub proof fn law_success_is_unknown_only_without_link(items: Seq<Vec<JsonValue>>)
    ensures
        (read_submit_response(items, true) == Some(unknown_failure())) <==> !exists|i: int, t: Seq<
            char,
        >| 0 <= i < items.len() && #[trigger] ends_in_lone_text(items[i]@, t) && has_prefix(
            t,
            "https://"@,
        ),
{
    lemma_link_carried(items, 0);
    if exists|i: int, t: Seq<char>|
        0 <= i < items.len() && #[trigger] ends_in_lone_text(items[i]@, t) && has_prefix(
            t,
            "https://"@,
        ) {
        let (i, t) = choose|i: int, t: Seq<char>|
            0 <= i < items.len() && #[trigger] ends_in_lone_text(items[i]@, t) && has_prefix(
                t,
                "https://"@,
            );
        lemma_link_exists(items, 0, i, t);
    }
}

/// The link of a success is carried by some call of the body, at the end
/// of an array holding just that text, which starts with `https://`.
pub proof fn law_success_link_is_carried(items: Seq<Vec<JsonValue>>, link: Seq<char>)
    requires
        read_submit_response(items, true) == Some(SubmitOutcome::Success { submition_link: link }),
    ensures
        exists|i: int| 0 <= i < items.len() && #[trigger] ends_in_lone_text(items[i]@, link),
        has_prefix(link, "https://"@),
{
    lemma_link_carried(items, 0);
}

proof fn lemma_error_found(items: Seq<Vec<JsonValue>>, k: int, i: int, name: Seq<char>)
    requires
        0 <= k <= i < items.len(),
        ends_in_lone_text(items[i]@, name),
        has_prefix(name, ".error."@),
        forall|m: int, t: Seq<char>|
            k <= m < i && #[trigger] ends_in_lone_text(items[m]@, t) ==> !has_prefix(t, ".error."@),
    ensures
        error_from(items, k) == Some((i, name)),
    decreases i - k,
{
    lemma_call_shapes(items[k]@);
    lemma_call_shapes(items[i]@);
    if k < i {
        if lone_text(items[k]@) is Some {
            let t = lone_text(items[k]@)->0;
            assert(ends_in_lone_text(items[k]@, t));
        }
        lemma_error_found(items, k + 1, i, name);
    }
}

proof fn lemma_error_exists(items: Seq<Vec<JsonValue>>, k: int, i: int, name: Seq<char>)
    requires
        0 <= k <= i < items.len(),
        ends_in_lone_text(items[i]@, name),
        has_prefix(name, ".error."@),
    ensures
        error_from(items, k) matches Some((first, n)) && k <= first <= i && has_prefix(
            n,
            ".error."@,
        ),
    decreases i - k,
{
    lemma_call_shapes(items[k]@);
    lemma_call_shapes(items[i]@);
    if k < i {
        lemma_error_exists(items, k + 1, i, name);
    }
}

proof fn lemma_details_found(items: Seq<Vec<JsonValue>>, m: int, j: int, details: Seq<char>)
    requires
        0 <= m <= j,
        j + 1 < items.len(),
        ends_in_text(items[j]@, "text"@),
        ends_in_array_led_by(items[j + 1]@, details),
        forall|x: int, d: Seq<char>|
            m <= x < j && ends_in_text(items[x]@, "text"@) ==> !#[trigger] ends_in_array_led_by(
                items[x + 1]@,
                d,
            ),
    ensures
        details_from(items, m) == DetailSearch::Found(details),
    decreases j - m,
{
    lemma_call_shapes(items[m]@);
    lemma_call_shapes(items[m + 1]@);
    if m < j {
        if last_text(items[m]@) == Some("text"@) && leading_text(items[m + 1]@) is Some {
            let d = leading_text(items[m + 1]@)->0;
            assert(ends_in_array_led_by(items[m + 1]@, d));
        }
        lemma_details_found(items, m + 1, j, details);
    }
}

proof fn lemma_details_exist(items: Seq<Vec<JsonValue>>, m: int, j: int, details: Seq<char>)
    requires
        0 <= m <= j,
        j + 1 < items.len(),
        ends_in_text(items[j]@, "text"@),
        ends_in_array_led_by(items[j + 1]@, details),
    ensures
        details_from(items, m) is Found,
    decreases j - m,
{
    lemma_call_shapes(items[m]@);
    lemma_call_shapes(items[m + 1]@);
    if m < j {
        lemma_details_exist(items, m + 1, j, details);
    }
}

/// On a refused body, the first call that ends in an array holding just
/// one text starting with `.error.` names the error, whatever other lone
/// texts come before it; its details follow the first later call that ends
/// in the text `text` and is followed by a call ending in an array led by
/// a text.
pub proof fn law_refusal_named_by_first_error_code(
    items: Seq<Vec<JsonValue>>,
    i: int,
    name: Seq<char>,
    j: int,
    details: Seq<char>,
)
    requires
        0 <= i < items.len(),
        ends_in_lone_text(items[i]@, name),
        has_prefix(name, ".error."@),
        forall|k: int, t: Seq<char>|
            0 <= k < i && #[trigger] ends_in_lone_text(items[k]@, t) ==> !has_prefix(t, ".error."@),
        i <= j,
        j + 1 < items.len(),
        ends_in_text(items[j]@, "text"@),
        ends_in_array_led_by(items[j + 1]@, details),
        forall|x: int, d: Seq<char>|
            i <= x < j && ends_in_text(items[x]@, "text"@) ==> !#[trigger] ends_in_array_led_by(
                items[x + 1]@,
                d,
            ),
    ensures
        read_submit_response(items, false) == Some(
            SubmitOutcome::Failure { error_name: name, error_details: details },
        ),
{
    lemma_error_found(items, 0, i, name);
    lemma_details_found(items, i, j, details);
}

/// A refused body that carries an error code, followed later by a `text`
/// call and its details, reads as a failure named by an error code, never
/// as an unknown one.
pub proof fn law_refusal_with_details_is_never_unknown(
    items: Seq<Vec<JsonValue>>,
    i: int,
    name: Seq<char>,
    j: int,
    details: Seq<char>,
)
    requires
        0 <= i < items.len(),
        ends_in_lone_text(items[i]@, name),
        has_prefix(name, ".error."@),
        i <= j,
        j + 1 < items.len(),
        ends_in_text(items[j]@, "text"@),
        ends_in_array_led_by(items[j + 1]@, details),
    ensures
        read_submit_response(items, false) matches Some(
            SubmitOutcome::Failure { error_name, .. },
        ) && has_prefix(error_name, ".error."@),
{
    lemma_error_exists(items, 0, i, name);
    let (first, n) = error_from(items, 0)->0;
    lemma_details_exist(items, first, j, details);
}

proof fn lemma_past_end_at_last(items: Seq<Vec<JsonValue>>, m: int)
    requires
        0 <= m,
    ensures
        details_from(items, m) == DetailSearch::PastEnd ==> items.len() > 0 && ends_in_text(
            items[items.len() - 1]@,
            "text"@,
        ),
    decreases items.len() - m,
{
    if m < items.len() {
        lemma_call_shapes(items[m]@);
        lemma_past_end_at_last(items, m + 1);
    }
}

/// Every body flagged as a success can be read, and a refused body can be
/// read unless its last call ends in the text `text` (where the original
/// looks for details past the end).
pub proof fn law_unreadable_only_with_trailing_marker(items: Seq<Vec<JsonValue>>, success: bool)
    ensures
        success ==> read_submit_response(items, success) is Some,
        read_submit_response(items, success) is None ==> items.len() > 0 && ends_in_text(
            items[items.len() - 1]@,
            "text"@,
        ),
{
    if !success {
        if error_from(items, 0) is Some {
            lemma_error_is_named(items, 0);
            let (i, n) = error_from(items, 0)->0;
            lemma_past_end_at_last(items, i);
        }
    }
}

} // verus!
