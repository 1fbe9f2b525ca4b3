use vstd::prelude::*;
use crate::error::MediaPosterError;
use crate::media::MediaSource;
use crate::text::join2;

verus! {

/// Reddit's answer to a request for an access token.
#[derive(Debug)]
pub enum RedditAuthResponse {
    AuthData { access_token: String },
    ErrorData { error: String },
}

impl RedditAuthResponse {
    /// The bearer token that the answer grants, or the error that Reddit
    /// gave as an authentication error of Reddit.
    pub fn into_access_token(self) -> (r: Result<String, MediaPosterError>)
        ensures
            self matches RedditAuthResponse::AuthData { access_token } ==> (r matches Ok(token)
                && token@ == access_token@),
            self matches RedditAuthResponse::ErrorData { error } ==> (r matches Err(
                MediaPosterError::Auth(source, details),
            ) && source == MediaSource::Reddit && details@ == error@),
    {
        match self {
            RedditAuthResponse::AuthData { access_token } => Ok(access_token),
            RedditAuthResponse::ErrorData { error } => Err(
                MediaPosterError::Auth(MediaSource::Reddit, error),
            ),
        }
    }
}

/// The address of Reddit's calls that need no token.
pub open spec fn base_api_url() -> Seq<char> {
    "https://www.reddit.com/"@
}

/// The address of Reddit's calls that need a token.
pub open spec fn auth_api_url() -> Seq<char> {
    "https://oauth.reddit.com"@
}

/// Where an access token is asked for: the base address, then
/// `/api/v1/access_token`.
pub fn access_token_url() -> (url: String)
    ensures
        url@ == base_api_url() + "/api/v1/access_token"@,
{
    join2("https://www.reddit.com/", "/api/v1/access_token")
}

/// Where a post is submitted: the address of calls with a token, then
/// `/api/submit`.
pub fn submit_url() -> (url: String)
    ensures
        url@ == auth_api_url() + "/api/submit"@,
{
    join2("https://oauth.reddit.com", "/api/submit")
}

/// The form that asks for a token with a user's name and password.
pub fn auth_form(username: &str, password: &str) -> (form: Vec<(String, String)>)
    ensures
        form@.len() == 3,
        form@[0].0@ == "grant_type"@ && form@[0].1@ == "password"@,
        form@[1].0@ == "username"@ && form@[1].1@ == username@,
        form@[2].0@ == "password"@ && form@[2].1@ == password@,
{
    let mut form: Vec<(String, String)> = Vec::new();
    form.push((String::from_str("grant_type"), String::from_str("password")));
    form.push((String::from_str("username"), String::from_str(username)));
    form.push((String::from_str("password"), String::from_str(password)));
    form
}

} // verus!
