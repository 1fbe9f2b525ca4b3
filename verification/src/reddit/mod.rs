pub mod auth;
pub mod form;
pub mod json_object;
pub mod models;
pub mod order;
pub mod submission;
pub mod submit_response;

pub use auth::RedditAuthResponse;
pub use form::{FormValue, PostForm};
pub use models::{RedditPost, RedditPostKind};
pub use submission::{RedditSubmission, SubmissionStep};
pub use submit_response::{JsonValue, RedditRawSubmitResponse, RedditSubmitResponse};
