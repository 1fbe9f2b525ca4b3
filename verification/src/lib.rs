//! Building and interpreting the requests of a small cross-posting tool for
//! Reddit and Mastodon, with their contracts proved by Verus.
pub mod error;
pub mod mastodon;
pub mod media;
pub mod reddit;
pub mod text;

pub use error::MediaPosterError;
pub use mastodon::{MastodonPost, MastodonVisibility};
pub use media::MediaSource;
pub use reddit::{RedditPost, RedditPostKind};
