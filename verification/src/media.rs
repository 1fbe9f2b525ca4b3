use vstd::prelude::*;

verus! {

/// The services a post can be published to.
#[derive(Debug, Clone, Copy, PartialEq, Eq, Structural)]
pub enum MediaSource {
    Twitter,
    Reddit,
    YouTubeCommunity,
    Mastodon,
}

/// The name under which a service is shown: the name of its variant.
pub open spec fn media_source_name(source: MediaSource) -> Seq<char> {
    match source {
        MediaSource::Twitter => "Twitter"@,
        MediaSource::Reddit => "Reddit"@,
        MediaSource::YouTubeCommunity => "YouTubeCommunity"@,
        MediaSource::Mastodon => "Mastodon"@,
    }
}

impl MediaSource {
    /// The displayed name of the service.
    pub fn to_string(&self) -> (name: String)
        ensures
            name@ == media_source_name(*self),
    {
        match self {
            MediaSource::Twitter => String::from_str("Twitter"),
            MediaSource::Reddit => String::from_str("Reddit"),
            MediaSource::YouTubeCommunity => String::from_str("YouTubeCommunity"),
            MediaSource::Mastodon => String::from_str("Mastodon"),
        }
    }
}

} // verus!
