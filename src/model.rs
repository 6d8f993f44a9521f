//! The records that the store reads and writes.
use vstd::prelude::*;

verus! {

/// An instant, as seconds and nanoseconds since the Unix epoch (UTC).
#[derive(Clone, Copy, Debug, PartialEq, Eq, Structural)]
pub struct Timestamp {
    pub secs: i64,
    pub nanos: u32,
}

/// A stored blog post. `published_at` is `None` for a draft.
#[derive(Clone, Debug)]
pub struct Post {
    pub id: Option<i64>,
    pub slug: String,
    pub title: String,
    pub content: String,
    pub repo: Option<String>,
    pub created_at: Timestamp,
    pub published_at: Option<Timestamp>,
    pub tags: Vec<String>,
    pub commit_range: Option<String>,
}

/// A post as a client submits it for creation.
#[derive(Clone, Debug)]
pub struct NewPost {
    pub title: String,
    pub content: String,
    pub repo: Option<String>,
    pub tags: Option<Vec<String>>,
    pub commit_range: Option<String>,
    pub publish: Option<bool>,
}

/// The fields of a post that a listing shows.
#[derive(Clone, Debug)]
pub struct PostSummary {
    pub id: i64,
    pub slug: String,
    pub title: String,
    pub created_at: Timestamp,
    pub published_at: Option<Timestamp>,
    pub tags: Vec<String>,
}

/// A stored project record, derived from a published post.
#[derive(Clone, Debug)]
pub struct Project {
    pub id: String,
    pub name: String,
    pub repo: String,
    pub description: String,
    pub short_description: String,
    pub created_at: Timestamp,
}

/// A project record as it is written.
#[derive(Clone, Debug)]
pub struct NewProject {
    pub id: String,
    pub name: String,
    pub repo: String,
    pub description: String,
    pub short_description: String,
}

/// The fields of a post that an update may change; `None` leaves a field alone.
#[derive(Clone, Debug)]
pub struct UpdatePost {
    pub title: Option<String>,
    pub content: Option<String>,
    pub publish: Option<bool>,
}

impl Default for UpdatePost {
    fn default() -> (r: UpdatePost)
        ensures
            r.title is None && r.content is None && r.publish is None,
    {
        UpdatePost { title: None, content: None, publish: None }
    }
}

impl UpdatePost {
    /// Whether the update changes anything: a new title, new content, or a publish request.
    pub open spec fn has_changes(&self) -> bool {
        self.title is Some || self.content is Some || self.publish == Some(true)
    }
}

/// The texts of a list of tags.
pub open spec fn tag_views(tags: Seq<String>) -> Seq<Seq<char>> {
    tags.map_values(|t: String| t@)
}

/// The tags of a new post: none when the client gave none.
pub open spec fn new_post_tags(post: NewPost) -> Seq<Seq<char>> {
    match post.tags {
        Some(t) => tag_views(t@),
        None => Seq::empty(),
    }
}

} // verus!
