//! Blog content backend: posts, the projects derived from them, and the RSS feed.
//!
//! `store` keeps posts and projects in SQLite; `project` derives a project from
//! a post's tags; `summary` and `feed` turn markdown content into short plain
//! text and the feed document; `cgi` holds the request-level decisions.
pub mod text;
pub mod model;
pub mod summary;
pub mod project;
pub mod store;
pub mod feed;
pub mod cgi;

pub use cgi::{check_auth, cgi_response, json_error, require_auth};
pub use model::{NewPost, NewProject, Post, PostSummary, Project, Timestamp, UpdatePost};
pub use project::parse_project_tag;
pub use store::{
    delete_post, get_post_by_slug, get_project_by_id, init_db, insert_post, insert_project,
    list_posts, list_posts_full, list_projects, sync_project_from_post, update_post, StoreError,
};
pub use summary::extract_first_paragraph;
