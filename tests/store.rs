use robocyril_api::model::{NewPost, UpdatePost};
use robocyril_api::model::Post;
use robocyril_api::store::{
    delete_params, delete_post, get_post_by_slug, get_project_by_id, init_db, insert_outcome,
    insert_post, insert_statement, key_matches, list_posts, list_posts_full, list_projects,
    post_from_columns, post_slug, posts_from_rows, project_from_columns, projects_from_rows,
    resync_post, rows_changed, summaries_from_rows, summary_from_columns, syncs_on_insert,
    tags_from_text, timestamp_from_text, update_outcome, update_post, update_statement, PostColumns,
    ProjectColumns, StoreError, SummaryColumns,
};
use rusqlite::Connection;

fn db() -> Connection {
    let conn = Connection::open_in_memory().unwrap();
    init_db(&conn).unwrap();
    conn
}

fn new_post(title: &str, publish: bool) -> NewPost {
    NewPost {
        title: title.to_string(),
        content: "# Heading\n\nBody text.\n\nMore".to_string(),
        repo: Some("github.com/x/y".to_string()),
        tags: Some(vec!["rust".to_string()]),
        commit_range: Some("abc..def".to_string()),
        publish: Some(publish),
    }
}

#[test]
fn slug_is_deterministic() {
    assert_eq!(post_slug("Hello World!"), "hello-world");
    assert_eq!(post_slug("Hello World!"), post_slug("Hello World!"));
}

#[test]
fn init_db_is_idempotent() {
    let conn = db();
    assert!(init_db(&conn).is_ok());
}

#[test]
fn insert_then_get() {
    let conn = db();
    let id = insert_post(&conn, &new_post("Hello World", false)).unwrap();
    let post = get_post_by_slug(&conn, "hello-world").unwrap().unwrap();
    assert_eq!(post.id, Some(id));
    assert_eq!(post.title, "Hello World");
    assert_eq!(post.repo.as_deref(), Some("github.com/x/y"));
    assert_eq!(post.tags, vec!["rust".to_string()]);
    assert_eq!(post.commit_range.as_deref(), Some("abc..def"));
    assert!(post.published_at.is_none());
}

#[test]
fn same_slug_fails_second_insert() {
    let conn = db();
    assert!(insert_post(&conn, &new_post("Hello World", false)).is_ok());
    let second = insert_post(&conn, &new_post("hello, world", false));
    assert!(matches!(second, Err(StoreError::Database(_))));
}

#[test]
fn get_missing_post_is_none() {
    let conn = db();
    assert!(get_post_by_slug(&conn, "nope").unwrap().is_none());
}

#[test]
fn update_without_fields_is_unchanged() {
    let conn = db();
    insert_post(&conn, &new_post("A", false)).unwrap();
    assert!(matches!(update_post(&conn, "a", &UpdatePost::default()), Ok(false)));
    let not_publishing = UpdatePost { title: None, content: None, publish: Some(false) };
    assert!(matches!(update_post(&conn, "a", &not_publishing), Ok(false)));
}

#[test]
fn update_missing_post_is_unchanged() {
    let conn = db();
    let u = UpdatePost { title: Some("T".to_string()), content: None, publish: None };
    assert!(matches!(update_post(&conn, "missing", &u), Ok(false)));
}

#[test]
fn update_changes_title_but_not_slug() {
    let conn = db();
    insert_post(&conn, &new_post("Old Title", false)).unwrap();
    let u = UpdatePost { title: Some("New Title".to_string()), content: None, publish: None };
    assert!(matches!(update_post(&conn, "old-title", &u), Ok(true)));
    let post = get_post_by_slug(&conn, "old-title").unwrap().unwrap();
    assert_eq!(post.title, "New Title");
}

#[test]
fn update_statement_lists_fields_in_order() {
    let u = UpdatePost { title: Some("T".to_string()), content: Some("C".to_string()), publish: Some(true) };
    let (sql, params) = update_statement(&u, &"NOW".to_string(), "s").unwrap();
    assert_eq!(sql, "UPDATE posts SET title = ?, content = ?, published_at = ? WHERE slug = ?");
    assert_eq!(
        params,
        vec![Some("T".to_string()), Some("C".to_string()), Some("NOW".to_string()), Some("s".to_string())]
    );
    let only_content = UpdatePost { title: None, content: Some("C".to_string()), publish: None };
    let (sql, params) = update_statement(&only_content, &"NOW".to_string(), "s").unwrap();
    assert_eq!(sql, "UPDATE posts SET content = ? WHERE slug = ?");
    assert_eq!(params, vec![Some("C".to_string()), Some("s".to_string())]);
    assert!(update_statement(&UpdatePost::default(), &"NOW".to_string(), "s").is_none());
}

#[test]
fn publishing_by_update_syncs_project() {
    let conn = db();
    let mut p = new_post("Robocyril", false);
    p.tags = Some(vec!["® Robocyril".to_string(), "other".to_string()]);
    insert_post(&conn, &p).unwrap();
    assert!(get_project_by_id(&conn, "robocyril").unwrap().is_none());
    let u = UpdatePost { title: None, content: None, publish: Some(true) };
    assert!(matches!(update_post(&conn, "robocyril", &u), Ok(true)));
    let project = get_project_by_id(&conn, "robocyril").unwrap().unwrap();
    assert_eq!(project.name, "Robocyril");
    assert_eq!(project.short_description, "Body text.");
    assert!(get_post_by_slug(&conn, "robocyril").unwrap().unwrap().published_at.is_some());
}

#[test]
fn publishing_insert_syncs_project() {
    let conn = db();
    let mut p = new_post("Robocyril", true);
    p.tags = Some(vec!["® Robocyril".to_string(), "other".to_string()]);
    insert_post(&conn, &p).unwrap();
    let projects = list_projects(&conn).unwrap();
    assert_eq!(projects.len(), 1);
    assert_eq!(projects[0].id, "robocyril");
    assert_eq!(projects[0].name, "Robocyril");
    assert_eq!(projects[0].repo, "github.com/x/y");
    assert_eq!(projects[0].description, "Robocyril: Body text.");
}

#[test]
fn project_tag_without_repo_creates_nothing() {
    let conn = db();
    let mut p = new_post("Robocyril", true);
    p.tags = Some(vec!["® Robocyril".to_string()]);
    p.repo = Some(String::new());
    assert!(insert_post(&conn, &p).is_ok());
    assert!(list_projects(&conn).unwrap().is_empty());
}

#[test]
fn listing_without_drafts_holds_published_only() {
    let conn = db();
    insert_post(&conn, &new_post("Draft", false)).unwrap();
    insert_post(&conn, &new_post("Live", true)).unwrap();
    let published = list_posts(&conn, false).unwrap();
    assert_eq!(published.len(), 1);
    assert_eq!(published[0].slug, "live");
    assert!(published.iter().all(|p| p.published_at.is_some()));
    let all = list_posts(&conn, true).unwrap();
    assert_eq!(all.len(), 2);
}

#[test]
fn full_listing_respects_limit() {
    let conn = db();
    for t in ["One", "Two", "Three"] {
        insert_post(&conn, &new_post(t, true)).unwrap();
    }
    insert_post(&conn, &new_post("Draft", false)).unwrap();
    assert_eq!(list_posts_full(&conn, None).unwrap().len(), 3);
    assert_eq!(list_posts_full(&conn, Some(2)).unwrap().len(), 2);
    assert_eq!(list_posts_full(&conn, Some(0)).unwrap().len(), 0);
}

#[test]
fn delete_reports_whether_post_existed() {
    let conn = db();
    insert_post(&conn, &new_post("Gone", false)).unwrap();
    assert!(matches!(delete_post(&conn, "gone"), Ok(true)));
    assert!(matches!(delete_post(&conn, "gone"), Ok(false)));
    assert!(matches!(delete_post(&conn, "never-there"), Ok(false)));
}

#[test]
fn malformed_timestamp_is_an_error() {
    let conn = db();
    conn.execute(
        "INSERT INTO posts (slug, title, content, created_at) VALUES ('bad', 't', 'c', 'yesterday')",
        [],
    )
    .unwrap();
    assert!(matches!(get_post_by_slug(&conn, "bad"), Err(StoreError::MalformedTimestamp)));
}

#[test]
fn stored_text_readers() {
    assert_eq!(tags_from_text("[\"a\",\"b\"]"), vec!["a".to_string(), "b".to_string()]);
    assert!(tags_from_text("not json").is_empty());
    let t = timestamp_from_text("1970-01-01T00:01:40.5+00:00").unwrap();
    assert_eq!((t.secs, t.nanos), (100, 500_000_000));
    let t = timestamp_from_text("1970-01-01T01:00:00+01:00").unwrap();
    assert_eq!(t.secs, 0);
    assert!(matches!(timestamp_from_text("nope"), Err(StoreError::MalformedTimestamp)));
}

#[test]
fn insert_returns_post_id_even_when_project_synced() {
    let conn = db();
    insert_post(&conn, &new_post("First", false)).unwrap();
    let mut p = new_post("Robocyril", true);
    p.tags = Some(vec!["® Robocyril".to_string()]);
    let id = insert_post(&conn, &p).unwrap();
    let stored = get_post_by_slug(&conn, "robocyril").unwrap().unwrap();
    assert_eq!(stored.id, Some(id));
    assert_eq!(id, 2);
    assert_eq!(list_projects(&conn).unwrap().len(), 1);
}

#[test]
fn insert_statement_binds_slug_times_and_tags() {
    let p = new_post("Hello World", true);
    let now = "2024-01-01T00:00:00+00:00".to_string();
    assert_eq!(
        insert_statement(&p, &now),
        vec![
            Some("hello-world".to_string()),
            Some("Hello World".to_string()),
            Some("# Heading\n\nBody text.\n\nMore".to_string()),
            Some("github.com/x/y".to_string()),
            Some(now.clone()),
            Some(now.clone()),
            Some("[\"rust\"]".to_string()),
            Some("abc..def".to_string()),
        ]
    );
    let mut draft = new_post("Draft", false);
    draft.tags = None;
    draft.repo = None;
    let params = insert_statement(&draft, &now);
    assert_eq!(params[3], None);
    assert_eq!(params[5], None);
    assert_eq!(params[6], Some("[]".to_string()));
}

#[test]
fn delete_binds_the_slug() {
    assert_eq!(delete_params("abc"), vec![Some("abc".to_string())]);
    assert!(rows_changed(1));
    assert!(!rows_changed(0));
}

#[test]
fn update_outcome_resyncs_only_published_changes() {
    assert_eq!(update_outcome(Some(true), 1), (true, true));
    assert_eq!(update_outcome(Some(true), 0), (false, false));
    assert_eq!(update_outcome(None, 3), (true, false));
    assert_eq!(update_outcome(Some(false), 1), (true, false));
}

#[test]
fn resync_post_copies_stored_fields() {
    let post = Post {
        id: Some(4),
        slug: "s".to_string(),
        title: "T".to_string(),
        content: "C".to_string(),
        repo: Some("r".to_string()),
        created_at: robocyril_api::model::Timestamp { secs: 1, nanos: 0 },
        published_at: None,
        tags: vec!["a".to_string()],
        commit_range: None,
    };
    let n = resync_post(post);
    assert_eq!(n.title, "T");
    assert_eq!(n.content, "C");
    assert_eq!(n.repo.as_deref(), Some("r"));
    assert_eq!(n.tags, Some(vec!["a".to_string()]));
    assert_eq!(n.commit_range, None);
    assert_eq!(n.publish, Some(true));
}

fn post_row(id: i64, published: Option<&str>, created: &str) -> PostColumns {
    PostColumns {
        id,
        slug: format!("s{}", id),
        title: "T".to_string(),
        content: "C".to_string(),
        repo: None,
        created: created.to_string(),
        published: published.map(|p| p.to_string()),
        tags: "[\"x\"]".to_string(),
        commit_range: Some("a..b".to_string()),
    }
}

fn summary_row(id: i64, published: Option<&str>, created: &str) -> SummaryColumns {
    SummaryColumns {
        id,
        slug: format!("s{}", id),
        title: "T".to_string(),
        created: created.to_string(),
        published: published.map(|p| p.to_string()),
        tags: "oops".to_string(),
    }
}

fn project_row(id: &str, created: &str) -> ProjectColumns {
    ProjectColumns {
        id: id.to_string(),
        name: "Name".to_string(),
        repo: "repo".to_string(),
        description: "D".to_string(),
        short_description: "S".to_string(),
        created: created.to_string(),
    }
}

const T10: &str = "1970-01-01T00:00:10+00:00";
const T20: &str = "1970-01-01T00:00:20Z";

#[test]
fn columns_make_records() {
    let p = post_from_columns(&post_row(7, Some(T20), T10)).unwrap();
    assert_eq!(p.id, Some(7));
    assert_eq!((p.slug.as_str(), p.title.as_str(), p.content.as_str()), ("s7", "T", "C"));
    assert_eq!(p.created_at.secs, 10);
    assert_eq!(p.published_at.map(|t| t.secs), Some(20));
    assert_eq!(p.tags, vec!["x".to_string()]);
    assert_eq!(p.commit_range.as_deref(), Some("a..b"));
    assert!(matches!(post_from_columns(&post_row(1, Some("later"), T10)), Err(StoreError::MalformedTimestamp)));
    let s = summary_from_columns(&summary_row(3, None, "1970-01-01T00:00:05Z")).unwrap();
    assert_eq!((s.id, s.created_at.secs), (3, 5));
    assert!(s.published_at.is_none());
    assert!(s.tags.is_empty());
    let pr = project_from_columns(&project_row("id", "1970-01-01T00:00:01Z")).unwrap();
    assert_eq!((pr.id.as_str(), pr.name.as_str(), pr.created_at.secs), ("id", "Name", 1));
    assert!(matches!(project_from_columns(&project_row("x", "x")), Err(StoreError::MalformedTimestamp)));
    assert!(key_matches(&"a".to_string(), &"a".to_string()));
    assert!(!key_matches(&"a".to_string(), &"b".to_string()));
}

#[test]
fn summaries_keep_listed_rows_in_order() {
    let rows = vec![summary_row(1, Some(T20), T10), summary_row(2, None, T10), summary_row(3, Some(T10), T10)];
    let all = summaries_from_rows(&rows, true).unwrap();
    assert_eq!(all.iter().map(|s| s.id).collect::<Vec<_>>(), vec![1, 2, 3]);
    let published = summaries_from_rows(&rows, false).unwrap();
    assert_eq!(published.iter().map(|s| s.id).collect::<Vec<_>>(), vec![1, 3]);
    // An unreadable draft only fails the listing that keeps drafts.
    let bad = vec![summary_row(1, Some(T20), T10), summary_row(2, None, "bad")];
    assert_eq!(summaries_from_rows(&bad, false).unwrap().len(), 1);
    assert!(matches!(summaries_from_rows(&bad, true), Err(StoreError::MalformedTimestamp)));
    assert!(summaries_from_rows(&vec![], true).unwrap().is_empty());
}

#[test]
fn posts_keep_first_published_rows() {
    let rows = vec![
        post_row(1, Some(T20), T10),
        post_row(2, None, T10),
        post_row(3, Some(T10), T10),
        post_row(4, Some(T10), "bad"),
    ];
    let two = posts_from_rows(&rows, Some(2)).unwrap();
    assert_eq!(two.iter().map(|p| p.id.unwrap()).collect::<Vec<_>>(), vec![1, 3]);
    assert!(posts_from_rows(&rows, Some(0)).unwrap().is_empty());
    assert!(matches!(posts_from_rows(&rows, None), Err(StoreError::MalformedTimestamp)));
    let fine = &rows[..3].to_vec();
    assert_eq!(posts_from_rows(fine, None).unwrap().len(), 2);
    assert_eq!(posts_from_rows(fine, Some(10)).unwrap().len(), 2);
}

#[test]
fn projects_keep_every_row() {
    let rows = vec![project_row("a", T10), project_row("b", T20)];
    let v = projects_from_rows(&rows).unwrap();
    assert_eq!(v.iter().map(|p| p.id.as_str()).collect::<Vec<_>>(), vec!["a", "b"]);
    let bad = vec![project_row("a", T10), project_row("b", "no")];
    assert!(matches!(projects_from_rows(&bad), Err(StoreError::MalformedTimestamp)));
}

#[test]
fn insert_syncs_only_published_and_keeps_id() {
    assert!(syncs_on_insert(Some(true)));
    assert!(!syncs_on_insert(Some(false)));
    assert!(!syncs_on_insert(None));
    assert!(matches!(insert_outcome(9, Some(Err(StoreError::MalformedTimestamp))), Ok(9)));
    assert!(matches!(insert_outcome(9, None), Ok(9)));
}
