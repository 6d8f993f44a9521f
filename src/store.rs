//! The relational store: the `posts` and `projects` tables over SQLite.
//!
//! Whatever a query returns depends on the database file. The public functions
//! that talk to SQLite therefore state what holds whatever came back (which
//! errors are possible, what every record handed back satisfies); the
//! parameters they bind and the records they make of the rows read are
//! fixed by the verified functions they call, each with an exact contract
//! (`insert_statement`, `update_statement`, `delete_params`, `project_params`,
//! `summaries_from_rows`, `posts_from_rows`, `projects_from_rows`, ...).
use vstd::prelude::*;
use crate::model::{
    new_post_tags, tag_views, NewPost, NewProject, Post, PostSummary, Project, Timestamp, UpdatePost,
};
use crate::project::{project_from_post, yields_project};
use crate::text::{append_chars, append_str, chars_of, string_of};

verus! {

#[verifier::external_type_specification]
#[verifier::external_body]
pub struct ExConnection(rusqlite::Connection);

#[verifier::external_type_specification]
#[verifier::external_body]
pub struct ExSqlError(rusqlite::Error);

#[verifier::external_type_specification]
#[verifier::external_body]
pub struct ExStatement<'conn>(rusqlite::Statement<'conn>);

#[verifier::external_type_specification]
#[verifier::external_body]
pub struct ExRows<'stmt>(rusqlite::Rows<'stmt>);

#[verifier::external_type_specification]
#[verifier::external_body]
pub struct ExRow<'stmt>(rusqlite::Row<'stmt>);

#[verifier::external_type_specification]
#[verifier::external_body]
pub struct ExJsonError(serde_json::Error);

/// Why a store operation failed.
#[derive(Debug)]
pub enum StoreError {
    /// SQLite refused a statement, or a column could not be read.
    Database(rusqlite::Error),
    /// A stored timestamp is not RFC 3339 text.
    MalformedTimestamp,
    /// The system clock reads before the Unix epoch.
    Clock,
}

/// Relies on `rusqlite::Connection::execute_batch`: runs the statements of `sql` in turn.
#[verifier::external_body]
fn execute_batch(conn: &rusqlite::Connection, sql: &str) -> (r: Result<(), rusqlite::Error>) {
    conn.execute_batch(sql)
}

/// Relies on `rusqlite::Connection::execute`: runs `sql` with `params` bound to its
/// placeholders in order; `Ok` holds the number of rows changed.
#[verifier::external_body]
fn execute(conn: &rusqlite::Connection, sql: &str, params: &Vec<Option<String>>) -> (r: Result<
    usize,
    rusqlite::Error,
>) {
    conn.execute(sql, rusqlite::params_from_iter(params.iter()))
}

/// Relies on `rusqlite::Connection::last_insert_rowid`: the rowid of the latest insert.
#[verifier::external_body]
fn last_insert_rowid(conn: &rusqlite::Connection) -> (r: i64) {
    conn.last_insert_rowid()
}

/// Relies on `rusqlite::Connection::prepare`: compiles `sql`.
#[verifier::external_body]
fn prepare<'c>(conn: &'c rusqlite::Connection, sql: &str) -> (r: Result<
    rusqlite::Statement<'c>,
    rusqlite::Error,
>) {
    conn.prepare(sql)
}

/// Relies on `rusqlite::Statement::query`: binds `params` in order and starts the query.
#[verifier::external_body]
fn query<'s>(stmt: &'s mut rusqlite::Statement<'_>, params: &Vec<String>) -> (r: Result<
    rusqlite::Rows<'s>,
    rusqlite::Error,
>) {
    stmt.query(rusqlite::params_from_iter(params.iter()))
}

/// Relies on `rusqlite::Rows::next`: the next row of the result, `None` after the last.
#[verifier::external_body]
fn next_row<'a, 's>(rows: &'a mut rusqlite::Rows<'s>) -> (r: Result<
    Option<&'a rusqlite::Row<'s>>,
    rusqlite::Error,
>) {
    rows.next()
}

/// Relies on `rusqlite::Row::get` read as an `i64`.
#[verifier::external_body]
fn column_int(row: &rusqlite::Row<'_>, i: usize) -> (r: Result<i64, rusqlite::Error>) {
    row.get(i)
}

/// Relies on `rusqlite::Row::get` read as a `String`.
#[verifier::external_body]
fn column_text(row: &rusqlite::Row<'_>, i: usize) -> (r: Result<String, rusqlite::Error>) {
    row.get(i)
}

/// Relies on `rusqlite::Row::get` read as an `Option<String>` (`None` for SQL `NULL`).
#[verifier::external_body]
fn column_opt_text(row: &rusqlite::Row<'_>, i: usize) -> (r: Result<Option<String>, rusqlite::Error>) {
    row.get(i)
}

/// The instant that RFC 3339 text denotes, as `(secs, nanos)` since the epoch.
pub uninterp spec fn rfc3339_instant(s: Seq<char>) -> Option<(i64, u32)>;

/// Relies on `chrono::DateTime::parse_from_rfc3339`, read back through
/// `timestamp` and `timestamp_subsec_nanos`.
#[verifier::external_body]
fn parse_rfc3339(s: &str) -> (r: Option<Timestamp>)
    ensures
        r is None <==> rfc3339_instant(s@) is None,
        r matches Some(t) ==> rfc3339_instant(s@) == Some((t.secs, t.nanos)),
{
    chrono::DateTime::parse_from_rfc3339(s).ok().map(
        |d| Timestamp { secs: d.timestamp(), nanos: d.timestamp_subsec_nanos() },
    )
}

/// Relies on `std::time::SystemTime::now` measured from `UNIX_EPOCH`
/// (`None` when the clock reads before it), turned into a UTC instant by
/// `chrono::DateTime::from_timestamp` and written out by `DateTime::to_rfc3339`.
#[verifier::external_body]
fn now_rfc3339() -> (r: Option<String>) {
    let d = std::time::SystemTime::now().duration_since(std::time::UNIX_EPOCH).ok()?;
    let secs = i64::try_from(d.as_secs()).ok()?;
    chrono::DateTime::from_timestamp(secs, d.subsec_nanos()).map(|t| t.to_rfc3339())
}

/// The JSON array that `serde_json` writes for a list of strings.
pub uninterp spec fn tags_json(tags: Seq<Seq<char>>) -> Seq<char>;

/// Relies on `serde_json::to_string` on a list of strings, which its
/// documentation says fails only for a failing `Serialize` impl or a map with
/// non-string keys: neither occurs in a `Vec<String>`.
#[verifier::external_body]
fn encode_tags(tags: &Vec<String>) -> (r: Result<String, serde_json::Error>)
    ensures
        r is Ok,
        r matches Ok(s) ==> s@ == tags_json(tag_views(tags@)),
{
    serde_json::to_string(tags)
}

/// The list of strings that `serde_json` reads from `s`, `None` when `s` is not one.
pub uninterp spec fn json_tags(s: Seq<char>) -> Option<Seq<Seq<char>>>;

/// Relies on `serde_json::from_str` read as a `Vec<String>`.
#[verifier::external_body]
fn decode_tags(s: &str) -> (r: Option<Vec<String>>)
    ensures
        r is None <==> json_tags(s@) is None,
        r matches Some(v) ==> json_tags(s@) == Some(tag_views(v@)),
{
    serde_json::from_str(s).ok()
}

/// What `slug::slugify` makes of a title.
pub uninterp spec fn slug_of(title: Seq<char>) -> Seq<char>;

/// Relies on `slug::slugify`: the slug depends on the title's characters alone.
#[verifier::external_body]
fn slugify(title: &str) -> (r: String)
    ensures
        r@ == slug_of(title@),
{
    slug::slugify(title)
}

/// The slug of a post with this title.
pub fn post_slug(title: &str) -> (r: String)
    ensures
        r@ == slug_of(title@),
{
    slugify(title)
}

/// Slugifying is deterministic: equal titles give equal slugs, so two posts
/// whose titles are equal compete for the same unique slug.
pub proof fn lemma_slug_deterministic(a: Seq<char>, b: Seq<char>)
    requires
        a == b,
    ensures
        slug_of(a) == slug_of(b),
{
}

fn db<T>(r: Result<T, rusqlite::Error>) -> (o: Result<T, StoreError>)
    ensures
        r is Ok <==> o is Ok,
        r matches Ok(v) ==> o == Ok::<T, StoreError>(v),
        o matches Err(e) ==> e is Database,
{
    match r {
        Ok(v) => Ok(v),
        Err(e) => Err(StoreError::Database(e)),
    }
}

/// The tags stored as `text`: an unreadable list counts as no tags.
pub fn tags_from_text(text: &str) -> (r: Vec<String>)
    ensures
        tag_views(r@) == match json_tags(text@) {
            Some(t) => t,
            None => Seq::empty(),
        },
{
    match decode_tags(text) {
        Some(v) => v,
        None => {
            let v: Vec<String> = Vec::new();
            assert(tag_views(v@) =~= Seq::<Seq<char>>::empty());
            v
        },
    }
}

/// The instant stored as `text`, or `MalformedTimestamp`.
pub fn timestamp_from_text(text: &str) -> (r: Result<Timestamp, StoreError>)
    ensures
        r matches Ok(t) ==> rfc3339_instant(text@) == Some((t.secs, t.nanos)),
        r is Err <==> rfc3339_instant(text@) is None,
        r matches Err(e) ==> e is MalformedTimestamp,
{
    match parse_rfc3339(text) {
        Some(t) => Ok(t),
        None => Err(StoreError::MalformedTimestamp),
    }
}

/// Whether `t` is what the stored text `text` says: no instant for `NULL`,
/// else the instant that the text denotes.
pub open spec fn stamp_of(t: Option<Timestamp>, text: Option<Seq<char>>) -> bool {
    match text {
        None => t is None,
        Some(s) => t matches Some(v) && rfc3339_instant(s) == Some((v.secs, v.nanos)),
    }
}

/// Whether stored timestamp text can be read: `NULL`, or RFC 3339 text.
pub open spec fn stamp_readable(text: Option<Seq<char>>) -> bool {
    match text {
        None => true,
        Some(s) => rfc3339_instant(s) is Some,
    }
}

fn opt_timestamp_from_text(text: &Option<String>) -> (r: Result<Option<Timestamp>, StoreError>)
    ensures
        r is Ok <==> stamp_readable(opt_view(*text)),
        r matches Ok(t) ==> stamp_of(t, opt_view(*text)),
        r matches Err(e) ==> e is MalformedTimestamp,
{
    match text {
        Some(s) => {
            let t = timestamp_from_text(s.as_str())?;
            Ok(Some(t))
        },
        None => Ok(None),
    }
}

/// The schema: the two tables and their indexes, each created only if missing.
pub const SCHEMA: &'static str = "
        CREATE TABLE IF NOT EXISTS posts (
            id INTEGER PRIMARY KEY AUTOINCREMENT,
            slug TEXT UNIQUE NOT NULL,
            title TEXT NOT NULL,
            content TEXT NOT NULL,
            repo TEXT,
            created_at TEXT NOT NULL,
            published_at TEXT,
            tags TEXT NOT NULL DEFAULT '[]',
            commit_range TEXT
        );
        CREATE INDEX IF NOT EXISTS idx_posts_published ON posts(published_at);
        CREATE INDEX IF NOT EXISTS idx_posts_created ON posts(created_at);

        CREATE TABLE IF NOT EXISTS projects (
            id TEXT PRIMARY KEY,
            name TEXT NOT NULL,
            repo TEXT NOT NULL,
            description TEXT NOT NULL,
            short_description TEXT NOT NULL,
            created_at TEXT NOT NULL
        );
        CREATE INDEX IF NOT EXISTS idx_projects_created ON projects(created_at);
        ";

/// Creates the tables and indexes that are missing.
pub fn init_db(conn: &rusqlite::Connection) -> (r: Result<(), StoreError>)
    ensures
        r matches Err(e) ==> e is Database,
{
    db(execute_batch(conn, SCHEMA))
}

pub const INSERT_POST_SQL: &'static str =
    "INSERT INTO posts (slug, title, content, repo, created_at, published_at, tags, commit_range)
         VALUES (?1, ?2, ?3, ?4, ?5, ?6, ?7, ?8)";

/// The texts of a parameter list, `None` standing for SQL `NULL`.
pub open spec fn param_views(ps: Seq<Option<String>>) -> Seq<Option<Seq<char>>> {
    ps.map_values(|p: Option<String>| opt_view(p))
}

pub open spec fn opt_view(p: Option<String>) -> Option<Seq<char>> {
    match p {
        Some(s) => Some(s@),
        None => None,
    }
}

/// Whether a new post asks to be published.
pub open spec fn publishes(post: NewPost) -> bool {
    post.publish == Some(true)
}

/// The parameters of the insert statement: slug, title, content, repository,
/// creation time, publication time (the creation time when published, else
/// `NULL`), tags as JSON, commit range.
pub open spec fn insert_params_spec(
    post: NewPost,
    slug: Seq<char>,
    now: Seq<char>,
    tags: Seq<char>,
) -> Seq<Option<Seq<char>>> {
    seq![
        Some(slug),
        Some(post.title@),
        Some(post.content@),
        opt_view(post.repo),
        Some(now),
        if publishes(post) {
            Some(now)
        } else {
            None
        },
        Some(tags),
        opt_view(post.commit_range),
    ]
}

fn clone_opt(o: &Option<String>) -> (r: Option<String>)
    ensures
        opt_view(r) == opt_view(*o),
{
    match o {
        Some(s) => Some(s.clone()),
        None => None,
    }
}

/// The parameters that inserting `post` binds, given its slug and tag text.
fn insert_params(post: &NewPost, slug: String, now: &String, tags: String) -> (r: Vec<
    Option<String>,
>)
    ensures
        param_views(r@) == insert_params_spec(*post, slug@, now@, tags@),
{
    let mut r: Vec<Option<String>> = Vec::new();
    r.push(Some(slug));
    r.push(Some(post.title.clone()));
    r.push(Some(post.content.clone()));
    r.push(clone_opt(&post.repo));
    r.push(Some(now.clone()));
    let published = match post.publish {
        Some(true) => Some(now.clone()),
        _ => None,
    };
    r.push(published);
    r.push(Some(tags));
    r.push(clone_opt(&post.commit_range));
    assert(param_views(r@) =~= insert_params_spec(*post, slug@, now@, tags@));
    r
}

/// The parameters that inserting `post` at time `now` binds: its slug is the
/// slug of its title and its tags (none when absent) are written as JSON.
pub fn insert_statement(post: &NewPost, now: &String) -> (r: Vec<Option<String>>)
    ensures
        param_views(r@) == insert_params_spec(
            *post,
            slug_of(post.title@),
            now@,
            tags_json(new_post_tags(*post)),
        ),
{
    let slug = slugify(post.title.as_str());
    let empty: Vec<String> = Vec::new();
    let tags = match &post.tags {
        Some(t) => t,
        None => &empty,
    };
    assert(tag_views(tags@) =~= new_post_tags(*post));
    let tags_text = match encode_tags(tags) {
        Ok(s) => s,
        Err(_) => vstd::pervasive::unreached(),
    };
    insert_params(post, slug, now, tags_text)
}

/// Whether inserting a post with this publish flag refreshes its project:
/// only a post published at once does; a draft runs no project upsert.
pub fn syncs_on_insert(publish: Option<bool>) -> (r: bool)
    ensures
        r == (publish == Some(true)),
{
    publish == Some(true)
}

/// The result of an insert whose post row got `id`, whatever the project
/// sync that followed gave: a sync failure never fails the insert.
pub fn insert_outcome(id: i64, _sync: Option<Result<(), StoreError>>) -> (r: Result<i64, StoreError>)
    ensures
        r matches Ok(v) && v == id,
{
    Ok(id)
}

/// Inserts a post under the slug of its title and returns its id. A post that
/// is published at once also creates or refreshes its project; a failure there
/// does not fail the insert. SQLite refuses a second post whose title gives the
/// same slug.
pub fn insert_post(conn: &rusqlite::Connection, post: &NewPost) -> (r: Result<i64, StoreError>)
    ensures
        r matches Err(e) ==> e is Database || e is Clock,
{
    let now = match now_rfc3339() {
        Some(n) => n,
        None => {
            return Err(StoreError::Clock);
        },
    };
    let params = insert_statement(post, &now);
    db(execute(conn, INSERT_POST_SQL, &params))?;
    let id = last_insert_rowid(conn);
    let sync = if syncs_on_insert(post.publish) {
        Some(sync_project_from_post(conn, post))
    } else {
        None
    };
    insert_outcome(id, sync)
}

/// The tags that stored tag text holds: none when it is not a JSON list of strings.
pub open spec fn stored_tags(text: Seq<char>) -> Seq<Seq<char>> {
    match json_tags(text) {
        Some(t) => t,
        None => Seq::empty(),
    }
}

/// The columns of a stored post row, as read.
#[derive(Clone, Debug)]
pub struct PostColumns {
    pub id: i64,
    pub slug: String,
    pub title: String,
    pub content: String,
    pub repo: Option<String>,
    pub created: String,
    pub published: Option<String>,
    pub tags: String,
    pub commit_range: Option<String>,
}

/// The columns of a stored post row that a listing reads.
#[derive(Clone, Debug)]
pub struct SummaryColumns {
    pub id: i64,
    pub slug: String,
    pub title: String,
    pub created: String,
    pub published: Option<String>,
    pub tags: String,
}

/// Whether the timestamps of a post row can be read.
pub open spec fn post_readable(c: PostColumns) -> bool {
    rfc3339_instant(c.created@) is Some && stamp_readable(opt_view(c.published))
}

/// Whether `p` is the post that row `c` holds: each field is its column, the
/// timestamps are read as RFC 3339 and the tags as JSON.
pub open spec fn is_post_of(p: Post, c: PostColumns) -> bool {
    &&& p.id == Some(c.id)
    &&& p.slug@ == c.slug@
    &&& p.title@ == c.title@
    &&& p.content@ == c.content@
    &&& opt_view(p.repo) == opt_view(c.repo)
    &&& rfc3339_instant(c.created@) == Some((p.created_at.secs, p.created_at.nanos))
    &&& stamp_of(p.published_at, opt_view(c.published))
    &&& tag_views(p.tags@) == stored_tags(c.tags@)
    &&& opt_view(p.commit_range) == opt_view(c.commit_range)
}

/// Whether the timestamps of a summary row can be read.
pub open spec fn summary_readable(c: SummaryColumns) -> bool {
    rfc3339_instant(c.created@) is Some && stamp_readable(opt_view(c.published))
}

/// Whether `p` is the summary that row `c` holds, read as for a post.
pub open spec fn is_summary_of(p: PostSummary, c: SummaryColumns) -> bool {
    &&& p.id == c.id
    &&& p.slug@ == c.slug@
    &&& p.title@ == c.title@
    &&& rfc3339_instant(c.created@) == Some((p.created_at.secs, p.created_at.nanos))
    &&& stamp_of(p.published_at, opt_view(c.published))
    &&& tag_views(p.tags@) == stored_tags(c.tags@)
}

/// The post that a stored row holds.
pub fn post_from_columns(c: &PostColumns) -> (r: Result<Post, StoreError>)
    ensures
        r is Ok <==> post_readable(*c),
        r matches Err(e) ==> e is MalformedTimestamp,
        r matches Ok(p) ==> is_post_of(p, *c),
{
    let created_at = timestamp_from_text(c.created.as_str())?;
    let published_at = opt_timestamp_from_text(&c.published)?;
    Ok(
        Post {
            id: Some(c.id),
            slug: c.slug.clone(),
            title: c.title.clone(),
            content: c.content.clone(),
            repo: clone_opt(&c.repo),
            created_at,
            published_at,
            tags: tags_from_text(c.tags.as_str()),
            commit_range: clone_opt(&c.commit_range),
        },
    )
}

/// The summary that a stored row holds.
pub fn summary_from_columns(c: &SummaryColumns) -> (r: Result<PostSummary, StoreError>)
    ensures
        r is Ok <==> summary_readable(*c),
        r matches Err(e) ==> e is MalformedTimestamp,
        r matches Ok(p) ==> is_summary_of(p, *c),
{
    let created_at = timestamp_from_text(c.created.as_str())?;
    let published_at = opt_timestamp_from_text(&c.published)?;
    Ok(
        PostSummary {
            id: c.id,
            slug: c.slug.clone(),
            title: c.title.clone(),
            created_at,
            published_at,
            tags: tags_from_text(c.tags.as_str()),
        },
    )
}

fn read_post_columns(row: &rusqlite::Row<'_>) -> (r: Result<PostColumns, StoreError>)
    ensures
        r matches Err(e) ==> e is Database,
{
    Ok(
        PostColumns {
            id: db(column_int(row, 0))?,
            slug: db(column_text(row, 1))?,
            title: db(column_text(row, 2))?,
            content: db(column_text(row, 3))?,
            repo: db(column_opt_text(row, 4))?,
            created: db(column_text(row, 5))?,
            published: db(column_opt_text(row, 6))?,
            tags: db(column_text(row, 7))?,
            commit_range: db(column_opt_text(row, 8))?,
        },
    )
}

fn read_summary_columns(row: &rusqlite::Row<'_>) -> (r: Result<SummaryColumns, StoreError>)
    ensures
        r matches Err(e) ==> e is Database,
{
    Ok(
        SummaryColumns {
            id: db(column_int(row, 0))?,
            slug: db(column_text(row, 1))?,
            title: db(column_text(row, 2))?,
            created: db(column_text(row, 3))?,
            published: db(column_opt_text(row, 4))?,
            tags: db(column_text(row, 5))?,
        },
    )
}

/// Whether a row read for `key` is kept: its key column must equal `key`.
pub fn key_matches(found: &String, key: &String) -> (r: bool)
    ensures
        r == (found@ == key@),
{
    *found == *key
}

pub const GET_POST_SQL: &'static str =
    "SELECT id, slug, title, content, repo, created_at, published_at, tags, commit_range
         FROM posts WHERE slug = ?1";

/// The post stored under `slug`, if any.
pub fn get_post_by_slug(conn: &rusqlite::Connection, slug: &str) -> (r: Result<
    Option<Post>,
    StoreError,
>)
    ensures
        r matches Ok(Some(p)) ==> p.id is Some && p.slug@ == slug@,
        r matches Err(e) ==> e is Database || e is MalformedTimestamp,
{
    let mut stmt = db(prepare(conn, GET_POST_SQL))?;
    let mut params: Vec<String> = Vec::new();
    params.push(slug.to_owned());
    let mut rows = db(query(&mut stmt, &params))?;
    match db(next_row(&mut rows))? {
        Some(row) => {
            let columns = read_post_columns(row)?;
            let post = post_from_columns(&columns)?;
            if key_matches(&post.slug, &params[0]) {
                Ok(Some(post))
            } else {
                Ok(None)
            }
        },
        None => Ok(None),
    }
}

pub const UPDATE_PREFIX: &'static str = "UPDATE posts SET ";

pub const UPDATE_SUFFIX: &'static str = " WHERE slug = ?";

pub const SET_TITLE: &'static str = "title = ?";

pub const SET_CONTENT: &'static str = "content = ?";

pub const SET_PUBLISHED: &'static str = "published_at = ?";

pub const SEPARATOR: &'static str = ", ";

/// The assignments that `u` asks for, in the order title, content, publication time.
pub open spec fn update_assignments(u: UpdatePost) -> Seq<Seq<char>> {
    (if u.title is Some {
        seq![SET_TITLE@]
    } else {
        Seq::empty()
    }) + (if u.content is Some {
        seq![SET_CONTENT@]
    } else {
        Seq::empty()
    }) + (if u.publish == Some(true) {
        seq![SET_PUBLISHED@]
    } else {
        Seq::empty()
    })
}

/// The pieces of `ls` joined with `sep`.
pub open spec fn join_with(ls: Seq<Seq<char>>, sep: Seq<char>) -> Seq<char>
    decreases ls.len(),
{
    if ls.len() == 0 {
        Seq::empty()
    } else if ls.len() == 1 {
        ls[0]
    } else {
        join_with(ls.drop_last(), sep) + sep + ls.last()
    }
}

/// The statement that applies `u` to the post with a given slug.
pub open spec fn update_sql(u: UpdatePost) -> Seq<char> {
    UPDATE_PREFIX@ + join_with(update_assignments(u), SEPARATOR@) + UPDATE_SUFFIX@
}

/// Its parameters: the new title, the new content, the publication time `now`,
/// as far as `u` asks for each, then the slug.
pub open spec fn update_params(u: UpdatePost, now: Seq<char>, slug: Seq<char>) -> Seq<
    Option<Seq<char>>,
> {
    (if u.title is Some {
        seq![Some(u.title->0@)]
    } else {
        Seq::empty()
    }) + (if u.content is Some {
        seq![Some(u.content->0@)]
    } else {
        Seq::empty()
    }) + (if u.publish == Some(true) {
        seq![Some(now)]
    } else {
        Seq::empty()
    }) + seq![Some(slug)]
}

proof fn lemma_join_with_push(ls: Seq<Seq<char>>, sep: Seq<char>, x: Seq<char>)
    ensures
        join_with(ls.push(x), sep) == if ls.len() == 0 {
            x
        } else {
            join_with(ls, sep) + sep + x
        },
{
    assert(ls.push(x).drop_last() =~= ls);
}

fn add_assignment(sets: &mut Vec<char>, count: usize, a: &str, Ghost(done): Ghost<Seq<Seq<char>>>)
    requires
        old(sets)@ == join_with(done, SEPARATOR@),
        count == done.len(),
    ensures
        final(sets)@ == join_with(done.push(a@), SEPARATOR@),
{
    proof {
        lemma_join_with_push(done, SEPARATOR@, a@);
    }
    if count > 0 {
        append_str(sets, SEPARATOR);
    }
    append_str(sets, a);
    proof {
        if done.len() == 0 {
            assert(sets@ =~= a@);
        } else {
            assert(sets@ =~= join_with(done, SEPARATOR@) + SEPARATOR@ + a@);
        }
    }
}

/// The statement and parameters that apply `u` to the post `slug`, with `now`
/// as the publication time; `None` when `u` changes nothing.
pub fn update_statement(u: &UpdatePost, now: &String, slug: &str) -> (r: Option<
    (String, Vec<Option<String>>),
>)
    ensures
        r is None <==> !u.has_changes(),
        r matches Some((sql, params)) ==> sql@ == update_sql(*u) && param_views(params@)
            == update_params(*u, now@, slug@),
{
    if !(u.title.is_some() || u.content.is_some() || u.publish == Some(true)) {
        return None;
    }
    let mut sets: Vec<char> = Vec::new();
    let mut params: Vec<Option<String>> = Vec::new();
    let ghost mut done: Seq<Seq<char>> = Seq::empty();
    proof {
        reveal_strlit("title = ?");
        reveal_strlit("content = ?");
        reveal_strlit("published_at = ?");
    }
    match &u.title {
        Some(t) => {
            add_assignment(&mut sets, params.len(), SET_TITLE, Ghost(done));
            proof {
                done = done.push(SET_TITLE@);
            }
            params.push(Some(t.clone()));
        },
        None => {},
    }
    match &u.content {
        Some(c) => {
            add_assignment(&mut sets, params.len(), SET_CONTENT, Ghost(done));
            proof {
                done = done.push(SET_CONTENT@);
            }
            params.push(Some(c.clone()));
        },
        None => {},
    }
    if u.publish == Some(true) {
        add_assignment(&mut sets, params.len(), SET_PUBLISHED, Ghost(done));
        proof {
            done = done.push(SET_PUBLISHED@);
        }
        params.push(Some(now.clone()));
    }
    params.push(Some(slug.to_owned()));
    assert(done =~= update_assignments(*u));
    assert(param_views(params@) =~= update_params(*u, now@, slug@));
    let mut sql = chars_of(UPDATE_PREFIX);
    append_chars(&mut sql, &sets);
    append_str(&mut sql, UPDATE_SUFFIX);
    Some((string_of(&sql), params))
}

/// Whether a statement that changed `rows` rows changed a post.
pub fn rows_changed(rows: usize) -> (r: bool)
    ensures
        r == (rows > 0),
{
    rows > 0
}

/// What follows an update that changed `rows` rows: whether a post changed,
/// and whether its project is to be refreshed (only when publishing changed one).
pub fn update_outcome(publish: Option<bool>, rows: usize) -> (r: (bool, bool))
    ensures
        r.0 == (rows > 0),
        r.1 == (publish == Some(true) && rows > 0),
{
    let changed = rows_changed(rows);
    (changed, publish == Some(true) && changed)
}

/// The post as the synchronizer sees it after publishing: its stored title,
/// content, repository, tags and commit range, asking to be published.
pub fn resync_post(post: Post) -> (r: NewPost)
    ensures
        r.title@ == post.title@,
        r.content@ == post.content@,
        opt_view(r.repo) == opt_view(post.repo),
        r.tags matches Some(t) && tag_views(t@) == tag_views(post.tags@),
        opt_view(r.commit_range) == opt_view(post.commit_range),
        r.publish == Some(true),
{
    NewPost {
        title: post.title,
        content: post.content,
        repo: post.repo,
        tags: Some(post.tags),
        commit_range: post.commit_range,
        publish: Some(true),
    }
}

/// Applies the fields that `update` sets to the post `slug`. Publishing stamps
/// the publication time with the current time and then refreshes the post's
/// project from its stored state; a failure there is ignored. Returns whether
/// a post was changed; an update that sets nothing changes nothing and runs no
/// statement.
pub fn update_post(conn: &rusqlite::Connection, slug: &str, update: &UpdatePost) -> (r: Result<
    bool,
    StoreError,
>)
    ensures
        !update.has_changes() ==> r matches Ok(false),
        r matches Err(e) ==> e is Database || e is Clock,
{
    if !(update.title.is_some() || update.content.is_some() || update.publish == Some(true)) {
        return Ok(false);
    }
    let now = match now_rfc3339() {
        Some(n) => n,
        None => {
            return Err(StoreError::Clock);
        },
    };
    let (sql, params) = match update_statement(update, &now, slug) {
        Some(s) => s,
        None => {
            return Ok(false);
        },
    };
    let rows = db(execute(conn, sql.as_str(), &params))?;
    let (changed, resync) = update_outcome(update.publish, rows);
    if resync {
        if let Ok(Some(post)) = get_post_by_slug(conn, slug) {
            let _ = sync_project_from_post(conn, &resync_post(post));
        }
    }
    Ok(changed)
}

pub const DELETE_POST_SQL: &'static str = "DELETE FROM posts WHERE slug = ?";

/// The parameters of the delete statement: the slug alone.
pub fn delete_params(slug: &str) -> (r: Vec<Option<String>>)
    ensures
        param_views(r@) == seq![Some(slug@)],
{
    let mut params: Vec<Option<String>> = Vec::new();
    params.push(Some(slug.to_owned()));
    assert(param_views(params@) =~= seq![Some(slug@)]);
    params
}

/// Deletes the post `slug`; returns whether there was one.
pub fn delete_post(conn: &rusqlite::Connection, slug: &str) -> (r: Result<bool, StoreError>)
    ensures
        r matches Err(e) ==> e is Database,
{
    let params = delete_params(slug);
    let rows = db(execute(conn, DELETE_POST_SQL, &params))?;
    Ok(rows_changed(rows))
}

/// Whether a post listing keeps a row: every row with drafts, else a
/// published one.
pub open spec fn listed(c: SummaryColumns, include_drafts: bool) -> bool {
    include_drafts || c.published is Some
}

/// The rows that a post listing keeps, in the order they were read.
pub open spec fn listed_rows(rows: Seq<SummaryColumns>, include_drafts: bool) -> Seq<
    SummaryColumns,
>
    decreases rows.len(),
{
    if rows.len() == 0 {
        Seq::empty()
    } else if listed(rows.last(), include_drafts) {
        listed_rows(rows.drop_last(), include_drafts).push(rows.last())
    } else {
        listed_rows(rows.drop_last(), include_drafts)
    }
}

/// The summaries of the rows read, in order: one for each row that the
/// listing keeps. It fails only on a kept row whose timestamps cannot be read.
pub fn summaries_from_rows(rows: &Vec<SummaryColumns>, include_drafts: bool) -> (r: Result<
    Vec<PostSummary>,
    StoreError,
>)
    ensures
        r matches Ok(v) ==> {
            &&& v.len() == listed_rows(rows@, include_drafts).len()
            &&& forall|i: int|
                0 <= i < v.len() ==> is_summary_of(
                    #[trigger] v[i],
                    listed_rows(rows@, include_drafts)[i],
                )
            &&& !include_drafts ==> forall|i: int|
                0 <= i < v.len() ==> (#[trigger] v[i]).published_at is Some
        },
        r matches Err(e) ==> e is MalformedTimestamp && exists|i: int|
            0 <= i < rows.len() && listed(#[trigger] rows@[i], include_drafts) && !summary_readable(
                rows@[i],
            ),
{
    let mut out: Vec<PostSummary> = Vec::new();
    let mut i: usize = 0;
    while i < rows.len()
        invariant
            i <= rows.len(),
            out.len() == listed_rows(rows@.subrange(0, i as int), include_drafts).len(),
            forall|j: int|
                0 <= j < out.len() ==> is_summary_of(
                    #[trigger] out@[j],
                    listed_rows(rows@.subrange(0, i as int), include_drafts)[j],
                ),
            !include_drafts ==> forall|j: int|
                0 <= j < out.len() ==> (#[trigger] out@[j]).published_at is Some,
        decreases rows.len() - i,
    {
        let ghost before = listed_rows(rows@.subrange(0, i as int), include_drafts);
        assert(rows@.subrange(0, i + 1).drop_last() =~= rows@.subrange(0, i as int));
        assert(rows@.subrange(0, i + 1).last() == rows@[i as int]);
        let c = &rows[i];
        if include_drafts || c.published.is_some() {
            let s = match summary_from_columns(c) {
                Ok(s) => s,
                Err(e) => {
                    assert(listed(rows@[i as int], include_drafts));
                    return Err(e);
                },
            };
            out.push(s);
        }
        i = i + 1;
    }
    assert(rows@.subrange(0, rows.len() as int) =~= rows@);
    Ok(out)
}

/// The rows that the full listing keeps: the published ones, in order.
pub open spec fn published_rows(rows: Seq<PostColumns>) -> Seq<PostColumns>
    decreases rows.len(),
{
    if rows.len() == 0 {
        Seq::empty()
    } else if rows.last().published is Some {
        published_rows(rows.drop_last()).push(rows.last())
    } else {
        published_rows(rows.drop_last())
    }
}

/// The first `limit` of `s`, or all of it without a limit or when it is shorter.
pub open spec fn first_n<T>(s: Seq<T>, limit: Option<usize>) -> Seq<T> {
    match limit {
        Some(n) => if s.len() <= n {
            s
        } else {
            s.subrange(0, n as int)
        },
        None => s,
    }
}

proof fn lemma_published_rows_prefix(rows: Seq<PostColumns>, i: int)
    requires
        0 <= i <= rows.len(),
    ensures
        published_rows(rows.subrange(0, i)).len() <= published_rows(rows).len(),
        published_rows(rows).subrange(0, published_rows(rows.subrange(0, i)).len() as int)
            == published_rows(rows.subrange(0, i)),
    decreases rows.len() - i,
{
    let a = published_rows(rows.subrange(0, i));
    if i < rows.len() {
        lemma_published_rows_prefix(rows, i + 1);
        assert(rows.subrange(0, i + 1).drop_last() =~= rows.subrange(0, i));
        let b = published_rows(rows.subrange(0, i + 1));
        assert(b.subrange(0, a.len() as int) =~= a);
        assert(published_rows(rows).subrange(0, a.len() as int) =~= published_rows(rows).subrange(
            0,
            b.len() as int,
        ).subrange(0, a.len() as int));
    } else {
        assert(rows.subrange(0, i) =~= rows);
        assert(published_rows(rows).subrange(0, a.len() as int) =~= a);
    }
}

/// The posts of the rows read, in order: one for each published row, the
/// first `limit` of them when a limit is given. It fails only on such a row
/// whose timestamps cannot be read.
pub fn posts_from_rows(rows: &Vec<PostColumns>, limit: Option<usize>) -> (r: Result<
    Vec<Post>,
    StoreError,
>)
    ensures
        r matches Ok(v) ==> {
            &&& v.len() == first_n(published_rows(rows@), limit).len()
            &&& forall|i: int|
                0 <= i < v.len() ==> is_post_of(
                    #[trigger] v[i],
                    first_n(published_rows(rows@), limit)[i],
                )
            &&& forall|i: int| 0 <= i < v.len() ==> (#[trigger] v[i]).published_at is Some
        },
        r matches Err(e) ==> e is MalformedTimestamp && exists|i: int|
            0 <= i < rows.len() && (#[trigger] rows@[i]).published is Some && !post_readable(
                rows@[i],
            ),
{
    let mut out: Vec<Post> = Vec::new();
    let mut i: usize = 0;
    let mut full = false;
    while i < rows.len() && !full
        invariant
            i <= rows.len(),
            out.len() == published_rows(rows@.subrange(0, i as int)).len(),
            forall|j: int|
                0 <= j < out.len() ==> is_post_of(
                    #[trigger] out@[j],
                    published_rows(rows@.subrange(0, i as int))[j],
                ),
            forall|j: int| 0 <= j < out.len() ==> (#[trigger] out@[j]).published_at is Some,
            limit matches Some(n) ==> out.len() <= n,
            full ==> (limit matches Some(n) && out.len() == n),
        decreases rows.len() - i, if full { 0nat } else { 1nat },
    {
        if let Some(n) = limit {
            if out.len() >= n {
                full = true;
            }
        }
        if !full {
            assert(rows@.subrange(0, i + 1).drop_last() =~= rows@.subrange(0, i as int));
            assert(rows@.subrange(0, i + 1).last() == rows@[i as int]);
            let c = &rows[i];
            if c.published.is_some() {
                let p = match post_from_columns(c) {
                    Ok(p) => p,
                    Err(e) => {
                        return Err(e);
                    },
                };
                out.push(p);
            }
            i = i + 1;
        }
    }
    proof {
        lemma_published_rows_prefix(rows@, i as int);
        let a = published_rows(rows@.subrange(0, i as int));
        let all = published_rows(rows@);
        if full {
            assert(first_n(all, limit) =~= a);
        } else {
            assert(rows@.subrange(0, i as int) =~= rows@);
            assert(first_n(all, limit) =~= all);
        }
    }
    Ok(out)
}

pub const LIST_ALL_SQL: &'static str =
    "SELECT id, slug, title, created_at, published_at, tags FROM posts ORDER BY created_at DESC";

pub const LIST_PUBLISHED_SQL: &'static str =
    "SELECT id, slug, title, created_at, published_at, tags FROM posts WHERE published_at IS NOT NULL ORDER BY published_at DESC";

/// The query of a post listing: all posts by creation time, or the published
/// ones by publication time.
pub open spec fn list_sql(include_drafts: bool) -> Seq<char> {
    if include_drafts {
        LIST_ALL_SQL@
    } else {
        LIST_PUBLISHED_SQL@
    }
}

fn list_query(include_drafts: bool) -> (r: &'static str)
    ensures
        r@ == list_sql(include_drafts),
{
    if include_drafts {
        LIST_ALL_SQL
    } else {
        LIST_PUBLISHED_SQL
    }
}

/// Post summaries, newest first: all posts by creation time when
/// `include_drafts`, else the published ones by publication time. The rows
/// that the query returns are turned into the list by `summaries_from_rows`,
/// so a listing without drafts holds only published posts.
pub fn list_posts(conn: &rusqlite::Connection, include_drafts: bool) -> (r: Result<
    Vec<PostSummary>,
    StoreError,
>)
    ensures
        !include_drafts ==> (r matches Ok(v) ==> forall|i: int|
            0 <= i < v.len() ==> (#[trigger] v[i]).published_at is Some),
        r matches Err(e) ==> e is Database || e is MalformedTimestamp,
{
    let mut stmt = db(prepare(conn, list_query(include_drafts)))?;
    let mut rows = db(query(&mut stmt, &Vec::new()))?;
    let mut read: Vec<SummaryColumns> = Vec::new();
    let mut seen: usize = 0;
    while seen < usize::MAX
        decreases usize::MAX - seen,
    {
        let row = match db(next_row(&mut rows))? {
            Some(row) => row,
            None => break,
        };
        seen = seen + 1;
        read.push(read_summary_columns(row)?);
    }
    summaries_from_rows(&read, include_drafts)
}

pub const LIST_FULL_SQL: &'static str =
    "SELECT id, slug, title, content, repo, created_at, published_at, tags, commit_range
               FROM posts WHERE published_at IS NOT NULL ORDER BY published_at DESC";

/// Whole published posts, newest publication first, at most `limit` of them
/// when a limit is given. Reading stops once `limit` published rows are in;
/// `posts_from_rows` turns them into the list.
pub fn list_posts_full(conn: &rusqlite::Connection, limit: Option<usize>) -> (r: Result<
    Vec<Post>,
    StoreError,
>)
    ensures
        r matches Ok(v) ==> {
            &&& forall|i: int| 0 <= i < v.len() ==> (#[trigger] v[i]).published_at is Some
            &&& limit matches Some(n) ==> v.len() <= n
        },
        r matches Err(e) ==> e is Database || e is MalformedTimestamp,
{
    let mut stmt = db(prepare(conn, LIST_FULL_SQL))?;
    let mut rows = db(query(&mut stmt, &Vec::new()))?;
    let mut read: Vec<PostColumns> = Vec::new();
    let mut published: usize = 0;
    let mut seen: usize = 0;
    while seen < usize::MAX
        invariant
            published <= seen,
        decreases usize::MAX - seen,
    {
        if let Some(max) = limit {
            if published >= max {
                break;
            }
        }
        let row = match db(next_row(&mut rows))? {
            Some(row) => row,
            None => break,
        };
        seen = seen + 1;
        let columns = read_post_columns(row)?;
        if columns.published.is_some() {
            published = published + 1;
        }
        read.push(columns);
    }
    posts_from_rows(&read, limit)
}

/// Creates or refreshes the project that `post` refers to, when it yields one;
/// otherwise does nothing and succeeds.
pub fn sync_project_from_post(conn: &rusqlite::Connection, post: &NewPost) -> (r: Result<
    (),
    StoreError,
>)
    ensures
        !yields_project(*post) ==> r is Ok,
        r matches Err(e) ==> e is Database || e is Clock,
{
    match project_from_post(post) {
        Some(project) => insert_project(conn, &project),
        None => Ok(()),
    }
}

pub const UPSERT_PROJECT_SQL: &'static str =
    "INSERT OR REPLACE INTO projects (id, name, repo, description, short_description, created_at)
         VALUES (?1, ?2, ?3, ?4, ?5, ?6)";

/// The parameters of the project upsert: its fields, then the time `now`.
pub fn project_params(project: &NewProject, now: String) -> (r: Vec<Option<String>>)
    ensures
        param_views(r@) == seq![
            Some(project.id@),
            Some(project.name@),
            Some(project.repo@),
            Some(project.description@),
            Some(project.short_description@),
            Some(now@),
        ],
{
    let mut r: Vec<Option<String>> = Vec::new();
    r.push(Some(project.id.clone()));
    r.push(Some(project.name.clone()));
    r.push(Some(project.repo.clone()));
    r.push(Some(project.description.clone()));
    r.push(Some(project.short_description.clone()));
    r.push(Some(now));
    proof {
        assert(param_views(r@) =~= seq![
            Some(project.id@),
            Some(project.name@),
            Some(project.repo@),
            Some(project.description@),
            Some(project.short_description@),
            Some(now@),
        ]);
    }
    r
}

/// Writes `project`, replacing any project with the same id; its creation time
/// becomes the current time.
pub fn insert_project(conn: &rusqlite::Connection, project: &NewProject) -> (r: Result<
    (),
    StoreError,
>)
    ensures
        r matches Err(e) ==> e is Database || e is Clock,
{
    let now = match now_rfc3339() {
        Some(n) => n,
        None => {
            return Err(StoreError::Clock);
        },
    };
    let params = project_params(project, now);
    db(execute(conn, UPSERT_PROJECT_SQL, &params))?;
    Ok(())
}

/// The columns of a stored project row, as read.
#[derive(Clone, Debug)]
pub struct ProjectColumns {
    pub id: String,
    pub name: String,
    pub repo: String,
    pub description: String,
    pub short_description: String,
    pub created: String,
}

/// Whether `p` is the project that row `c` holds: each field is its column and
/// the creation time is read as RFC 3339.
pub open spec fn is_project_row_of(p: Project, c: ProjectColumns) -> bool {
    &&& p.id@ == c.id@
    &&& p.name@ == c.name@
    &&& p.repo@ == c.repo@
    &&& p.description@ == c.description@
    &&& p.short_description@ == c.short_description@
    &&& rfc3339_instant(c.created@) == Some((p.created_at.secs, p.created_at.nanos))
}

/// The project that a stored row holds.
pub fn project_from_columns(c: &ProjectColumns) -> (r: Result<Project, StoreError>)
    ensures
        r is Ok <==> rfc3339_instant(c.created@) is Some,
        r matches Err(e) ==> e is MalformedTimestamp,
        r matches Ok(p) ==> is_project_row_of(p, *c),
{
    let created_at = timestamp_from_text(c.created.as_str())?;
    Ok(
        Project {
            id: c.id.clone(),
            name: c.name.clone(),
            repo: c.repo.clone(),
            description: c.description.clone(),
            short_description: c.short_description.clone(),
            created_at,
        },
    )
}

/// The projects of the rows read, one for each row, in order. It fails only on
/// a row whose creation time cannot be read.
pub fn projects_from_rows(rows: &Vec<ProjectColumns>) -> (r: Result<Vec<Project>, StoreError>)
    ensures
        r matches Ok(v) ==> v.len() == rows.len() && forall|i: int|
            0 <= i < v.len() ==> is_project_row_of(#[trigger] v[i], rows@[i]),
        r matches Err(e) ==> e is MalformedTimestamp && exists|i: int|
            0 <= i < rows.len() && rfc3339_instant((#[trigger] rows@[i]).created@) is None,
{
    let mut out: Vec<Project> = Vec::new();
    let mut i: usize = 0;
    while i < rows.len()
        invariant
            i <= rows.len(),
            out.len() == i,
            forall|j: int| 0 <= j < i ==> is_project_row_of(#[trigger] out@[j], rows@[j]),
        decreases rows.len() - i,
    {
        let p = match project_from_columns(&rows[i]) {
            Ok(p) => p,
            Err(e) => {
                assert(rfc3339_instant(rows@[i as int].created@) is None);
                return Err(e);
            },
        };
        out.push(p);
        i = i + 1;
    }
    Ok(out)
}

fn read_project_columns(row: &rusqlite::Row<'_>) -> (r: Result<ProjectColumns, StoreError>)
    ensures
        r matches Err(e) ==> e is Database,
{
    Ok(
        ProjectColumns {
            id: db(column_text(row, 0))?,
            name: db(column_text(row, 1))?,
            repo: db(column_text(row, 2))?,
            description: db(column_text(row, 3))?,
            short_description: db(column_text(row, 4))?,
            created: db(column_text(row, 5))?,
        },
    )
}

pub const LIST_PROJECTS_SQL: &'static str =
    "SELECT id, name, repo, description, short_description, created_at
               FROM projects ORDER BY created_at ASC";

/// All projects, oldest first: every row that the query returns becomes one
/// project, through `projects_from_rows`.
pub fn list_projects(conn: &rusqlite::Connection) -> (r: Result<Vec<Project>, StoreError>)
    ensures
        r matches Err(e) ==> e is Database || e is MalformedTimestamp,
{
    let mut stmt = db(prepare(conn, LIST_PROJECTS_SQL))?;
    let mut rows = db(query(&mut stmt, &Vec::new()))?;
    let mut read: Vec<ProjectColumns> = Vec::new();
    let mut seen: usize = 0;
    while seen < usize::MAX
        decreases usize::MAX - seen,
    {
        let row = match db(next_row(&mut rows))? {
            Some(row) => row,
            None => break,
        };
        seen = seen + 1;
        read.push(read_project_columns(row)?);
    }
    projects_from_rows(&read)
}

pub const GET_PROJECT_SQL: &'static str =
    "SELECT id, name, repo, description, short_description, created_at
         FROM projects WHERE id = ?1";

/// The project with this id, if any.
pub fn get_project_by_id(conn: &rusqlite::Connection, id: &str) -> (r: Result<
    Option<Project>,
    StoreError,
>)
    ensures
        r matches Ok(Some(p)) ==> p.id@ == id@,
        r matches Err(e) ==> e is Database || e is MalformedTimestamp,
{
    let mut stmt = db(prepare(conn, GET_PROJECT_SQL))?;
    let mut params: Vec<String> = Vec::new();
    params.push(id.to_owned());
    let mut rows = db(query(&mut stmt, &params))?;
    match db(next_row(&mut rows))? {
        Some(row) => {
            let columns = read_project_columns(row)?;
            let project = project_from_columns(&columns)?;
            if key_matches(&project.id, &params[0]) {
                Ok(Some(project))
            } else {
                Ok(None)
            }
        },
        None => Ok(None),
    }
}

} // verus!
