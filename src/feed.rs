//! The RSS 2.0 feed of published posts.
use vstd::prelude::*;
use crate::model::{tag_views, Post, Timestamp};
use crate::store::opt_view;
use crate::summary::ellipsis;
use crate::text::{
    append_chars, append_str, chars_of, join_spaced, lines, split_lines, string_of, take_chars,
    take_prefix, trim, trim_chars, views,
};

verus! {

/// Characters of a post's content that its feed description keeps.
pub const DESCRIPTION_MAX_CHARS: usize = 300;

/// Posts that the feed shows.
pub const FEED_SIZE: usize = 20;

/// What a character becomes in XML text.
pub open spec fn escape_char(c: char) -> Seq<char> {
    if c == '&' {
        seq!['&', 'a', 'm', 'p', ';']
    } else if c == '<' {
        seq!['&', 'l', 't', ';']
    } else if c == '>' {
        seq!['&', 'g', 't', ';']
    } else if c == '"' {
        seq!['&', 'q', 'u', 'o', 't', ';']
    } else if c == '\'' {
        seq!['&', 'a', 'p', 'o', 's', ';']
    } else {
        seq![c]
    }
}

/// `s` with each of `& < > " '` replaced by its entity.
pub open spec fn escape(s: Seq<char>) -> Seq<char>
    decreases s.len(),
{
    if s.len() == 0 {
        Seq::empty()
    } else {
        escape(s.drop_last()) + escape_char(s.last())
    }
}

/// Whether one of the five entities that `escape` writes starts at `i`.
pub open spec fn entity_at(s: Seq<char>, i: int) -> bool {
    ||| (i + 5 <= s.len() && s.subrange(i, i + 5) == seq!['&', 'a', 'm', 'p', ';'])
    ||| (i + 4 <= s.len() && s.subrange(i, i + 4) == seq!['&', 'l', 't', ';'])
    ||| (i + 4 <= s.len() && s.subrange(i, i + 4) == seq!['&', 'g', 't', ';'])
    ||| (i + 6 <= s.len() && s.subrange(i, i + 6) == seq!['&', 'q', 'u', 'o', 't', ';'])
    ||| (i + 6 <= s.len() && s.subrange(i, i + 6) == seq!['&', 'a', 'p', 'o', 's', ';'])
}

/// Whether `s` is safe as XML text: no `<`, `>`, `"` or `'`, and each `&`
/// starts an entity.
pub open spec fn xml_safe(s: Seq<char>) -> bool {
    forall|i: int|
        0 <= i < s.len() ==> {
            &&& #[trigger] s[i] != '<'
            &&& s[i] != '>'
            &&& s[i] != '"'
            &&& s[i] != '\''
            &&& s[i] == '&' ==> entity_at(s, i)
        }
}

proof fn lemma_entity_at_extend(a: Seq<char>, b: Seq<char>, i: int)
    requires
        0 <= i < a.len(),
        entity_at(a, i),
    ensures
        entity_at(a + b, i),
{
    let s = a + b;
    if i + 5 <= a.len() && a.subrange(i, i + 5) == seq!['&', 'a', 'm', 'p', ';'] {
        assert(s.subrange(i, i + 5) =~= a.subrange(i, i + 5));
    } else if i + 4 <= a.len() && a.subrange(i, i + 4) == seq!['&', 'l', 't', ';'] {
        assert(s.subrange(i, i + 4) =~= a.subrange(i, i + 4));
    } else if i + 4 <= a.len() && a.subrange(i, i + 4) == seq!['&', 'g', 't', ';'] {
        assert(s.subrange(i, i + 4) =~= a.subrange(i, i + 4));
    } else if i + 6 <= a.len() && a.subrange(i, i + 6) == seq!['&', 'q', 'u', 'o', 't', ';'] {
        assert(s.subrange(i, i + 6) =~= a.subrange(i, i + 6));
    } else {
        assert(s.subrange(i, i + 6) =~= a.subrange(i, i + 6));
    }
}

proof fn lemma_escape_char_safe(a: Seq<char>, c: char)
    requires
        xml_safe(a),
    ensures
        xml_safe(a + escape_char(c)),
{
    let e = escape_char(c);
    let s = a + e;
    assert forall|i: int| 0 <= i < s.len() implies {
        &&& #[trigger] s[i] != '<'
        &&& s[i] != '>'
        &&& s[i] != '"'
        &&& s[i] != '\''
        &&& s[i] == '&' ==> entity_at(s, i)
    } by {
        if i < a.len() {
            assert(s[i] == a[i]);
            if a[i] == '&' {
                lemma_entity_at_extend(a, e, i);
            }
        } else {
            let k = a.len() as int;
            assert(s[i] == e[i - k]);
            if c == '&' || c == '<' || c == '>' || c == '"' || c == '\'' {
                if i == k {
                    assert(s.subrange(k, k + e.len()) =~= e);
                }
            }
        }
    }
}

/// Escaped text holds no `<`, `>`, `"` or `'`, and each `&` in it starts one
/// of the entities `&amp;`, `&lt;`, `&gt;`, `&quot;`, `&apos;`.
pub proof fn lemma_escape_is_xml_safe(s: Seq<char>)
    ensures
        xml_safe(escape(s)),
    decreases s.len(),
{
    if s.len() > 0 {
        lemma_escape_is_xml_safe(s.drop_last());
        lemma_escape_char_safe(escape(s.drop_last()), s.last());
    }
}

/// `s` with `& < > " '` replaced by their XML entities.
pub fn escape_xml(s: &str) -> (r: String)
    ensures
        r@ == escape(s@),
{
    let c = chars_of(s);
    let mut out: Vec<char> = Vec::new();
    let mut i: usize = 0;
    while i < c.len()
        invariant
            i <= c.len(),
            out@ == escape(c@.subrange(0, i as int)),
        decreases c.len() - i,
    {
        let ch = c[i];
        let ghost before = out@;
        if ch == '&' {
            out.push('&');
            out.push('a');
            out.push('m');
            out.push('p');
            out.push(';');
        } else if ch == '<' {
            out.push('&');
            out.push('l');
            out.push('t');
            out.push(';');
        } else if ch == '>' {
            out.push('&');
            out.push('g');
            out.push('t');
            out.push(';');
        } else if ch == '"' {
            out.push('&');
            out.push('q');
            out.push('u');
            out.push('o');
            out.push('t');
            out.push(';');
        } else if ch == '\'' {
            out.push('&');
            out.push('a');
            out.push('p');
            out.push('o');
            out.push('s');
            out.push(';');
        } else {
            out.push(ch);
        }
        assert(out@ =~= before + escape_char(ch));
        assert(c@.subrange(0, i + 1).drop_last() =~= c@.subrange(0, i as int));
        i = i + 1;
    }
    assert(c@.subrange(0, c.len() as int) =~= c@);
    string_of(&out)
}

/// A line that the feed description leaves out: a heading or a code fence.
pub open spec fn is_markup_line(l: Seq<char>) -> bool {
    (l.len() > 0 && l[0] == '#') || (l.len() >= 3 && l[0] == '`' && l[1] == '`' && l[2] == '`')
}

/// The lines of `ls` that are not markup, in order.
pub open spec fn prose_lines(ls: Seq<Seq<char>>) -> Seq<Seq<char>>
    decreases ls.len(),
{
    if ls.len() == 0 {
        Seq::empty()
    } else if is_markup_line(ls.last()) {
        prose_lines(ls.drop_last())
    } else {
        prose_lines(ls.drop_last()).push(ls.last())
    }
}

/// The plain-text description of `content`: its non-markup lines joined with
/// spaces, cut to `max` characters and trimmed, with `"..."` appended when the
/// content itself is longer than `max` characters.
pub open spec fn plain_summary(content: Seq<char>, max: nat) -> Seq<char> {
    let plain = take_chars(join_spaced(prose_lines(lines(content))), max);
    if content.len() > max {
        trim(plain) + ellipsis()
    } else {
        trim(plain)
    }
}

/// The description that the feed gives for `content`.
pub fn truncate_content(content: &str, max_chars: usize) -> (r: String)
    ensures
        r@ == plain_summary(content@, max_chars as nat),
{
    let c = chars_of(content);
    let ls = split_lines(&c);
    let ghost gl = views(ls@);
    let mut joined: Vec<char> = Vec::new();
    let mut kept: usize = 0;
    let ghost mut acc: Seq<Seq<char>> = Seq::empty();
    let mut i: usize = 0;
    while i < ls.len()
        invariant
            gl == views(ls@),
            gl.len() == ls.len(),
            i <= ls.len(),
            acc == prose_lines(gl.subrange(0, i as int)),
            joined@ == join_spaced(acc),
            kept == acc.len(),
            kept <= i,
        decreases ls.len() - i,
    {
        let l = &ls[i];
        assert(l@ == gl[i as int]);
        assert(gl.subrange(0, i + 1).drop_last() =~= gl.subrange(0, i as int));
        let markup = (l.len() > 0 && l[0] == '#') || (l.len() >= 3 && l[0] == '`' && l[1] == '`'
            && l[2] == '`');
        if !markup {
            proof {
                crate::text::lemma_join_spaced_push(acc, l@);
                acc = acc.push(l@);
            }
            if kept > 0 {
                joined.push(' ');
            }
            append_chars(&mut joined, l);
            kept = kept + 1;
        }
        i = i + 1;
    }
    assert(gl.subrange(0, ls.len() as int) =~= gl);
    let plain = take_prefix(&joined, max_chars);
    let mut out = trim_chars(&plain);
    if c.len() > max_chars {
        out.push('.');
        out.push('.');
        out.push('.');
    }
    assert(out@ =~= plain_summary(content@, max_chars as nat));
    string_of(&out)
}

/// What chrono writes for the instant `(secs, nanos)` with the format
/// `"%a, %d %b %Y %H:%M:%S GMT"`, `None` when chrono has no such instant.
pub uninterp spec fn http_date_of(secs: i64, nanos: u32) -> Option<Seq<char>>;

/// Relies on `chrono::DateTime::from_timestamp`, written out by
/// `DateTime::format` with `"%a, %d %b %Y %H:%M:%S GMT"`.
#[verifier::external_body]
fn http_date(t: Timestamp) -> (r: Option<String>)
    ensures
        opt_view(r) == http_date_of(t.secs, t.nanos),
{
    chrono::DateTime::from_timestamp(t.secs, t.nanos).map(
        |d| d.format("%a, %d %b %Y %H:%M:%S GMT").to_string(),
    )
}

/// The feed date of an optional instant: empty when there is none.
pub open spec fn feed_date(t: Option<Timestamp>) -> Seq<char> {
    match t {
        Some(t) => match http_date_of(t.secs, t.nanos) {
            Some(d) => d,
            None => Seq::empty(),
        },
        None => Seq::empty(),
    }
}

fn feed_date_text(t: Option<Timestamp>) -> (r: Vec<char>)
    ensures
        r@ == feed_date(t),
{
    match t {
        Some(t) => match http_date(t) {
            Some(d) => chars_of(d.as_str()),
            None => Vec::new(),
        },
        None => Vec::new(),
    }
}

/// The address of a post's page.
pub open spec fn post_url(base_url: Seq<char>, slug: Seq<char>) -> Seq<char> {
    base_url + "/#/post/"@ + slug
}

/// The `<category>` lines of a list of tags.
pub open spec fn categories(tags: Seq<Seq<char>>) -> Seq<char>
    decreases tags.len(),
{
    if tags.len() == 0 {
        Seq::empty()
    } else {
        categories(tags.drop_last()) + "    <category>"@ + escape(tags.last()) + "</category>\n"@
    }
}

/// The `<item>` element of a post.
pub open spec fn feed_item(post: Post, base_url: Seq<char>) -> Seq<char> {
    let url = escape(post_url(base_url, post.slug@));
    "  <item>\n    <title>"@ + escape(post.title@) + "</title>\n    <link>"@ + url
        + "</link>\n    <description>"@ + escape(
        plain_summary(post.content@, DESCRIPTION_MAX_CHARS as nat),
    ) + "</description>\n    <pubDate>"@ + feed_date(post.published_at)
        + "</pubDate>\n    <guid isPermaLink=\"true\">"@ + url + "</guid>\n"@ + categories(
        tag_views(post.tags@),
    ) + "  </item>\n"@
}

/// The `<item>` elements of a list of posts, in order.
pub open spec fn feed_items(posts: Seq<Post>, base_url: Seq<char>) -> Seq<char>
    decreases posts.len(),
{
    if posts.len() == 0 {
        Seq::empty()
    } else {
        feed_items(posts.drop_last(), base_url) + feed_item(posts.last(), base_url)
    }
}

/// The feed document: the channel's escaped title, link and description, the
/// publication date of the first post as its build date, and the items.
pub open spec fn feed_document(
    posts: Seq<Post>,
    base_url: Seq<char>,
    title: Seq<char>,
    description: Seq<char>,
) -> Seq<char> {
    let last_build = if posts.len() > 0 {
        feed_date(posts[0].published_at)
    } else {
        Seq::empty()
    };
    "<?xml version=\"1.0\" encoding=\"UTF-8\"?>\n<rss version=\"2.0\" xmlns:atom=\"http://www.w3.org/2005/Atom\">\n<channel>\n  <title>"@
        + escape(title) + "</title>\n  <link>"@ + escape(base_url) + "</link>\n  <description>"@
        + escape(description)
        + "</description>\n  <language>en-gb</language>\n  <lastBuildDate>"@ + last_build
        + "</lastBuildDate>\n  <atom:link href=\""@ + escape(base_url)
        + "/feed.xml\" rel=\"self\" type=\"application/rss+xml\"/>\n"@ + feed_items(
        posts,
        base_url,
    ) + "\n</channel>\n</rss>"@
}

fn push_escaped(out: &mut Vec<char>, s: &str)
    ensures
        final(out)@ == old(out)@ + escape(s@),
{
    let e = escape_xml(s);
    append_str(out, e.as_str());
}

fn push_categories(out: &mut Vec<char>, tags: &Vec<String>)
    ensures
        final(out)@ == old(out)@ + categories(tag_views(tags@)),
{
    let mut i: usize = 0;
    let ghost start = out@;
    while i < tags.len()
        invariant
            i <= tags.len(),
            out@ == start + categories(tag_views(tags@.subrange(0, i as int))),
        decreases tags.len() - i,
    {
        let ghost before = out@;
        append_str(out, "    <category>");
        push_escaped(out, tags[i].as_str());
        append_str(out, "</category>\n");
        proof {
            let t = tag_views(tags@.subrange(0, i + 1));
            assert(t.drop_last() =~= tag_views(tags@.subrange(0, i as int)));
            assert(t.last() == tags@[i as int]@);
            assert(out@ =~= start + categories(t));
        }
        i = i + 1;
    }
    assert(tags@.subrange(0, tags.len() as int) =~= tags@);
}

/// Appends the `<item>` element of `post`.
fn push_item(out: &mut Vec<char>, post: &Post, base_url: &str)
    ensures
        final(out)@ == old(out)@ + feed_item(*post, base_url@),
{
    let mut url_chars = chars_of(base_url);
    append_str(&mut url_chars, "/#/post/");
    append_str(&mut url_chars, post.slug.as_str());
    let url = string_of(&url_chars);
    let description = truncate_content(post.content.as_str(), DESCRIPTION_MAX_CHARS);
    let date = feed_date_text(post.published_at);
    append_str(out, "  <item>\n    <title>");
    push_escaped(out, post.title.as_str());
    append_str(out, "</title>\n    <link>");
    push_escaped(out, url.as_str());
    append_str(out, "</link>\n    <description>");
    push_escaped(out, description.as_str());
    append_str(out, "</description>\n    <pubDate>");
    append_chars(out, &date);
    append_str(out, "</pubDate>\n    <guid isPermaLink=\"true\">");
    push_escaped(out, url.as_str());
    append_str(out, "</guid>\n");
    push_categories(out, &post.tags);
    append_str(out, "  </item>\n");
    assert(out@ =~= old(out)@ + feed_item(*post, base_url@));
}

/// The RSS 2.0 document for `posts` (newest first), a channel titled `title`
/// at `base_url` with `description`. Every text taken from a post or from the
/// channel's settings is escaped.
pub fn render_feed(posts: &Vec<Post>, base_url: &str, title: &str, description: &str) -> (r:
    String)
    ensures
        r@ == feed_document(posts@, base_url@, title@, description@),
{
    let mut items: Vec<char> = Vec::new();
    let mut i: usize = 0;
    while i < posts.len()
        invariant
            i <= posts.len(),
            items@ == feed_items(posts@.subrange(0, i as int), base_url@),
        decreases posts.len() - i,
    {
        push_item(&mut items, &posts[i], base_url);
        assert(posts@.subrange(0, i + 1).drop_last() =~= posts@.subrange(0, i as int));
        i = i + 1;
    }
    assert(posts@.subrange(0, posts.len() as int) =~= posts@);
    let last_build = if posts.len() > 0 {
        feed_date_text(posts[0].published_at)
    } else {
        Vec::new()
    };
    let mut out: Vec<char> = Vec::new();
    append_str(
        &mut out,
        "<?xml version=\"1.0\" encoding=\"UTF-8\"?>\n<rss version=\"2.0\" xmlns:atom=\"http://www.w3.org/2005/Atom\">\n<channel>\n  <title>",
    );
    push_escaped(&mut out, title);
    append_str(&mut out, "</title>\n  <link>");
    push_escaped(&mut out, base_url);
    append_str(&mut out, "</link>\n  <description>");
    push_escaped(&mut out, description);
    append_str(&mut out, "</description>\n  <language>en-gb</language>\n  <lastBuildDate>");
    append_chars(&mut out, &last_build);
    append_str(&mut out, "</lastBuildDate>\n  <atom:link href=\"");
    push_escaped(&mut out, base_url);
    append_str(&mut out, "/feed.xml\" rel=\"self\" type=\"application/rss+xml\"/>\n");
    append_chars(&mut out, &items);
    append_str(&mut out, "\n</channel>\n</rss>");
    assert(out@ =~= feed_document(posts@, base_url@, title@, description@));
    string_of(&out)
}

/// The XML error document that the feed serves when the store fails:
/// `what` says which step failed, `message` why.
pub open spec fn feed_error(what: Seq<char>, message: Seq<char>) -> Seq<char> {
    "<?xml version=\"1.0\" encoding=\"UTF-8\"?>\n<error>"@ + what + ": "@ + escape(message)
        + "</error>"@
}

/// The error document for a failed step `what` (such as `"Query failed"`).
pub fn feed_error_document(what: &str, message: &str) -> (r: String)
    ensures
        r@ == feed_error(what@, message@),
{
    let mut out = chars_of("<?xml version=\"1.0\" encoding=\"UTF-8\"?>\n<error>");
    append_str(&mut out, what);
    append_str(&mut out, ": ");
    push_escaped(&mut out, message);
    append_str(&mut out, "</error>");
    assert(out@ =~= feed_error(what@, message@));
    string_of(&out)
}

} // verus!
