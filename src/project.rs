//! Deriving a project record from a post's project tag.
use vstd::prelude::*;
use crate::model::{new_post_tags, NewPost, NewProject};
use crate::summary::{extract_first_paragraph, short_description};
use crate::text::{append_str, chars_of, string_of, trim, trim_chars};

verus! {

/// The character that marks a tag as naming a project.
pub const PROJECT_MARKER: char = '®';

/// What `str::to_lowercase` returns for `s`.
pub uninterp spec fn lower_of(s: Seq<char>) -> Seq<char>;

/// Relies on `str::to_lowercase`: the lowercase form of `s`, which depends on
/// its characters alone.
#[verifier::external_body]
fn to_lowercase(s: &str) -> (r: String)
    ensures
        r@ == lower_of(s@),
{
    s.to_lowercase()
}

pub open spec fn starts_with_marker(tag: Seq<char>) -> bool {
    tag.len() > 0 && tag[0] == PROJECT_MARKER
}

/// `s` without its leading run of markers.
pub open spec fn strip_markers(s: Seq<char>) -> Seq<char>
    decreases s.len(),
{
    if starts_with_marker(s) {
        strip_markers(s.drop_first())
    } else {
        s
    }
}

/// The display name that a marked tag carries: the tag without its markers and
/// surrounding whitespace.
pub open spec fn tag_name(tag: Seq<char>) -> Seq<char> {
    trim(strip_markers(tag))
}

/// `(id, name)` of a project tag: `None` unless the tag starts with the marker
/// and names something; the id is the lowercased name.
pub open spec fn project_tag(tag: Seq<char>) -> Option<(Seq<char>, Seq<char>)> {
    if starts_with_marker(tag) && tag_name(tag).len() > 0 {
        Some((lower_of(tag_name(tag)), tag_name(tag)))
    } else {
        None
    }
}

/// The first tag that starts with the marker, if any.
pub open spec fn first_marked_tag(tags: Seq<Seq<char>>) -> Option<Seq<char>>
    decreases tags.len(),
{
    if tags.len() == 0 {
        None
    } else if starts_with_marker(tags[0]) {
        Some(tags[0])
    } else {
        first_marked_tag(tags.drop_first())
    }
}

/// `(id, name)` of the project that a list of tags refers to: the first marked
/// tag decides, and refers to none when its name is blank.
pub open spec fn tags_project(tags: Seq<Seq<char>>) -> Option<(Seq<char>, Seq<char>)> {
    match first_marked_tag(tags) {
        Some(t) => project_tag(t),
        None => None,
    }
}

/// Whether a post carries a repository reference that is not empty.
pub open spec fn has_repo(repo: Option<String>) -> bool {
    repo is Some && repo->0@.len() > 0
}

/// Whether publishing `post` creates or refreshes a project: it refers to one
/// by a tag and has a repository.
pub open spec fn yields_project(post: NewPost) -> bool {
    tags_project(new_post_tags(post)) is Some && has_repo(post.repo)
}

/// `"{title}: {short}"`, the long description of a project.
pub open spec fn long_description(title: Seq<char>, short: Seq<char>) -> Seq<char> {
    title + seq![':', ' '] + short
}

/// The project record that `post` yields, field by field.
pub open spec fn is_project_of(p: NewProject, post: NewPost) -> bool {
    let (id, name) = tags_project(new_post_tags(post))->0;
    &&& p.id@ == id
    &&& p.name@ == name
    &&& p.repo@ == post.repo->0@
    &&& p.short_description@ == short_description(post.content@)
    &&& p.description@ == long_description(post.title@, short_description(post.content@))
}

/// A post without a repository, or with an empty one, yields no project,
/// whatever its tags.
pub proof fn lemma_no_repo_no_project(post: NewPost)
    requires
        post.repo is None || post.repo->0@.len() == 0,
    ensures
        !yields_project(post),
{
}

proof fn lemma_strip_markers_suffix(s: Seq<char>, i: int)
    requires
        0 <= i < s.len(),
        s[i] == PROJECT_MARKER,
    ensures
        strip_markers(s.subrange(i, s.len() as int)) == strip_markers(
            s.subrange(i + 1, s.len() as int),
        ),
{
    assert(s.subrange(i, s.len() as int).drop_first() =~= s.subrange(i + 1, s.len() as int));
}

/// Parses a project tag: `"® Robocyril"` gives `("robocyril", "Robocyril")`.
pub fn parse_project_tag(tag: &str) -> (r: Option<(String, String)>)
    ensures
        r matches Some((id, name)) ==> project_tag(tag@) == Some((id@, name@)),
        r is None ==> project_tag(tag@) is None,
{
    let c = chars_of(tag);
    if c.len() == 0 || c[0] != PROJECT_MARKER {
        return None;
    }
    let n = c.len();
    let mut i: usize = 0;
    assert(c@.subrange(0, n as int) =~= c@);
    while i < n && c[i] == PROJECT_MARKER
        invariant
            n == c.len(),
            i <= n,
            strip_markers(c@) == strip_markers(c@.subrange(i as int, n as int)),
        decreases n - i,
    {
        proof {
            lemma_strip_markers_suffix(c@, i as int);
        }
        i = i + 1;
    }
    let mut rest: Vec<char> = Vec::new();
    let mut k: usize = i;
    while k < n
        invariant
            i <= k <= n,
            n == c.len(),
            rest@ == c@.subrange(i as int, k as int),
        decreases n - k,
    {
        rest.push(c[k]);
        k = k + 1;
        assert(rest@ =~= c@.subrange(i as int, k as int));
    }
    let name_chars = trim_chars(&rest);
    if name_chars.len() == 0 {
        return None;
    }
    let name = string_of(&name_chars);
    let id = to_lowercase(name.as_str());
    Some((id, name))
}

/// Whether the first character of `tag` is the project marker.
fn has_marker(tag: &str) -> (r: bool)
    ensures
        r == starts_with_marker(tag@),
{
    let c = chars_of(tag);
    c.len() > 0 && c[0] == PROJECT_MARKER
}

/// The project record that publishing `post` writes, or `None` when it yields
/// none (no marked tag, a blank name, or no repository).
pub fn project_from_post(post: &NewPost) -> (r: Option<NewProject>)
    ensures
        r is Some <==> yields_project(*post),
        r matches Some(p) ==> is_project_of(p, *post),
{
    let ghost tags = new_post_tags(*post);
    let empty: Vec<String> = Vec::new();
    let tag_list = match &post.tags {
        Some(t) => t,
        None => &empty,
    };
    assert(crate::model::tag_views(tag_list@) == tags);
    assert(tags.subrange(0, tags.len() as int) =~= tags);
    let mut i: usize = 0;
    let mut found: Option<usize> = None;
    while i < tag_list.len() && found.is_none()
        invariant
            i <= tag_list.len(),
            tags.len() == tag_list.len(),
            forall|j: int| 0 <= j < tags.len() ==> tags[j] == #[trigger] tag_list@[j]@,
            found matches Some(f) ==> f < tag_list.len() && first_marked_tag(tags) == Some(
                tags[f as int],
            ),
            found is None ==> first_marked_tag(tags) == first_marked_tag(
                tags.subrange(i as int, tags.len() as int),
            ),
        decreases tag_list.len() - i,
    {
        let ghost rest = tags.subrange(i as int, tags.len() as int);
        assert(rest.drop_first() =~= tags.subrange(i + 1, tags.len() as int));
        if has_marker(tag_list[i].as_str()) {
            found = Some(i);
        }
        i = i + 1;
    }
    if found.is_none() {
        assert(tags.subrange(i as int, tags.len() as int) =~= Seq::<Seq<char>>::empty());
        return None;
    }
    let f = found.unwrap();
    let (id, name) = match parse_project_tag(tag_list[f].as_str()) {
        Some(p) => p,
        None => {
            return None;
        },
    };
    let repo = match &post.repo {
        Some(r) => {
            if r.as_str().is_empty() {
                return None;
            }
            r.clone()
        },
        None => {
            return None;
        },
    };
    let short = extract_first_paragraph(post.content.as_str());
    let mut desc = chars_of(post.title.as_str());
    desc.push(':');
    desc.push(' ');
    append_str(&mut desc, short.as_str());
    assert(desc@ =~= long_description(post.title@, short@));
    Some(
        NewProject {
            id,
            name,
            repo,
            description: string_of(&desc),
            short_description: short,
        },
    )
}

} // verus!
