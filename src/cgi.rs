//! Request handling that does not touch the store: query strings, the
//! shared-secret check, validation of a new post, and response text.
use vstd::prelude::*;
use crate::model::NewPost;
use crate::text::{append_str, chars_of, string_of, trim, trim_chars};

verus! {

/// The ASCII digit of `d`, for `d < 10`.
pub open spec fn digit(d: nat) -> char {
    seq!['0', '1', '2', '3', '4', '5', '6', '7', '8', '9'][d as int]
}

fn digit_char(d: u16) -> (c: char)
    requires
        d < 10,
    ensures
        c == digit(d as nat),
{
    let digits = vec!['0', '1', '2', '3', '4', '5', '6', '7', '8', '9'];
    assert(digits@ =~= seq!['0', '1', '2', '3', '4', '5', '6', '7', '8', '9']);
    digits[d as usize]
}

/// The decimal form of `n`.
pub open spec fn decimal(n: nat) -> Seq<char>
    decreases n,
{
    if n < 10 {
        seq![digit(n)]
    } else {
        decimal(n / 10).push(digit(n % 10))
    }
}

fn push_decimal(out: &mut Vec<char>, n: u16)
    ensures
        final(out)@ == old(out)@ + decimal(n as nat),
    decreases n,
{
    if n >= 10 {
        push_decimal(out, n / 10);
    }
    out.push(digit_char(n % 10));
    assert(out@ =~= old(out)@ + decimal(n as nat));
}

/// A CGI response: the status line, the content type, a blank line, the body.
pub open spec fn cgi_text(status: u16, content_type: Seq<char>, body: Seq<char>) -> Seq<char> {
    "Status: "@ + decimal(status as nat) + "\nContent-Type: "@ + content_type + "\n\n"@ + body
}

/// The CGI response with this status, content type and body.
pub fn cgi_response(status: u16, content_type: &str, body: &str) -> (r: String)
    ensures
        r@ == cgi_text(status, content_type@, body@),
{
    let mut out = chars_of("Status: ");
    push_decimal(&mut out, status);
    append_str(&mut out, "\nContent-Type: ");
    append_str(&mut out, content_type);
    append_str(&mut out, "\n\n");
    append_str(&mut out, body);
    assert(out@ =~= cgi_text(status, content_type@, body@));
    string_of(&out)
}

/// The JSON string literal that `serde_json` writes for `s`.
pub uninterp spec fn json_string_of(s: Seq<char>) -> Seq<char>;

/// Relies on `serde_json::Value::String`, written out by its `Display`.
#[verifier::external_body]
fn json_string(s: &str) -> (r: String)
    ensures
        r@ == json_string_of(s@),
{
    serde_json::Value::String(s.to_owned()).to_string()
}

/// The JSON body of an error: `{"error":<message>}`.
pub open spec fn error_body(message: Seq<char>) -> Seq<char> {
    "{\"error\":"@ + json_string_of(message) + "}"@
}

/// A JSON error response with this status and message.
pub fn json_error(status: u16, message: &str) -> (r: String)
    ensures
        r@ == cgi_text(status, "application/json"@, error_body(message@)),
{
    let mut body = chars_of("{\"error\":");
    let m = json_string(message);
    append_str(&mut body, m.as_str());
    append_str(&mut body, "}");
    assert(body@ =~= error_body(message@));
    let b = string_of(&body);
    cgi_response(status, "application/json", b.as_str())
}

/// Whether a request that presents `provided` is let in, given the stored
/// secret (`None` when it could not be read): the trimmed secret must not be
/// empty and must equal `provided`.
pub open spec fn authorized(stored: Option<Seq<char>>, provided: Seq<char>) -> bool {
    match stored {
        Some(k) => trim(k).len() > 0 && provided == trim(k),
        None => false,
    }
}

/// Compares the presented secret with the stored one.
pub fn check_auth(stored: Option<&str>, provided: &str) -> (r: bool)
    ensures
        r == authorized(
            match stored {
                Some(k) => Some(k@),
                None => None,
            },
            provided@,
        ),
{
    match stored {
        Some(k) => {
            let key = trim_chars(&chars_of(k));
            if key.len() == 0 {
                return false;
            }
            let expected = string_of(&key);
            let given = provided.to_owned();
            expected == given
        },
        None => false,
    }
}

/// `Ok` when the request is let in, else the 401 response to send.
pub fn require_auth(stored: Option<&str>, provided: &str) -> (r: Result<(), String>)
    ensures
        r is Ok <==> authorized(
            match stored {
                Some(k) => Some(k@),
                None => None,
            },
            provided@,
        ),
        r matches Err(text) ==> text@ == cgi_text(
            401,
            "application/json"@,
            error_body("Unauthorized"@),
        ),
{
    if check_auth(stored, provided) {
        Ok(())
    } else {
        Err(json_error(401, "Unauthorized"))
    }
}

/// Index of the first `sep` at or after `i`, or `s.len()` if there is none.
pub open spec fn next_sep(s: Seq<char>, i: int, sep: char) -> int
    decreases s.len() - i,
{
    if i >= s.len() {
        s.len() as int
    } else if s[i] == sep {
        i
    } else {
        next_sep(s, i + 1, sep)
    }
}

pub proof fn lemma_next_sep_bounds(s: Seq<char>, i: int, sep: char)
    requires
        0 <= i <= s.len(),
    ensures
        i <= next_sep(s, i, sep) <= s.len(),
    decreases s.len() - i,
{
    if i < s.len() && s[i] != sep {
        lemma_next_sep_bounds(s, i + 1, sep);
    }
}

/// The pieces of `s` from `i` on between the separators `sep`, as `str::split`
/// yields them (empty pieces included).
pub open spec fn pieces_from(s: Seq<char>, i: int, sep: char) -> Seq<Seq<char>>
    decreases s.len() - i,
    when 0 <= i <= s.len()
{
    let e = next_sep(s, i, sep);
    proof {
        lemma_next_sep_bounds(s, i, sep);
    }
    if e < s.len() {
        seq![s.subrange(i, e)] + pieces_from(s, e + 1, sep)
    } else {
        seq![s.subrange(i, s.len() as int)]
    }
}

/// The value that one `name=value` pair gives `key`: the text after the first
/// `=` when the text before it is `key`.
pub open spec fn pair_value(pair: Seq<char>, key: Seq<char>) -> Option<Seq<char>> {
    let e = next_sep(pair, 0, '=');
    if e < pair.len() && pair.subrange(0, e) == key {
        Some(pair.subrange(e + 1, pair.len() as int))
    } else {
        None
    }
}

/// The value of the first pair among `pairs` that gives `key` one.
pub open spec fn first_value(pairs: Seq<Seq<char>>, key: Seq<char>) -> Option<Seq<char>>
    decreases pairs.len(),
{
    if pairs.len() == 0 {
        None
    } else if pair_value(pairs[0], key) is Some {
        pair_value(pairs[0], key)
    } else {
        first_value(pairs.drop_first(), key)
    }
}

/// The value of `key` in a query string of `&`-separated `name=value` pairs.
pub open spec fn query_value(query: Seq<char>, key: Seq<char>) -> Option<Seq<char>> {
    first_value(pieces_from(query, 0, '&'), key)
}

fn slice_chars(s: &Vec<char>, from: usize, to: usize) -> (r: Vec<char>)
    requires
        from <= to <= s.len(),
    ensures
        r@ == s@.subrange(from as int, to as int),
{
    let mut r: Vec<char> = Vec::new();
    let mut k: usize = from;
    while k < to
        invariant
            from <= k <= to <= s.len(),
            r@ == s@.subrange(from as int, k as int),
        decreases to - k,
    {
        r.push(s[k]);
        k = k + 1;
        assert(r@ =~= s@.subrange(from as int, k as int));
    }
    r
}

fn find_sep(s: &Vec<char>, i: usize, sep: char) -> (e: usize)
    requires
        i <= s.len(),
    ensures
        e as int == next_sep(s@, i as int, sep),
{
    let mut e: usize = i;
    while e < s.len() && s[e] != sep
        invariant
            i <= e <= s.len(),
            next_sep(s@, i as int, sep) == next_sep(s@, e as int, sep),
        decreases s.len() - e,
    {
        e = e + 1;
    }
    e
}

fn chars_equal(a: &Vec<char>, b: &Vec<char>) -> (r: bool)
    ensures
        r == (a@ == b@),
{
    if a.len() != b.len() {
        return false;
    }
    let mut i: usize = 0;
    while i < a.len()
        invariant
            a.len() == b.len(),
            i <= a.len(),
            forall|j: int| 0 <= j < i ==> a@[j] == b@[j],
        decreases a.len() - i,
    {
        if a[i] != b[i] {
            return false;
        }
        i = i + 1;
    }
    assert(a@ =~= b@);
    true
}

/// The pieces of `s` between the separators `sep`, as `str::split` yields them.
fn split_on(s: &Vec<char>, sep: char) -> (r: Vec<Vec<char>>)
    ensures
        crate::text::views(r@) == pieces_from(s@, 0, sep),
{
    let mut out: Vec<Vec<char>> = Vec::new();
    let mut i: usize = 0;
    let mut done = false;
    while !done
        invariant
            i <= s.len(),
            pieces_from(s@, 0, sep) == crate::text::views(out@) + if done {
                Seq::empty()
            } else {
                pieces_from(s@, i as int, sep)
            },
        decreases s.len() - i, if done { 0nat } else { 1nat },
    {
        let e = find_sep(s, i, sep);
        proof {
            lemma_next_sep_bounds(s@, i as int, sep);
        }
        let piece = slice_chars(s, i, e);
        proof {
            assert(crate::text::views(out@.push(piece)) =~= crate::text::views(out@).push(piece@));
        }
        out.push(piece);
        if e < s.len() {
            proof {
                assert(crate::text::views(out@.drop_last()).push(piece@) + pieces_from(
                    s@,
                    e + 1,
                    sep,
                ) =~= crate::text::views(out@.drop_last()) + (seq![piece@] + pieces_from(
                    s@,
                    e + 1,
                    sep,
                )));
            }
            i = e + 1;
        } else {
            proof {
                assert(crate::text::views(out@.drop_last()).push(piece@) =~= crate::text::views(
                    out@.drop_last(),
                ) + seq![piece@]);
                assert(crate::text::views(out@) + Seq::<Seq<char>>::empty() =~= crate::text::views(
                    out@,
                ));
            }
            done = true;
        }
    }
    out
}

/// The value of `key` in a query string such as `slug=hello&drafts=1`: the
/// first `&`-separated pair whose name is `key` gives it.
pub fn query_param(query: &str, key: &str) -> (r: Option<String>)
    ensures
        r matches Some(v) ==> query_value(query@, key@) == Some(v@),
        r is None ==> query_value(query@, key@) is None,
{
    let q = chars_of(query);
    let k = chars_of(key);
    let pairs = split_on(&q, '&');
    let ghost gp = crate::text::views(pairs@);
    assert(gp.subrange(0, gp.len() as int) =~= gp);
    let mut i: usize = 0;
    while i < pairs.len()
        invariant
            gp == crate::text::views(pairs@),
            gp == pieces_from(query@, 0, '&'),
            k@ == key@,
            gp.len() == pairs.len(),
            i <= pairs.len(),
            first_value(gp, k@) == first_value(gp.subrange(i as int, gp.len() as int), k@),
        decreases pairs.len() - i,
    {
        let pair = &pairs[i];
        assert(pair@ == gp[i as int]);
        let ghost rest = gp.subrange(i as int, gp.len() as int);
        assert(rest.drop_first() =~= gp.subrange(i + 1, gp.len() as int));
        let e = find_sep(pair, 0, '=');
        proof {
            lemma_next_sep_bounds(pair@, 0, '=');
        }
        if e < pair.len() {
            let name = slice_chars(pair, 0, e);
            if chars_equal(&name, &k) {
                let value = slice_chars(pair, e + 1, pair.len());
                assert(pair_value(rest[0], k@) == Some(value@));
                return Some(string_of(&value));
            }
        }
        assert(pair_value(rest[0], k@) is None);
        i = i + 1;
    }
    assert(gp.subrange(i as int, gp.len() as int) =~= Seq::<Seq<char>>::empty());
    None
}

/// Whether a query string asks for drafts: one of its pairs is `drafts=true`
/// or `drafts=1`.
pub open spec fn wants_drafts(query: Seq<char>) -> bool {
    exists|i: int|
        0 <= i < pieces_from(query, 0, '&').len() && (#[trigger] pieces_from(query, 0, '&')[i]
            == "drafts=true"@ || pieces_from(query, 0, '&')[i] == "drafts=1"@)
}

/// Whether a query string asks for drafts to be listed.
pub fn drafts_requested(query: &str) -> (r: bool)
    ensures
        r == wants_drafts(query@),
{
    let q = chars_of(query);
    let pairs = split_on(&q, '&');
    let yes = chars_of("drafts=true");
    let one = chars_of("drafts=1");
    let ghost gp = pieces_from(query@, 0, '&');
    let mut i: usize = 0;
    while i < pairs.len()
        invariant
            gp == crate::text::views(pairs@),
            gp == pieces_from(query@, 0, '&'),
            gp.len() == pairs.len(),
            i <= pairs.len(),
            yes@ == "drafts=true"@,
            one@ == "drafts=1"@,
            forall|j: int| 0 <= j < i ==> !(#[trigger] gp[j] == "drafts=true"@ || gp[j] == "drafts=1"@),
        decreases pairs.len() - i,
    {
        assert(pairs@[i as int]@ == gp[i as int]);
        if chars_equal(&pairs[i], &yes) || chars_equal(&pairs[i], &one) {
            assert(gp[i as int] == "drafts=true"@ || gp[i as int] == "drafts=1"@);
            return true;
        }
        i = i + 1;
    }
    false
}

/// Why a new post is refused, if it is: a blank title, else blank content.
pub open spec fn new_post_problem_spec(post: NewPost) -> Option<Seq<char>> {
    if trim(post.title@).len() == 0 {
        Some("Title is required"@)
    } else if trim(post.content@).len() == 0 {
        Some("Content is required"@)
    } else {
        None
    }
}

/// The message of the 400 response that a new post earns, `None` when it is
/// acceptable.
pub fn new_post_problem(post: &NewPost) -> (r: Option<String>)
    ensures
        r matches Some(m) ==> new_post_problem_spec(*post) == Some(m@),
        r is None ==> new_post_problem_spec(*post) is None,
{
    if trim_chars(&chars_of(post.title.as_str())).len() == 0 {
        return Some("Title is required".to_owned());
    }
    if trim_chars(&chars_of(post.content.as_str())).len() == 0 {
        return Some("Content is required".to_owned());
    }
    None
}

} // verus!
