//! The short description of a post: its first real paragraph.
use vstd::prelude::*;
use crate::text::{
    append_chars, chars_of, join_spaced, lines, split_lines, string_of, take_chars, take_prefix, trim,
    trim_chars, trim_end, trim_end_chars, views,
};

verus! {

/// Longest short description, in characters, that is kept whole.
pub const SHORT_DESCRIPTION_MAX_CHARS: usize = 200;

/// Characters kept from a short description that is cut.
pub const SHORT_DESCRIPTION_KEEP_CHARS: usize = 197;

/// A trimmed line that ends a paragraph, or is skipped before one: blank, or a heading.
pub open spec fn is_paragraph_break(t: Seq<char>) -> bool {
    t.len() == 0 || t[0] == '#'
}

/// The trimmed lines of the first paragraph found in `ls` from index `i` on;
/// `started` says whether that paragraph has already begun.
pub open spec fn paragraph_lines(ls: Seq<Seq<char>>, i: int, started: bool) -> Seq<Seq<char>>
    decreases ls.len() - i,
{
    if i >= ls.len() || i < 0 {
        Seq::empty()
    } else if is_paragraph_break(trim(ls[i])) {
        if started {
            Seq::empty()
        } else {
            paragraph_lines(ls, i + 1, false)
        }
    } else {
        seq![trim(ls[i])] + paragraph_lines(ls, i + 1, true)
    }
}

/// The first paragraph of `content`: blank lines and headings before it are
/// skipped, it ends at the next blank line or heading, and its trimmed lines
/// are joined with single spaces.
pub open spec fn first_paragraph(content: Seq<char>) -> Seq<char> {
    join_spaced(paragraph_lines(lines(content), 0, false))
}

pub open spec fn ellipsis() -> Seq<char> {
    seq!['.', '.', '.']
}

/// The first paragraph, cut to 197 characters plus `"..."` when it is longer
/// than 200 characters.
pub open spec fn short_description(content: Seq<char>) -> Seq<char> {
    let p = first_paragraph(content);
    if p.len() > SHORT_DESCRIPTION_MAX_CHARS {
        trim_end(take_chars(p, SHORT_DESCRIPTION_KEEP_CHARS as nat)) + ellipsis()
    } else {
        p
    }
}

/// Pushes `"..."` onto `v`.
fn push_ellipsis(v: &mut Vec<char>)
    ensures
        final(v)@ == old(v)@ + ellipsis(),
{
    v.push('.');
    v.push('.');
    v.push('.');
    assert(v@ =~= old(v)@ + ellipsis());
}

/// The first paragraph of `content`, as `first_paragraph` describes it.
pub fn first_paragraph_chars(content: &Vec<char>) -> (r: Vec<char>)
    ensures
        r@ == first_paragraph(content@),
{
    let ls = split_lines(content);
    let ghost gl = views(ls@);
    let mut para: Vec<char> = Vec::new();
    let mut started = false;
    let ghost mut acc: Seq<Seq<char>> = Seq::empty();
    let mut i: usize = 0;
    let mut ended = false;
    while i < ls.len() && !ended
        invariant
            gl == views(ls@),
            gl.len() == ls.len(),
            i <= ls.len(),
            paragraph_lines(gl, 0, false) == acc + if ended {
                Seq::empty()
            } else {
                paragraph_lines(gl, i as int, started)
            },
            para@ == join_spaced(acc),
            started == (acc.len() > 0),
        decreases ls.len() - i,
    {
        let t = trim_chars(&ls[i]);
        assert(ls@[i as int]@ == gl[i as int]);
        let brk = t.len() == 0 || t[0] == '#';
        if brk {
            if started {
                assert(paragraph_lines(gl, i as int, started) =~= Seq::<Seq<char>>::empty());
                ended = true;
            }
        } else {
            proof {
                crate::text::lemma_join_spaced_push(acc, t@);
                assert(acc + paragraph_lines(gl, i as int, started) =~= acc.push(t@)
                    + paragraph_lines(gl, i + 1, true));
                acc = acc.push(t@);
            }
            if started {
                para.push(' ');
            }
            append_chars(&mut para, &t);
            started = true;
        }
        i = i + 1;
    }
    assert(acc + Seq::<Seq<char>>::empty() =~= acc);
    para
}

/// Short description of a post's content: its first paragraph, cut to about
/// 200 characters with `"..."` when longer.
pub fn extract_first_paragraph(content: &str) -> (r: String)
    ensures
        r@ == short_description(content@),
{
    let c = chars_of(content);
    let p = first_paragraph_chars(&c);
    if p.len() > SHORT_DESCRIPTION_MAX_CHARS {
        let head = take_prefix(&p, SHORT_DESCRIPTION_KEEP_CHARS);
        let mut cut = trim_end_chars(&head);
        push_ellipsis(&mut cut);
        string_of(&cut)
    } else {
        string_of(&p)
    }
}

} // verus!
