//! Slash-separated paths, compared component by component.

use vstd::prelude::*;
use vstd::string::*;
use crate::text::{
    ends_with, lemma_split_nonempty, same_text, split, split_on, starts_with, texts,
};

verus! {

/// The pieces between the slashes of `p`; a path of `n` slashes has `n + 1` pieces.
pub open spec fn split_segments(p: Seq<char>) -> Seq<Seq<char>> {
    split_on(p, '/')
}

/// A segment that names something: not empty and not `.`.
pub open spec fn is_named(segment: Seq<char>) -> bool {
    segment.len() > 0 && segment != "."@
}

/// The naming segments among `segments`, in order.
pub open spec fn named_segments(segments: Seq<Seq<char>>) -> Seq<Seq<char>>
    decreases segments.len(),
{
    if segments.len() == 0 {
        Seq::empty()
    } else {
        let init = named_segments(segments.drop_last());
        if is_named(segments.last()) {
            init.push(segments.last())
        } else {
            init
        }
    }
}

/// What stands before the names: `/` for an absolute path, `.` for a relative
/// path that begins with a `.` segment, nothing otherwise.
pub open spec fn path_anchor(p: Seq<char>) -> Seq<Seq<char>> {
    if p.len() > 0 && p[0] == '/' {
        seq!["/"@]
    } else if split_segments(p)[0] == "."@ {
        seq!["."@]
    } else {
        Seq::empty()
    }
}

/// The components of a path: its anchor, then its names. Repeated slashes,
/// a trailing slash and inner `.` segments leave no trace.
pub open spec fn path_components(p: Seq<char>) -> Seq<Seq<char>> {
    path_anchor(p) + named_segments(split_segments(p))
}

/// Two paths with the same components.
pub open spec fn is_same_path(a: Seq<char>, b: Seq<char>) -> bool {
    path_components(a) == path_components(b)
}

/// The components of `base` begin the components of `p`.
pub open spec fn is_under(p: Seq<char>, base: Seq<char>) -> bool {
    path_components(base).is_prefix_of(path_components(p))
}

/// The final name of a path, if it ends in one other than `..`.
pub open spec fn final_name(p: Seq<char>) -> Option<Seq<char>> {
    let names = named_segments(split_segments(p));
    if names.len() == 0 || names.last() == ".."@ {
        None
    } else {
        Some(names.last())
    }
}

/// `rel` appended to `base`: an absolute `rel` replaces `base`; otherwise one
/// slash separates the two unless `base` is empty or already ends in one.
pub open spec fn appended(base: Seq<char>, rel: Seq<char>) -> Seq<char> {
    if rel.len() > 0 && rel[0] == '/' {
        rel
    } else if base.len() > 0 && base.last() != '/' {
        base + "/"@ + rel
    } else {
        base + rel
    }
}

/// Appends `rel` to `base`.
pub fn join_path(base: &str, rel: &str) -> (out: String)
    ensures
        out@ == appended(base@, rel@),
{
    proof {
        reveal_strlit("/");
    }
    if starts_with(rel, "/") {
        assert(rel@.subrange(0, 1)[0] == rel@[0]);
        return String::from_str(rel);
    }
    assert(!(rel@.len() > 0 && rel@[0] == '/')) by {
        if rel@.len() > 0 && rel@[0] == '/' {
            assert(rel@.subrange(0, 1) =~= "/"@);
        }
    }
    let base_len: usize = base.unicode_len();
    if base_len > 0 && !ends_with(base, "/") {
        assert(base@.last() != '/') by {
            if base@.last() == '/' {
                assert(base@.subrange(base@.len() - 1, base@.len() as int) =~= "/"@);
            }
        }
        String::from_str(base).concat("/").concat(rel)
    } else {
        assert(base@.len() > 0 ==> base@.last() == '/') by {
            if base@.len() > 0 {
                assert(base@.subrange(base@.len() - 1, base@.len() as int)[0] == base@.last());
            }
        }
        String::from_str(base).concat(rel)
    }
}

/// The pieces between the slashes of `p`.
pub fn segments(p: &str) -> (out: Vec<String>)
    ensures
        texts(out@) == split_segments(p@),
{
    split(p, '/')
}

/// A path always has at least one segment.
pub proof fn lemma_segments_nonempty(p: Seq<char>)
    ensures
        split_segments(p).len() >= 1,
{
    lemma_split_nonempty(p, '/');
}

/// The components of a path.
pub fn components(p: &str) -> (out: Vec<String>)
    ensures
        texts(out@) == path_components(p@),
{
    proof {
        reveal_strlit("/");
        reveal_strlit(".");
        lemma_segments_nonempty(p@);
    }
    let segs = segments(p);
    let mut out: Vec<String> = Vec::new();
    if starts_with(p, "/") {
        assert(p@.subrange(0, 1)[0] == p@[0]);
        out.push(String::from_str("/"));
    } else {
        assert(!(p@.len() > 0 && p@[0] == '/')) by {
            if p@.len() > 0 && p@[0] == '/' {
                assert(p@.subrange(0, 1) =~= "/"@);
            }
        }
        assert(texts(segs@)[0] == segs@[0]@);
        if same_text(segs[0].as_str(), ".") {
            out.push(String::from_str("."));
        }
    }
    assert(texts(out@) =~= path_anchor(p@));
    let mut i: usize = 0;
    assert(texts(segs@).take(0) =~= Seq::<Seq<char>>::empty());
    while i < segs.len()
        invariant
            i <= segs.len(),
            texts(segs@) == split_segments(p@),
            texts(out@) == path_anchor(p@) + named_segments(texts(segs@).take(i as int)),
        decreases segs.len() - i,
    {
        let ghost before = texts(segs@).take(i as int);
        let ghost after = texts(segs@).take(i + 1);
        let ghost done = texts(out@);
        proof {
            reveal_strlit(".");
            assert(after.drop_last() =~= before);
            assert(after.last() == segs@[i as int]@);
        }
        let seg = segs[i].as_str();
        if seg.unicode_len() > 0 && !same_text(seg, ".") {
            out.push(String::from_str(seg));
            assert(texts(out@) =~= done.push(seg@));
        }
        i = i + 1;
        assert(texts(out@) =~= path_anchor(p@) + named_segments(after));
    }
    assert(texts(segs@).take(segs.len() as int) =~= texts(segs@));
    out
}

/// Whether `prefix` begins `whole`, string by string.
fn begins(whole: &Vec<String>, prefix: &Vec<String>) -> (yes: bool)
    ensures
        yes == texts(prefix@).is_prefix_of(texts(whole@)),
{
    if prefix.len() > whole.len() {
        return false;
    }
    let mut i: usize = 0;
    while i < prefix.len()
        invariant
            i <= prefix.len() <= whole.len(),
            forall|j: int| 0 <= j < i ==> texts(prefix@)[j] == texts(whole@)[j],
        decreases prefix.len() - i,
    {
        assert(texts(prefix@)[i as int] == prefix@[i as int]@);
        assert(texts(whole@)[i as int] == whole@[i as int]@);
        if !same_text(prefix[i].as_str(), whole[i].as_str()) {
            return false;
        }
        i = i + 1;
    }
    assert(texts(prefix@) =~= texts(whole@).subrange(0, prefix.len() as int));
    true
}

/// Whether two paths have the same components.
pub fn same_path(a: &str, b: &str) -> (same: bool)
    ensures
        same == is_same_path(a@, b@),
{
    let left = components(a);
    let right = components(b);
    let same = left.len() == right.len() && begins(&left, &right);
    proof {
        assert(texts(left@).len() == left.len());
        assert(texts(right@).len() == right.len());
        if same {
            assert(texts(right@) =~= texts(left@));
        } else if left.len() == right.len() {
            assert(texts(left@) =~= texts(left@).subrange(0, left.len() as int));
        }
    }
    same
}

/// Whether `p` lies under `base`: the components of `base` begin those of `p`.
pub fn path_starts_with(p: &str, base: &str) -> (under: bool)
    ensures
        under == is_under(p@, base@),
{
    let whole = components(p);
    let prefix = components(base);
    begins(&whole, &prefix)
}

/// The final name of a path.
pub fn file_name(p: &str) -> (name: Option<String>)
    ensures
        match name {
            Some(n) => final_name(p@) == Some(n@),
            None => final_name(p@).is_none(),
        },
{
    proof {
        reveal_strlit(".");
        reveal_strlit("..");
    }
    let segs = segments(p);
    let mut i: usize = segs.len();
    assert(texts(segs@).take(i as int) =~= texts(segs@));
    while i > 0
        invariant
            i <= segs.len(),
            texts(segs@) == split_segments(p@),
            named_segments(texts(segs@)) == named_segments(texts(segs@).take(i as int)),
        decreases i,
    {
        let ghost upto = texts(segs@).take(i as int);
        i = i - 1;
        proof {
            reveal_strlit(".");
            assert(upto.drop_last() =~= texts(segs@).take(i as int));
            assert(upto.last() == segs@[i as int]@);
        }
        let seg = segs[i].as_str();
        if seg.unicode_len() > 0 && !same_text(seg, ".") {
            if same_text(seg, "..") {
                return None;
            }
            return Some(String::from_str(seg));
        }
    }
    assert(texts(segs@).take(0) =~= Seq::<Seq<char>>::empty());
    None
}

} // verus!
