//! How a (root, subdirectories, file name) location is spelled as one flat key.
//!
//! A directory's key is its root name followed by each subdirectory name, each of them
//! terminated by a separator; a file's key is its directory's key followed by its name.
use vstd::prelude::*;
use vstd::string::StringExecFns;

verus! {

/// The character that terminates each directory name inside a key.
pub const SEP: char = '/';

/// The three outer directories.
#[derive(Clone, Copy, Debug, PartialEq, Eq, Structural)]
pub enum Root {
    Data,
    Config,
    Cache,
}

impl Root {
    /// The name that the root contributes to keys.
    pub fn name(&self) -> (r: &'static str)
        ensures
            r@ == root_name(*self),
    {
        proof {
            reveal_strlit("data");
            reveal_strlit("config");
            reveal_strlit("cache");
        }
        match self {
            Root::Data => "data",
            Root::Config => "config",
            Root::Cache => "cache",
        }
    }
}

/// The key of the subdirectory `name` of the directory whose key is `parent`.
pub fn subdir_key(parent: &str, name: &str) -> (r: String)
    ensures
        r@ == (parent@ + name@).push(SEP),
{
    let mut key = String::from_str(parent);
    key.append(name);
    proof {
        reveal_strlit("/");
    }
    key.append("/");
    assert(key@ =~= (parent@ + name@).push(SEP));
    key
}

/// The key of the file `name` in the directory whose key is `parent`.
pub fn file_in_dir_key(parent: &str, name: &str) -> (r: String)
    ensures
        r@ == parent@ + name@,
{
    let mut key = String::from_str(parent);
    key.append(name);
    key
}

/// The key of the root directory `root`.
pub fn root_key(root: Root) -> (r: String)
    ensures
        r@ == dir_key(root, Seq::empty()),
{
    let r = subdir_key("", root.name());
    proof {
        reveal_strlit("");
        assert(""@ + root_name(root) =~= root_name(root));
    }
    r
}

/// The name that a root contributes to keys.
pub open spec fn root_name(root: Root) -> Seq<char> {
    match root {
        Root::Data => seq!['d', 'a', 't', 'a'],
        Root::Config => seq!['c', 'o', 'n', 'f', 'i', 'g'],
        Root::Cache => seq!['c', 'a', 'c', 'h', 'e'],
    }
}

/// A name that holds no separator, and so cannot be mistaken for several names.
pub open spec fn is_segment(s: Seq<char>) -> bool {
    forall|i: int| 0 <= i < s.len() ==> s[i] != SEP
}

/// Every subdirectory name in `segments` is a segment.
pub open spec fn all_segments(segments: Seq<Seq<char>>) -> bool {
    forall|i: int| 0 <= i < segments.len() ==> is_segment(#[trigger] segments[i])
}

/// The key of the directory reached from `root` through `segments`.
pub open spec fn dir_key(root: Root, segments: Seq<Seq<char>>) -> Seq<char>
    decreases segments.len(),
{
    if segments.len() == 0 {
        root_name(root).push(SEP)
    } else {
        (dir_key(root, segments.drop_last()) + segments.last()).push(SEP)
    }
}

/// The key of the file `name` in the directory reached from `root` through `segments`.
pub open spec fn file_key(root: Root, segments: Seq<Seq<char>>, name: Seq<char>) -> Seq<char> {
    dir_key(root, segments) + name
}

proof fn lemma_root_name(root: Root)
    ensures
        is_segment(root_name(root)),
        root_name(root).len() > 0,
{
}

proof fn lemma_root_name_injective(a: Root, b: Root)
    ensures
        root_name(a) == root_name(b) ==> a == b,
{
    if root_name(a) == root_name(b) && a != b {
        assert(root_name(a).len() == root_name(b).len());
        assert(root_name(a)[0] == root_name(b)[0]);
    }
}

proof fn lemma_dir_key_ends_with_sep(root: Root, segments: Seq<Seq<char>>)
    ensures
        dir_key(root, segments).len() > 0,
        dir_key(root, segments).last() == SEP,
{
}

/// Splitting `p + l` where `p` is empty or ends in a separator and `l` holds none is unique.
proof fn lemma_split_at_last_sep(p1: Seq<char>, l1: Seq<char>, p2: Seq<char>, l2: Seq<char>)
    requires
        p1.len() == 0 || p1.last() == SEP,
        p2.len() == 0 || p2.last() == SEP,
        is_segment(l1),
        is_segment(l2),
        p1 + l1 == p2 + l2,
    ensures
        p1 == p2,
        l1 == l2,
{
    let whole = p1 + l1;
    assert(whole.len() == p1.len() + l1.len());
    assert(whole.len() == p2.len() + l2.len());
    if p1.len() > p2.len() {
        let i = p1.len() - 1;
        assert(whole[i] == p1[i]);
        assert((p2 + l2)[i] == l2[i - p2.len()]);
        assert(false);
    } else if p2.len() > p1.len() {
        let i = p2.len() - 1;
        assert((p2 + l2)[i] == p2[i]);
        assert(whole[i] == l1[i - p1.len()]);
        assert(false);
    }
    assert(p1 =~= whole.subrange(0, p1.len() as int));
    assert(p2 =~= (p2 + l2).subrange(0, p2.len() as int));
    assert(l1 =~= whole.subrange(p1.len() as int, whole.len() as int));
    assert(l2 =~= (p2 + l2).subrange(p2.len() as int, whole.len() as int));
}

/// The part of a directory key before its last name.
spec fn key_prefix(root: Root, segments: Seq<Seq<char>>) -> Seq<char> {
    if segments.len() == 0 {
        Seq::empty()
    } else {
        dir_key(root, segments.drop_last())
    }
}

/// The last name in a directory key: the last subdirectory, or the root's name.
spec fn key_last(root: Root, segments: Seq<Seq<char>>) -> Seq<char> {
    if segments.len() == 0 {
        root_name(root)
    } else {
        segments.last()
    }
}

proof fn lemma_dir_key_parts(root: Root, segments: Seq<Seq<char>>)
    requires
        all_segments(segments),
    ensures
        dir_key(root, segments) == (key_prefix(root, segments) + key_last(root, segments)).push(SEP),
        dir_key(root, segments).drop_last() == key_prefix(root, segments) + key_last(root, segments),
        key_prefix(root, segments).len() == 0 || key_prefix(root, segments).last() == SEP,
        is_segment(key_last(root, segments)),
        segments.len() > 0 ==> all_segments(segments.drop_last()),
{
    lemma_root_name(root);
    if segments.len() > 0 {
        lemma_dir_key_ends_with_sep(root, segments.drop_last());
        assert(is_segment(segments[segments.len() - 1]));
    }
    let k = dir_key(root, segments);
    assert(k.drop_last() =~= key_prefix(root, segments) + key_last(root, segments));
}

/// Distinct directories have distinct keys, as long as every name is a segment.
pub proof fn lemma_dir_key_injective(r1: Root, s1: Seq<Seq<char>>, r2: Root, s2: Seq<Seq<char>>)
    requires
        all_segments(s1),
        all_segments(s2),
        dir_key(r1, s1) == dir_key(r2, s2),
    ensures
        r1 == r2,
        s1 == s2,
    decreases s1.len() + s2.len(),
{
    lemma_dir_key_parts(r1, s1);
    lemma_dir_key_parts(r2, s2);
    lemma_split_at_last_sep(key_prefix(r1, s1), key_last(r1, s1), key_prefix(r2, s2), key_last(r2, s2));
    if s1.len() == 0 && s2.len() == 0 {
        lemma_root_name_injective(r1, r2);
    } else if s1.len() == 0 {
        lemma_dir_key_ends_with_sep(r2, s2.drop_last());
    } else if s2.len() == 0 {
        lemma_dir_key_ends_with_sep(r1, s1.drop_last());
    } else {
        lemma_dir_key_injective(r1, s1.drop_last(), r2, s2.drop_last());
        assert(s1 =~= s1.drop_last().push(s1.last()));
        assert(s2 =~= s2.drop_last().push(s2.last()));
    }
}

/// Path uniqueness: two file locations whose names are all segments share a key exactly when
/// they are the same location.
pub proof fn lemma_file_key_unique(
    r1: Root,
    s1: Seq<Seq<char>>,
    n1: Seq<char>,
    r2: Root,
    s2: Seq<Seq<char>>,
    n2: Seq<char>,
)
    requires
        all_segments(s1),
        all_segments(s2),
        is_segment(n1),
        is_segment(n2),
    ensures
        file_key(r1, s1, n1) == file_key(r2, s2, n2) <==> (r1 == r2 && s1 == s2 && n1 == n2),
{
    if file_key(r1, s1, n1) == file_key(r2, s2, n2) {
        lemma_dir_key_ends_with_sep(r1, s1);
        lemma_dir_key_ends_with_sep(r2, s2);
        lemma_split_at_last_sep(dir_key(r1, s1), n1, dir_key(r2, s2), n2);
        lemma_dir_key_injective(r1, s1, r2, s2);
    }
}

} // verus!
