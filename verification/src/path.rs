//! Dotted paths: a path is a sequence of object keys separated by `.`, with no
//! index or escape syntax.

use vstd::prelude::*;

use crate::tree::{Object, Tree, TreeView};

verus! {

/// How many characters stand before the first `.` of `s`; its whole length
/// where it has none.
pub open spec fn first_dot(s: Seq<char>) -> nat
    decreases s.len(),
{
    if s.len() == 0 || s[0] == '.' {
        0
    } else {
        1 + first_dot(s.drop_first())
    }
}

/// The segments of a dotted path. The empty path has one segment, the empty
/// key; a `.` at either end or two in a row give an empty key as well.
pub open spec fn segments(path: Seq<char>) -> Seq<Seq<char>>
    decreases path.len(),
{
    let cut = first_dot(path) as int;
    if cut < path.len() {
        seq![path.take(cut)] + segments(path.skip(cut + 1))
    } else {
        seq![path]
    }
}

/// The models of a list of keys.
pub open spec fn key_views(keys: Seq<String>) -> Seq<Seq<char>> {
    Seq::new(keys.len(), |i: int| keys[i]@)
}

/// The tree found by walking from `tree` down the keys of `path`, if every
/// step meets an object that holds the key.
pub open spec fn found(tree: TreeView, path: Seq<Seq<char>>) -> Option<TreeView>
    decreases path.len(),
{
    if path.len() == 0 {
        Some(tree)
    } else {
        match tree {
            TreeView::Object(members) => if members.dom().contains(path[0]) {
                found(members[path[0]], path.drop_first())
            } else {
                None
            },
            _ => None,
        }
    }
}

/// The tree that holds `value` under the keys of `path`, one object with a
/// single member for each key.
pub open spec fn nested(path: Seq<Seq<char>>, value: TreeView) -> TreeView
    decreases path.len(),
{
    if path.len() == 0 {
        value
    } else {
        TreeView::Object(
            Map::<Seq<char>, TreeView>::empty().insert(path[0], nested(path.drop_first(), value)),
        )
    }
}

/// `first_dot` is the place of the first `.`.
pub proof fn lemma_first_dot(s: Seq<char>, at: int)
    requires
        0 <= at <= s.len(),
        forall|j: int| 0 <= j < at ==> s[j] != '.',
        at < s.len() ==> s[at] == '.',
    ensures
        first_dot(s) == at,
    decreases at,
{
    if at > 0 {
        lemma_first_dot(s.drop_first(), at - 1);
    }
}

/// Splits a dotted path into its keys.
pub fn split_path(path: &str) -> (keys: Vec<String>)
    ensures
        key_views(keys@) == segments(path@),
{
    let n = path.unicode_len();
    let mut keys: Vec<String> = Vec::new();
    let mut start: usize = 0;
    let mut i: usize = 0;
    assert(path@.skip(0) =~= path@);
    while i < n
        invariant
            start <= i <= n,
            n == path@.len(),
            forall|j: int| start <= j < i ==> path@[j] != '.',
            segments(path@) == key_views(keys@) + segments(path@.skip(start as int)),
        decreases n - i,
    {
        let c = path.get_char(i);
        if c == '.' {
            let piece = path.substring_char(start, i).to_owned();
            proof {
                let rest = path@.skip(start as int);
                lemma_first_dot(rest, i - start);
                assert(rest.take(i - start) =~= path@.subrange(start as int, i as int));
                assert(rest.skip(i - start + 1) =~= path@.skip(i + 1));
            }
            keys.push(piece);
            start = i + 1;
        }
        i += 1;
    }
    let piece = path.substring_char(start, n).to_owned();
    proof {
        lemma_first_dot(path@.skip(start as int), n - start);
    }
    keys.push(piece);
    keys
}

/// Walks from `tree` down `keys` and returns the tree that stands there.
pub fn lookup<'a>(tree: &'a Tree, keys: &Vec<String>) -> (r: Option<&'a Tree>)
    ensures
        match r {
            Some(t) => found(tree@, key_views(keys@)) == Some(t@),
            None => found(tree@, key_views(keys@)) is None,
        },
{
    let mut at: &Tree = tree;
    let mut i: usize = 0;
    assert(key_views(keys@).skip(0) =~= key_views(keys@));
    while i < keys.len()
        invariant
            i <= keys@.len(),
            found(tree@, key_views(keys@)) == found(at@, key_views(keys@).skip(i as int)),
        decreases keys@.len() - i,
    {
        assert(key_views(keys@).skip(i as int).drop_first() =~= key_views(keys@).skip(i + 1));
        match at {
            Tree::Object(members) => {
                match members.get(keys[i].as_str()) {
                    Some(below) => {
                        at = below;
                    },
                    None => {
                        return None;
                    },
                }
            },
            _ => {
                return None;
            },
        }
        i += 1;
    }
    Some(at)
}

/// Builds the tree that holds `value` under `keys`.
pub fn nest(keys: &Vec<String>, value: Tree) -> (r: Tree)
    ensures
        r@ == nested(key_views(keys@), value@),
{
    let mut patch = value;
    let mut i: usize = keys.len();
    while i > 0
        invariant
            i <= keys@.len(),
            patch@ == nested(key_views(keys@).skip(i as int), value@),
        decreases i,
    {
        i -= 1;
        assert(key_views(keys@).skip(i as int).drop_first() =~= key_views(keys@).skip(i + 1));
        let mut members = Object::new();
        members.insert(keys[i].clone(), patch);
        patch = Tree::Object(members);
    }
    assert(key_views(keys@).skip(0) =~= key_views(keys@));
    patch
}

} // verus!
