//! What holds of merging, of paths and of overrides, whatever the trees.

use vstd::prelude::*;

use crate::config::{overlaid, visible_at};
use crate::merge::{merged, merged_all};
use crate::path::{found, nested, segments};
use crate::tree::TreeView;

verus! {

/// Merging a list of layers is merging its first part and then, over the
/// result, the rest: wherever the list is cut, the outcome is the same chain
/// of single merges from left to right.
pub proof fn lemma_merged_all_in_parts(base: TreeView, first: Seq<TreeView>, rest: Seq<TreeView>)
    ensures
        merged_all(base, first + rest) == merged_all(merged_all(base, first), rest),
    decreases rest.len(),
{
    if rest.len() == 0 {
        assert(first + rest =~= first);
    } else {
        assert((first + rest).drop_last() =~= first + rest.drop_last());
        lemma_merged_all_in_parts(base, first, rest.drop_last());
    }
}

/// Two layers over a base are one merge over another.
pub proof fn lemma_merged_all_of_two(base: TreeView, first: TreeView, second: TreeView)
    ensures
        merged_all(base, seq![first, second]) == merged(merged(base, first), second),
{
    assert(seq![first, second].drop_last() =~= seq![first]);
    assert(seq![first].drop_last() =~= Seq::<TreeView>::empty());
    assert(merged_all(base, seq![first]) == merged(
        merged_all(base, seq![first].drop_last()),
        seq![first].last(),
    ));
}

/// What a patch holds at a path as a scalar, an array or a null, the merged
/// tree holds at that path too, whatever lay under it.
pub proof fn lemma_patch_wins(base: TreeView, patch: TreeView, path: Seq<Seq<char>>, leaf: TreeView)
    requires
        found(patch, path) == Some(leaf),
        !(leaf is Object),
    ensures
        found(merged(base, patch), path) == Some(leaf),
    decreases path.len(),
{
    if path.len() > 0 {
        let key = path[0];
        let under = if base is Object && base->Object_0.dom().contains(key) {
            base->Object_0[key]
        } else {
            TreeView::Null
        };
        lemma_patch_wins(under, patch->Object_0[key], path.drop_first(), leaf);
    }
}

/// The last layer wins: under a key that it defines with a scalar, an array
/// or a null, the merge of two layers over a base holds that very value.
pub proof fn lemma_last_layer_wins(
    base: TreeView,
    first: TreeView,
    last: TreeView,
    key: Seq<char>,
)
    requires
        last is Object,
        last->Object_0.dom().contains(key),
        !(last->Object_0[key] is Object),
    ensures
        merged(merged(base, first), last) is Object,
        merged(merged(base, first), last)->Object_0.dom().contains(key),
        merged(merged(base, first), last)->Object_0[key] == last->Object_0[key],
{
    let path = seq![key];
    let leaf = last->Object_0[key];
    let all = merged(merged(base, first), last);
    assert(found(leaf, path.drop_first()) == Some(leaf));
    lemma_patch_wins(merged(base, first), last, path, leaf);
    assert(found(all->Object_0[key], path.drop_first()) == Some(all->Object_0[key]));
}

/// Whether the three trees can be merged in either grouping.
///
/// They cannot where the last is an object, the middle one is not, and the
/// first is an object that the last does not cover whole: laid over the middle
/// one first, the last hides the first; laid over the first directly, it
/// merges with it. The same holds under every key that all three define with
/// objects.
pub open spec fn regroups(a: TreeView, b: TreeView, c: TreeView) -> bool
    decreases c,
{
    match c {
        TreeView::Object(cm) => match b {
            TreeView::Object(bm) => match a {
                TreeView::Object(am) => forall|k: Seq<char>|
                    am.dom().contains(k) && bm.dom().contains(k) && #[trigger] cm.dom().contains(k)
                        ==> regroups(am[k], bm[k], cm[k]),
                _ => true,
            },
            _ => !(a is Object) || merged(a, c) == c,
        },
        _ => true,
    }
}

/// Merging is associative on exactly the trees that regroup.
pub proof fn lemma_merge_associative(a: TreeView, b: TreeView, c: TreeView)
    ensures
        regroups(a, b, c) <==> merged(merged(a, b), c) == merged(a, merged(b, c)),
    decreases c,
{
    if a is Object && b is Object && c is Object {
        let am = a->Object_0;
        let bm = b->Object_0;
        let cm = c->Object_0;
        let left = merged(merged(a, b), c)->Object_0;
        let right = merged(a, merged(b, c))->Object_0;
        assert forall|k: Seq<char>|
            am.dom().contains(k) && bm.dom().contains(k) && cm.dom().contains(k) implies (regroups(
            am[k],
            bm[k],
            cm[k],
        ) <==> #[trigger] left[k] == right[k]) by {
            lemma_merge_associative(am[k], bm[k], cm[k]);
        }
        if regroups(a, b, c) {
            assert(left =~= right);
        }
        if left == right {
            assert forall|k: Seq<char>|
                am.dom().contains(k) && bm.dom().contains(k) && #[trigger] cm.dom().contains(
                    k,
                ) implies regroups(am[k], bm[k], cm[k]) by {
                assert(left[k] == right[k]);
            }
        }
    }
}

/// The tree built for a path holds the value at that path: what the value
/// holds further down is found by going on from there.
pub proof fn lemma_nested_holds(path: Seq<Seq<char>>, value: TreeView, below: Seq<Seq<char>>)
    ensures
        found(nested(path, value), path + below) == found(value, below),
    decreases path.len(),
{
    if path.len() == 0 {
        assert(path + below =~= below);
    } else {
        assert((path + below).drop_first() =~= path.drop_first() + below);
        lemma_nested_holds(path.drop_first(), value, below);
    }
}

/// An override outlives every reload. Once a value was set at a path, every
/// scalar, array or null in it is held at its place by the overrides, and so
/// it is by the tree that the typed value is rebuilt from, whatever tree the
/// sources give. `below` leads from the path to the place inside the value;
/// it is empty where the value itself is no object.
pub proof fn lemma_override_survives(
    raw: TreeView,
    overlay: TreeView,
    path: Seq<char>,
    value: TreeView,
    below: Seq<Seq<char>>,
    leaf: TreeView,
)
    requires
        found(value, below) == Some(leaf),
        !(leaf is Object),
    ensures
        found(overlaid(overlay, path, value), segments(path) + below) == Some(leaf),
        found(merged(raw, overlaid(overlay, path, value)), segments(path) + below) == Some(leaf),
{
    let keys = segments(path);
    lemma_nested_holds(keys, value, below);
    lemma_patch_wins(overlay, nested(keys, value), keys + below, leaf);
    lemma_patch_wins(raw, overlaid(overlay, path, value), keys + below, leaf);
}

/// What was set is what is read: after a scalar or an array was set at a
/// path, a read by that path sees it, whatever the sources hold.
pub proof fn lemma_set_then_get(raw: TreeView, overlay: TreeView, path: Seq<char>, value: TreeView)
    requires
        !(value is Object),
        !(value is Null),
    ensures
        visible_at(raw, overlaid(overlay, path, value), segments(path)) == Some(value),
{
    assert(segments(path) + Seq::<Seq<char>>::empty() =~= segments(path));
    lemma_override_survives(raw, overlay, path, value, Seq::empty(), value);
}

} // verus!
