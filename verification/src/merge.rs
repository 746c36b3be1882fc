//! Deep merge of one tree onto another, and of an ordered list of layers.

use vstd::prelude::*;

use crate::tree::{Object, Tree, TreeView};

verus! {

/// The tree that results from laying `patch` over `base`.
///
/// Where both are objects they are merged key by key: a key of `base` alone
/// keeps its value, a key of `patch` alone is added, and under a key of both
/// the two values are merged in the same way. In every other case `patch`
/// takes the place of `base` whole: a scalar, an array or a null is never
/// combined with what it covers.
pub open spec fn merged(base: TreeView, patch: TreeView) -> TreeView
    decreases patch,
{
    match patch {
        TreeView::Object(p) => match base {
            TreeView::Object(b) => TreeView::Object(
                Map::new(
                    |k: Seq<char>| b.dom().contains(k) || p.dom().contains(k),
                    |k: Seq<char>|
                        if p.dom().contains(k) {
                            if b.dom().contains(k) {
                                merged(b[k], p[k])
                            } else {
                                p[k]
                            }
                        } else {
                            b[k]
                        },
                ),
            ),
            _ => patch,
        },
        _ => patch,
    }
}

/// One more item of a sequence holds what the items before it hold, and that
/// item.
proof fn lemma_take_one_more<A>(s: Seq<A>, i: int)
    requires
        0 <= i < s.len(),
    ensures
        forall|x: A|
            #![trigger s.take(i + 1).contains(x)]
            #![trigger s.take(i).contains(x)]
            s.take(i + 1).contains(x) <==> s.take(i).contains(x) || x == s[i],
{
    assert(s.take(i + 1) =~= s.take(i).push(s[i]));
    assert forall|x: A| s.take(i).contains(x) || x == s[i] implies s.take(i + 1).contains(x) by {
        if x == s[i] {
            assert(s.take(i + 1)[i] == x);
        } else {
            let j = s.take(i).index_of(x);
            assert(s.take(i + 1)[j] == x);
        }
    }
}

/// Lays `patch` over `base` and returns the result; neither argument changes.
pub fn merge(base: &Tree, patch: &Tree) -> (r: Tree)
    ensures
        r@ == merged(base@, patch@),
    decreases patch@,
{
    match patch {
        Tree::Object(p) => match base {
            Tree::Object(b) => {
                let ghost target = merged(base@, patch@)->Object_0;
                let mut out: Object = b.clone();
                let n = p.len();
                proof {
                    p.lemma_keys_are_domain();
                }
                let mut i: usize = 0;
                while i < n
                    invariant
                        i <= n,
                        n == p.keys().len(),
                        base@ == TreeView::Object(b@),
                        patch@ == TreeView::Object(p@),
                        target == merged(base@, patch@)->Object_0,
                        p@.dom().finite(),
                        forall|k: Seq<char>| p@.dom().contains(k) <==> p.keys().contains(k),
                        forall|k: Seq<char>|
                            out@.dom().contains(k) <==> (b@.dom().contains(k) || p.keys().take(
                                i as int,
                            ).contains(k)),
                        forall|k: Seq<char>|
                            p.keys().take(i as int).contains(k) ==> #[trigger] out@[k] == target[k],
                        forall|k: Seq<char>|
                            b@.dom().contains(k) && !p.keys().take(i as int).contains(k)
                                ==> #[trigger] out@[k] == b@[k],
                    decreases n - i,
                {
                    let key = p.key_at(i);
                    let value = p.value_at(i);
                    let merged_value = match b.get(key.as_str()) {
                        Some(under) => merge(under, value),
                        None => value.clone(),
                    };
                    out.insert(key.clone(), merged_value);
                    proof {
                        lemma_take_one_more(p.keys(), i as int);
                    }
                    i += 1;
                }
                assert(p.keys().take(n as int) =~= p.keys());
                assert(out@ =~= target);
                Tree::Object(out)
            },
            _ => patch.clone(),
        },
        _ => patch.clone(),
    }
}

/// The tree that results from laying the layers over `base` one after the
/// other, the first one first: each layer lies over all that came before it.
pub open spec fn merged_all(base: TreeView, layers: Seq<TreeView>) -> TreeView
    decreases layers.len(),
{
    if layers.len() == 0 {
        base
    } else {
        merged(merged_all(base, layers.drop_last()), layers.last())
    }
}

/// The models of a list of trees.
pub open spec fn tree_views(trees: Seq<Tree>) -> Seq<TreeView> {
    Seq::new(trees.len(), |i: int| trees[i]@)
}

/// Lays the layers over `base` in order and returns the result.
pub fn merge_all(base: &Tree, layers: &Vec<Tree>) -> (r: Tree)
    ensures
        r@ == merged_all(base@, tree_views(layers@)),
{
    let mut value = base.clone();
    let mut i: usize = 0;
    while i < layers.len()
        invariant
            i <= layers@.len(),
            value@ == merged_all(base@, tree_views(layers@).take(i as int)),
        decreases layers@.len() - i,
    {
        assert(tree_views(layers@).take(i + 1).drop_last() =~= tree_views(layers@).take(i as int));
        value = merge(&value, &layers[i]);
        i += 1;
    }
    assert(tree_views(layers@).take(layers@.len() as int) =~= tree_views(layers@));
    value
}

} // verus!
