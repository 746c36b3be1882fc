//! The configuration container: the tree loaded from the sources, the tree of
//! run-time overrides, and the typed value read from the one laid under the
//! other.

use vstd::prelude::*;

use crate::error::ConfigError;
use crate::merge::{merge, merged};
use crate::path::{found, lookup, nest, nested, segments, split_path};
use crate::tree::{Object, Tree, TreeView};
use crate::typed::{read_from, written_as, FromTree, ToTree};

verus! {

/// The state of a configuration.
///
/// `raw` is what the sources gave and is only ever replaced whole. `overlay`
/// holds the overrides made at run time; it lies over `raw` whenever the typed
/// value is rebuilt, so an override outlives every reload. The typed value is
/// the one read at the last rebuild that succeeded.
pub struct Config<T> {
    built: T,
    raw: Tree,
    overlay: Tree,
}

/// The object without members.
pub open spec fn empty_object() -> TreeView {
    TreeView::Object(Map::<Seq<char>, TreeView>::empty())
}

/// What a read by path sees: the override at exactly that path where there is
/// one and it is not null, else what the sources hold there. The two trees are
/// not merged for this: where an object was overridden, a read of that object
/// sees the override alone, and a read below it sees the sources wherever the
/// override has nothing at the path.
pub open spec fn visible_at(raw: TreeView, overlay: TreeView, path: Seq<Seq<char>>) -> Option<
    TreeView,
> {
    match found(overlay, path) {
        Some(over) => if over == TreeView::Null {
            found(raw, path)
        } else {
            Some(over)
        },
        None => found(raw, path),
    }
}

/// The overlay after `value` was set at `path`.
pub open spec fn overlaid(overlay: TreeView, path: Seq<char>, value: TreeView) -> TreeView {
    merged(overlay, nested(segments(path), value))
}

/// A typed value or the reason why the tree did not fit the type.
pub open spec fn fitted<V>(outcome: Result<V, String>) -> Result<V, ConfigError> {
    match outcome {
        Ok(v) => Ok(v),
        Err(why) => Err(ConfigError::Deserialize(why)),
    }
}

/// Turns the outcome of reading a typed value into the library's result.
pub fn fit<V>(outcome: Result<V, String>) -> (r: Result<V, ConfigError>)
    ensures
        r == fitted(outcome),
{
    match outcome {
        Ok(v) => Ok(v),
        Err(why) => Err(ConfigError::Deserialize(why)),
    }
}

/// A rebuild from `source`: the tree was read as a `T`; what was read is the
/// new typed value, and where the tree did not fit the old value stays.
pub open spec fn rebuilt<T: FromTree>(
    source: TreeView,
    before: T,
    after: T,
    result: Result<(), ConfigError>,
) -> bool {
    exists|outcome: Result<T, String>| #[trigger]
        read_from::<T>(source, outcome) && match outcome {
            Ok(v) => result is Ok && after == v,
            Err(why) => result == Err::<(), ConfigError>(ConfigError::Deserialize(why)) && after
                == before,
        }
}

impl<T> Config<T> {
    /// The tree that the sources gave.
    pub closed spec fn raw_view(&self) -> TreeView {
        self.raw@
    }

    /// The tree of run-time overrides.
    pub closed spec fn overlay_view(&self) -> TreeView {
        self.overlay@
    }

    /// The typed value.
    pub closed spec fn value(&self) -> T {
        self.built
    }

    /// Nothing differs between the two states.
    pub open spec fn unchanged(&self, before: &Config<T>) -> bool {
        &&& self.raw_view() == before.raw_view()
        &&& self.overlay_view() == before.overlay_view()
        &&& self.value() == before.value()
    }

    /// The tree that a rebuild reads: the overrides laid over the sources.
    pub open spec fn merged_view(&self) -> TreeView {
        merged(self.raw_view(), self.overlay_view())
    }

    /// The typed value.
    pub fn get(&self) -> (r: &T)
        ensures
            *r == self.value(),
    {
        &self.built
    }

    /// Puts a tree and the typed value that belongs to it into a container
    /// without overrides.
    pub fn new_with_raw_and_built(raw: Tree, built: T) -> (c: Config<T>)
        ensures
            c.raw_view() == raw@,
            c.overlay_view() == empty_object(),
            c.value() == built,
    {
        let overlay = Tree::Object(Object::new());
        Config { built, raw, overlay }
    }
}

impl<T: FromTree> Config<T> {
    /// The typed value is what reading the merged tree gives.
    pub open spec fn in_sync(&self) -> bool {
        read_from::<T>(self.merged_view(), Ok(self.value()))
    }

    /// Reads the tree at `path` as a `V`. An override at exactly that path wins
    /// over the sources unless it is null.
    pub fn get_raw<V: FromTree>(&self, path: &str) -> (r: Result<V, ConfigError>)
        ensures
            path@.len() == 0 ==> (r matches Err(ConfigError::InvalidPath)),
            path@.len() > 0 ==> match visible_at(
                self.raw_view(),
                self.overlay_view(),
                segments(path@),
            ) {
                None => r matches Err(ConfigError::PathNotFound),
                Some(seen) => exists|outcome: Result<V, String>| #[trigger]
                    read_from::<V>(seen, outcome) && r == fitted(outcome),
            },
    {
        if path.is_empty() {
            return Err(ConfigError::InvalidPath);
        }
        let keys = split_path(path);
        let over = match lookup(&self.overlay, &keys) {
            Some(tree) => match tree {
                Tree::Null => None,
                _ => Some(tree),
            },
            None => None,
        };
        let seen = match over {
            Some(tree) => tree,
            None => match lookup(&self.raw, &keys) {
                Some(tree) => tree,
                None => {
                    return Err(ConfigError::PathNotFound);
                },
            },
        };
        let outcome = V::from_tree(seen);
        assert(read_from::<V>(seen@, outcome));
        fit(outcome)
    }

    /// Reads the merged tree anew and, where it fits, makes what was read the
    /// typed value.
    fn rebuild(&mut self) -> (r: Result<(), ConfigError>)
        ensures
            final(self).raw_view() == old(self).raw_view(),
            final(self).overlay_view() == old(self).overlay_view(),
            rebuilt::<T>(old(self).merged_view(), old(self).value(), final(self).value(), r),
            r is Ok ==> final(self).in_sync(),
    {
        let source = merge(&self.raw, &self.overlay);
        let outcome = T::from_tree(&source);
        assert(read_from::<T>(source@, outcome));
        match outcome {
            Ok(built) => {
                self.built = built;
                Ok(())
            },
            Err(why) => Err(ConfigError::Deserialize(why)),
        }
    }

    /// Lays `patch` over the overrides and rebuilds. The overrides keep the
    /// patch even where the merged tree no longer fits the type.
    pub fn merge(&mut self, patch: Tree) -> (r: Result<(), ConfigError>)
        ensures
            final(self).raw_view() == old(self).raw_view(),
            final(self).overlay_view() == merged(old(self).overlay_view(), patch@),
            rebuilt::<T>(final(self).merged_view(), old(self).value(), final(self).value(), r),
            r is Ok ==> final(self).in_sync(),
    {
        let overlay = merge(&self.overlay, &patch);
        self.overlay = overlay;
        self.rebuild()
    }

    /// Sets the tree `value` at `path` as an override and rebuilds.
    pub fn set_tree(&mut self, path: &str, value: Tree) -> (r: Result<(), ConfigError>)
        ensures
            final(self).raw_view() == old(self).raw_view(),
            path@.len() == 0 ==> (r matches Err(ConfigError::InvalidPath)) && final(self).unchanged(
                old(self),
            ),
            path@.len() > 0 ==> final(self).overlay_view() == overlaid(
                old(self).overlay_view(),
                path@,
                value@,
            ) && rebuilt::<T>(final(self).merged_view(), old(self).value(), final(self).value(), r),
            r is Ok ==> final(self).in_sync(),
    {
        if path.is_empty() {
            return Err(ConfigError::InvalidPath);
        }
        let keys = split_path(path);
        let patch = nest(&keys, value);
        self.merge(patch)
    }

    /// Writes `value` as a tree, sets it at `path` as an override and
    /// rebuilds.
    pub fn set_raw<V: ToTree>(&mut self, path: &str, value: V) -> (r: Result<(), ConfigError>)
        ensures
            final(self).raw_view() == old(self).raw_view(),
            path@.len() == 0 ==> (r matches Err(ConfigError::InvalidPath)) && final(self).unchanged(
                old(self),
            ),
            path@.len() > 0 ==> exists|written: Result<TreeView, String>| #[trigger]
                written_as(value, written) && match written {
                    Ok(tree) => final(self).overlay_view() == overlaid(
                        old(self).overlay_view(),
                        path@,
                        tree,
                    ) && rebuilt::<T>(
                        final(self).merged_view(),
                        old(self).value(),
                        final(self).value(),
                        r,
                    ),
                    Err(why) => r == Err::<(), ConfigError>(ConfigError::Serialize(why)) && final(self).unchanged(old(self)),
                },
            r is Ok ==> final(self).in_sync(),
    {
        if path.is_empty() {
            return Err(ConfigError::InvalidPath);
        }
        let outcome = value.to_tree();
        match outcome {
            Ok(tree) => {
                assert(written_as(value, Ok::<TreeView, String>(tree@)));
                self.set_tree(path, tree)
            },
            Err(why) => {
                assert(written_as(value, Err::<TreeView, String>(why)));
                Err(ConfigError::Serialize(why))
            },
        }
    }

    /// Puts `value` in the place of the tree that the sources gave, if the
    /// overrides laid over it still fit the type. Where they do not, nothing
    /// changes.
    pub fn replace_raw(&mut self, value: Tree) -> (r: Result<(), ConfigError>)
        ensures
            final(self).overlay_view() == old(self).overlay_view(),
            rebuilt::<T>(
                merged(value@, old(self).overlay_view()),
                old(self).value(),
                final(self).value(),
                r,
            ),
            final(self).raw_view() == if r is Ok {
                value@
            } else {
                old(self).raw_view()
            },
            r is Ok ==> final(self).in_sync(),
    {
        let source = merge(&value, &self.overlay);
        let outcome = T::from_tree(&source);
        assert(read_from::<T>(source@, outcome));
        match outcome {
            Ok(built) => {
                self.raw = value;
                self.built = built;
                Ok(())
            },
            Err(why) => Err(ConfigError::Deserialize(why)),
        }
    }

    /// What opening a container on the tree `raw` gives: the tree was read as
    /// a `T`; what was read is the typed value of a container without
    /// overrides, and a tree that does not fit is refused.
    pub open spec fn opened(raw: TreeView, r: Result<Config<T>, ConfigError>) -> bool {
        exists|outcome: Result<T, String>| #[trigger]
            read_from::<T>(raw, outcome) && match outcome {
                Ok(v) => r matches Ok(c) && c.raw_view() == raw && c.overlay_view()
                    == empty_object() && c.value() == v,
                Err(why) => r matches Err(e) && e == ConfigError::Deserialize(why),
            }
    }

    /// Reads `raw` as a `T` and puts both into a container without overrides.
    pub fn new_with_raw(raw: Tree) -> (r: Result<Config<T>, ConfigError>)
        ensures
            Config::<T>::opened(raw@, r),
    {
        let outcome = T::from_tree(&raw);
        assert(read_from::<T>(raw@, outcome));
        match outcome {
            Ok(built) => Ok(Config::new_with_raw_and_built(raw, built)),
            Err(why) => Err(ConfigError::Deserialize(why)),
        }
    }
}

impl<T: ToTree> Config<T> {
    /// What founding a container on the typed value `built` gives: the value
    /// was written as a tree; that tree and the value make a container
    /// without overrides.
    pub open spec fn founded(built: T, r: Result<Config<T>, ConfigError>) -> bool {
        exists|written: Result<TreeView, String>| #[trigger]
            written_as(built, written) && match written {
                Ok(tree) => r matches Ok(c) && c.raw_view() == tree && c.overlay_view()
                    == empty_object() && c.value() == built,
                Err(why) => r matches Err(e) && e == ConfigError::Serialize(why),
            }
    }

    /// Writes `built` as a tree and puts both into a container without
    /// overrides.
    pub fn new_with(built: T) -> (r: Result<Config<T>, ConfigError>)
        ensures
            Config::<T>::founded(built, r),
    {
        let outcome = built.to_tree();
        match outcome {
            Ok(raw) => {
                assert(written_as(built, Ok::<TreeView, String>(raw@)));
                Ok(Config::new_with_raw_and_built(raw, built))
            },
            Err(why) => {
                assert(written_as(built, Err::<TreeView, String>(why)));
                Err(ConfigError::Serialize(why))
            },
        }
    }
}

impl Config<Tree> {
    /// A container that holds the object without members.
    pub fn empty() -> (c: Config<Tree>)
        ensures
            c.raw_view() == empty_object(),
            c.overlay_view() == empty_object(),
            c.value()@ == empty_object(),
    {
        let raw = Tree::Object(Object::new());
        let built = Tree::Object(Object::new());
        Config::new_with_raw_and_built(raw, built)
    }
}

} // verus!
