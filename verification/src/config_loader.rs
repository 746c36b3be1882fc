//! The loader: an ordered list of layers and an optional default value, from
//! which a configuration is loaded once or loaded and then watched.

use vstd::prelude::*;
use vstd::string::StringExecFns;

use crate::config::Config;
use crate::error::ConfigError;
use crate::layer::{fetched_view, Fetched, FileSpec, Layer};
use crate::merge::{merge, merged_all};
use crate::tree::{Tree, TreeView};
use crate::typed::{written_as, FromTree, ToTree};
use crate::watch::Watcher;
use crate::watch_handle::WatchHandle;

verus! {

/// What is to be loaded: the layers in the order of their precedence, a later
/// one over an earlier one, and the value that lies under them all.
pub struct ConfigLoader<T> {
    layers: Vec<Layer>,
    default: Option<T>,
}

/// What was fetched for the layer at `i`, by what it stands for. A layer for
/// which nothing was fetched counts as one that could not be read.
pub open spec fn fetched_at(fetched: Seq<Fetched>, i: int) -> Result<Seq<u8>, Seq<char>> {
    if 0 <= i < fetched.len() {
        fetched_view(fetched[i])
    } else {
        Err("the source was not read"@)
    }
}

/// The tree that the layer at `i` yields, if it yields one.
pub open spec fn yield_at(layers: Seq<Layer>, fetched: Seq<Fetched>, i: int) -> Option<TreeView> {
    layers[i].yields(fetched_at(fetched, i))
}

/// Each of the first `n` layers yields a tree.
pub open spec fn all_yield(layers: Seq<Layer>, fetched: Seq<Fetched>, n: int) -> bool {
    forall|i: int| 0 <= i < n ==> (#[trigger] yield_at(layers, fetched, i)) is Some
}

/// The trees of the first `n` layers, in order.
pub open spec fn yielded(layers: Seq<Layer>, fetched: Seq<Fetched>, n: int) -> Seq<TreeView> {
    Seq::new(n as nat, |i: int| yield_at(layers, fetched, i).unwrap())
}

/// What loading gives from the starting value `base`: where every layer
/// yields a tree, the layers laid over `base` in order; else the failure of
/// the first layer that yields none.
pub open spec fn folded(
    layers: Seq<Layer>,
    base: TreeView,
    fetched: Seq<Fetched>,
    r: Result<Tree, ConfigError>,
) -> bool {
    let n = layers.len() as int;
    if all_yield(layers, fetched, n) {
        r matches Ok(tree) && tree@ == merged_all(base, yielded(layers, fetched, n))
    } else {
        r matches Err(error) && exists|i: int|
            0 <= i < n && all_yield(layers, fetched, i) && (#[trigger] yield_at(
                layers,
                fetched,
                i,
            )) is None && layers[i].refuses(fetched_at(fetched, i), error)
    }
}

impl<T> ConfigLoader<T> {
    /// The layers, in the order in which they were added.
    pub closed spec fn layers(&self) -> Seq<Layer> {
        self.layers@
    }

    /// The value that lies under all layers, if one was given.
    pub closed spec fn default_value(&self) -> Option<T> {
        self.default
    }

    /// A loader without layers and without a default value.
    pub fn new() -> (loader: ConfigLoader<T>)
        ensures
            loader.layers() == Seq::<Layer>::empty(),
            loader.default_value() is None,
    {
        ConfigLoader { layers: Vec::new(), default: None }
    }

    /// Gives the loader the value that lies under all layers. It is written
    /// as a tree anew at each load.
    pub fn with_default(self, value: T) -> (loader: ConfigLoader<T>)
        ensures
            loader.layers() == self.layers(),
            loader.default_value() == Some(value),
    {
        ConfigLoader { layers: self.layers, default: Some(value) }
    }

    /// Adds a layer over those that are there.
    pub fn and_overlay(self, layer: Layer) -> (loader: ConfigLoader<T>)
        ensures
            loader.layers() == self.layers().push(layer),
            loader.default_value() == self.default_value(),
    {
        let mut layers = self.layers;
        layers.push(layer);
        ConfigLoader { layers, default: self.default }
    }

    /// Adds a local file of JSON as the topmost layer.
    pub fn and_overlay_json(self, path: &str) -> (loader: ConfigLoader<T>)
        ensures
            loader.layers().len() == self.layers().len() + 1,
            loader.layers().drop_last() == self.layers(),
            loader.layers().last() matches Layer::File(FileSpec::Json(p)) && p@ == path@,
            loader.default_value() == self.default_value(),
    {
        self.and_overlay(Layer::json_file(path))
    }

    /// Adds a local file of YAML as the topmost layer.
    pub fn and_overlay_yaml(self, path: &str) -> (loader: ConfigLoader<T>)
        ensures
            loader.layers().len() == self.layers().len() + 1,
            loader.layers().drop_last() == self.layers(),
            loader.layers().last() matches Layer::File(FileSpec::Yaml(p)) && p@ == path@,
            loader.default_value() == self.default_value(),
    {
        self.and_overlay(Layer::yaml_file(path))
    }

    /// Adds a remote endpoint that answers with JSON as the topmost layer.
    pub fn and_json_url(self, url: &str) -> (loader: ConfigLoader<T>)
        ensures
            loader.layers().len() == self.layers().len() + 1,
            loader.layers().drop_last() == self.layers(),
            loader.layers().last() matches Layer::JsonUrl(u) && u@ == url@,
            loader.default_value() == self.default_value(),
    {
        self.and_overlay(Layer::JsonUrl(url.to_owned()))
    }

    /// The layers, for whoever fetches their content.
    pub fn sources(&self) -> (layers: &Vec<Layer>)
        ensures
            layers@ == self.layers(),
    {
        &self.layers
    }

    /// Lays what the layers yield over `base`, in order, and stops at the
    /// first layer that yields no tree.
    pub fn fold_layers(&self, base: Tree, fetched: &Vec<Fetched>) -> (r: Result<Tree, ConfigError>)
        ensures
            folded(self.layers(), base@, fetched@, r),
    {
        let ghost layers = self.layers@;
        let ghost start = base@;
        let mut value = base;
        let mut i: usize = 0;
        while i < self.layers.len()
            invariant
                i <= layers.len(),
                layers == self.layers@,
                all_yield(layers, fetched@, i as int),
                value@ == merged_all(start, yielded(layers, fetched@, i as int)),
            decreases layers.len() - i,
        {
            let loaded = if i < fetched.len() {
                self.layers[i].load(&fetched[i])
            } else {
                let unread: Fetched = Err(String::from_str("the source was not read"));
                self.layers[i].load(&unread)
            };
            match loaded {
                Ok(tree) => {
                    assert(yielded(layers, fetched@, i + 1).drop_last() =~= yielded(
                        layers,
                        fetched@,
                        i as int,
                    ));
                    value = merge(&value, &tree);
                },
                Err(error) => {
                    assert(yield_at(layers, fetched@, i as int) is None);
                    return Err(error);
                },
            }
            i += 1;
        }
        Ok(value)
    }
}

impl<T: Clone> Clone for ConfigLoader<T> {
    /// An independent copy: the same layers in the same order, and a copy of
    /// the default value where there is one.
    fn clone(&self) -> (copy: ConfigLoader<T>)
        ensures
            copy.layers() == self.layers(),
            match self.default_value() {
                Some(value) => copy.default_value() matches Some(c) && call_ensures(
                    T::clone,
                    (&value,),
                    c,
                ),
                None => copy.default_value() is None,
            },
    {
        let mut layers: Vec<Layer> = Vec::new();
        let mut i: usize = 0;
        while i < self.layers.len()
            invariant
                i <= self.layers@.len(),
                layers@ == self.layers@.take(i as int),
            decreases self.layers@.len() - i,
        {
            layers.push(self.layers[i].clone());
            i += 1;
        }
        let default = match &self.default {
            Some(value) => Some(value.clone()),
            None => None,
        };
        ConfigLoader { layers, default }
    }
}

impl<T: ToTree> ConfigLoader<T> {
    /// What `load_value` gives: the default value written as a tree, or null
    /// where there is none, with the layers laid over it; or the first
    /// failure on the way.
    pub open spec fn loads(&self, fetched: Seq<Fetched>, r: Result<Tree, ConfigError>) -> bool {
        match self.default_value() {
            None => folded(self.layers(), TreeView::Null, fetched, r),
            Some(value) => exists|written: Result<TreeView, String>| #[trigger]
                written_as(value, written) && match written {
                    Ok(base) => folded(self.layers(), base, fetched, r),
                    Err(why) => r matches Err(error) && error == ConfigError::Serialize(why),
                },
        }
    }

    /// Merges the default value and what was fetched for each layer into one
    /// tree. `fetched` holds, place by place, what came of fetching each
    /// layer's content.
    pub fn load_value(&self, fetched: &Vec<Fetched>) -> (r: Result<Tree, ConfigError>)
        ensures
            self.loads(fetched@, r),
    {
        match &self.default {
            Some(value) => {
                match value.to_tree() {
                    Ok(base) => {
                        assert(written_as(*value, Ok::<TreeView, String>(base@)));
                        self.fold_layers(base, fetched)
                    },
                    Err(why) => {
                        assert(written_as(*value, Err::<TreeView, String>(why)));
                        Err(ConfigError::Serialize(why))
                    },
                }
            },
            None => self.fold_layers(Tree::Null, fetched),
        }
    }
}

impl<T: FromTree + ToTree> ConfigLoader<T> {
    /// What `load` gives: the container of the merged tree, or the first
    /// failure on the way. There is no partial success.
    pub open spec fn opens(
        &self,
        fetched: Seq<Fetched>,
        r: Result<Config<T>, ConfigError>,
    ) -> bool {
        exists|value: Result<Tree, ConfigError>| #[trigger]
            self.loads(fetched, value) && match value {
                Ok(raw) => Config::<T>::opened(raw@, r),
                Err(error) => r matches Err(e) && e == error,
            }
    }

    /// Loads the configuration once.
    pub fn load(&self, fetched: &Vec<Fetched>) -> (r: Result<Config<T>, ConfigError>)
        ensures
            self.opens(fetched@, r),
    {
        match self.load_value(fetched) {
            Ok(raw) => Config::new_with_raw(raw),
            Err(error) => Err(error),
        }
    }

    /// Loads the configuration and sets up a watch on it: the handle by which
    /// the watch is called off, and the watcher that a polling loop drives,
    /// which wakes every `poll_millis` milliseconds.
    pub fn load_and_watch(&self, fetched: &Vec<Fetched>, poll_millis: u64) -> (r: Result<
        (Config<T>, WatchHandle, Watcher),
        ConfigError,
    >)
        ensures
            match r {
                Ok((config, handle, watcher)) => self.opens(fetched@, Ok(config))
                    && watcher.is_running() && watcher.last_seen() is None
                    && watcher.poll_millis() == poll_millis && watcher.signal().flag()
                    == handle.flag(),
                Err(error) => self.opens(fetched@, Err(error)),
            },
    {
        match self.load(fetched) {
            Ok(config) => {
                let handle = WatchHandle::new();
                let watcher = Watcher::new(handle.signal(), poll_millis);
                Ok((config, handle, watcher))
            },
            Err(error) => Err(error),
        }
    }
}

impl<T> Config<T> {
    /// A loader whose first layer is a local file of JSON.
    pub fn load_json_file(path: &str) -> (loader: ConfigLoader<T>)
        ensures
            loader.layers().len() == 1,
            loader.layers()[0] matches Layer::File(FileSpec::Json(p)) && p@ == path@,
            loader.default_value() is None,
    {
        ConfigLoader::new().and_overlay_json(path)
    }

    /// A loader whose first layer is a local file of YAML.
    pub fn load_yaml_file(path: &str) -> (loader: ConfigLoader<T>)
        ensures
            loader.layers().len() == 1,
            loader.layers()[0] matches Layer::File(FileSpec::Yaml(p)) && p@ == path@,
            loader.default_value() is None,
    {
        ConfigLoader::new().and_overlay_yaml(path)
    }
}

impl<T: Default> Config<T> {
    /// A loader under whose layers lies the default value of the type.
    pub fn load_default() -> (loader: ConfigLoader<T>)
        ensures
            loader.layers() == Seq::<Layer>::empty(),
            loader.default_value() matches Some(value) && call_ensures(T::default, (), value),
    {
        ConfigLoader::new().with_default(T::default())
    }
}

impl<T: Default + ToTree> Config<T> {
    /// A container of the default value of the type.
    pub fn new_with_default() -> (r: Result<Config<T>, ConfigError>)
        ensures
            exists|value: T| #[trigger]
                call_ensures(T::default, (), value) && Config::<T>::founded(value, r),
    {
        Config::new_with(T::default())
    }
}

} // verus!
