//! One configuration source and what it takes to turn its content into a
//! tree.

use vstd::prelude::*;

use crate::error::ConfigError;
use crate::parse::{json_document, parse_json, parse_yaml, yaml_document};
use crate::tree::{Tree, TreeView};

verus! {

/// A local file and the format that its content is declared to have.
pub enum FileSpec {
    Json(String),
    Yaml(String),
}

impl FileSpec {
    /// Where the file is, whatever its format.
    pub open spec fn location(&self) -> Seq<char> {
        match self {
            FileSpec::Json(p) => p@,
            FileSpec::Yaml(p) => p@,
        }
    }

    /// Where the file is, whatever its format.
    pub fn path(&self) -> (p: &str)
        ensures
            p@ == self.location(),
    {
        match self {
            FileSpec::Json(p) => p.as_str(),
            FileSpec::Yaml(p) => p.as_str(),
        }
    }
}

impl Clone for FileSpec {
    fn clone(&self) -> (r: FileSpec)
        ensures
            r == *self,
    {
        match self {
            FileSpec::Json(p) => FileSpec::Json(p.clone()),
            FileSpec::Yaml(p) => FileSpec::Yaml(p.clone()),
        }
    }
}

/// One configuration source: a local file, or a remote endpoint that answers
/// with JSON. A layer only describes the source; it can be read any number of
/// times.
pub enum Layer {
    File(FileSpec),
    JsonUrl(String),
}

impl Clone for Layer {
    fn clone(&self) -> (r: Layer)
        ensures
            r == *self,
    {
        match self {
            Layer::File(spec) => Layer::File(spec.clone()),
            Layer::JsonUrl(url) => Layer::JsonUrl(url.clone()),
        }
    }
}

/// What came of fetching the content of a source: its bytes, or what the file
/// system or the network reported.
pub type Fetched = Result<Vec<u8>, String>;

/// A fetch by what it stands for: the bytes, or the text of the report.
pub open spec fn fetched_view(fetched: Fetched) -> Result<Seq<u8>, Seq<char>> {
    match fetched {
        Ok(bytes) => Ok(bytes@),
        Err(report) => Err(report@),
    }
}

impl Layer {
    /// A local file of JSON.
    pub fn json_file(path: &str) -> (layer: Layer)
        ensures
            layer matches Layer::File(FileSpec::Json(p)) && p@ == path@,
    {
        Layer::File(FileSpec::Json(path.to_owned()))
    }

    /// A local file of YAML.
    pub fn yaml_file(path: &str) -> (layer: Layer)
        ensures
            layer matches Layer::File(FileSpec::Yaml(p)) && p@ == path@,
    {
        Layer::File(FileSpec::Yaml(path.to_owned()))
    }

    /// The tree that content of this source stands for, if it is valid for
    /// the source's format.
    pub open spec fn document(&self, text: Seq<u8>) -> Option<TreeView> {
        match self {
            Layer::File(FileSpec::Yaml(_)) => yaml_document(text),
            _ => json_document(text),
        }
    }

    /// The tree that a fetch of this source yields, if it yields one.
    pub open spec fn yields(&self, fetched: Result<Seq<u8>, Seq<char>>) -> Option<TreeView> {
        match fetched {
            Ok(text) => self.document(text),
            Err(_) => None,
        }
    }

    /// Whether `error` is the failure that belongs to a fetch that yields no
    /// tree. A file that could not be read is an `Io` error with the report
    /// as its text, content that is not valid a `Parse` error. Whatever goes
    /// wrong with a remote source is a `Network` error, with the report as its
    /// text where the fetch itself failed.
    pub open spec fn refuses(
        &self,
        fetched: Result<Seq<u8>, Seq<char>>,
        error: ConfigError,
    ) -> bool {
        match self {
            Layer::File(_) => match fetched {
                Ok(_) => error is Parse,
                Err(report) => error is Io && error.text() == report,
            },
            Layer::JsonUrl(_) => match fetched {
                Ok(_) => error is Network,
                Err(report) => error is Network && error.text() == report,
            },
        }
    }

    /// Says what a source's parser made of its content: the tree, or the
    /// failure that belongs to this kind of source.
    pub fn judge(&self, parsed: Result<Tree, String>) -> (r: Result<Tree, ConfigError>)
        ensures
            match parsed {
                Ok(tree) => r == Ok::<Tree, ConfigError>(tree),
                Err(why) => r == Err::<Tree, ConfigError>(
                    match self {
                        Layer::File(_) => ConfigError::Parse(why),
                        Layer::JsonUrl(_) => ConfigError::Network(why),
                    },
                ),
            },
    {
        match parsed {
            Ok(tree) => Ok(tree),
            Err(why) => match self {
                Layer::File(_) => Err(ConfigError::Parse(why)),
                Layer::JsonUrl(_) => Err(ConfigError::Network(why)),
            },
        }
    }

    /// Turns what was fetched from this source into a tree.
    pub fn load(&self, fetched: &Fetched) -> (r: Result<Tree, ConfigError>)
        ensures
            match self.yields(fetched_view(*fetched)) {
                Some(model) => r matches Ok(tree) && tree@ == model,
                None => r matches Err(error) && self.refuses(fetched_view(*fetched), error),
            },
    {
        match fetched {
            Ok(bytes) => {
                let parsed = match self {
                    Layer::File(FileSpec::Yaml(_)) => parse_yaml(bytes.as_slice()),
                    _ => parse_json(bytes.as_slice()),
                };
                self.judge(parsed)
            },
            Err(report) => match self {
                Layer::File(_) => Err(ConfigError::Io(report.clone())),
                Layer::JsonUrl(_) => Err(ConfigError::Network(report.clone())),
            },
        }
    }
}

} // verus!
