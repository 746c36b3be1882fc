use layered_config::config::Config;
use layered_config::parse::parse_json;
use layered_config::tree::{Object, Tree};
use layered_config::typed::{FromTree, ToTree};

fn json(text: &str) -> Tree {
    parse_json(text.as_bytes()).unwrap()
}

struct SampleConfig {
    value: u32,
}

impl ToTree for SampleConfig {
    fn to_tree(&self) -> Result<Tree, String> {
        let mut members = Object::new();
        members.insert("value".to_string(), self.value.to_tree()?);
        Ok(Tree::Object(members))
    }
}

impl FromTree for SampleConfig {
    fn from_tree(tree: &Tree) -> Result<Self, String> {
        match tree {
            Tree::Object(members) => match members.get("value") {
                Some(value) => Ok(SampleConfig { value: u32::from_tree(value)? }),
                None => Err("missing field `value`".to_string()),
            },
            _ => Err("invalid type: expected struct SampleConfig".to_string()),
        }
    }
}

#[test]
fn test_construct_empty() {
    let _cfg = Config::empty();
}

#[test]
fn test_get_set() {
    let mut cfg = Config::<Tree>::new_with(json(r#"{"x": {"y": 3}}"#)).unwrap();

    assert_eq!(cfg.get_raw::<u32>("x.y").unwrap(), 3);
    cfg.set_raw("x.y", 2).unwrap();
    assert_eq!(cfg.get_raw::<u32>("x.y").unwrap(), 2);
}

#[test]
fn test_object_config() {
    let cfg = Config::<SampleConfig>::new_with(SampleConfig { value: 2 }).unwrap();
    assert_eq!(cfg.get_raw::<u32>("value").unwrap(), 2);
    assert_eq!(cfg.get().value, 2);
}

#[test]
fn test_clone() {
    let cfg = Config::empty();
    let inner = cfg.get().clone();
    assert_eq!(inner, json("{}"))
}
