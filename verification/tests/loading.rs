use layered_config::config::Config;
use layered_config::config_loader::ConfigLoader;
use layered_config::error::ConfigError;
use layered_config::layer::Fetched;
use layered_config::parse::parse_json;
use layered_config::tree::{Object, Tree};
use layered_config::typed::{FromTree, ToTree};

fn file_with(contents: &str) -> Fetched {
    Ok(contents.as_bytes().to_vec())
}

fn field<V: FromTree>(tree: &Tree, name: &str) -> Result<V, String> {
    match tree {
        Tree::Object(members) => match members.get(name) {
            Some(value) => V::from_tree(value),
            None => Err(format!("missing field `{}`", name)),
        },
        _ => Err("invalid type: expected a struct".to_string()),
    }
}

struct ValueConfig {
    value: u32,
}

impl FromTree for ValueConfig {
    fn from_tree(tree: &Tree) -> Result<Self, String> {
        Ok(ValueConfig { value: field(tree, "value")? })
    }
}

impl ToTree for ValueConfig {
    fn to_tree(&self) -> Result<Tree, String> {
        let mut members = Object::new();
        members.insert("value".to_string(), self.value.to_tree()?);
        Ok(Tree::Object(members))
    }
}

struct ExampleConfig {
    name: String,
    id: u8,
}

impl FromTree for ExampleConfig {
    fn from_tree(tree: &Tree) -> Result<Self, String> {
        Ok(ExampleConfig { name: field(tree, "name")?, id: field(tree, "id")? })
    }
}

impl ToTree for ExampleConfig {
    fn to_tree(&self) -> Result<Tree, String> {
        let mut members = Object::new();
        members.insert("name".to_string(), self.name.to_tree()?);
        members.insert("id".to_string(), self.id.to_tree()?);
        Ok(Tree::Object(members))
    }
}

#[derive(Default)]
struct Example {
    name: String,
    id: u32,
}

impl FromTree for Example {
    fn from_tree(tree: &Tree) -> Result<Self, String> {
        Ok(Example { name: field(tree, "name")?, id: field(tree, "id")? })
    }
}

impl ToTree for Example {
    fn to_tree(&self) -> Result<Tree, String> {
        let mut members = Object::new();
        members.insert("name".to_string(), self.name.to_tree()?);
        members.insert("id".to_string(), self.id.to_tree()?);
        Ok(Tree::Object(members))
    }
}

#[test]
fn test_loading_json_file() {
    let file = file_with(
        r#"
    {
        "value": 2
    }
    
    "#,
    );
    let cfg = Config::<ValueConfig>::load_json_file("config.json").load(&vec![file]).unwrap();

    let value = cfg.get().value;
    assert_eq!(value, 2)
}

#[test]
fn test_loading_yaml_file() {
    let file = file_with(
        r#"
value: 2
"#,
    );
    let cfg = Config::<ValueConfig>::load_yaml_file("config.yaml").load(&vec![file]).unwrap();

    let value = cfg.get().value;

    assert_eq!(value, 2)
}

#[test]
fn test_overlays() {
    let root_file = file_with("name: Test");

    let overlay_file1 = file_with("id: 3");

    let overlay_file2 = file_with("name: Another Test");

    let cfg = Config::<ExampleConfig>::load_yaml_file("root.yaml")
        .and_overlay_yaml("overlay1.yaml")
        .and_overlay_yaml("overlay2.yaml")
        .load(&vec![root_file, overlay_file1, overlay_file2])
        .unwrap();
    let inner = cfg.get();
    assert_eq!(inner.name, "Another Test");
    assert_eq!(inner.id, 3);
}

#[test]
fn test_overlay_with_default() {
    let overlay = file_with("id: 666");

    let cfg = Config::<Example>::load_default()
        .and_overlay_yaml("overlay.yaml")
        .load(&vec![overlay])
        .unwrap();
    assert_eq!(cfg.get().name, "");
    assert_eq!(cfg.get().id, 666);
}

#[test]
fn base_and_two_overlays_in_order() {
    let base = file_with(r#"{"name":"Test","id":0}"#);
    let first = file_with(r#"{"id":3}"#);
    let second = file_with(r#"{"name":"Another Test"}"#);
    let loader = ConfigLoader::<ExampleConfig>::new()
        .and_overlay_json("base.json")
        .and_overlay_json("first.json")
        .and_overlay_json("second.json");
    let fetched = vec![base, first, second];
    let merged = loader.load_value(&fetched).unwrap();
    assert_eq!(merged, parse_json(br#"{"name":"Another Test","id":3}"#).unwrap());
    let cfg = loader.load(&fetched).unwrap();
    assert_eq!(cfg.get().name, "Another Test");
    assert_eq!(cfg.get().id, 3);
}

#[test]
fn later_layer_wins_whatever_the_order_of_keys() {
    let loader = ConfigLoader::<Tree>::new().and_overlay_json("a").and_overlay_json("b");
    let value = loader
        .load_value(&vec![file_with(r#"{"a":1,"b":{"c":1,"d":1}}"#), file_with(r#"{"b":{"c":2},"e":5}"#)])
        .unwrap();
    assert_eq!(value, parse_json(br#"{"e":5,"b":{"d":1,"c":2},"a":1}"#).unwrap());
}

#[test]
fn no_layers_and_no_default_load_null() {
    let loader = ConfigLoader::<Tree>::new();
    assert_eq!(loader.load_value(&vec![]).unwrap(), Tree::Null);
    assert_eq!(loader.sources().len(), 0);
}

#[test]
fn first_failure_aborts_the_load() {
    let loader = ConfigLoader::<ExampleConfig>::new()
        .and_overlay_json("one.json")
        .and_overlay_yaml("two.yaml")
        .and_json_url("http://localhost/three");
    let missing: Fetched = Err("No such file or directory (os error 2)".to_string());
    let broken: Fetched = Ok(b"{ not json".to_vec());
    let refused: Fetched = Err("connection refused".to_string());
    let good = file_with(r#"{"name":"n","id":1}"#);

    match loader.load_value(&vec![missing, file_with("id: [1"), file_with("{}")]) {
        Err(ConfigError::Io(text)) => assert_eq!(text, "No such file or directory (os error 2)"),
        other => panic!("unexpected: {:?}", other),
    }
    assert!(matches!(
        loader.load_value(&vec![broken, file_with("id: 1"), file_with("{}")]),
        Err(ConfigError::Parse(_))
    ));
    assert!(matches!(
        loader.load_value(&vec![file_with("{}"), file_with("id: [1"), refused]),
        Err(ConfigError::Parse(_))
    ));
    match loader.load_value(&vec![
        file_with("{}"),
        file_with("id: 1"),
        Err("connection refused".to_string()),
    ]) {
        Err(ConfigError::Network(text)) => assert_eq!(text, "connection refused"),
        other => panic!("unexpected: {:?}", other),
    }
    assert!(matches!(
        loader.load_value(&vec![file_with("{}"), file_with("id: 1"), file_with("<html>")]),
        Err(ConfigError::Network(_))
    ));
    assert!(matches!(
        loader.load(&vec![file_with("{}"), file_with("id: 1"), file_with("{}")]),
        Err(ConfigError::Deserialize(_))
    ));
    let cfg = loader.load(&vec![good, file_with("id: 2"), file_with(r#"{"name":"m"}"#)]).unwrap();
    assert_eq!(cfg.get().name, "m");
    assert_eq!(cfg.get().id, 2);
}

#[test]
fn a_layer_that_was_not_fetched_counts_as_unread() {
    let loader = ConfigLoader::<Tree>::new().and_overlay_json("one.json").and_json_url("http://h/");
    match loader.load_value(&vec![file_with("{}")]) {
        Err(ConfigError::Network(text)) => assert_eq!(text, "the source was not read"),
        other => panic!("unexpected: {:?}", other),
    }
    match loader.load_value(&vec![]) {
        Err(ConfigError::Io(text)) => assert_eq!(text, "the source was not read"),
        other => panic!("unexpected: {:?}", other),
    }
}

#[test]
fn a_clone_of_a_loader_loads_the_same() {
    let loader = ConfigLoader::<u32>::new().with_default(7).and_overlay_json("one.json");
    let copy = loader.clone();
    assert_eq!(copy.sources().len(), 1);
    assert_eq!(copy.sources()[0].clone().load(&file_with("3")).unwrap(), parse_json(b"3").unwrap());
    assert_eq!(copy.load_value(&vec![file_with("4")]).unwrap(), parse_json(b"4").unwrap());
    assert_eq!(
        ConfigLoader::<u32>::new().with_default(7).load_value(&vec![]).unwrap(),
        parse_json(b"7").unwrap()
    );
}
