use layered_config::error::ConfigError;
use layered_config::layer::{FileSpec, Layer};

#[test]
fn an_error_says_what_it_was_told() {
    assert_eq!(ConfigError::Io("no such file".to_string()).message(), "no such file");
    assert_eq!(ConfigError::Parse("expected `:`".to_string()).message(), "expected `:`");
    assert_eq!(ConfigError::Network("timed out".to_string()).message(), "timed out");
    assert_eq!(ConfigError::Serialize("bad key".to_string()).message(), "bad key");
    assert_eq!(ConfigError::Deserialize("missing field".to_string()).message(), "missing field");
    assert_eq!(ConfigError::InvalidPath.message(), "Invalid attribute string");
    assert_eq!(ConfigError::PathNotFound.message(), "Path not found");
}

#[test]
fn a_clone_of_an_error_is_the_same_error() {
    let error = ConfigError::Parse("x".to_string());
    assert!(matches!(error.clone(), ConfigError::Parse(text) if text == "x"));
    assert!(matches!(ConfigError::InvalidPath.clone(), ConfigError::InvalidPath));
    assert!(matches!(ConfigError::PathNotFound.clone(), ConfigError::PathNotFound));
}

#[test]
fn a_file_layer_knows_its_path() {
    assert_eq!(FileSpec::Json("a.json".to_string()).path(), "a.json");
    assert_eq!(FileSpec::Yaml("dir/b.yaml".to_string()).path(), "dir/b.yaml");
    assert!(matches!(Layer::json_file("a.json"), Layer::File(FileSpec::Json(p)) if p == "a.json"));
    assert!(matches!(Layer::yaml_file("b.yaml"), Layer::File(FileSpec::Yaml(p)) if p == "b.yaml"));
    assert!(matches!(FileSpec::Yaml("c".to_string()).clone(), FileSpec::Yaml(p) if p == "c"));
}

#[test]
fn a_layer_turns_its_content_into_a_tree_or_a_failure() {
    let json = Layer::json_file("a.json");
    let yaml = Layer::yaml_file("a.yaml");
    let url = Layer::JsonUrl("http://localhost/config".to_string());
    let text = |s: &str| Ok(s.as_bytes().to_vec());

    assert!(json.load(&text(r#"{"a": 1}"#)).is_ok());
    assert!(matches!(json.load(&text("a: 1")), Err(ConfigError::Parse(_))));
    assert!(yaml.load(&text("a: 1")).is_ok());
    assert!(matches!(yaml.load(&text("a: [")), Err(ConfigError::Parse(_))));
    assert!(url.load(&text(r#"{"a": 1}"#)).is_ok());
    assert!(matches!(url.load(&text("a: 1")), Err(ConfigError::Network(_))));
    assert_eq!(json.load(&text(r#"{"a": 1}"#)).unwrap(), yaml.load(&text("a: 1")).unwrap());

    let gone = Err("No such file or directory (os error 2)".to_string());
    assert!(matches!(json.load(&gone), Err(ConfigError::Io(t)) if t.contains("No such file")));
    assert!(matches!(yaml.load(&gone), Err(ConfigError::Io(t)) if t.contains("No such file")));
    let down = Err("error sending request".to_string());
    assert!(matches!(url.load(&down), Err(ConfigError::Network(t)) if t == "error sending request"));

    assert!(matches!(json.judge(Err("w".to_string())), Err(ConfigError::Parse(t)) if t == "w"));
    assert!(matches!(url.judge(Err("w".to_string())), Err(ConfigError::Network(t)) if t == "w"));
    assert!(json.judge(Ok(layered_config::tree::Tree::Null)).is_ok());
}
