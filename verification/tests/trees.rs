use layered_config::parse::{parse_json, parse_yaml};
use layered_config::tree::{Number, Object, Tree};

fn json(text: &str) -> Tree {
    parse_json(text.as_bytes()).unwrap()
}

fn yaml(text: &str) -> Tree {
    parse_yaml(text.as_bytes()).unwrap()
}

fn uint(n: u64) -> Tree {
    Tree::Number(Number::PosInt(n))
}

#[test]
fn an_object_holds_each_key_once() {
    let mut o = Object::new();
    assert_eq!(o.len(), 0);
    assert!(o.get("a").is_none());
    o.insert("a".to_string(), uint(1));
    o.insert("b".to_string(), uint(2));
    o.insert("a".to_string(), uint(3));
    assert_eq!(o.len(), 2);
    assert_eq!(o.get("a"), Some(&uint(3)));
    assert_eq!(o.get("b"), Some(&uint(2)));
    assert!(o.get("c").is_none());
    assert_eq!(o.key_at(0), "a");
    assert_eq!(o.value_at(0), &uint(3));
    assert_eq!(o.key_at(1), "b");
    assert_eq!(o.value_at(1), &uint(2));
}

#[test]
fn equality_ignores_the_order_of_members() {
    assert_eq!(json(r#"{"a":1,"b":{"c":2,"d":3}}"#), json(r#"{"b":{"d":3,"c":2},"a":1}"#));
    assert_ne!(json(r#"{"a":1,"b":2}"#), json(r#"{"a":1}"#));
    assert_ne!(json(r#"{"a":1}"#), json(r#"{"a":1,"b":2}"#));
    assert_ne!(json(r#"{"a":1,"b":2}"#), json(r#"{"a":1,"c":2}"#));
    assert_ne!(json(r#"{"a":1}"#), json(r#"{"a":2}"#));
    assert_ne!(json(r#"{"a":{"b":1}}"#), json(r#"{"a":{"b":2}}"#));
    assert!(json(r#"{"a":[1,{"b":2}]}"#).same(&json(r#"{"a":[1,{"b":2}]}"#)));
}

#[test]
fn equality_keeps_the_order_of_items_and_the_kind_of_scalars() {
    assert_eq!(json("[1,2,3]"), json("[1,2,3]"));
    assert_ne!(json("[1,2,3]"), json("[3,2,1]"));
    assert_ne!(json("[1,2]"), json("[1,2,3]"));
    assert_ne!(json("1"), json("1.0"));
    assert_ne!(json("1"), json("\"1\""));
    assert_ne!(json("0"), json("false"));
    assert_ne!(json("null"), json("false"));
    assert_ne!(json("{}"), json("[]"));
    assert_ne!(json("{}"), json("null"));
    assert_eq!(json("\"x\""), Tree::Text("x".to_string()));
    assert_eq!(json("true"), Tree::Bool(true));
    assert_eq!(json("null"), Tree::Null);
}

#[test]
fn a_clone_is_equal_and_apart() {
    let tree = json(r#"{"a":[1,{"b":"x"}],"c":null}"#);
    let copy = tree.clone();
    assert_eq!(copy, tree);
    if let Tree::Object(mut members) = copy {
        members.insert("c".to_string(), uint(1));
        assert_ne!(Tree::Object(members), tree);
    } else {
        panic!("not an object");
    }
    assert_eq!(tree, json(r#"{"a":[1,{"b":"x"}],"c":null}"#));
}

#[test]
fn a_number_is_held_by_its_first_reading() {
    assert_eq!(Number::of(Some(5), Some(5), Some(7)), Number::PosInt(5));
    assert_eq!(Number::of(None, Some(-5), Some(7)), Number::NegInt(-5));
    assert_eq!(Number::of(None, None, Some(7)), Number::Float(7));
    assert_eq!(Number::of(None, None, None), Number::Float(0));
}

#[test]
fn json_text_is_read_variant_by_variant() {
    assert_eq!(json("5"), uint(5));
    assert_eq!(json("18446744073709551615"), uint(u64::MAX));
    assert_eq!(json("-5"), Tree::Number(Number::NegInt(-5)));
    assert_eq!(json("1.5"), Tree::Number(Number::Float(1.5f64.to_bits())));
    assert_eq!(json("-2e3"), Tree::Number(Number::Float((-2000.0f64).to_bits())));
    assert_eq!(json(r#""a\nb""#), Tree::Text("a\nb".to_string()));
    assert_eq!(json("[null, true, 1]"), Tree::Array(vec![Tree::Null, Tree::Bool(true), uint(1)]));
    let mut members = Object::new();
    members.insert("k".to_string(), Tree::Array(vec![]));
    assert_eq!(json(r#" { "k" : [ ] } "#), Tree::Object(members));
    assert_eq!(json(r#"{"a":1,"a":2}"#), json(r#"{"a":2}"#));
}

#[test]
fn text_that_is_not_json_is_refused() {
    assert!(parse_json(b"").is_err());
    assert!(parse_json(b"{").is_err());
    assert!(parse_json(b"{\"a\":}").is_err());
    assert!(parse_json(b"[1,]").is_err());
    assert!(parse_json(b"1 2").is_err());
    assert!(parse_json(b"name: Test").is_err());
    assert!(parse_json(&[0xff, 0xfe]).is_err());
    assert!(parse_json(b"{").unwrap_err().contains("EOF"));
}

#[test]
fn yaml_text_maps_to_the_same_trees() {
    assert_eq!(yaml("name: Test"), json(r#"{"name":"Test"}"#));
    assert_eq!(yaml("id: 3"), json(r#"{"id":3}"#));
    assert_eq!(yaml("name: name\nid: 1"), json(r#"{"name":"name","id":1}"#));
    assert_eq!(yaml("a:\n  b: [1, 2]\n  c: ~\n"), json(r#"{"a":{"b":[1,2],"c":null}}"#));
    assert_eq!(yaml("- x\n- -3\n- 1.5\n- true\n"), json(r#"["x",-3,1.5,true]"#));
    assert_eq!(yaml(r#"{"a": 1}"#), json(r#"{"a":1}"#));
    assert_eq!(yaml("value: 2\n"), json(r#"{"value":2}"#));
}

#[test]
fn text_that_is_not_yaml_is_refused() {
    assert!(parse_yaml(b"a: [1").is_err());
    assert!(parse_yaml(b"a: b: c").is_err());
    assert!(parse_yaml(b"? [1, 2]\n: x\n").is_err());
    assert!(parse_yaml(&[0xff, 0xfe, 0x00]).is_err());
}
