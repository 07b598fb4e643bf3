use pump_sniper::json::{parse, Json};

#[test]
fn documents_become_trees() {
    let j = parse(r#"{"b":[1,-2,2.5,true,null],"a":"x"}"#).unwrap();
    let Json::Object(members) = &j else { panic!() };
    assert_eq!(members[0].0, "a");
    assert_eq!(members[1].0, "b");
    let Json::List(items) = &members[1].1 else { panic!() };
    assert_eq!(items[0].as_u64(), Some(1));
    assert_eq!(items[1].as_u64(), None);
    assert_eq!(items[1].as_double().unwrap().bits, (-2.0f64).to_bits());
    assert_eq!(items[2].as_double().unwrap().bits, 2.5f64.to_bits());
    let Json::Number(n) = &items[2] else { panic!() };
    assert_eq!(n.double.as_ref().unwrap().text, "2.5");
    assert!(matches!(items[3], Json::Bool(true)));
    assert!(matches!(items[4], Json::Null));
    assert!(items[3].as_double().is_none());
}

#[test]
fn members_are_looked_up_by_name() {
    let j = parse(r#"{"k":"v","k":"w","n":{"deep":7}}"#).unwrap();
    assert_eq!(j.text_field("k").as_deref(), Some("w"));
    assert_eq!(j.get("n").unwrap().get("deep").unwrap().as_u64(), Some(7));
    assert!(j.get("missing").is_none());
    assert!(j.text_field("n").is_none());
    assert!(parse("[1]").unwrap().get("k").is_none());
    assert!(parse("\"k\"").unwrap().as_str() == Some("k"));
}

#[test]
fn what_is_not_json_is_an_error() {
    assert!(parse("").is_err());
    assert!(parse("{").is_err());
    let own = serde_json::from_str::<serde_json::Value>("{\"a\":}").unwrap_err().to_string();
    assert_eq!(parse("{\"a\":}").unwrap_err(), own);
}
