use hall_signals::unity::{apply_bevity_components, components_of, ExtrasError};
use serde_json::Value;

fn json(text: &str) -> Value {
    serde_json::from_str(text).unwrap()
}

#[test]
fn components_are_read_in_order() {
    let extras = r#"{"bevity":[{"game::Door":{"unused":false}},{"game::ExtraDoorPowerRequired":{"amount":2}}],"other":1}"#;
    let components = apply_bevity_components(extras);
    assert_eq!(
        components,
        Ok(vec![
            json(r#"{"game::Door":{"unused":false}}"#),
            json(r#"{"game::ExtraDoorPowerRequired":{"amount":2}}"#)
        ])
    );
}

#[test]
fn empty_component_list_is_a_list() {
    assert_eq!(apply_bevity_components(r#"{"bevity":[]}"#), Ok(vec![]));
}

#[test]
fn components_may_be_any_json() {
    assert_eq!(
        apply_bevity_components(r#" { "bevity" : [ 1, "two", null, [3] ] } "#),
        Ok(vec![json("1"), json("\"two\""), Value::Null, json("[3]")])
    );
}

#[test]
fn text_that_is_not_json_is_malformed() {
    assert_eq!(apply_bevity_components(""), Err(ExtrasError::Malformed));
    assert_eq!(apply_bevity_components("{"), Err(ExtrasError::Malformed));
    assert_eq!(apply_bevity_components("{\"bevity\":[1,]}"), Err(ExtrasError::Malformed));
    assert_eq!(apply_bevity_components("{} trailing"), Err(ExtrasError::Malformed));
}

#[test]
fn json_without_component_list_has_no_components() {
    assert_eq!(apply_bevity_components("null"), Err(ExtrasError::NoComponents));
    assert_eq!(apply_bevity_components("[1,2]"), Err(ExtrasError::NoComponents));
    assert_eq!(apply_bevity_components("\"bevity\""), Err(ExtrasError::NoComponents));
    assert_eq!(apply_bevity_components("{}"), Err(ExtrasError::NoComponents));
    assert_eq!(apply_bevity_components(r#"{"Bevity":[1]}"#), Err(ExtrasError::NoComponents));
    assert_eq!(apply_bevity_components(r#"{"bevity":{"a":1}}"#), Err(ExtrasError::NoComponents));
    assert_eq!(apply_bevity_components(r#"{"bevity":null}"#), Err(ExtrasError::NoComponents));
    assert_eq!(apply_bevity_components(r#"{"a":{"bevity":[1]}}"#), Err(ExtrasError::NoComponents));
}

#[test]
fn components_of_a_parsed_document() {
    assert_eq!(components_of(&json(r#"{"bevity":[true,false]}"#)), Some(vec![json("true"), json("false")]));
    assert_eq!(components_of(&json(r#"{"bevity":7}"#)), None);
    assert_eq!(components_of(&json(r#"[{"bevity":[1]}]"#)), None);
    assert_eq!(components_of(&Value::Null), None);
}
