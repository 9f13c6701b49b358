use buck2_logic::attrs::{value_to_string, AttrJsonValue, ExpectedStringError};

#[test]
fn string_values_are_returned_as_is() {
    assert_eq!(value_to_string(AttrJsonValue::String("root//a:b".to_owned())), Ok("root//a:b".to_owned()));
}

#[test]
fn other_values_are_an_input_error() {
    let e = value_to_string(AttrJsonValue::NotString).unwrap_err();
    assert_eq!(e, ExpectedStringError {});
    assert_eq!(e.message(), "Expected a string, did not get one");
}
