use imposclib::properties::{ParameterProperties, PropertyPair};

#[test]
fn can_access_parameter_properties() {
    let mut properties = ParameterProperties::create();
    properties.add(&String::from("frequency"), &String::from("ω"));
    assert_eq!(
        properties.property(&String::from("frequency")).property,
        String::from("ω")
    );
    assert_eq!(
        properties.property(&String::from("period")).property,
        String::from("")
    );
}

#[test]
fn first_registration_of_a_name_wins() {
    let mut properties = ParameterProperties::create();
    properties.add(&String::from("offset"), &String::from("σ"));
    properties.add(&String::from("offset"), &String::from("something else"));
    assert_eq!(properties.len(), 1);
    assert_eq!(
        properties.property(&String::from("offset")).property,
        String::from("σ")
    );
}

#[test]
fn lookup_returns_the_asked_for_name() {
    let mut properties = ParameterProperties::create();
    properties.add(&String::from("frequency"), &String::from("System parameters"));
    let pair = properties.property(&String::from("phi"));
    assert_eq!(pair.parameter, String::from("phi"));
    assert_eq!(pair.property, String::from(""));
}

#[test]
fn several_names_keep_their_own_labels() {
    let mut properties = ParameterProperties::create();
    properties.add(&String::from("frequency"), &String::from("System parameters"));
    properties.add(&String::from("offset"), &String::from("System parameters"));
    properties.add(&String::from("phi"), &String::from("Initial impact"));
    assert_eq!(properties.len(), 3);
    assert_eq!(
        properties.property(&String::from("phi")).property,
        String::from("Initial impact")
    );
    assert_eq!(
        properties.property(&String::from("offset")).property,
        String::from("System parameters")
    );
}

#[test]
fn empty_pair_is_empty() {
    let pair = PropertyPair::new();
    assert_eq!(pair.parameter, String::new());
    assert_eq!(pair.property, String::new());
}

#[test]
fn pair_from_parts_keeps_both_fields() {
    let pair = PropertyPair::from_parts("title", "Impact Oscillator");
    assert_eq!(pair.parameter, String::from("title"));
    assert_eq!(pair.property, String::from("Impact Oscillator"));
}
