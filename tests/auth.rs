use product_service::auth::{audience_accepted, Audience};

#[test]
fn single_audience_must_match() {
    let expected = String::from("https://products.example");
    assert!(audience_accepted(&expected, &Audience::Single(String::from("https://products.example"))));
    assert!(!audience_accepted(&expected, &Audience::Single(String::from("https://other.example"))));
}

#[test]
fn audience_list_must_hold_expected_and_only_strings() {
    let expected = String::from("api");
    let listed = Audience::Many(vec![Some(String::from("web")), Some(String::from("api"))]);
    assert!(audience_accepted(&expected, &listed));
    let absent = Audience::Many(vec![Some(String::from("web"))]);
    assert!(!audience_accepted(&expected, &absent));
    let mixed = Audience::Many(vec![Some(String::from("api")), None]);
    assert!(!audience_accepted(&expected, &mixed));
    assert!(!audience_accepted(&expected, &Audience::Many(Vec::new())));
    assert!(!audience_accepted(&expected, &Audience::Malformed));
}
