use etheryal_extension::identifier::{Identifier, IdentifierError, NamespacedIdentifier};

#[test]
fn test_valid_identifier() {
    let identifier =
        Identifier::try_from("valid_identifier".to_string()).expect("valid identifier");
    assert_eq!(identifier.as_str(), "valid_identifier");
}

#[test]
fn test_valid_namespace() {
    let identifier = NamespacedIdentifier::try_from("valid:valid_identifier".to_string())
        .expect("valid identifier");

    assert_eq!(identifier.namespace().as_str(), "valid");
    assert_eq!(identifier.value().as_str(), "valid_identifier");
}

#[test]
fn test_valid_without_namespace() {
    let identifier =
        NamespacedIdentifier::try_from("valid_identifier").expect("valid identifier");
    assert_eq!(identifier.value().as_str(), "valid_identifier");
}

#[test]
fn test_invalid_namespace() {
    let identifier = NamespacedIdentifier::try_from("invalid:invalid:identifier");
    assert_eq!(
        identifier,
        Err(IdentifierError::InvalidIdentifier(
            "invalid:invalid:identifier".into()
        ))
    );
}

#[test]
fn test_invalid_identifier() {
    let identifier = Identifier::try_from("InvalidIdentifier");
    assert_eq!(
        identifier,
        Err(IdentifierError::InvalidIdentifier(
            "InvalidIdentifier".into()
        ))
    );
}

#[test]
fn test_empty_identifier() {
    let identifier = Identifier::try_from("".to_string());
    assert_eq!(identifier, Err(IdentifierError::EmptyIdentifier));
}

#[test]
fn uppercase_is_rejected() {
    assert!(Identifier::new("Abc").is_err());
}

#[test]
fn lowercase_digits_underscore_are_accepted() {
    let identifier = Identifier::new("a1_b").expect("valid identifier");
    assert_eq!(identifier.as_str(), "a1_b");
}

#[test]
fn leading_digit_is_rejected() {
    assert!(Identifier::new("1ab").is_err());
}

#[test]
fn pair_parses_into_namespace_and_value() {
    let identifier = NamespacedIdentifier::try_from("a:b").expect("valid identifier");
    assert_eq!(identifier.namespace().as_str(), "a");
    assert_eq!(identifier.value().as_str(), "b");
}

#[test]
fn second_colon_is_rejected() {
    assert!(NamespacedIdentifier::try_from("a:b:c").is_err());
}

#[test]
fn bare_value_gets_default_namespace() {
    let identifier = NamespacedIdentifier::try_from("b").expect("valid identifier");
    assert_eq!(identifier.namespace().as_str(), "etheryal");
    assert_eq!(identifier.value().as_str(), "b");
}

#[test]
fn empty_namespace_is_rejected() {
    assert_eq!(
        NamespacedIdentifier::try_from(":b"),
        Err(IdentifierError::EmptyIdentifier)
    );
}

#[test]
fn defaults_and_unknown() {
    assert_eq!(Identifier::default().as_str(), "etheryal");
    assert_eq!(Identifier::unknown().as_str(), "unknown");
    let d = NamespacedIdentifier::default();
    assert_eq!(d.namespace().as_str(), "etheryal");
    assert_eq!(d.value().as_str(), "unknown");
}

#[test]
fn pair_conversions_validate_both_parts() {
    let id = NamespacedIdentifier::try_from(("ns".to_string(), "val".to_string()))
        .expect("valid identifier");
    assert_eq!(id.namespace().as_str(), "ns");
    assert_eq!(id.value().as_str(), "val");

    let id = NamespacedIdentifier::try_from(("ns", "val")).expect("valid identifier");
    assert_eq!(id.namespace().as_str(), "ns");
    assert_eq!(id.value().as_str(), "val");

    let ns = "ns".to_string();
    let val = "val".to_string();
    let id = NamespacedIdentifier::try_from((&ns, &val)).expect("valid identifier");
    assert_eq!(id.namespace().as_str(), "ns");
    assert_eq!(id.value().as_str(), "val");

    // The namespace is validated first.
    assert_eq!(
        NamespacedIdentifier::try_from(("Bad", "Worse")),
        Err(IdentifierError::InvalidIdentifier("Bad".into()))
    );
    assert_eq!(
        NamespacedIdentifier::try_from(("good", "Bad")),
        Err(IdentifierError::InvalidIdentifier("Bad".into()))
    );
}

#[test]
fn string_reference_conversions_validate() {
    let text = "a:b".to_string();
    let id = NamespacedIdentifier::try_from(&text).expect("valid identifier");
    assert_eq!(id.namespace().as_str(), "a");
    assert_eq!(id.value().as_str(), "b");

    let bare = "ab".to_string();
    let id = Identifier::try_from(&bare).expect("valid identifier");
    assert_eq!(id.as_str(), "ab");
}

#[test]
fn identifier_pair_wraps_without_validation() {
    let ns = Identifier::new("a").expect("valid identifier");
    let val = Identifier::new("b").expect("valid identifier");
    let id = NamespacedIdentifier::from((ns, val));
    assert_eq!(id.namespace().as_str(), "a");
    assert_eq!(id.value().as_str(), "b");
}
