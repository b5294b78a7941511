use etheryal_extension::identifier::NamespacedIdentifier;
use etheryal_extension::module_info::{
    encode_info, version_bytes, ExtensionModuleDependency, ExtensionModuleInfo, Version,
    VersionReq,
};
use etheryal_extension::transport::HostChannel;

#[test]
fn version_renders_as_dotted_decimal() {
    let v = Version { major: 1, minor: 2, patch: 3 };
    assert_eq!(version_bytes(&v), b"1.2.3".to_vec());
    let big = Version { major: 0, minor: 10, patch: 18446744073709551615 };
    assert_eq!(version_bytes(&big), b"0.10.18446744073709551615".to_vec());
}

fn reference_nsid(buf: &mut Vec<u8>, namespace: &str, value: &str) {
    rmp::encode::write_map_len(buf, 2).unwrap();
    rmp::encode::write_str(buf, "namespace").unwrap();
    rmp::encode::write_str(buf, namespace).unwrap();
    rmp::encode::write_str(buf, "value").unwrap();
    rmp::encode::write_str(buf, value).unwrap();
}

#[test]
fn descriptor_matches_reference_encoding() {
    let info = ExtensionModuleInfo {
        name: "Test Module".to_string(),
        identifier: NamespacedIdentifier::try_from("test:module").expect("valid identifier"),
        version: Version { major: 1, minor: 2, patch: 3 },
        dependencies: vec![ExtensionModuleDependency {
            identifier: NamespacedIdentifier::try_from("etheryal:core").expect("valid identifier"),
            version: VersionReq { text: "^1.0.0".to_string() },
            optional: true,
        }],
        description: Some("A module for tests".to_string()),
    };

    let mut reference: Vec<u8> = Vec::new();
    rmp::encode::write_map_len(&mut reference, 5).unwrap();
    rmp::encode::write_str(&mut reference, "name").unwrap();
    rmp::encode::write_str(&mut reference, "Test Module").unwrap();
    rmp::encode::write_str(&mut reference, "identifier").unwrap();
    reference_nsid(&mut reference, "test", "module");
    rmp::encode::write_str(&mut reference, "version").unwrap();
    rmp::encode::write_str(&mut reference, "1.2.3").unwrap();
    rmp::encode::write_str(&mut reference, "dependencies").unwrap();
    rmp::encode::write_array_len(&mut reference, 1).unwrap();
    rmp::encode::write_map_len(&mut reference, 3).unwrap();
    rmp::encode::write_str(&mut reference, "identifier").unwrap();
    reference_nsid(&mut reference, "etheryal", "core");
    rmp::encode::write_str(&mut reference, "version").unwrap();
    rmp::encode::write_str(&mut reference, "^1.0.0").unwrap();
    rmp::encode::write_str(&mut reference, "optional").unwrap();
    rmp::encode::write_bool(&mut reference, true).unwrap();
    rmp::encode::write_str(&mut reference, "description").unwrap();
    rmp::encode::write_str(&mut reference, "A module for tests").unwrap();

    assert_eq!(encode_info(&info), reference);
}

#[test]
fn descriptor_without_description_encodes_nil() {
    let info = ExtensionModuleInfo {
        name: "m".to_string(),
        identifier: NamespacedIdentifier::try_from("m").expect("valid identifier"),
        version: Version { major: 0, minor: 1, patch: 0 },
        dependencies: Vec::new(),
        description: None,
    };

    let mut reference: Vec<u8> = Vec::new();
    rmp::encode::write_map_len(&mut reference, 5).unwrap();
    rmp::encode::write_str(&mut reference, "name").unwrap();
    rmp::encode::write_str(&mut reference, "m").unwrap();
    rmp::encode::write_str(&mut reference, "identifier").unwrap();
    reference_nsid(&mut reference, "etheryal", "m");
    rmp::encode::write_str(&mut reference, "version").unwrap();
    rmp::encode::write_str(&mut reference, "0.1.0").unwrap();
    rmp::encode::write_str(&mut reference, "dependencies").unwrap();
    rmp::encode::write_array_len(&mut reference, 0).unwrap();
    rmp::encode::write_str(&mut reference, "description").unwrap();
    rmp::encode::write_nil(&mut reference).unwrap();

    assert_eq!(encode_info(&info), reference);
}

#[test]
fn long_name_uses_a_longer_string_header() {
    let name = "x".repeat(300);
    let info = ExtensionModuleInfo {
        name: name.clone(),
        identifier: NamespacedIdentifier::try_from("m").expect("valid identifier"),
        version: Version { major: 0, minor: 0, patch: 1 },
        dependencies: Vec::new(),
        description: None,
    };
    let encoded = encode_info(&info);
    let mut reference: Vec<u8> = Vec::new();
    rmp::encode::write_map_len(&mut reference, 5).unwrap();
    rmp::encode::write_str(&mut reference, "name").unwrap();
    rmp::encode::write_str(&mut reference, &name).unwrap();
    // The reference prefix: the name alone already decides the header form.
    assert_eq!(&encoded[..reference.len()], &reference[..]);
}

#[test]
fn announce_stores_the_encoded_descriptor() {
    let info = ExtensionModuleInfo {
        name: "m".to_string(),
        identifier: NamespacedIdentifier::try_from("m").expect("valid identifier"),
        version: Version { major: 0, minor: 1, patch: 0 },
        dependencies: Vec::new(),
        description: None,
    };
    let expected = encode_info(&info);
    let mut channel = HostChannel::new();
    assert!(!channel.is_announced());
    etheryal_extension::guest::set_extension_info(&info, &mut channel).expect("announced");
    assert!(channel.is_announced());
    assert_eq!(channel.info().as_ref().expect("stored"), &expected);
}
