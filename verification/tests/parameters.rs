use trino_connector::{ParameterSpec, SecretMap, SecretString, TrinoFactory};

#[test]
fn the_declared_parameters() {
    let declared: Vec<(&str, bool)> = TrinoFactory::new()
        .parameters()
        .iter()
        .map(|parameter| (parameter.name, parameter.secret))
        .collect();
    assert_eq!(
        declared,
        vec![
            ("url", true),
            ("host", false),
            ("port", false),
            ("ssl", true),
            ("catalog", true),
            ("schema", true),
            ("user", true),
            ("password", true),
            ("timeout_ms", true),
            ("ssl_verification", true),
            ("identity_pem_path", true),
            ("bearer_token", true),
            ("poll_wait_time_ms", true),
        ]
    );
}

#[test]
fn prefixed_names_lead_to_declared_parameters() {
    let factory = TrinoFactory::new();
    for given in [
        "trino_host",
        "trino_port",
        "trino_catalog",
        "trino_schema",
        "trino_user",
        "trino_ssl",
    ] {
        let name = given
            .strip_prefix(factory.prefix())
            .and_then(|rest| rest.strip_prefix('_'))
            .unwrap();
        assert!(factory.parameters().iter().any(|parameter| parameter.name == name));
    }
}

#[test]
fn names_are_distinct() {
    let parameters = TrinoFactory::new().parameters();
    for (i, a) in parameters.iter().enumerate() {
        for b in &parameters[i + 1..] {
            assert_ne!(a.name, b.name);
        }
    }
}

#[test]
fn all_but_host_and_port_are_secret() {
    for parameter in TrinoFactory::new().parameters() {
        assert_eq!(
            parameter.secret,
            parameter.name != "host" && parameter.name != "port"
        );
    }
}

#[test]
fn a_declaration_is_public_until_made_secret() {
    let public = ParameterSpec::component("token");
    assert_eq!(public.name, "token");
    assert!(!public.secret);
    let secret = public.secret();
    assert_eq!(secret.name, "token");
    assert!(secret.secret);
}

#[test]
fn a_value_is_found_by_its_name() {
    let mut map = SecretMap::new();
    assert!(map.get("user").is_none());
    map.insert("user".to_string(), SecretString::new("test".to_string()));
    map.insert("port".to_string(), SecretString::new("8080".to_string()));
    assert_eq!(map.get("user").unwrap().expose_secret(), "test");
    assert_eq!(map.get("port").unwrap().expose_secret(), "8080");
    assert!(map.get("host").is_none());
}

#[test]
fn a_later_value_replaces_an_earlier_one() {
    let mut map = SecretMap::new();
    map.insert("user".to_string(), SecretString::new("a".to_string()));
    map.insert("port".to_string(), SecretString::new("1".to_string()));
    map.insert("user".to_string(), SecretString::new("b".to_string()));
    assert_eq!(map.get("user").unwrap().expose_secret(), "b");
    assert_eq!(map.get("port").unwrap().expose_secret(), "1");
    assert_eq!(map.into_entries().len(), 2);
}
