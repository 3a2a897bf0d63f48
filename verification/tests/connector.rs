use std::sync::Arc;

use datafusion_common::arrow::datatypes::{DataType, Field, Schema};
use trino_connector::{
    ConnectorComponent, ConnectorParams, DataConnectorError, Dataset, SecretMap, SecretString,
    TableReference, Trino, TrinoError, TrinoFactory,
};

fn dataset(path: &str, name: &str) -> Dataset {
    Dataset {
        name: name.to_string(),
        path: path.to_string(),
        schema: None,
    }
}

fn params() -> ConnectorParams {
    let mut parameters = SecretMap::new();
    for (name, value) in [
        ("host", "localhost"),
        ("port", "8080"),
        ("catalog", "memory"),
        ("schema", "default"),
        ("user", "test"),
        ("ssl", "false"),
    ] {
        parameters.insert(name.to_string(), SecretString::new(value.to_string()));
    }
    ConnectorParams {
        parameters,
        component: ConnectorComponent::from(&dataset("memory.default.test", "test")),
    }
}

fn name_of(component: &ConnectorComponent) -> &str {
    match component {
        ConnectorComponent::Dataset(dataset) => &dataset.name,
    }
}

#[test]
fn the_pool_is_opened_with_all_parameters() {
    let (settings, _) = TrinoFactory::new().create(params());
    let mut entries: Vec<(String, String)> = settings
        .into_entries()
        .iter()
        .map(|(name, value)| (name.clone(), value.expose_secret().to_string()))
        .collect();
    entries.sort();
    let expected: Vec<(String, String)> = [
        ("catalog", "memory"),
        ("host", "localhost"),
        ("port", "8080"),
        ("schema", "default"),
        ("ssl", "false"),
        ("user", "test"),
    ]
    .iter()
    .map(|(name, value)| (name.to_string(), value.to_string()))
    .collect();
    assert_eq!(entries, expected);
}

#[test]
fn an_open_pool_makes_a_connector() {
    let (_, pending) = TrinoFactory::new().create(params());
    match pending.finish::<u32, String>(Ok(17)) {
        Ok(trino) => assert_eq!(trino.trino_factory, 17),
        Err(_) => panic!("the pool was opened"),
    }
}

#[test]
fn a_failed_authentication_blames_the_credentials() {
    let (_, pending) = TrinoFactory::new().create(params());
    match pending.finish::<u32, String>(Err(TrinoError::AuthenticationFailedError)) {
        Err(DataConnectorError::UnableToConnectInvalidUsernameOrPassword {
            dataconnector,
            connector_component,
        }) => {
            assert_eq!(dataconnector, "trino");
            assert_eq!(name_of(&connector_component), "test");
        }
        _ => panic!("the credentials were not blamed"),
    }
}

#[test]
fn another_failure_keeps_its_source() {
    let (_, pending) = TrinoFactory::new().create(params());
    match pending.finish::<u32, String>(Err(TrinoError::Other("no route".to_string()))) {
        Err(DataConnectorError::UnableToConnectInternal {
            dataconnector,
            connector_component,
            source,
        }) => {
            assert_eq!(dataconnector, "trino");
            assert_eq!(name_of(&connector_component), "test");
            assert_eq!(source, "no route");
        }
        _ => panic!("the failure is not an internal one"),
    }
}

#[test]
fn a_read_asks_for_the_table_that_the_path_spells() {
    let trino = Trino { trino_factory: 5u8 };
    let (request, pending) = trino.read_provider(&dataset("memory.default.test", "test"));
    assert_eq!(*request.trino_factory, 5);
    assert_eq!(
        request.table_reference,
        TableReference::Full {
            catalog: "memory".to_string(),
            schema: "default".to_string(),
            table: "test".to_string(),
        }
    );
    assert!(request.schema.is_none());
    assert_eq!(name_of(&pending.component), "test");
}

#[test]
fn a_read_hands_the_schema_on() {
    let schema = Arc::new(Schema::new(vec![Field::new("id", DataType::Int64, false)]));
    let trino = Trino { trino_factory: () };
    let mut dataset = dataset("t", "d");
    dataset.schema = Some(Arc::clone(&schema));
    let (request, pending) = trino.read_provider(&dataset);
    assert_eq!(request.schema, Some(Arc::clone(&schema)));
    match &pending.component {
        ConnectorComponent::Dataset(component) => {
            assert_eq!(component.path, "t");
            assert_eq!(component.name, "d");
            assert_eq!(component.schema, Some(schema));
        }
    }
}

#[test]
fn a_read_of_a_given_reference_keeps_it() {
    let trino = Trino { trino_factory: () };
    let reference = TableReference::Bare { table: "Odd Name".to_string() };
    let (request, _) = trino.read_table(reference, &dataset("ignored", "d"));
    assert_eq!(
        request.table_reference,
        TableReference::Bare { table: "Odd Name".to_string() }
    );
}

#[test]
fn a_provider_is_handed_on() {
    let trino = Trino { trino_factory: () };
    let (_, pending) = trino.read_provider(&dataset("t", "d"));
    match pending.finish::<u32, String>(Ok(18)) {
        Ok(provider) => assert_eq!(provider, 18),
        Err(_) => panic!("there was a provider"),
    }
}

#[test]
fn a_missing_provider_is_reported() {
    let trino = Trino { trino_factory: () };
    let (_, pending) = trino.read_provider(&dataset("memory.default.test", "test"));
    match pending.finish::<u32, String>(Err("no such table".to_string())) {
        Err(DataConnectorError::UnableToGetReadProvider {
            dataconnector,
            connector_component,
            source,
        }) => {
            assert_eq!(dataconnector, "trino");
            assert_eq!(name_of(&connector_component), "test");
            assert_eq!(source, "no such table");
        }
        _ => panic!("the failure is not one to get a provider"),
    }
}

#[test]
fn a_connector_shows_nothing_of_its_factory() {
    let trino = Trino { trino_factory: "secret" };
    assert_eq!(trino.debug_string(), "Trino { .. }");
}

#[test]
fn factories_are_alike() {
    let shared = TrinoFactory::new_arc();
    let default = TrinoFactory::default();
    assert_eq!(shared.prefix(), "trino");
    assert_eq!(default.prefix(), "trino");
    assert_eq!(shared.parameters(), TrinoFactory::new().parameters());
}
