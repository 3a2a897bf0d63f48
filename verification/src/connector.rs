//! The Trino connector and the factory that makes it.

use crate::component::{ConnectorComponent, ConnectorParams, Dataset};
use crate::error::{result_view, DataConnectorError, DataConnectorErrorView, TrinoError};
use crate::parameters::{ParameterSpec, ParameterSpecView, SecretMap};
use crate::table_reference::{
    are_plain_identifiers, dotted, is_reading, parse_table_reference, parsed_reference,
    plain_reference, TableReference,
};
use datafusion_common::arrow::datatypes::Schema;
use std::sync::Arc;
use vstd::prelude::*;

verus! {

/// The name of the connector, which is also the prefix of its parameters.
pub open spec fn connector_name() -> Seq<char> {
    "trino"@
}

/// The parameters that the connector declares, in the order of declaration.
pub open spec fn declared_parameters() -> Seq<ParameterSpecView> {
    seq![
        ParameterSpecView { name: "url"@, secret: true },
        ParameterSpecView { name: "host"@, secret: false },
        ParameterSpecView { name: "port"@, secret: false },
        ParameterSpecView { name: "ssl"@, secret: true },
        ParameterSpecView { name: "catalog"@, secret: true },
        ParameterSpecView { name: "schema"@, secret: true },
        ParameterSpecView { name: "user"@, secret: true },
        ParameterSpecView { name: "password"@, secret: true },
        ParameterSpecView { name: "timeout_ms"@, secret: true },
        ParameterSpecView { name: "ssl_verification"@, secret: true },
        ParameterSpecView { name: "identity_pem_path"@, secret: true },
        ParameterSpecView { name: "bearer_token"@, secret: true },
        ParameterSpecView { name: "poll_wait_time_ms"@, secret: true },
    ]
}

/// What becomes of a connector for `component`, where `outcome` is the table
/// factory on the pool that was opened, or why none could be opened.
pub open spec fn connect_result<F, S>(
    component: ConnectorComponent,
    outcome: Result<F, TrinoError<S>>,
) -> Result<Trino<F>, DataConnectorErrorView<S>> {
    match outcome {
        Ok(trino_factory) => Ok(Trino { trino_factory }),
        Err(TrinoError::AuthenticationFailedError) => Err(
            DataConnectorErrorView::UnableToConnectInvalidUsernameOrPassword {
                dataconnector: connector_name(),
                connector_component: component,
            },
        ),
        Err(TrinoError::Other(source)) => Err(
            DataConnectorErrorView::UnableToConnectInternal {
                dataconnector: connector_name(),
                connector_component: component,
                source,
            },
        ),
    }
}

/// What becomes of a read of `component`, where `outcome` is what the table
/// factory answered.
pub open spec fn provider_result<P, S>(
    component: ConnectorComponent,
    outcome: Result<P, S>,
) -> Result<P, DataConnectorErrorView<S>> {
    match outcome {
        Ok(provider) => Ok(provider),
        Err(source) => Err(
            DataConnectorErrorView::UnableToGetReadProvider {
                dataconnector: connector_name(),
                connector_component: component,
                source,
            },
        ),
    }
}

/// Makes Trino connectors.
#[derive(Clone, Copy)]
pub struct TrinoFactory {}

impl Default for TrinoFactory {
    fn default() -> (factory: Self)
        ensures
            factory == (TrinoFactory {  }),
    {
        TrinoFactory {  }
    }
}

impl TrinoFactory {
    /// A factory.
    #[must_use]
    pub fn new() -> (factory: Self)
        ensures
            factory == (TrinoFactory {  }),
    {
        TrinoFactory {  }
    }

    /// A factory that can be shared.
    #[must_use]
    pub fn new_arc() -> (factory: Arc<Self>)
        ensures
            *factory == (TrinoFactory {  }),
    {
        Arc::new(TrinoFactory {  })
    }

    /// Starts to make a connector: the parameters' values, from which a
    /// connection pool is to be opened, and what waits for the pool.
    pub fn create(&self, params: ConnectorParams) -> (step: (SecretMap, PendingConnector))
        ensures
            step.0 == params.parameters,
            step.1.component == params.component,
    {
        (params.parameters, PendingConnector { component: params.component })
    }

    /// What the names of the connector's parameters are prefixed with.
    pub fn prefix(&self) -> (prefix: &'static str)
        ensures
            prefix@ == connector_name(),
            prefix@ == "trino"@,
    {
        "trino"
    }

    /// The parameters that the connector takes.
    pub fn parameters(&self) -> (parameters: Vec<ParameterSpec>)
        ensures
            parameters@.len() == declared_parameters().len(),
            forall|i: int|
                0 <= i < parameters@.len() ==> (#[trigger] parameters@[i])@
                    == declared_parameters()[i],
    {
        vec![
            ParameterSpec::component("url").secret(),
            ParameterSpec::component("host"),
            ParameterSpec::component("port"),
            ParameterSpec::component("ssl").secret(),
            ParameterSpec::component("catalog").secret(),
            ParameterSpec::component("schema").secret(),
            ParameterSpec::component("user").secret(),
            ParameterSpec::component("password").secret(),
            ParameterSpec::component("timeout_ms").secret(),
            ParameterSpec::component("ssl_verification").secret(),
            ParameterSpec::component("identity_pem_path").secret(),
            ParameterSpec::component("bearer_token").secret(),
            ParameterSpec::component("poll_wait_time_ms").secret(),
        ]
    }
}

/// A connector that waits for its connection pool.
pub struct PendingConnector {
    /// The component that the connector is made for.
    pub component: ConnectorComponent,
}

impl PendingConnector {
    /// Ends the making of the connector. `outcome` is the table factory on the
    /// pool, or why the pool could not be opened.
    pub fn finish<F, S>(self, outcome: Result<F, TrinoError<S>>) -> (connector: Result<
        Trino<F>,
        DataConnectorError<S>,
    >)
        ensures
            result_view(connector) == connect_result(self.component, outcome),
            match outcome {
                Ok(trino_factory) => connector matches Ok(trino) && trino.trino_factory
                    == trino_factory,
                Err(TrinoError::AuthenticationFailedError) => connector matches Err(
                    DataConnectorError::UnableToConnectInvalidUsernameOrPassword {
                        dataconnector,
                        connector_component,
                    },
                ) && dataconnector@ == "trino"@ && connector_component == self.component,
                Err(TrinoError::Other(error)) => connector matches Err(
                    DataConnectorError::UnableToConnectInternal {
                        dataconnector,
                        connector_component,
                        source,
                    },
                ) && dataconnector@ == "trino"@ && connector_component == self.component && source
                    == error,
            },
    {
        match outcome {
            Ok(trino_factory) => Ok(Trino { trino_factory }),
            Err(error) => match error {
                TrinoError::AuthenticationFailedError => Err(
                    DataConnectorError::UnableToConnectInvalidUsernameOrPassword {
                        dataconnector: "trino".to_string(),
                        connector_component: self.component,
                    },
                ),
                TrinoError::Other(source) => Err(
                    DataConnectorError::UnableToConnectInternal {
                        dataconnector: "trino".to_string(),
                        connector_component: self.component,
                        source,
                    },
                ),
            },
        }
    }
}

/// A connector to Trino, which gets its tables from a table factory.
pub struct Trino<F> {
    /// The table factory.
    pub trino_factory: F,
}

/// What is asked of a table factory: a provider of the table that the
/// reference names, with the schema, where there is one.
pub struct ProviderRequest<'a, F> {
    pub trino_factory: &'a F,
    pub table_reference: TableReference,
    pub schema: Option<Arc<Schema>>,
}

impl<F> Trino<F> {
    /// What the connector shows of itself: that there is more to it.
    pub fn debug_string(&self) -> (text: String)
        ensures
            text@ == "Trino { .. }"@,
    {
        "Trino { .. }".to_string()
    }

    /// Starts to get a provider to read `dataset` from: what is to be asked
    /// of the table factory, and what waits for the answer. The table asked
    /// for is the one that the dataset's path spells.
    pub fn read_provider<'a>(&'a self, dataset: &Dataset) -> (step: (
        ProviderRequest<'a, F>,
        PendingProvider,
    ))
        ensures
            *step.0.trino_factory == self.trino_factory,
            step.0.table_reference@ == parsed_reference(dataset.path@),
            forall|parts: Seq<Seq<char>>|
                are_plain_identifiers(parts) && #[trigger] dotted(parts) == dataset.path@
                    ==> step.0.table_reference@ == plain_reference(parts),
            is_reading(dataset.path@, step.0.table_reference@),
            step.0.schema == dataset.schema,
            step.1.component == ConnectorComponent::Dataset(Arc::new(*dataset)),
    {
        self.read_table(parse_table_reference(dataset.path.as_str()), dataset)
    }

    /// As `read_provider`, of the table that `table_reference` names.
    pub fn read_table<'a>(&'a self, table_reference: TableReference, dataset: &Dataset) -> (step: (
        ProviderRequest<'a, F>,
        PendingProvider,
    ))
        ensures
            *step.0.trino_factory == self.trino_factory,
            step.0.table_reference == table_reference,
            step.0.schema == dataset.schema,
            step.1.component == ConnectorComponent::Dataset(Arc::new(*dataset)),
    {
        let schema = match &dataset.schema {
            Some(schema) => Some(schema.clone()),
            None => None,
        };
        (
            ProviderRequest { trino_factory: &self.trino_factory, table_reference, schema },
            PendingProvider { component: ConnectorComponent::from(dataset) },
        )
    }
}

/// A read that waits for its table provider.
pub struct PendingProvider {
    /// The component that is read.
    pub component: ConnectorComponent,
}

impl PendingProvider {
    /// Says what the read comes to. `outcome` is what the table factory
    /// answered.
    pub fn finish<P, S>(self, outcome: Result<P, S>) -> (provider: Result<P, DataConnectorError<S>>)
        ensures
            result_view(provider) == provider_result(self.component, outcome),
            match outcome {
                Ok(given) => provider matches Ok(handed_on) && handed_on == given,
                Err(error) => provider matches Err(
                    DataConnectorError::UnableToGetReadProvider {
                        dataconnector,
                        connector_component,
                        source,
                    },
                ) && dataconnector@ == "trino"@ && connector_component == self.component && source
                    == error,
            },
    {
        match outcome {
            Ok(provider) => Ok(provider),
            Err(source) => Err(
                DataConnectorError::UnableToGetReadProvider {
                    dataconnector: "trino".to_string(),
                    connector_component: self.component,
                    source,
                },
            ),
        }
    }
}

} // verus!
