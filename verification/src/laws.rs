//! What holds of the connector as a whole.

use crate::component::ConnectorComponent;
use crate::connector::{
    connect_result, connector_name, declared_parameters, provider_result, Trino,
};
use crate::error::{DataConnectorErrorView, TrinoError};
use crate::parameters::ParameterSpecView;
use crate::table_reference::{
    are_plain_identifiers, dotted, is_plain_identifier, lowercase, plain_reference,
};
use vstd::prelude::*;

verus! {

/// No two parameters have the same name.
pub proof fn law_parameter_names_are_distinct(i: int, j: int)
    requires
        0 <= i < j < declared_parameters().len(),
    ensures
        declared_parameters()[i].name != declared_parameters()[j].name,
{
    reveal_parameter_names();
}

/// A parameter's value is a secret, unless the parameter is the host or the
/// port.
pub proof fn law_all_but_host_and_port_are_secret(parameter: ParameterSpecView)
    requires
        declared_parameters().contains(parameter),
    ensures
        parameter.secret <==> parameter.name != "host"@ && parameter.name != "port"@,
{
    reveal_parameter_names();
}

/// There is a connector exactly where a pool was opened, and it gets its tables
/// from the factory on that pool.
pub proof fn law_connector_where_pool_opened<F, S>(
    component: ConnectorComponent,
    outcome: Result<F, TrinoError<S>>,
    trino_factory: F,
)
    ensures
        connect_result(component, outcome) == Ok::<Trino<F>, DataConnectorErrorView<S>>(
            Trino { trino_factory },
        ) <==> outcome == Ok::<F, TrinoError<S>>(trino_factory),
{
}

/// The user name and the password are blamed exactly where the pool reports a
/// failed authentication.
pub proof fn law_credentials_blamed_where_authentication_failed<F, S>(
    component: ConnectorComponent,
    outcome: Result<F, TrinoError<S>>,
)
    ensures
        (connect_result(component, outcome) matches Err(error) && error
            is UnableToConnectInvalidUsernameOrPassword) <==> outcome == Err::<F, TrinoError<S>>(
            TrinoError::AuthenticationFailedError,
        ),
{
}

/// Any other failure of the pool is reported as an internal one, with what the
/// pool said of it.
pub proof fn law_other_failures_keep_their_source<F, S>(
    component: ConnectorComponent,
    outcome: Result<F, TrinoError<S>>,
    source: S,
)
    ensures
        (connect_result(component, outcome) matches Err(error) && error
            is UnableToConnectInternal && error->UnableToConnectInternal_source == source)
            <==> outcome == Err::<F, TrinoError<S>>(TrinoError::Other(source)),
{
}

/// A read has a provider exactly where the table factory gave one, and it is
/// that one. Otherwise the read fails with what the table factory said.
pub proof fn law_provider_where_table_factory_gave_one<P, S>(
    component: ConnectorComponent,
    outcome: Result<P, S>,
)
    ensures
        match outcome {
            Ok(provider) => provider_result(component, outcome) == Ok::<
                P,
                DataConnectorErrorView<S>,
            >(provider),
            Err(source) => provider_result(component, outcome) matches Err(error) && error
                is UnableToGetReadProvider && error->UnableToGetReadProvider_source == source,
        },
{
}

/// Every failure, to connect or to read, names the connector and the component
/// that it failed for.
pub proof fn law_failures_name_connector_and_component<F, P, S>(
    component: ConnectorComponent,
    connection: Result<F, TrinoError<S>>,
    provider: Result<P, S>,
)
    ensures
        connect_result(component, connection) matches Err(error) ==> error.dataconnector()
            == connector_name() && error.connector_component() == component,
        provider_result(component, provider) matches Err(error) ==> error.dataconnector()
            == connector_name() && error.connector_component() == component,
{
}

/// A path of a catalog, a schema and a table, all plain and in lower case,
/// spells the reference to that table.
pub proof fn law_qualified_path_names_its_table(
    catalog: Seq<char>,
    schema: Seq<char>,
    table: Seq<char>,
)
    requires
        is_plain_identifier(catalog) && lowercase(catalog) == catalog,
        is_plain_identifier(schema) && lowercase(schema) == schema,
        is_plain_identifier(table) && lowercase(table) == table,
    ensures
        are_plain_identifiers(seq![catalog, schema, table]),
        dotted(seq![catalog, schema, table]) == catalog + seq!['.'] + schema + seq!['.'] + table,
        plain_reference(seq![catalog, schema, table]) == seq![catalog, schema, table],
{
    let parts = seq![catalog, schema, table];
    assert(parts.drop_first() =~= seq![schema, table]);
    assert(parts.drop_first().drop_first() =~= seq![table]);
    reveal_with_fuel(dotted, 3);
    assert(dotted(parts) =~= catalog + seq!['.'] + schema + seq!['.'] + table);
    assert(plain_reference(parts) =~= parts);
}

/// The lengths of the parameters' names, and the first characters of those that
/// are equally long.
proof fn reveal_parameter_names()
    ensures
        "url"@.len() == 3 && "url"@[0] == 'u',
        "host"@.len() == 4 && "host"@[0] == 'h',
        "port"@.len() == 4 && "port"@[0] == 'p',
        "ssl"@.len() == 3 && "ssl"@[0] == 's',
        "catalog"@.len() == 7,
        "schema"@.len() == 6,
        "user"@.len() == 4 && "user"@[0] == 'u',
        "password"@.len() == 8,
        "timeout_ms"@.len() == 10,
        "ssl_verification"@.len() == 16,
        "identity_pem_path"@.len() == 17 && "identity_pem_path"@[0] == 'i',
        "bearer_token"@.len() == 12,
        "poll_wait_time_ms"@.len() == 17 && "poll_wait_time_ms"@[0] == 'p',
{
    reveal_strlit("url");
    reveal_strlit("host");
    reveal_strlit("port");
    reveal_strlit("ssl");
    reveal_strlit("catalog");
    reveal_strlit("schema");
    reveal_strlit("user");
    reveal_strlit("password");
    reveal_strlit("timeout_ms");
    reveal_strlit("ssl_verification");
    reveal_strlit("identity_pem_path");
    reveal_strlit("bearer_token");
    reveal_strlit("poll_wait_time_ms");
}

} // verus!
