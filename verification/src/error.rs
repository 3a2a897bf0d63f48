//! How a connector fails.

use crate::component::ConnectorComponent;
use vstd::prelude::*;

verus! {

/// Why a Trino connection pool could not be opened. `S` is what the pool says
/// of any failure but a failed authentication.
#[derive(Debug)]
pub enum TrinoError<S> {
    /// Trino did not accept the user name and the password.
    AuthenticationFailedError,
    /// Anything else.
    Other(S),
}

/// Why a data connector could not do its work. `S` is the error that it rests
/// on.
pub enum DataConnectorError<S> {
    /// The source did not accept the user name and the password.
    UnableToConnectInvalidUsernameOrPassword {
        dataconnector: String,
        connector_component: ConnectorComponent,
    },
    /// The source could not be reached for another reason.
    UnableToConnectInternal {
        dataconnector: String,
        connector_component: ConnectorComponent,
        source: S,
    },
    /// The source gave no provider to read the component's table from.
    UnableToGetReadProvider {
        dataconnector: String,
        connector_component: ConnectorComponent,
        source: S,
    },
}

/// A `DataConnectorError` with the connector's name as its characters.
pub enum DataConnectorErrorView<S> {
    UnableToConnectInvalidUsernameOrPassword {
        dataconnector: Seq<char>,
        connector_component: ConnectorComponent,
    },
    UnableToConnectInternal {
        dataconnector: Seq<char>,
        connector_component: ConnectorComponent,
        source: S,
    },
    UnableToGetReadProvider {
        dataconnector: Seq<char>,
        connector_component: ConnectorComponent,
        source: S,
    },
}

impl<S> View for DataConnectorError<S> {
    type V = DataConnectorErrorView<S>;

    open spec fn view(&self) -> DataConnectorErrorView<S> {
        match *self {
            DataConnectorError::UnableToConnectInvalidUsernameOrPassword {
                dataconnector,
                connector_component,
            } => DataConnectorErrorView::UnableToConnectInvalidUsernameOrPassword {
                dataconnector: dataconnector@,
                connector_component,
            },
            DataConnectorError::UnableToConnectInternal {
                dataconnector,
                connector_component,
                source,
            } => DataConnectorErrorView::UnableToConnectInternal {
                dataconnector: dataconnector@,
                connector_component,
                source,
            },
            DataConnectorError::UnableToGetReadProvider {
                dataconnector,
                connector_component,
                source,
            } => DataConnectorErrorView::UnableToGetReadProvider {
                dataconnector: dataconnector@,
                connector_component,
                source,
            },
        }
    }
}

impl<S> DataConnectorErrorView<S> {
    /// The name of the connector that failed.
    pub open spec fn dataconnector(self) -> Seq<char> {
        match self {
            DataConnectorErrorView::UnableToConnectInvalidUsernameOrPassword {
                dataconnector,
                ..
            } => dataconnector,
            DataConnectorErrorView::UnableToConnectInternal { dataconnector, .. } => dataconnector,
            DataConnectorErrorView::UnableToGetReadProvider { dataconnector, .. } => dataconnector,
        }
    }

    /// The component that the connector failed for.
    pub open spec fn connector_component(self) -> ConnectorComponent {
        match self {
            DataConnectorErrorView::UnableToConnectInvalidUsernameOrPassword {
                connector_component,
                ..
            } => connector_component,
            DataConnectorErrorView::UnableToConnectInternal { connector_component, .. } => {
                connector_component
            },
            DataConnectorErrorView::UnableToGetReadProvider { connector_component, .. } => {
                connector_component
            },
        }
    }
}

/// A result whose error is seen as its view.
pub open spec fn result_view<T, S>(
    result: Result<T, DataConnectorError<S>>,
) -> Result<T, DataConnectorErrorView<S>> {
    match result {
        Ok(value) => Ok(value),
        Err(error) => Err(error@),
    }
}

} // verus!
