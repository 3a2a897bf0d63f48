//! The Trino data connector: which parameters it takes, what it asks of a
//! Trino connection pool and of a Trino table factory, and how it reports
//! what they answer.
//!
//! Opening a connection pool and building a table provider are asynchronous
//! network operations, so each of them is split in two: one function says
//! what to ask, and a second one takes the answer and says what it means.

pub mod component;
pub mod connector;
pub mod error;
pub mod laws;
pub mod parameters;
pub mod path_laws;
pub mod table_reference;

pub use component::{ConnectorComponent, ConnectorParams, Dataset};
pub use connector::{PendingConnector, PendingProvider, ProviderRequest, Trino, TrinoFactory};
pub use error::{DataConnectorError, TrinoError};
pub use parameters::{ParameterSpec, SecretMap, SecretString};
pub use table_reference::TableReference;
