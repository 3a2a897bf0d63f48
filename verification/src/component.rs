//! The components that a connector is made for.

use crate::parameters::SecretMap;
use datafusion_common::arrow::datatypes::Schema;
use std::sync::Arc;
use vstd::prelude::*;

verus! {

/// The schema of a table, as Arrow describes it. A connector hands it on and
/// reads nothing of it.
#[verifier::external_type_specification]
#[verifier::external_body]
pub struct ExSchema(Schema);

/// A dataset that a connector reads.
pub struct Dataset {
    /// The name that the dataset goes by.
    pub name: String,
    /// What the dataset is called at its source.
    pub path: String,
    /// The schema that the dataset was declared with, if any.
    pub schema: Option<Arc<Schema>>,
}

impl Clone for Dataset {
    fn clone(&self) -> (dataset: Self)
        ensures
            dataset == *self,
    {
        Dataset {
            name: self.name.clone(),
            path: self.path.clone(),
            schema: match &self.schema {
                Some(schema) => Some(schema.clone()),
                None => None,
            },
        }
    }
}

/// A component that a connector is made for, or fails for.
pub enum ConnectorComponent {
    Dataset(Arc<Dataset>),
}

impl From<&Dataset> for ConnectorComponent {
    fn from(dataset: &Dataset) -> (component: Self) {
        ConnectorComponent::Dataset(Arc::new(dataset.clone()))
    }
}

impl vstd::std_specs::convert::FromSpecImpl<&Dataset> for ConnectorComponent {
    open spec fn obeys_from_spec() -> bool {
        true
    }

    open spec fn from_spec(dataset: &Dataset) -> Self {
        ConnectorComponent::Dataset(Arc::new(*dataset))
    }
}

/// What a connector is made from.
pub struct ConnectorParams {
    /// The values of the connector's parameters, by the parameters' names.
    pub parameters: SecretMap,
    /// The component that the connector is to serve.
    pub component: ConnectorComponent,
}

} // verus!
