//! A typed client layer for a graph-query database extension: it decodes the
//! extension's compact reply format into a typed graph value model, converts
//! decoded values into caller-chosen target shapes, assembles reply envelopes
//! (header, rows, execution statistics), and renders parameterized queries
//! into the textual command the server expects.
pub mod convert;
pub mod decode;
pub mod errors;
pub mod helpers;
pub mod query;
pub mod response;
pub mod text;
pub mod value;
pub mod wire;

pub use convert::from_graph_value;
pub use convert::FromGraphValue;
pub use convert::PropertyAccess;
pub use decode::convert_to_graphvalue;
pub use decode::parse_properties;
pub use errors::GraphError;
pub use errors::TargetKind;
pub use errors::WireKind;
pub use helpers::create_rediserror;
pub use helpers::first_column;
pub use query::GraphQuery;
pub use query::Parameter;
pub use response::GraphResponse;
pub use response::GraphStatistic;
pub use value::DoubleLiteral;
pub use value::GeoPoint;
pub use value::GraphMap;
pub use value::GraphPath;
pub use value::GraphValue;
pub use value::Node;
pub use value::PropertyMap;
pub use value::Relationship;
pub use wire::WireValue;
