//! Data model of the graph datastore's fuzzing operations, with the checks that
//! decide which drawn values form valid identifiers, timestamps and floats,
//! and the plugin interface's version record.
mod error;
mod finite_float;
mod identifier;
mod json;
mod model;
mod timestamp;
mod version;
mod vertex_id;

pub use error::{ArbitraryError, ValidationError};
pub use finite_float::{
    finite_bits, finite_bits_equal, law_finite_bits, law_finite_bits_equal, law_finite_float_eq,
    FiniteFloat, EXPONENT_MASK, MAGNITUDE_MASK,
};
pub use identifier::{identifier_valid, Identifier, MAX_IDENTIFIER_BYTES};
pub use json::{
    json_eq, keys_distinct, law_json_eq_array, law_json_eq_float, law_json_eq_integers,
    law_json_eq_null_bool, law_json_eq_object, law_json_eq_same_kind, law_json_eq_string,
    law_lookup, lemma_distinct_members_are_the_map, lemma_object_map_keys,
    lemma_object_map_last_entry_wins, lookup, members_in, number_eq, object_eq, object_map,
    seq_eq, Json, JsonNumber, JsonObject,
};
pub use model::{
    law_same_edge_query, law_same_vertex_query, same_edge_query, same_vertex_query,
    BulkInsertItem, Edge, EdgeDirection, EdgeKey, EdgeProperties, EdgeProperty, EdgePropertyQuery,
    EdgeQuery, NamedProperty, Op, PipeEdgeQuery, PipePropertyPresenceEdgeQuery,
    PipePropertyPresenceVertexQuery, PipePropertyValueEdgeQuery, PipePropertyValueVertexQuery,
    PipeVertexQuery, PropertyPresenceEdgeQuery, PropertyPresenceVertexQuery, PropertyValueEdgeQuery,
    PropertyValueVertexQuery, RangeVertexQuery, SpecificEdgeQuery, SpecificVertexQuery, Vertex,
    VertexProperties, VertexProperty, VertexPropertyQuery, VertexQuery,
};
pub use timestamp::{
    naive_at_timestamp, timestamp_in_range, Timestamp, MAX_TIMESTAMP_SECS, MIN_TIMESTAMP_SECS,
};
pub use version::{
    all_digits, decimal, decimal_value, digit_char, indradb_version_info, interface_version,
    law_decimal, law_digit_char, version_text, VersionInfo,
};
pub use vertex_id::{uuid_of_u128, VertexId};
