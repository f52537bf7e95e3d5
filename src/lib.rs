//! Schema compiler and query-fragment templating for records stored in a
//! property-graph database addressed through a pattern-matching query language.
//!
//! A record shape is described by an [`EntityDecl`]: an ordered list of typed,
//! annotated fields plus entity-level naming overrides. [`compile`] turns it into
//! an [`EntitySchema`] (all fields, with identity and timestamp roles resolved)
//! and its identifier restriction. Schemas render object patterns and field
//! lists for each [`StampMode`], and compose whole statements whose parameter
//! bindings come from [`Record`] values through the numeric/temporal taxonomy.
pub mod builder;
pub mod error;
pub mod format;
pub mod query;
pub mod record;
pub mod render;
pub mod schema;
pub mod stamps;
pub mod values;

pub use builder::Builder;
pub use error::{Error, ErrorView};
pub use format::{format_param, format_query_fields, format_query_obj};
pub use query::{
    create_node, create_relation, delete_node, delete_relation, delete_relation_between,
    delete_relation_from, read_node, read_relation, read_relation_between, read_relation_from,
    update_node, update_relation, update_relation_between, update_relation_from, RelationBound,
    Statement,
};
pub use record::Record;
pub use schema::{
    compile, EntityDecl, EntitySchema, EntityType, FieldDecl, FieldSchema, SchemaError, StampFields,
};
pub use stamps::{StampMode, StampType, Stamps};
pub use values::{
    bind_number, encode_field, narrow_number, number_kind_of, read_field, FieldType, FieldValue,
    Kind, Num, Number, Scalar, Timestamp, Value,
};
