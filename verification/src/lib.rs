//! A small object-relational mapping layer: typed attribute values and their
//! wire codec, a composable query and filter algebra, its compilation to
//! parameterised SQL, and the shaping of decoded rows into records.

pub mod adapter;
pub mod attr;
pub mod attribute;
pub mod codec;
pub mod model;
pub mod name_map;
pub mod query;
pub mod registry;
pub mod relationship;
pub mod serializer;
pub mod sql;
pub mod store;
pub mod text;
pub mod transform;
pub mod wire;
