//! The core of a schema-driven data service: typed values, the schema
//! meta-model, the decoder of request bodies, pipelines and the object
//! lifecycle.

pub mod action;
pub mod argument;
pub mod collections;
pub mod db_type;
pub mod decimal;
pub mod decoder;
pub mod decorators;
pub mod encoder;
pub mod error;
pub mod field;
pub mod field_builder;
pub mod graph;
pub mod json;
pub mod model;
pub mod object;
pub mod order;
pub mod modifiers;
pub mod parse;
pub mod path;
pub mod pipeline;
pub mod text;
pub mod value;
