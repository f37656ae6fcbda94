//! A declarative form-construction and validation engine.
//!
//! A typed data model is bound to a set of field descriptors (name, label,
//! attribute binding, raw-value parser, validation rules, layout styles).
//! A builder assembles those descriptors into an immutable form schema, a
//! form engine binds the schema to a live model instance and drives the
//! edit / validate / submit cycle, and a round-trip adapter re-runs the
//! same validation on the receiving side before producing a result.

pub mod adapter;
pub mod engine;
pub mod form_def;
pub mod model;
pub mod schema;
pub mod text;
pub mod validation;
