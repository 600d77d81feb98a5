//! Form editing components derived from the shape of a data type.
//!
//! A schema, the description of a record or of a tagged union, is turned
//! into a plan: the names of the artifacts of its form, and what the form
//! holds for each field and variant. Plans are entered in a registry, so
//! that later schemas can nest earlier ones. A form is the editing state of
//! a plan: it starts fresh, takes messages, shows itself as a tree of
//! fragments, and hands over the complete value once every field has one.

pub mod buffer;
pub mod de_enum;
pub mod de_struct;
pub mod de_unit_enum;
pub mod dispatch;
pub mod form;
pub mod form_field;
pub mod fragment;
pub mod laws;
pub mod message;
pub mod naming;
pub mod plan;
pub mod registry;
pub mod render;
pub mod scalar;
pub mod schema;
pub mod state;
pub mod style;
pub mod typing;
pub mod value;

pub use style::Style;
