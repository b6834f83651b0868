//! Generation of read accessors, of a fluent companion type and of a
//! validating constructor from the declaration of a record type.
//!
//! A declaration (`schema`) is read for its directives (`directive`) and for
//! the shapes of its field types (`shape`). From these come the accessors
//! (`accessor`), the companion type with its setters (`companion`) and the
//! validating constructor (`validator`); `builder` puts them together and
//! writes them out as text. `instance` is a model of the generated code at
//! work, and `laws` states what holds of all of it.

pub mod accessor;
pub mod builder;
pub mod companion;
pub mod directive;
pub mod error;
pub mod instance;
pub mod laws;
pub mod schema;
pub mod shape;
pub mod text;
pub mod validator;
