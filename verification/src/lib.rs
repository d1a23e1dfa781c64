//! Typestate builders for callables with positional and named parameters.
//!
//! Given the parameters of a callable, the names of its positional
//! parameters and the defaults of its named ones, this crate decides which
//! declarations the typestate builder of that callable consists of: a record
//! type, a builder type with one generic slot per field, a constructor, one
//! setter per field, and a build operation that exists only where every slot
//! holds a value. The declarations are plain data; writing them out as
//! source text is left to whoever uses them.
//!
//! - [`args`] reads the annotation of a callable, [`attrs`] the attributes
//!   that it passes on to what is generated.
//! - [`parse_fn`] classifies the parameters of a callable into fields.
//! - [`builder`] synthesizes the declarations of the builder.
//! - [`typestate`] says what they mean, and proves what follows.
//! - [`derive_builder`] and [`params`] do the same for a struct whose fields
//!   carry their defaults as attributes.
//! - [`call`] and [`sugar`] describe the call forms around the builder.
//! - [`base`] holds what every generated builder refers to.
//! - [`usage`], [`example_api`], [`example_consumer`] and [`examples`] hold
//!   builders written out by hand, and calls through them.

pub mod args;
pub mod attrs;
pub mod base;
pub mod builder;
pub mod call;
pub mod default;
pub mod derive_builder;
pub mod example_api;
pub mod example_consumer;
pub mod examples;
pub mod params;
pub mod parse_fn;
pub mod sugar;
pub mod ty;
pub mod typestate;
pub mod usage;
pub mod util;
