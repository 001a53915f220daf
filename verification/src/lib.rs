//! A tool-registration and request-dispatch core for a stdio tool server.
//!
//! Tools are declared by a schema (name, description, parameters, required
//! parameter names) and registered, once, into an immutable registry. An
//! incoming call names a tool and carries an untyped argument map; dispatch
//! looks the tool up, decodes the arguments against its schema (substituting
//! declared defaults, then enforcing required fields, declared types and
//! enumerated values), runs the tool's handler, and maps every outcome,
//! success or failure, into exactly one structured response.

pub mod calendar;
pub mod decode;
pub mod dispatch;
pub mod http;
pub mod join;
pub mod registry;
pub mod schema;
pub mod tasks;
pub mod text;
pub mod value;

pub use value::ArgValue;
pub use value::Val;
