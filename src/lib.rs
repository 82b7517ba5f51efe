//! Typed client model of a compiler-exploration service: the records it
//! returns and how they are decoded from JSON, the compile requests sent to
//! it, the endpoint addresses, and the positional merge of base compiler
//! records with their extended fields.

pub mod json;
pub mod request;
pub mod model;
pub mod merge;
pub mod endpoint;
pub mod decode;
pub mod body;

pub use request::{default_string, default_vec_string, Filters, Options, Source};
pub use model::{AdditionalFields, CompilationResponse, Compiler, Format, Language, Library};
