//! Calls native functions from an embedded scripting engine: the values that
//! cross the boundary, the uniform adapter around a native body, the check of
//! an import declaration, the registry of imports and the glue source that
//! exposes them to scripts.

pub mod adapter;
pub mod glue;
pub mod laws;
pub mod runtime;
pub mod text;
pub mod value;
pub mod transform;

pub use adapter::{create_sync_fn, ImportedFn};
pub use runtime::{ReadyRuntime, Runtime};
pub use transform::import_fn;
pub use value::{Error, ErrorKind, Value};
