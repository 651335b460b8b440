//! A configuration engine that resolves one fully populated configuration
//! from compiled-in defaults, an optional structured file, environment
//! variables and command-line arguments.

mod error;
mod field;
mod file;
mod loader;
mod numeric;
mod partial;
mod sources;

pub use error::LoadError;
pub use field::{FieldDescriptor, FieldKind, Scalar, Value};
pub use file::{from_file, FileContents, FileEntry, FileValue};
pub use loader::{command_line, config_path, load, ConfigLoader};
pub use numeric::{parse_unsigned, parse_value};
pub use partial::{
    finalize, merge_associative, resolve_identity, same_value, Configuration, PartialConfig,
};
pub use sources::{check_table, defaults, env_var_name, from_env};
