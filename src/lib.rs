//! Assembly of a static Python runtime library for embedding in a native
//! executable: the built-in extension table, the platform naming rules, the
//! compiler flags of both toolchain passes and the ordered linker directives.

pub mod config_c;
pub mod distribution_resource;
pub mod libpython;
pub mod platform;
pub mod text;
