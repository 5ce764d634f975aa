//! Packages a local application into a minimal container image: parses the
//! command line, reads the project descriptor for the binary name, renders a
//! two-stage container build definition, and plans the engine invocations
//! that build and run the resulting image.

pub mod docker;
pub mod dockerfile;
pub mod metadata;
pub mod shell;
pub mod text;
