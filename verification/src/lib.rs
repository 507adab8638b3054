//! Discovery and classification of installed Python interpreters.
//!
//! The crate determines each interpreter's binary-compatibility identity
//! (version and ABI flags) and derives from it the platform-compatibility
//! tag and the filename suffix a compiled native extension must carry.

pub mod abi;
pub mod discover;
pub mod error;
pub mod interpreter;
pub mod metadata;
pub mod platform;
pub mod text;

pub use discover::ProbeOutcome;
pub use discover::ProbeReport;
pub use error::DiscoveryError;
pub use error::ErrorKind;
pub use interpreter::PythonInterpreter;
pub use metadata::HostFacts;
pub use metadata::InterpreterMetadata;
