//! Version identification and comparison for the J-Link driver package:
//! the codec between vendor version strings and ordered integer codes,
//! the platform description that parameterises the search for an installed
//! driver, and the decision logic of the installed-version probe.

pub mod codec;
pub mod codec_laws;
pub mod command;
pub mod decimal;
pub mod error;
pub mod probe;
pub mod probe_laws;
pub mod system;
pub mod system_laws;
pub mod text;
pub mod update;
