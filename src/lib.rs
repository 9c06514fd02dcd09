//! The dispatch core of a native game-server plugin: a table of functions
//! registered by name at load time, a codec between native values and the
//! tagged wire values the host exchanges, and the entry point that decodes a
//! call's arguments, runs the function and encodes its result.
pub mod dispatcher;
pub mod error;
pub mod functions;
pub mod registry;
pub mod wire;
