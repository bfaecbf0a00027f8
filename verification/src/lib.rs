//! Verified core of the Zero Gesture mouse-gesture engine.
//!
//! - The Engine control protocol: messages (`message`), their byte layout
//!   (`wire`, proved to round-trip in `codec_laws`), the reading cursor and
//!   codec (`cursor`, `codec`), framing (`frame`), the client's reading of
//!   answers (`control`), the server's connection state machine and answers
//!   (`server`), and the endpoint's safety checks (`endpoint`).
//! - The input path: the portable input vocabulary (`input`), bounded work
//!   lanes (`lane`), the native owner's queues (`owner`), the macOS event
//!   tap (`tap`), Win32 input mapping (`win32`), window-context resolution
//!   (`context`), application matching (`app_match`) and gesture binding
//!   resolution (`bindings`).
//! - Process plumbing decisions: log level (`log_level`), worker runtime
//!   lifecycle (`runtime`) and the configuration directory (`config_dir`).
pub mod text;
pub mod message;
pub mod wire;
pub mod codec_laws;
pub mod cursor;
pub mod codec;
pub mod frame;
pub mod control;
pub mod server;
pub mod endpoint;
pub mod input;
pub mod lane;
pub mod owner;
pub mod tap;
pub mod win32;
pub mod context;
pub mod app_match;
pub mod bindings;
pub mod log_level;
pub mod runtime;
pub mod config_dir;
