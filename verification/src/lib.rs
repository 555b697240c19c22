//! The core of a filtered console logger: which messages reach the console,
//! and what each console line looks like.

pub mod level;
pub mod logger;
pub mod sample;
pub mod targets;
pub mod text;
