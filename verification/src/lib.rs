//! The rules behind the image trainer's desktop application: how Python is found and run, what its
//! scripts are given and answer, how the language-model daemon is kept, and how the companion app
//! is paired. Reading, writing and starting processes is left to the application.

pub mod clients;
pub mod commands;
pub mod daemon;
pub mod json;
pub mod launch;
pub mod messages;
pub mod metrics;
pub mod model;
pub mod pairing;
pub mod python;
pub mod runs;
pub mod status;
pub mod text;
pub mod updates;
