//! Decision logic of a bridge that runs coding-agent conversations inside Slack threads.
//!
//! The functions here take and return plain values. Reading the environment, the file
//! system and the network is left to the program around the library.

pub mod clock;
pub mod config;
pub mod conversation;
pub mod events;
pub mod json;
pub mod names;
pub mod paths;
pub mod post;
pub mod prompt;
pub mod reply;
pub mod response;
pub mod signature;
pub mod steps;
pub mod text;
pub mod thread;
pub mod tools;
pub mod turn;
