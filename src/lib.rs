//! Request and response handling for a GitLab Duo editor extension: the
//! slash commands that send text or a file to the Duo chat endpoint, the
//! settings they read, and the command that starts the language server.

pub mod duo;
pub mod extension;
pub mod json;
pub mod slash;
pub mod text;
